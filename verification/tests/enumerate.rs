use dynamic_tp_jvmti::agent::Agent;
use dynamic_tp_jvmti::enumeration::{
    array_order, ArrayFill, ArrayRequest, GcRequest, IterationControl, LookupRequest, WalkRequest,
};
use dynamic_tp_jvmti::vm::{
    AgentError, ArrayRef, ClassRef, Handle, ObjectRef, HEAP_OBJECT_EITHER, ITERATION_ABORT,
    ITERATION_CONTINUE,
};

const FOO: ClassRef = ClassRef(0xf00);
const BAR: ClassRef = ClassRef(0xba5);
const ENV: Handle = Handle(0xe);

/// A heap that walks and looks up as a machine does. An object is known by
/// its index, and carries -1 until a walk marks it.
struct Heap {
    classes: Vec<ClassRef>,
    tags: Vec<i64>,
    walk_status: Option<u32>,
    lookup_status: Option<u32>,
    array: Option<ArrayRef>,
    callbacks: usize,
    walks: usize,
    lookups: usize,
    arrays: usize,
}

impl Heap {
    fn of(classes: &[ClassRef]) -> Heap {
        Heap {
            classes: classes.to_vec(),
            tags: vec![-1; classes.len()],
            walk_status: Some(0),
            lookup_status: Some(0),
            array: Some(ArrayRef(0xa)),
            callbacks: 0,
            walks: 0,
            lookups: 0,
            arrays: 0,
        }
    }

    fn with(foos: usize, bars: usize) -> Heap {
        let mut classes = Vec::new();
        for i in 0..foos.max(bars) {
            if i < bars {
                classes.push(BAR);
            }
            if i < foos {
                classes.push(FOO);
            }
        }
        Heap::of(&classes)
    }

    fn walk(&mut self, agent: &mut Agent, request: WalkRequest) -> Option<u32> {
        self.walks += 1;
        assert_eq!(request.env, ENV);
        assert_eq!(request.filter, 3);
        if self.walk_status != Some(0) {
            return self.walk_status;
        }
        for i in 0..self.classes.len() {
            if self.classes[i] == request.class {
                self.callbacks += 1;
                let control = agent.heap_object_callback(&mut self.tags[i], request.tag);
                if control.code() == 0 {
                    break;
                }
            }
        }
        self.walk_status
    }

    fn lookup(&mut self, request: LookupRequest) -> (Option<u32>, Vec<ObjectRef>) {
        self.lookups += 1;
        let mut found = Vec::new();
        if self.lookup_status == Some(0) {
            for i in 0..self.tags.len() {
                if self.tags[i] == request.tag {
                    found.push(ObjectRef(i));
                }
            }
        }
        (self.lookup_status, found)
    }

    fn new_array(&mut self, _request: &ArrayRequest) -> Option<ArrayRef> {
        self.arrays += 1;
        self.array
    }

    fn tagged(&self, tag: i64) -> usize {
        self.tags.iter().filter(|slot| **slot == tag).count()
    }
}

/// What the entry point does with the agent and the machine.
fn instances(
    agent: &mut Agent,
    heap: &mut Heap,
    class: ClassRef,
    limit: i32,
) -> Result<ArrayFill, AgentError> {
    let walk = agent.enumerate(class, limit)?;
    let status = heap.walk(agent, walk);
    let lookup = walk.answered(status)?;
    let (status, objects) = heap.lookup(lookup);
    let request = lookup.answered(status, objects)?;
    let array = heap.new_array(&request);
    request.answered(array)
}

fn ready() -> Agent {
    let mut agent = Agent::new();
    assert_eq!(agent.settle(Ok(ENV)), Ok(ENV));
    agent
}

#[test]
fn three_of_ten_instances() {
    let mut agent = ready();
    let mut heap = Heap::with(10, 6);
    let fill = instances(&mut agent, &mut heap, FOO, 3).unwrap();
    assert_eq!(fill.array, ArrayRef(0xa));
    assert_eq!(fill.elements.len(), 3);
    for (i, object) in fill.elements.iter().enumerate() {
        assert_eq!(heap.classes[object.0], FOO);
        assert!(!fill.elements[..i].contains(object));
    }
    assert_eq!(heap.callbacks, 3);
    assert_eq!(heap.tagged(0), 3);
    assert_eq!(heap.tagged(-1), 7 + 6);
    assert_eq!(agent.observed(), 3);
}

#[test]
fn no_instances_give_an_empty_array_not_a_failure() {
    let mut agent = ready();
    let mut heap = Heap::with(0, 4);
    let fill = instances(&mut agent, &mut heap, BAR, 5);
    assert!(fill.is_ok());
    let mut heap = Heap::with(4, 0);
    let fill = instances(&mut agent, &mut heap, BAR, 5).unwrap();
    assert_eq!(fill.elements, vec![]);
    assert_eq!(fill.array, ArrayRef(0xa));
    assert_eq!(heap.callbacks, 0);
    assert_eq!(heap.arrays, 1);
}

#[test]
fn a_limit_above_the_count_gives_every_instance() {
    let mut agent = ready();
    let mut heap = Heap::with(4, 2);
    let fill = instances(&mut agent, &mut heap, FOO, 9).unwrap();
    assert_eq!(fill.elements.len(), 4);
    assert_eq!(heap.callbacks, 4);
}

#[test]
fn a_limit_equal_to_the_count_gives_every_instance() {
    let mut agent = ready();
    let mut heap = Heap::with(4, 2);
    let fill = instances(&mut agent, &mut heap, FOO, 4).unwrap();
    assert_eq!(fill.elements.len(), 4);
    assert_eq!(heap.callbacks, 4);
}

#[test]
fn a_limit_of_one_gives_one_instance() {
    let mut agent = ready();
    let mut heap = Heap::with(4, 2);
    let fill = instances(&mut agent, &mut heap, FOO, 1).unwrap();
    assert_eq!(fill.elements, vec![ObjectRef(1)]);
    assert_eq!(heap.callbacks, 1);
}

#[test]
fn a_negative_limit_gives_every_instance() {
    let mut agent = ready();
    let mut heap = Heap::with(25, 3);
    let fill = instances(&mut agent, &mut heap, FOO, -1).unwrap();
    assert_eq!(fill.elements.len(), 25);
    assert_eq!(heap.callbacks, 25);
    let mut heap = Heap::with(0, 3);
    let fill = instances(&mut agent, &mut heap, FOO, i32::MIN).unwrap();
    assert_eq!(fill.elements.len(), 0);
}

#[test]
fn a_limit_of_zero_still_marks_the_first_instance() {
    let mut agent = ready();
    let mut heap = Heap::with(5, 0);
    let walk = agent.enumerate(FOO, 0).unwrap();
    let mut slot: i64 = -1;
    let control = agent.heap_object_callback(&mut slot, walk.tag);
    assert_eq!(slot, walk.tag);
    assert_eq!(control, IterationControl::Abort);
    assert_eq!(agent.observed(), 1);

    let fill = instances(&mut agent, &mut heap, FOO, 0).unwrap();
    assert_eq!(heap.callbacks, 1);
    assert_eq!(fill.elements, vec![ObjectRef(0)]);

    let mut empty = Heap::with(0, 5);
    let fill = instances(&mut agent, &mut empty, FOO, 0).unwrap();
    assert_eq!(empty.callbacks, 0);
    assert_eq!(fill.elements.len(), 0);
}

#[test]
fn a_failed_walk_gives_nothing() {
    let mut agent = ready();
    let mut heap = Heap::with(10, 0);
    heap.walk_status = Some(112);
    let result = instances(&mut agent, &mut heap, FOO, 3);
    assert_eq!(result, Err(AgentError::WalkFailed(Some(112))));
    assert_eq!(heap.lookups, 0);
    assert_eq!(heap.arrays, 0);
}

#[test]
fn a_machine_without_the_walk_entry_gives_nothing() {
    let mut agent = ready();
    let mut heap = Heap::with(10, 0);
    heap.walk_status = None;
    let result = instances(&mut agent, &mut heap, FOO, 3);
    assert_eq!(result, Err(AgentError::WalkFailed(None)));
    assert_eq!(heap.lookups, 0);
}

#[test]
fn a_failed_lookup_gives_nothing() {
    let mut agent = ready();
    let mut heap = Heap::with(10, 0);
    heap.lookup_status = Some(100);
    let result = instances(&mut agent, &mut heap, FOO, 3);
    assert_eq!(result, Err(AgentError::TagLookupFailed(Some(100))));
    assert_eq!(heap.callbacks, 3);
    assert_eq!(heap.arrays, 0);
    heap.lookup_status = None;
    let result = instances(&mut agent, &mut heap, FOO, 3);
    assert_eq!(result, Err(AgentError::TagLookupFailed(None)));
}

#[test]
fn a_missing_array_gives_nothing() {
    let mut agent = ready();
    let mut heap = Heap::with(10, 0);
    heap.array = None;
    let result = instances(&mut agent, &mut heap, FOO, 3);
    assert_eq!(result, Err(AgentError::ArrayAllocFailed));
    assert_eq!(heap.arrays, 1);
}

#[test]
fn without_an_environment_the_machine_is_not_asked() {
    let mut agent = Agent::new();
    let mut heap = Heap::with(10, 0);
    let result = instances(&mut agent, &mut heap, FOO, 3);
    assert_eq!(result, Err(AgentError::EnvUnavailable(None)));
    assert_eq!(heap.walks, 0);
    assert_eq!(agent.observed(), 0);

    let mut refused = Agent::new();
    refused.settle(Err(AgentError::CapabilityDenied(99)));
    let result = instances(&mut refused, &mut heap, FOO, 3);
    assert_eq!(result, Err(AgentError::CapabilityDenied(99)));
    assert_eq!(heap.walks, 0);
}

#[test]
fn each_request_finds_only_what_it_marked() {
    let mut agent = ready();
    let mut heap = Heap::with(6, 0);
    let first = instances(&mut agent, &mut heap, FOO, 4).unwrap();
    assert_eq!(first.elements.len(), 4);
    let second = instances(&mut agent, &mut heap, FOO, 2).unwrap();
    assert_eq!(second.elements.len(), 2);
    assert_eq!(heap.tagged(0), 2);
    assert_eq!(heap.tagged(1), 2);
    assert_eq!(heap.tagged(-1), 2);
}

#[test]
fn a_request_resets_the_count_of_the_one_before() {
    let mut agent = ready();
    let mut heap = Heap::with(6, 0);
    instances(&mut agent, &mut heap, FOO, 4).unwrap();
    assert_eq!(agent.observed(), 4);
    agent.enumerate(FOO, 2).unwrap();
    assert_eq!(agent.observed(), 0);
}

#[test]
fn the_walk_is_asked_for_with_the_class_the_tag_and_the_filter() {
    let mut agent = ready();
    assert_eq!(
        agent.enumerate(FOO, 3),
        Ok(WalkRequest { env: ENV, class: FOO, filter: 3, tag: 0 })
    );
    assert_eq!(
        agent.enumerate(BAR, -1),
        Ok(WalkRequest { env: ENV, class: BAR, filter: HEAP_OBJECT_EITHER, tag: 1 })
    );
}

#[test]
fn a_walk_reply_is_judged_by_its_status() {
    let walk = WalkRequest { env: ENV, class: FOO, filter: 3, tag: 8 };
    assert_eq!(walk.answered(Some(0)), Ok(LookupRequest { env: ENV, class: FOO, tag: 8 }));
    assert_eq!(walk.answered(Some(1)), Err(AgentError::WalkFailed(Some(1))));
    assert_eq!(walk.answered(None), Err(AgentError::WalkFailed(None)));
}

#[test]
fn a_lookup_reply_is_laid_out_last_first() {
    let lookup = LookupRequest { env: ENV, class: FOO, tag: 8 };
    let objects = vec![ObjectRef(10), ObjectRef(20), ObjectRef(30)];
    assert_eq!(
        lookup.answered(Some(0), objects.clone()),
        Ok(ArrayRequest {
            class: FOO,
            elements: vec![ObjectRef(30), ObjectRef(20), ObjectRef(10)]
        })
    );
    assert_eq!(
        lookup.answered(Some(5), objects),
        Err(AgentError::TagLookupFailed(Some(5)))
    );
    assert_eq!(lookup.answered(Some(0), vec![]), Ok(ArrayRequest { class: FOO, elements: vec![] }));
}

#[test]
fn an_array_reply_is_filled_whole_or_not_at_all() {
    let elements = vec![ObjectRef(3), ObjectRef(1)];
    let request = ArrayRequest { class: FOO, elements: elements.clone() };
    assert_eq!(
        request.answered(Some(ArrayRef(0x50))),
        Ok(ArrayFill { array: ArrayRef(0x50), elements: elements.clone() })
    );
    let request = ArrayRequest { class: FOO, elements };
    assert_eq!(request.answered(None), Err(AgentError::ArrayAllocFailed));
}

#[test]
fn array_order_reverses() {
    assert_eq!(array_order(vec![]), vec![]);
    assert_eq!(array_order(vec![ObjectRef(7)]), vec![ObjectRef(7)]);
    assert_eq!(
        array_order(vec![ObjectRef(1), ObjectRef(2), ObjectRef(2), ObjectRef(4)]),
        vec![ObjectRef(4), ObjectRef(2), ObjectRef(2), ObjectRef(1)]
    );
}

#[test]
fn the_callback_answers_in_the_numbers_of_the_interface() {
    assert_eq!(IterationControl::Continue.code(), 1);
    assert_eq!(IterationControl::Abort.code(), 0);
    assert_eq!(IterationControl::Continue.code(), ITERATION_CONTINUE);
    assert_eq!(IterationControl::Abort.code(), ITERATION_ABORT);
}

#[test]
fn the_callback_marks_counts_and_then_decides() {
    let mut agent = ready();
    let walk = agent.enumerate(FOO, 2).unwrap();
    let mut slots = [5i64, 6, 7];
    assert_eq!(agent.heap_object_callback(&mut slots[0], walk.tag), IterationControl::Continue);
    assert_eq!(agent.observed(), 1);
    assert_eq!(agent.heap_object_callback(&mut slots[1], walk.tag), IterationControl::Abort);
    assert_eq!(agent.observed(), 2);
    assert_eq!(slots, [0, 0, 7]);
}

#[test]
fn a_collection_before_any_negotiation_asks_nothing() {
    let agent = Agent::new();
    assert_eq!(agent.force_gc(), None);
    assert_eq!(agent.cached(), None);
    assert_eq!(agent.issued(), 0);
}

#[test]
fn a_collection_after_a_failed_negotiation_asks_nothing() {
    let mut agent = Agent::new();
    agent.settle(Err(AgentError::EnvUnavailable(Some(-2))));
    assert_eq!(agent.force_gc(), None);
}

#[test]
fn a_collection_is_asked_of_the_negotiated_environment() {
    let agent = ready();
    assert_eq!(agent.force_gc(), Some(GcRequest { env: ENV }));
}
