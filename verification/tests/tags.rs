use dynamic_tp_jvmti::agent::Agent;
use dynamic_tp_jvmti::tags::TagAllocator;
use dynamic_tp_jvmti::vm::{ClassRef, Handle};

#[test]
fn tags_count_up_from_zero() {
    let mut tags = TagAllocator::new();
    assert_eq!(tags.issued(), 0);
    assert_eq!(tags.get_tag(), 0);
    assert_eq!(tags.get_tag(), 1);
    assert_eq!(tags.get_tag(), 2);
    assert_eq!(tags.issued(), 3);
}

#[test]
fn many_tags_never_repeat() {
    let mut tags = TagAllocator::new();
    let mut last = tags.get_tag();
    for _ in 0..10_000 {
        let tag = tags.get_tag();
        assert!(tag > last);
        last = tag;
    }
    assert_eq!(last, 10_000);
}

#[test]
fn three_requests_for_one_class_walk_under_three_tags() {
    let mut agent = Agent::new();
    assert_eq!(agent.settle(Ok(Handle(0x10))), Ok(Handle(0x10)));
    let class = ClassRef(0x77);
    let first = agent.enumerate(class, 5).unwrap().tag;
    let second = agent.enumerate(class, 5).unwrap().tag;
    let third = agent.enumerate(class, 5).unwrap().tag;
    assert_eq!((first, second, third), (0, 1, 2));
    assert!(first < second && second < third);
    assert_eq!(agent.issued(), 3);
}

#[test]
fn a_request_without_an_environment_still_uses_up_a_tag() {
    let mut agent = Agent::new();
    assert!(agent.enumerate(ClassRef(1), 5).is_err());
    assert_eq!(agent.issued(), 1);
    agent.settle(Ok(Handle(0x10)));
    assert_eq!(agent.enumerate(ClassRef(1), 5).unwrap().tag, 1);
}
