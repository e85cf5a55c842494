use ci_monitor::numbers::TaskNumbers;
use ci_monitor::protocol::PipelineKey;
use ci_monitor::registry::Registry;

fn key(project: &str, merge_request: &str) -> PipelineKey {
    PipelineKey { project_id: project.to_string(), merge_request_id: merge_request.to_string() }
}

#[test]
fn what_was_inserted_is_removed() {
    let mut registry = Registry::new();
    assert_eq!(registry.insert(&key("p", "1"), 10), None);
    assert_eq!(registry.remove(&key("p", "1")), Some(10));
    assert_eq!(registry.remove(&key("p", "1")), None);
}

#[test]
fn later_task_takes_the_place_of_the_earlier() {
    let mut registry = Registry::new();
    registry.insert(&key("p", "1"), 10);
    assert_eq!(registry.insert(&key("p", "1"), 11), Some(10));
    assert_eq!(registry.remove(&key("p", "1")), Some(11));
}

#[test]
fn pipelines_are_kept_apart() {
    let mut registry = Registry::new();
    registry.insert(&key("a-b", "c"), 1);
    registry.insert(&key("a", "b-c"), 2);
    registry.insert(&key("c", "a-b"), 3);
    assert_eq!(registry.remove(&key("a", "b-c")), Some(2));
    assert_eq!(registry.remove(&key("a-b", "c")), Some(1));
    assert_eq!(registry.remove(&key("c", "a-b")), Some(3));
}

#[test]
fn drain_takes_out_every_task_once() {
    let mut registry = Registry::new();
    for n in 0..50u64 {
        registry.insert(&key("p", &n.to_string()), n / 2);
    }
    let mut tasks = registry.drain();
    tasks.sort();
    let expected: Vec<u64> = (0..50u64).map(|n| n / 2).collect();
    assert_eq!(tasks, expected);
    assert_eq!(registry.drain(), Vec::<u64>::new());
    assert_eq!(registry.remove(&key("p", "3")), None);
}

#[test]
fn each_number_is_issued_once() {
    let mut numbers = TaskNumbers::new();
    for n in 0..100u64 {
        assert_eq!(numbers.issue(), Some(n));
    }
}
