use aibot_rust_sdk::reply_queue::ReplyQueues;
use aibot_rust_sdk::AiBotError;

#[test]
fn replies_leave_in_queue_order() {
    let mut q: ReplyQueues<u32> = ReplyQueues::new(100);
    assert_eq!(q.enqueue("a", 1), Ok(true));
    assert_eq!(q.enqueue("a", 2), Ok(false));
    assert_eq!(q.enqueue("b", 10), Ok(true));
    assert!(q.is_active("a"));
    assert_eq!(q.take_next("a"), Some(1));
    assert_eq!(q.take_next("b"), Some(10));
    assert_eq!(q.take_next("a"), Some(2));
    assert_eq!(q.take_next("a"), None);
    assert!(!q.is_active("a"));
    assert!(q.is_active("b"));
    assert_eq!(q.take_next("b"), None);
    assert!(!q.is_active("b"));
    assert_eq!(q.take_next("zzz"), None);
}

#[test]
fn queue_full_error() {
    let mut q: ReplyQueues<usize> = ReplyQueues::new(100);
    for i in 0..100 {
        assert!(q.enqueue("req", i).is_ok());
    }
    assert_eq!(
        q.enqueue("req", 100),
        Err(AiBotError::Internal("Reply queue for reqId req exceeds max size (100)".to_string()))
    );
    assert_eq!(q.take_next("req"), Some(0));
    assert_eq!(q.enqueue("req", 100), Ok(false));
}

#[test]
fn clear_hands_back_everything() {
    let mut q: ReplyQueues<&str> = ReplyQueues::new(3);
    q.enqueue("x", "x1").unwrap();
    q.enqueue("y", "y1").unwrap();
    q.enqueue("x", "x2").unwrap();
    assert_eq!(q.clear(), vec!["x1", "x2", "y1"]);
    assert!(!q.is_active("x"));
    assert_eq!(q.take_next("y"), None);
    assert_eq!(q.max_size(), 3);
}

#[test]
fn many_replies_leave_in_queue_order() {
    let mut q: ReplyQueues<u32> = ReplyQueues::new(100);
    let started: Vec<bool> = (0..7u32).map(|i| q.enqueue("r", i).unwrap()).collect();
    assert_eq!(started, vec![true, false, false, false, false, false, false]);
    let got: Vec<Option<u32>> = (0..8).map(|_| q.take_next("r")).collect();
    assert_eq!(got, vec![Some(0), Some(1), Some(2), Some(3), Some(4), Some(5), Some(6), None]);
    assert!(!q.is_active("r"));
}
