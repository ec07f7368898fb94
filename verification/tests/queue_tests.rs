use swayped::commands::InputCommand;
use swayped::pointer::pointer_handle_scroll_event;
use swayped::{CommandQueue, COMMAND_QUEUE_CAPACITY};

#[test]
fn test_command_desc_recv() {
    // What the producer queues, the router receives unchanged.
    let mut queue = CommandQueue::new();

    let cmd = InputCommand::SwipeUp(3);
    let res = queue.try_push(cmd);
    assert_eq!(res, true);

    let cmd = queue.pop().unwrap();
    assert_eq!(cmd, InputCommand::SwipeUp(3));
}

#[test]
fn test_queue_backpressure_at_capacity() {
    // The producer is refused exactly at eight pending commands, and is
    // accepted again as soon as the router drains one.
    let mut queue = CommandQueue::new();
    for n in 0..COMMAND_QUEUE_CAPACITY {
        assert!(queue.try_push(InputCommand::SwipeUp(n as i32)));
    }
    assert_eq!(queue.len(), 8);
    assert!(!queue.try_push(InputCommand::ScrollLeft));
    assert_eq!(queue.len(), 8);

    assert_eq!(queue.pop(), Some(InputCommand::SwipeUp(0)));
    assert!(queue.try_push(InputCommand::ScrollLeft));
    assert_eq!(queue.len(), 8);
}

#[test]
fn test_queue_keeps_delivery_order() {
    let mut queue = CommandQueue::new();
    queue.try_push(InputCommand::SwipeLeft(3));
    queue.try_push(InputCommand::ScrollRight);
    queue.try_push(InputCommand::SwipeDown(4));
    assert_eq!(queue.pop(), Some(InputCommand::SwipeLeft(3)));
    assert_eq!(queue.pop(), Some(InputCommand::ScrollRight));
    assert_eq!(queue.pop(), Some(InputCommand::SwipeDown(4)));
    assert_eq!(queue.pop(), None);
}

#[test]
fn test_pointer_scroll_decoding() {
    assert_eq!(pointer_handle_scroll_event(120), Some(InputCommand::ScrollRight));
    assert_eq!(pointer_handle_scroll_event(-120), Some(InputCommand::ScrollLeft));
    assert_eq!(pointer_handle_scroll_event(1), Some(InputCommand::ScrollRight));
    assert_eq!(pointer_handle_scroll_event(0), None);
}
