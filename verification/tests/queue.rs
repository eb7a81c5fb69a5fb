use media_codec_opus::error::CodecError;
use media_codec_opus::queue::PendingQueue;

#[test]
fn empty_queue_reports_again_every_time() {
    let mut queue: PendingQueue<u32> = PendingQueue::with_capacity(2);
    assert_eq!(queue.pop(), Err(CodecError::Again));
    assert_eq!(queue.pop(), Err(CodecError::Again));
    assert!(queue.is_empty());
}

#[test]
fn queue_hands_out_each_entry_once_in_order() {
    let mut queue: PendingQueue<u32> = PendingQueue::with_capacity(2);
    queue.push(7);
    queue.push(9);
    queue.push(11);
    assert_eq!(queue.len(), 3);
    assert_eq!(queue.pop(), Ok(7));
    assert_eq!(queue.pop(), Ok(9));
    assert_eq!(queue.pop(), Ok(11));
    assert_eq!(queue.pop(), Err(CodecError::Again));
}
