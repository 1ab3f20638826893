use pixel_pipeline::pixel::DrawRequest;
use pixel_pipeline::pixel::Rgba8;
use pixel_pipeline::queue::ChannelQueue;

fn req(x: u32) -> DrawRequest {
    DrawRequest { x, y: 0, color: Rgba8 { r: 1, g: 2, b: 3, a: 4 } }
}

#[test]
fn queue_is_first_in_first_out() {
    let mut q = ChannelQueue::new(4);
    assert!(q.is_empty());
    assert!(q.try_send(req(1)));
    assert!(q.try_send(req(2)));
    assert!(q.try_send(req(3)));
    assert_eq!(q.len(), 3);
    assert_eq!(q.try_recv().map(|r| r.x), Some(1));
    assert_eq!(q.try_recv().map(|r| r.x), Some(2));
    assert_eq!(q.try_recv().map(|r| r.x), Some(3));
    assert_eq!(q.try_recv(), None);
}

#[test]
fn queue_refuses_beyond_capacity() {
    let mut q = ChannelQueue::new(2);
    assert!(q.try_send(req(1)));
    assert!(q.try_send(req(2)));
    assert!(!q.try_send(req(3)));
    assert_eq!(q.len(), 2);
    // room reopens once the consumer drains
    assert_eq!(q.try_recv().map(|r| r.x), Some(1));
    assert!(q.try_send(req(3)));
    assert_eq!(q.capacity(), 2);
}

#[test]
fn purge_discards_everything_and_reports_the_count() {
    let mut q = ChannelQueue::new(8);
    for i in 0..5 {
        assert!(q.try_send(req(i)));
    }
    assert_eq!(q.purge(), 5);
    assert!(q.is_empty());
    assert_eq!(q.purge(), 0);
}

#[test]
fn zero_capacity_queue_accepts_nothing() {
    let mut q = ChannelQueue::new(0);
    assert!(!q.try_send(req(1)));
    assert!(q.is_empty());
}
