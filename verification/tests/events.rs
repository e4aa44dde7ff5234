use apca::events::FrameDecision;
use apca::events::EventStream;
use apca::events::Subscription;
use apca::events::drain_frames;
use apca::mock::DigitFeed;
use apca::mock::FeedError;

#[test]
fn three_frames_yield_three_events_in_order() {
    let mut sub: Subscription<DigitFeed> = Subscription::new();
    assert_eq!(sub.on_frame(&vec![b'1']), Some(Ok(1)));
    assert_eq!(sub.on_frame(&vec![b'2']), Some(Ok(2)));
    assert_eq!(sub.on_frame(&vec![b'3']), Some(Ok(3)));
    assert!(sub.is_live());
}

#[test]
fn a_batch_of_frames_drains_in_order() {
    let mut sub: Subscription<DigitFeed> = Subscription::new();
    let frames: Vec<Vec<u8>> = vec![vec![b'7'], Vec::new(), vec![b'0'], vec![b'9']];
    let out = drain_frames(&mut sub, &frames);
    assert_eq!(out, vec![Ok(7), Ok(0), Ok(9)]);
    assert!(sub.is_live());
}

#[test]
fn cancelling_stops_all_further_events() {
    let mut sub: Subscription<DigitFeed> = Subscription::new();
    assert_eq!(sub.on_frame(&vec![b'4']), Some(Ok(4)));
    sub.cancel();
    assert!(!sub.is_live());
    // Frames that were already in flight when the consumer cancelled are
    // discarded, not delivered.
    assert_eq!(sub.on_frame(&vec![b'5']), None);
    assert_eq!(sub.on_frame(&vec![b'6']), None);
}

#[test]
fn empty_frames_are_dropped_silently() {
    let mut sub: Subscription<DigitFeed> = Subscription::new();
    assert_eq!(sub.on_frame(&Vec::new()), None);
    assert!(sub.is_live());
}

#[test]
fn an_unrecognized_frame_surfaces_as_a_stream_error() {
    let mut sub: Subscription<DigitFeed> = Subscription::new();
    assert_eq!(sub.on_frame(&vec![b'x', b'y']), Some(Err(FeedError::BadFrame)));
    // A decode failure does not end the stream.
    assert!(sub.is_live());
    assert_eq!(sub.on_frame(&vec![b'8']), Some(Ok(8)));
}

#[test]
fn a_transport_failure_terminates_with_one_final_error() {
    let mut sub: Subscription<DigitFeed> = Subscription::new();
    assert_eq!(sub.on_frame(&vec![b'2']), Some(Ok(2)));
    assert_eq!(sub.on_disconnect(), Some(FeedError::Disconnected));
    assert!(!sub.is_live());
    assert_eq!(sub.on_disconnect(), None);
    assert_eq!(sub.on_frame(&vec![b'3']), None);
}

#[test]
fn the_decode_policy_is_total() {
    let frames: Vec<Vec<u8>> = vec![
        Vec::new(),
        vec![b'0'],
        vec![b'9'],
        vec![b'a'],
        vec![0x00],
        vec![b'1', b'2'],
    ];
    for frame in &frames {
        match DigitFeed::decode(frame) {
            FrameDecision::Event(d) => assert!(d <= 9),
            FrameDecision::Ignore => assert!(frame.is_empty()),
            FrameDecision::Failure(e) => assert_eq!(e, FeedError::BadFrame),
        }
    }
}
