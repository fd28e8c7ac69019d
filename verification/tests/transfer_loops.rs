use multicast_chat::frame::{
    concat_bytes, prefix_for, receive_step, transmit_step, ReceiveAction, TransmitAction,
};
use multicast_chat::transfer::{receive_session, transmit_session};
use multicast_chat::MAX_DATAGRAM;

#[test]
fn prefix_appends_colon_space() {
    assert_eq!(prefix_for(&b"alice".to_vec()), b"alice: ".to_vec());
    assert_eq!(prefix_for(&Vec::new()), b": ".to_vec());
    assert_eq!(prefix_for(&b"Anonymous".to_vec()), b"Anonymous: ".to_vec());
}

#[test]
fn concat_joins_byte_vectors() {
    assert_eq!(
        concat_bytes(&b"ab".to_vec(), &b"cd".to_vec()),
        b"abcd".to_vec()
    );
    assert_eq!(concat_bytes(&Vec::new(), &Vec::new()), Vec::<u8>::new());
}

#[test]
fn transmit_step_sends_one_prefixed_datagram() {
    let prefix = prefix_for(&b"alice".to_vec());
    let action = transmit_step(&prefix, &b"hello".to_vec());
    assert_eq!(action, TransmitAction::Send(b"alice: hello".to_vec()));
}

#[test]
fn transmit_step_stops_on_empty_chunk() {
    let prefix = prefix_for(&b"alice".to_vec());
    assert_eq!(transmit_step(&prefix, &Vec::new()), TransmitAction::Stop);
}

#[test]
fn transmit_step_fills_largest_datagram() {
    let prefix = prefix_for(&b"alice".to_vec());
    let chunk = vec![120u8; MAX_DATAGRAM - prefix.len()];
    match transmit_step(&prefix, &chunk) {
        TransmitAction::Send(frame) => {
            assert_eq!(frame.len(), MAX_DATAGRAM);
            assert_eq!(&frame[..prefix.len()], &prefix[..]);
            assert_eq!(&frame[prefix.len()..], &chunk[..]);
        }
        TransmitAction::Stop => panic!("a non-empty chunk must be sent"),
    }
}

#[test]
fn receive_step_writes_datagram_verbatim() {
    let action = receive_step(b"alice: hello".to_vec());
    assert_eq!(action, ReceiveAction::Write(b"alice: hello".to_vec()));
}

#[test]
fn receive_step_stops_on_empty_datagram() {
    assert_eq!(receive_step(Vec::new()), ReceiveAction::Stop);
}

#[test]
fn transmit_session_stops_at_first_empty_read() {
    let prefix = prefix_for(&b"alice".to_vec());
    let chunks = vec![
        b"hello".to_vec(),
        b"world".to_vec(),
        Vec::new(),
        b"after end of input".to_vec(),
    ];
    let sent = transmit_session(&prefix, &chunks);
    assert_eq!(
        sent,
        vec![b"alice: hello".to_vec(), b"alice: world".to_vec()]
    );
}

#[test]
fn transmit_session_without_input_sends_nothing() {
    let prefix = prefix_for(&b"alice".to_vec());
    assert_eq!(transmit_session(&prefix, &Vec::new()), Vec::<Vec<u8>>::new());
}

#[test]
fn receive_session_stops_at_first_empty_datagram() {
    let datagrams = vec![
        b"bob: hi".to_vec(),
        b"alice: hello".to_vec(),
        Vec::new(),
        b"bob: lost".to_vec(),
    ];
    let written = receive_session(&datagrams);
    assert_eq!(written, vec![b"bob: hi".to_vec(), b"alice: hello".to_vec()]);
}

#[test]
fn round_trip_preserves_bytes() {
    let prefix = prefix_for(&b"alice".to_vec());
    let sent = match transmit_step(&prefix, &b"hello".to_vec()) {
        TransmitAction::Send(frame) => frame,
        TransmitAction::Stop => panic!("a non-empty chunk must be sent"),
    };
    match receive_step(sent.clone()) {
        ReceiveAction::Write(written) => assert_eq!(written, b"alice: hello".to_vec()),
        ReceiveAction::Stop => panic!("a non-empty datagram must be written"),
    }
    assert_eq!(sent, b"alice: hello".to_vec());
}

#[test]
fn round_trip_preserves_whole_session() {
    let prefix = prefix_for(&b"alice".to_vec());
    let chunks = vec![b"one".to_vec(), b"two".to_vec(), b"three".to_vec()];
    let sent = transmit_session(&prefix, &chunks);
    assert_eq!(sent.len(), 3);
    let written = receive_session(&sent);
    assert_eq!(written, sent);
}
