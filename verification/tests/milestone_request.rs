use bee::message::errors::MessageError;
use bee::message::milestone_request::{MilestoneRequest, MILESTONE_REQUEST_ID};

const INDEX: u32 = 0x81f7df7c;

#[test]
fn id_test() {
    assert_eq!(MilestoneRequest::id(), MILESTONE_REQUEST_ID);
}

#[test]
fn size_range_test() {
    assert_eq!(MilestoneRequest::size_range().contains(&3), false);
    assert_eq!(MilestoneRequest::size_range().contains(&4), true);
    assert_eq!(MilestoneRequest::size_range().contains(&5), false);
}

#[test]
fn from_bytes_invalid_length_test() {
    match MilestoneRequest::from_bytes(&[0; 3]) {
        Err(MessageError::InvalidPayloadLength(length)) => assert_eq!(length, 3),
        _ => unreachable!(),
    }
    match MilestoneRequest::from_bytes(&[0; 5]) {
        Err(MessageError::InvalidPayloadLength(length)) => assert_eq!(length, 5),
        _ => unreachable!(),
    }
}

fn into_from_eq(message: MilestoneRequest) {
    assert_eq!(message.index, INDEX);
}

#[test]
fn into_from_test() {
    let message_from = MilestoneRequest::new(INDEX);

    into_from_eq(MilestoneRequest::from_bytes(&message_from.into_bytes()).unwrap());
}

#[test]
fn full_into_from_test() {
    let message_from = MilestoneRequest::new(INDEX);
    let bytes = message_from.into_full_bytes();

    into_from_eq(MilestoneRequest::from_full_bytes(&bytes[0..3], &bytes[3..]).unwrap());
}

#[test]
fn into_bytes_is_big_endian() {
    assert_eq!(MilestoneRequest::new(INDEX).into_bytes(), vec![0x81, 0xf7, 0xdf, 0x7c]);
    assert_eq!(MilestoneRequest::new(1).into_bytes(), vec![0, 0, 0, 1]);
}

#[test]
fn from_bytes_reads_big_endian() {
    assert_eq!(MilestoneRequest::from_bytes(&[0x00, 0x00, 0x01, 0x02]).unwrap().index, 0x0102);
    assert_eq!(MilestoneRequest::from_bytes(&[0xff, 0xff, 0xff, 0xff]).unwrap().index, u32::MAX);
}

#[test]
fn from_bytes_empty_is_invalid_length() {
    match MilestoneRequest::from_bytes(&[]) {
        Err(MessageError::InvalidPayloadLength(length)) => assert_eq!(length, 0),
        _ => unreachable!(),
    }
}

#[test]
fn full_bytes_layout() {
    assert_eq!(MilestoneRequest::new(7).into_full_bytes(), vec![0x03, 0x00, 0x04, 0, 0, 0, 7]);
}

#[test]
fn full_bytes_wrong_type() {
    match MilestoneRequest::from_full_bytes(&[0x02, 0x00, 0x04], &[0, 0, 0, 7]) {
        Err(MessageError::InvalidAdvertisedType(advertised, expected)) => {
            assert_eq!(advertised, 0x02);
            assert_eq!(expected, 0x03);
        }
        _ => unreachable!(),
    }
}

#[test]
fn full_bytes_wrong_length() {
    match MilestoneRequest::from_full_bytes(&[0x03, 0x00, 0x05], &[0, 0, 0, 7]) {
        Err(MessageError::InvalidAdvertisedLength(advertised, actual)) => {
            assert_eq!(advertised, 5);
            assert_eq!(actual, 4);
        }
        _ => unreachable!(),
    }
}

#[test]
fn full_bytes_announced_but_bad_payload() {
    match MilestoneRequest::from_full_bytes(&[0x03, 0x00, 0x03], &[0, 0, 7]) {
        Err(MessageError::InvalidPayloadLength(length)) => assert_eq!(length, 3),
        _ => unreachable!(),
    }
}

#[test]
fn default_requests_index_zero() {
    assert_eq!(MilestoneRequest::default().index, 0);
}
