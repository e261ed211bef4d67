use onft::errors::ONFTError;
use onft::msg_codec::{decode, encode, parse_receiver, parse_token_id, MESSAGE_LENGTH};

fn owner_bytes() -> [u8; 32] {
    let mut owner = [0u8; 32];
    for (i, byte) in owner.iter_mut().enumerate() {
        *byte = 0xa0 + i as u8;
    }
    owner
}

#[test]
fn encode_lays_out_identifier_then_owner() {
    let message = encode(0x0102_0304_0506_0708, &owner_bytes());
    assert_eq!(message.len(), 40);
    assert_eq!(MESSAGE_LENGTH, 40);
    assert_eq!(&message[0..8], &[0x08, 0x07, 0x06, 0x05, 0x04, 0x03, 0x02, 0x01]);
    assert_eq!(&message[8..40], &owner_bytes()[..]);
}

#[test]
fn encode_of_small_identifier_is_little_endian() {
    let message = encode(1, &[0u8; 32]);
    let mut expected = vec![0u8; 40];
    expected[0] = 1;
    assert_eq!(message, expected);
}

#[test]
fn decode_gives_back_what_was_encoded() {
    for token_id in [0u64, 1, 255, 256, 0xdead_beef, u64::MAX - 1, u64::MAX] {
        let message = encode(token_id, &owner_bytes());
        assert_eq!(decode(&message), Ok((token_id, owner_bytes())));
    }
}

#[test]
fn decode_gives_back_every_owner_byte() {
    let mut owner = [0u8; 32];
    for i in 0..32 {
        owner[i] = 0xff;
        let message = encode(77, &owner);
        assert_eq!(decode(&message), Ok((77, owner)));
        owner[i] = i as u8;
    }
}

#[test]
fn decode_refuses_short_messages() {
    let message = encode(9, &owner_bytes());
    for length in 0..40 {
        assert_eq!(decode(&message[..length]), Err(ONFTError::MalformedMessage));
    }
}

#[test]
fn decode_refuses_the_empty_message() {
    assert_eq!(decode(&[]), Err(ONFTError::MalformedMessage));
}

#[test]
fn decode_reads_the_head_of_a_longer_message() {
    let mut message = encode(0x1122_3344_5566_7788, &owner_bytes());
    message.extend_from_slice(&[1, 2, 3]);
    assert_eq!(decode(&message), Ok((0x1122_3344_5566_7788, owner_bytes())));
}

fn payload_with_head(head: [u8; 8]) -> Vec<u8> {
    let mut message = head.to_vec();
    message.extend_from_slice(&[0x11; 32]);
    message
}

#[test]
fn parse_token_id_reads_the_first_eight_bytes() {
    assert_eq!(parse_token_id(&payload_with_head([0x2a, 0, 0, 0, 0, 0, 0, 0])), Ok(42));
    assert_eq!(parse_token_id(&payload_with_head([0, 1, 0, 0, 0, 0, 0, 0])), Ok(256));
    assert_eq!(parse_token_id(&payload_with_head([0xff; 8])), Ok(u64::MAX));
    assert_eq!(parse_token_id(&payload_with_head([0, 0, 0, 0, 0, 0, 0, 0x80])), Ok(1u64 << 63));
    let mut longer = payload_with_head([3, 0, 0, 0, 0, 0, 0, 0]);
    longer.push(0xff);
    assert_eq!(parse_token_id(&longer), Ok(3));
}

#[test]
fn parse_token_id_refuses_short_messages() {
    let message = payload_with_head([0x2a, 0, 0, 0, 0, 0, 0, 0]);
    for length in 0..40 {
        assert_eq!(parse_token_id(&message[..length]), Err(ONFTError::MalformedMessage));
    }
    // Eight bytes would hold an identifier, and still nothing is read.
    assert_eq!(parse_token_id(&[0x2a, 0, 0, 0, 0, 0, 0, 0]), Err(ONFTError::MalformedMessage));
    assert_eq!(
        parse_token_id(&[0, 1, 0, 0, 0, 0, 0, 0, 0xff, 0xff]),
        Err(ONFTError::MalformedMessage)
    );
}

#[test]
fn parse_receiver_reads_bytes_eight_to_forty() {
    let mut message = vec![0u8; 41];
    for (i, byte) in message.iter_mut().enumerate() {
        *byte = i as u8;
    }
    let receiver = parse_receiver(&message).unwrap();
    for i in 0..32 {
        assert_eq!(receiver[i], 8 + i as u8);
    }
}

#[test]
fn parse_receiver_refuses_short_messages() {
    let message = payload_with_head([1, 0, 0, 0, 0, 0, 0, 0]);
    for length in 0..40 {
        assert_eq!(parse_receiver(&message[..length]), Err(ONFTError::MalformedMessage));
    }
    assert_eq!(parse_receiver(&message), Ok([0x11; 32]));
}
