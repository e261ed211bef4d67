use onft::bytes::{append_bytes, push_seed, to_vec, u32_to_be_bytes};
use onft::pubkey::{bytes_equal, Pubkey};
use onft::seeds::{EVENT_SEED, NFT_SEED, ONFT_SEED, PEER_SEED};
use onft::status::SECONDS_PER_DAY;

#[test]
fn addresses_compare_by_their_bytes() {
    let a = Pubkey::new_from_array([1; 32]);
    let mut bytes = [1u8; 32];
    assert!(a.equals(&Pubkey::new_from_array(bytes)));
    bytes[17] = 2;
    assert!(!a.equals(&Pubkey::new_from_array(bytes)));
    assert_eq!(Pubkey::new_from_array(bytes).to_bytes(), bytes);
    assert_eq!(Pubkey::default().to_bytes(), [0u8; 32]);
    assert!(Pubkey::default().equals(&Pubkey::new_from_array([0; 32])));
}

#[test]
fn byte_arrays_compare_position_by_position() {
    assert!(bytes_equal(&[1u8, 2, 3], &[1, 2, 3]));
    assert!(!bytes_equal(&[1u8, 2, 3], &[1, 2, 4]));
    assert!(!bytes_equal(&[0u8, 2, 3], &[1, 2, 3]));
    assert!(bytes_equal::<0>(&[], &[]));
}

#[test]
fn big_endian_bytes_of_a_chain_identifier() {
    assert_eq!(u32_to_be_bytes(0), [0, 0, 0, 0]);
    assert_eq!(u32_to_be_bytes(1), [0, 0, 0, 1]);
    assert_eq!(u32_to_be_bytes(0x0102_0304), [1, 2, 3, 4]);
    assert_eq!(u32_to_be_bytes(30_101), 30_101u32.to_be_bytes());
    assert_eq!(u32_to_be_bytes(u32::MAX), [255, 255, 255, 255]);
}

#[test]
fn bytes_are_appended_and_copied() {
    let mut bytes = vec![1u8, 2];
    append_bytes(&mut bytes, &[3, 4, 5]);
    assert_eq!(bytes, vec![1, 2, 3, 4, 5]);
    append_bytes(&mut bytes, &[]);
    assert_eq!(bytes, vec![1, 2, 3, 4, 5]);
    assert_eq!(to_vec(&[9, 8]), vec![9, 8]);
    let mut seeds = vec![vec![1u8]];
    push_seed(&mut seeds, &[2, 3]);
    assert_eq!(seeds, vec![vec![1u8], vec![2, 3]]);
}

#[test]
fn seeds_spell_their_names() {
    assert_eq!(&ONFT_SEED, b"ONFT");
    assert_eq!(&NFT_SEED, b"NFT");
    assert_eq!(&PEER_SEED, b"Peer");
    assert_eq!(&EVENT_SEED, b"__event_authority");
    assert_eq!(SECONDS_PER_DAY, 24 * 60 * 60);
}
