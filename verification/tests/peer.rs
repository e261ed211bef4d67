use onft::errors::ONFTError;
use onft::peer::{EnforcedOptions, PeerConfig};

fn enforced(send: &[u8], send_and_call: &[u8]) -> EnforcedOptions {
    EnforcedOptions { send: send.to_vec(), send_and_call: send_and_call.to_vec() }
}

#[test]
fn enforced_options_depend_on_composed_message() {
    let options = enforced(&[0, 3, 1], &[0, 3, 2, 2]);
    assert_eq!(options.get_enforced_options(&None), vec![0, 3, 1]);
    assert_eq!(options.get_enforced_options(&Some(vec![])), vec![0, 3, 2, 2]);
    assert_eq!(options.get_enforced_options(&Some(vec![7])), vec![0, 3, 2, 2]);
}

#[test]
fn combine_without_enforced_passes_extra_through() {
    let options = enforced(&[], &[0, 3, 9]);
    assert_eq!(options.combine_options(&None, &vec![]), Ok(vec![]));
    assert_eq!(options.combine_options(&None, &vec![0, 1, 5]), Ok(vec![0, 1, 5]));
    assert_eq!(options.combine_options(&None, &vec![7]), Ok(vec![7]));
}

#[test]
fn combine_without_extra_gives_enforced() {
    let options = enforced(&[0, 3, 1, 2], &[]);
    assert_eq!(options.combine_options(&None, &vec![]), Ok(vec![0, 3, 1, 2]));
}

#[test]
fn combine_appends_body_of_extra() {
    let options = enforced(&[0, 3, 1, 2], &[0, 3, 8]);
    assert_eq!(options.combine_options(&None, &vec![0, 3, 5, 6, 7]), Ok(vec![0, 3, 1, 2, 5, 6, 7]));
    assert_eq!(options.combine_options(&None, &vec![0, 3]), Ok(vec![0, 3, 1, 2]));
    assert_eq!(options.combine_options(&Some(vec![1]), &vec![0, 3, 5]), Ok(vec![0, 3, 8, 5]));
}

#[test]
fn combine_refuses_extra_of_other_type() {
    let options = enforced(&[0, 3, 1, 2], &[]);
    assert_eq!(options.combine_options(&None, &vec![0, 1, 5]), Err(ONFTError::InvalidOptions));
    assert_eq!(options.combine_options(&None, &vec![3, 0, 5]), Err(ONFTError::InvalidOptions));
    assert_eq!(options.combine_options(&None, &vec![1, 3, 5]), Err(ONFTError::InvalidOptions));
    assert_eq!(options.combine_options(&None, &vec![0]), Err(ONFTError::InvalidOptions));
    assert_eq!(options.combine_options(&None, &vec![3]), Err(ONFTError::InvalidOptions));
}

#[test]
fn combined_options_start_with_enforced() {
    let options = enforced(&[0, 3, 0xaa, 0xbb], &[]);
    for extra in [vec![], vec![0, 3], vec![0, 3, 1], vec![0, 3, 1, 2, 3, 4]] {
        let combined = options.combine_options(&None, &extra).unwrap();
        assert!(combined.starts_with(&[0, 3, 0xaa, 0xbb]));
    }
}

#[test]
fn trusted_sender_is_the_peer_address() {
    let peer =
        PeerConfig { peer_address: [5; 32], enforced_options: enforced(&[], &[]), bump: 254 };
    assert!(peer.is_trusted_sender(&[5; 32]));
    assert!(!peer.is_trusted_sender(&[6; 32]));
    let mut almost = [5u8; 32];
    almost[31] = 4;
    assert!(!peer.is_trusted_sender(&almost));
    almost[31] = 5;
    almost[0] = 0;
    assert!(!peer.is_trusted_sender(&almost));
}
