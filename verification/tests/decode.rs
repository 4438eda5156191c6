use bip300_messages::decode::{
    parse_m1_propose_sidechain, parse_m2_ack_sidechain, parse_m3_propose_bundle,
    parse_m4_ack_bundles, parse_m7_bmm_accept,
};
use bip300_messages::{
    parse_coinbase_script, parse_m8_bmm_request, parse_op_drivechain, CoinbaseMessage,
    DecodeError, M4AckBundles, M8BmmRequest,
};

fn tagged(tag: [u8; 4], body: &[u8]) -> Vec<u8> {
    let mut script: Vec<u8> = vec![0x6a];
    script.extend_from_slice(&tag);
    script.extend_from_slice(body);
    script
}

fn hash(first: u8) -> [u8; 32] {
    let mut h: [u8; 32] = [0; 32];
    for (i, byte) in h.iter_mut().enumerate() {
        *byte = first.wrapping_add(i as u8);
    }
    h
}

fn numbered(number: u8, h: &[u8; 32]) -> Vec<u8> {
    let mut body: Vec<u8> = vec![number];
    body.extend_from_slice(h);
    body
}

const M1: [u8; 4] = [0xD5, 0xE0, 0xC4, 0xAF];
const M2: [u8; 4] = [0xD6, 0xE1, 0xC5, 0xDF];
const M3: [u8; 4] = [0xD4, 0x5A, 0xA9, 0x43];
const M4: [u8; 4] = [0xD7, 0x7D, 0x17, 0x76];
const M7: [u8; 4] = [0xD1, 0x61, 0x73, 0x68];

#[test]
fn decodes_sidechain_proposal_hello() {
    let mut body: Vec<u8> = vec![0x07];
    body.extend_from_slice(b"hello");
    let script = tagged(M1, &body);
    assert_eq!(
        parse_coinbase_script(&script),
        Ok(CoinbaseMessage::M1ProposeSidechain { sidechain_number: 7, data: b"hello".to_vec() })
    );
}

#[test]
fn decodes_two_byte_votes_with_abstain() {
    let script = tagged(M4, &[0x02, 0x00, 0x05, 0xFF, 0xFF]);
    assert_eq!(
        parse_coinbase_script(&script),
        Ok(CoinbaseMessage::M4AckBundles(M4AckBundles::TwoBytes { upvotes: vec![5, 65535] }))
    );
}

#[test]
fn two_byte_votes_are_big_endian() {
    let script = tagged(M4, &[0x02, 0x01, 0x02, 0xFF, 0xFE, 0x00, 0x00]);
    assert_eq!(
        parse_coinbase_script(&script),
        Ok(CoinbaseMessage::M4AckBundles(M4AckBundles::TwoBytes {
            upvotes: vec![0x0102, 0xFFFE, 0]
        }))
    );
}

#[test]
fn two_byte_votes_of_odd_length_are_refused() {
    let script = tagged(M4, &[0x02, 0x00, 0x05, 0xFF]);
    assert_eq!(parse_coinbase_script(&script), Err(DecodeError::OddLengthVoteVector));
    assert_eq!(parse_m4_ack_bundles(&[0x02, 0x09]), Err(DecodeError::OddLengthVoteVector));
}

#[test]
fn two_byte_votes_may_be_empty() {
    assert_eq!(
        parse_coinbase_script(&tagged(M4, &[0x02])),
        Ok(CoinbaseMessage::M4AckBundles(M4AckBundles::TwoBytes { upvotes: vec![] }))
    );
}

#[test]
fn decodes_one_byte_votes_verbatim() {
    let script = tagged(M4, &[0x01, 0x00, 0xFF, 0xFE, 0x03]);
    assert_eq!(
        parse_coinbase_script(&script),
        Ok(CoinbaseMessage::M4AckBundles(M4AckBundles::OneByte {
            upvotes: vec![0x00, 0xFF, 0xFE, 0x03]
        }))
    );
    assert_eq!(
        parse_coinbase_script(&tagged(M4, &[0x01])),
        Ok(CoinbaseMessage::M4AckBundles(M4AckBundles::OneByte { upvotes: vec![] }))
    );
}

#[test]
fn decodes_votes_without_a_vector() {
    assert_eq!(
        parse_coinbase_script(&tagged(M4, &[0x00])),
        Ok(CoinbaseMessage::M4AckBundles(M4AckBundles::RepeatPrevious))
    );
    assert_eq!(
        parse_coinbase_script(&tagged(M4, &[0x03])),
        Ok(CoinbaseMessage::M4AckBundles(M4AckBundles::LeadingBy50))
    );
}

#[test]
fn votes_without_a_vector_take_no_payload() {
    assert_eq!(parse_coinbase_script(&tagged(M4, &[0x00, 0x01])), Err(DecodeError::TrailingBytes));
    assert_eq!(parse_coinbase_script(&tagged(M4, &[0x03, 0x00])), Err(DecodeError::TrailingBytes));
}

#[test]
fn unknown_vote_sub_tag_is_refused() {
    assert_eq!(parse_coinbase_script(&tagged(M4, &[0x04])), Err(DecodeError::UnrecognizedTag));
    assert_eq!(parse_coinbase_script(&tagged(M4, &[0xFF, 0x01])), Err(DecodeError::UnrecognizedTag));
}

#[test]
fn missing_vote_sub_tag_is_truncation() {
    assert_eq!(
        parse_coinbase_script(&tagged(M4, &[])),
        Err(DecodeError::Truncated { expected: 1, got: 0 })
    );
}

#[test]
fn sidechain_proposal_may_have_no_data() {
    assert_eq!(
        parse_coinbase_script(&tagged(M1, &[0xFF])),
        Ok(CoinbaseMessage::M1ProposeSidechain { sidechain_number: 255, data: vec![] })
    );
}

#[test]
fn sidechain_proposal_needs_its_number() {
    assert_eq!(
        parse_coinbase_script(&tagged(M1, &[])),
        Err(DecodeError::Truncated { expected: 1, got: 0 })
    );
    assert_eq!(
        parse_m1_propose_sidechain(&[]),
        Err(DecodeError::Truncated { expected: 1, got: 0 })
    );
}

#[test]
fn decodes_sidechain_acknowledgement() {
    let h = hash(1);
    assert_eq!(
        parse_coinbase_script(&tagged(M2, &numbered(3, &h))),
        Ok(CoinbaseMessage::M2AckSidechain { sidechain_number: 3, data_hash: h })
    );
    assert_eq!(
        parse_m2_ack_sidechain(&numbered(3, &h)),
        Ok(CoinbaseMessage::M2AckSidechain { sidechain_number: 3, data_hash: h })
    );
}

#[test]
fn decodes_bundle_proposal() {
    let h = hash(40);
    assert_eq!(
        parse_coinbase_script(&tagged(M3, &numbered(0, &h))),
        Ok(CoinbaseMessage::M3ProposeBundle { sidechain_number: 0, bundle_txid: h })
    );
    assert_eq!(
        parse_m3_propose_bundle(&numbered(0, &h)),
        Ok(CoinbaseMessage::M3ProposeBundle { sidechain_number: 0, bundle_txid: h })
    );
}

#[test]
fn decodes_bmm_acceptance() {
    let h = hash(200);
    assert_eq!(
        parse_coinbase_script(&tagged(M7, &numbered(9, &h))),
        Ok(CoinbaseMessage::M7BmmAccept { sidechain_number: 9, sidechain_block_hash: h })
    );
    assert_eq!(
        parse_m7_bmm_accept(&numbered(9, &h)),
        Ok(CoinbaseMessage::M7BmmAccept { sidechain_number: 9, sidechain_block_hash: h })
    );
}

#[test]
fn short_digest_is_truncation_with_counts() {
    let h = hash(1);
    let body = numbered(3, &h);
    assert_eq!(
        parse_coinbase_script(&tagged(M2, &body[..21])),
        Err(DecodeError::Truncated { expected: 32, got: 20 })
    );
    assert_eq!(
        parse_coinbase_script(&tagged(M3, &body[..32])),
        Err(DecodeError::Truncated { expected: 32, got: 31 })
    );
    assert_eq!(
        parse_coinbase_script(&tagged(M7, &body[..1])),
        Err(DecodeError::Truncated { expected: 32, got: 0 })
    );
    assert_eq!(
        parse_coinbase_script(&tagged(M7, &[])),
        Err(DecodeError::Truncated { expected: 1, got: 0 })
    );
}

#[test]
fn every_truncation_of_a_fixed_message_is_refused() {
    let h = hash(7);
    for tag in [M2, M3, M7] {
        let script = tagged(tag, &numbered(5, &h));
        assert_eq!(script.len(), 38);
        for kept in 5..script.len() {
            assert!(matches!(
                parse_coinbase_script(&script[..kept]),
                Err(DecodeError::Truncated { .. })
            ));
        }
        assert!(parse_coinbase_script(&script).is_ok());
    }
    let marker: [u8; 4] = [0xb4, 0x01, 0x07, 0x51];
    for kept in 2..marker.len() {
        assert_eq!(
            parse_coinbase_script(&marker[..kept]),
            Err(DecodeError::Truncated { expected: 1, got: 0 })
        );
    }
    for sub_tag in [0x00u8, 0x03] {
        let script = tagged(M4, &[sub_tag]);
        assert_eq!(
            parse_coinbase_script(&script[..5]),
            Err(DecodeError::Truncated { expected: 1, got: 0 })
        );
    }
}

#[test]
fn bytes_after_a_digest_are_refused() {
    let h = hash(1);
    let mut body = numbered(3, &h);
    body.push(0x00);
    assert_eq!(parse_coinbase_script(&tagged(M2, &body)), Err(DecodeError::TrailingBytes));
    assert_eq!(parse_coinbase_script(&tagged(M3, &body)), Err(DecodeError::TrailingBytes));
    assert_eq!(parse_coinbase_script(&tagged(M7, &body)), Err(DecodeError::TrailingBytes));
}

#[test]
fn scripts_of_others_are_unrecognized() {
    assert_eq!(parse_coinbase_script(&[]), Err(DecodeError::UnrecognizedTag));
    assert_eq!(parse_coinbase_script(&[0x6a]), Err(DecodeError::UnrecognizedTag));
    assert_eq!(parse_coinbase_script(&[0x6a, 0xD5, 0xE0, 0xC4]), Err(DecodeError::UnrecognizedTag));
    assert_eq!(
        parse_coinbase_script(&[0x6a, 0xD5, 0xE0, 0xC4, 0xAE, 0x01]),
        Err(DecodeError::UnrecognizedTag)
    );
    assert_eq!(
        parse_coinbase_script(&[0x51, 0xD5, 0xE0, 0xC4, 0xAF, 0x01]),
        Err(DecodeError::UnrecognizedTag)
    );
    assert_eq!(parse_coinbase_script(&[0xb4]), Err(DecodeError::UnrecognizedTag));
    // The request tag is not a coinbase tag.
    assert_eq!(
        parse_coinbase_script(&[0x6a, 0x00, 0xBF, 0x00, 0x01]),
        Err(DecodeError::UnrecognizedTag)
    );
}

#[test]
fn decodes_activation_marker() {
    assert_eq!(parse_op_drivechain(&[0xb4, 0x01, 0x2a, 0x51]), Ok(42));
    assert_eq!(
        parse_coinbase_script(&[0xb4, 0x01, 0x2a, 0x51]),
        Ok(CoinbaseMessage::OpDrivechain { sidechain_number: 42 })
    );
}

#[test]
fn activation_marker_errors() {
    assert_eq!(parse_op_drivechain(&[]), Err(DecodeError::UnrecognizedTag));
    assert_eq!(parse_op_drivechain(&[0xb4]), Err(DecodeError::UnrecognizedTag));
    assert_eq!(parse_op_drivechain(&[0xb4, 0x02, 0x2a, 0x51]), Err(DecodeError::UnrecognizedTag));
    assert_eq!(parse_op_drivechain(&[0x6a, 0x01, 0x2a, 0x51]), Err(DecodeError::UnrecognizedTag));
    assert_eq!(
        parse_op_drivechain(&[0xb4, 0x01]),
        Err(DecodeError::Truncated { expected: 1, got: 0 })
    );
    assert_eq!(
        parse_op_drivechain(&[0xb4, 0x01, 0x2a]),
        Err(DecodeError::Truncated { expected: 1, got: 0 })
    );
    assert_eq!(parse_op_drivechain(&[0xb4, 0x01, 0x2a, 0x50]), Err(DecodeError::UnrecognizedTag));
    assert_eq!(
        parse_op_drivechain(&[0xb4, 0x01, 0x2a, 0x51, 0x00]),
        Err(DecodeError::TrailingBytes)
    );
    assert_eq!(
        parse_coinbase_script(&[0xb4, 0x01, 0x2a]),
        Err(DecodeError::Truncated { expected: 1, got: 0 })
    );
    assert_eq!(
        parse_coinbase_script(&[0xb4, 0x01, 0x2a, 0x51, 0x51]),
        Err(DecodeError::TrailingBytes)
    );
}

fn request_script(number: u8, block: &[u8; 32], prev: &[u8; 32]) -> Vec<u8> {
    let mut script: Vec<u8> = vec![0x6a, 0x00, 0xBF, 0x00, number];
    script.extend_from_slice(block);
    script.extend_from_slice(prev);
    script
}

#[test]
fn decodes_bmm_request() {
    let block = hash(10);
    let prev = hash(100);
    let script = request_script(4, &block, &prev);
    assert_eq!(script.len(), 69);
    assert_eq!(
        parse_m8_bmm_request(&script),
        Ok(M8BmmRequest {
            sidechain_number: 4,
            sidechain_block_hash: block,
            prev_mainchain_block_hash: prev,
        })
    );
}

#[test]
fn bmm_request_errors() {
    let block = hash(10);
    let prev = hash(100);
    let script = request_script(4, &block, &prev);
    assert_eq!(parse_m8_bmm_request(&[]), Err(DecodeError::UnrecognizedTag));
    assert_eq!(parse_m8_bmm_request(&[0x6a, 0x00, 0xBF]), Err(DecodeError::UnrecognizedTag));
    assert_eq!(parse_m8_bmm_request(&[0x6a, 0x00, 0xBF, 0x01, 0x04]), Err(DecodeError::UnrecognizedTag));
    assert_eq!(parse_m8_bmm_request(&[0x00, 0x00, 0xBF, 0x00, 0x04]), Err(DecodeError::UnrecognizedTag));
    assert_eq!(
        parse_m8_bmm_request(&script[..4]),
        Err(DecodeError::Truncated { expected: 1, got: 0 })
    );
    assert_eq!(
        parse_m8_bmm_request(&script[..5]),
        Err(DecodeError::Truncated { expected: 32, got: 0 })
    );
    assert_eq!(
        parse_m8_bmm_request(&script[..36]),
        Err(DecodeError::Truncated { expected: 32, got: 31 })
    );
    assert_eq!(
        parse_m8_bmm_request(&script[..37]),
        Err(DecodeError::Truncated { expected: 32, got: 0 })
    );
    assert_eq!(
        parse_m8_bmm_request(&script[..68]),
        Err(DecodeError::Truncated { expected: 32, got: 31 })
    );
    let mut long = script.clone();
    long.push(0x00);
    assert_eq!(parse_m8_bmm_request(&long), Err(DecodeError::TrailingBytes));
    for kept in 4..script.len() {
        assert!(matches!(
            parse_m8_bmm_request(&script[..kept]),
            Err(DecodeError::Truncated { .. })
        ));
    }
}

#[test]
fn a_coinbase_message_is_no_bmm_request() {
    let script = tagged(M1, &[0x07]);
    assert_eq!(parse_m8_bmm_request(&script), Err(DecodeError::UnrecognizedTag));
}
