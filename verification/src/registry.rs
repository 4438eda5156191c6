//! The tag registry: the fixed opcodes, message tags and vote sub-tags of
//! the wire format. Every value here is a consensus rule.

use vstd::prelude::*;

verus! {

/// The data-carrier opcode that opens every tagged message.
pub const OP_RETURN: u8 = 0x6a;

/// The reserved no-op opcode that opens an activation marker.
pub const OP_DRIVECHAIN: u8 = 0xb4;

/// The opcode that pushes the single byte following it.
pub const OP_PUSHBYTES_1: u8 = 0x01;

/// The always-true opcode that closes an activation marker.
pub const OP_TRUE: u8 = 0x51;

/// Tag of a sidechain proposal.
pub const M1_PROPOSE_SIDECHAIN_TAG: [u8; 4] = [0xD5, 0xE0, 0xC4, 0xAF];

/// Tag of a sidechain proposal acknowledgement.
pub const M2_ACK_SIDECHAIN_TAG: [u8; 4] = [0xD6, 0xE1, 0xC5, 0xDF];

/// Tag of a withdrawal bundle proposal.
pub const M3_PROPOSE_BUNDLE_TAG: [u8; 4] = [0xD4, 0x5A, 0xA9, 0x43];

/// Tag of a vote on the pending withdrawal bundles.
pub const M4_ACK_BUNDLES_TAG: [u8; 4] = [0xD7, 0x7D, 0x17, 0x76];

/// Tag of a blind-merge-mining acceptance.
pub const M7_BMM_ACCEPT_TAG: [u8; 4] = [0xD1, 0x61, 0x73, 0x68];

/// Tag of a blind-merge-mining request.
pub const M8_BMM_REQUEST_TAG: [u8; 3] = [0x00, 0xBF, 0x00];

/// Sub-tag of a vote that repeats the previous block's votes.
pub const REPEAT_PREVIOUS_TAG: u8 = 0x00;

/// Sub-tag of a vote vector with one byte per bundle.
pub const ONE_BYTE_TAG: u8 = 0x01;

/// Sub-tag of a vote vector with two bytes per bundle.
pub const TWO_BYTES_TAG: u8 = 0x02;

/// Sub-tag of a vote for the bundle that already leads by fifty.
pub const LEADING_BY_50_TAG: u8 = 0x03;

/// One-byte vote that abstains.
pub const ABSTAIN_ONE_BYTE: u8 = 0xFF;

/// Two-byte vote that abstains.
pub const ABSTAIN_TWO_BYTES: u16 = 0xFFFF;

/// One-byte vote that raises an alarm.
pub const ALARM_ONE_BYTE: u8 = 0xFE;

/// Two-byte vote that raises an alarm.
pub const ALARM_TWO_BYTES: u16 = 0xFFFE;

/// Width in bytes of every digest on the wire.
pub const HASH_LEN: usize = 32;

/// The two opcodes that open an activation marker.
pub open spec fn op_drivechain_marker() -> Seq<u8> {
    seq![OP_DRIVECHAIN, OP_PUSHBYTES_1]
}

} // verus!
