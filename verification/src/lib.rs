//! Wire format of the sidechain signalling messages that block producers
//! place in coinbase outputs, and the blinded identifier of a withdrawal
//! bundle.
//!
//! Every multi-byte integer of the format is big-endian. The activation
//! marker is part of the format: the coinbase decoder tries it before the
//! tagged messages.

pub mod builder;
pub mod commitment;
pub mod decode;
pub mod encode;
pub mod error;
pub mod hash;
pub mod laws;
pub mod message;
pub mod reader;
pub mod registry;
pub mod transaction;
pub mod wire;

pub use builder::CoinbaseBuilder;
pub use commitment::{m6_blinded, m6_to_id};
pub use decode::{parse_coinbase_script, parse_m8_bmm_request, parse_op_drivechain};
pub use error::{CommitmentError, DecodeError};
pub use hash::sha256d;
pub use message::{CoinbaseMessage, M4AckBundles, M8BmmRequest};
pub use registry::{
    ABSTAIN_ONE_BYTE, ABSTAIN_TWO_BYTES, ALARM_ONE_BYTE, ALARM_TWO_BYTES, OP_DRIVECHAIN,
};
pub use transaction::{OutPoint, Transaction, TxIn, TxOut};
