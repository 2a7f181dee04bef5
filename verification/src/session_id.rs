//! Session identities: why a session was opened, and the identifying data
//! it carries.

use vstd::prelude::*;

verus! {

/// Table scope used by every genesis session.
pub const GENESIS_SCOPE_ID: u128 = 0;

/// Table scope used by every void session.
pub const VOID_SCOPE_ID: u128 = 1;

/// The reason a session was opened.
///
/// Only a submitted transaction carries identifying data: its sender, its
/// sequence number, and the content hash of the executed code. Every other
/// variant carries none and is treated as having an empty code hash.
#[derive(Clone, Debug)]
pub enum SessionId {
    Txn { sender: u64, sequence_number: u64, script_hash: Vec<u8> },
    Genesis,
    Void,
}

impl SessionId {
    /// The code content hash this identity carries: the transaction's hash,
    /// or empty for every other variant.
    pub open spec fn spec_script_hash(self) -> Seq<u8> {
        match self {
            SessionId::Txn { script_hash, .. } => script_hash@,
            _ => Seq::<u8>::empty(),
        }
    }

    /// The session-scoped table identifier this identity determines.
    /// A deterministic function of the identity alone, so repeated sessions
    /// with the same identity address the same logical table scope.
    pub open spec fn spec_uuid(self) -> u128 {
        match self {
            SessionId::Txn { sender, sequence_number, .. } =>
                ((sender as u128) * 0x1_0000_0000_0000_0000 + (sequence_number as u128)) as u128,
            SessionId::Genesis => GENESIS_SCOPE_ID,
            SessionId::Void => VOID_SCOPE_ID,
        }
    }

    /// Computes the session-scoped table identifier.
    pub fn as_uuid(&self) -> (u: u128)
        ensures
            u == self.spec_uuid(),
    {
        match self {
            SessionId::Txn { sender, sequence_number, .. } => {
                let s: u128 = *sender as u128;
                let n: u128 = *sequence_number as u128;
                s * 0x1_0000_0000_0000_0000 + n
            },
            SessionId::Genesis => GENESIS_SCOPE_ID,
            SessionId::Void => VOID_SCOPE_ID,
        }
    }
}

} // verus!
