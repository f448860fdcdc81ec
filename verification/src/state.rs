//! The data model: the UTXO record, the storage cell it lives in, and the
//! vault record of a verification-module deployment.

use vstd::prelude::*;

verus! {

/// An unspent value record.  The storage address of a record must equal the
/// address derived from `account_seed` under `verification_program`;
/// `base_program` is the module allowed to flip `is_active`, and
/// `verification_program` the module allowed to authorize spends.
#[derive(Clone, Debug, PartialEq, Eq)]
pub struct UTXO {
    pub base_program: [u8; 32],
    pub verification_program: [u8; 32],
    pub verification_data: Vec<u8>,
    pub content_data: Vec<u8>,
    pub is_active: bool,
    pub account_seed: [u8; 32],
    pub is_initialized: bool,
}

/// The mathematical value of a [`UTXO`]: every byte field as a sequence.
pub ghost struct UtxoView {
    pub base_program: Seq<u8>,
    pub verification_program: Seq<u8>,
    pub verification_data: Seq<u8>,
    pub content_data: Seq<u8>,
    pub is_active: bool,
    pub account_seed: Seq<u8>,
    pub is_initialized: bool,
}

impl View for UTXO {
    type V = UtxoView;

    open spec fn view(&self) -> UtxoView {
        UtxoView {
            base_program: self.base_program@,
            verification_program: self.verification_program@,
            verification_data: self.verification_data@,
            content_data: self.content_data@,
            is_active: self.is_active,
            account_seed: self.account_seed@,
            is_initialized: self.is_initialized,
        }
    }
}

impl UtxoView {
    /// The same record with its activation flag set to `active`.
    pub open spec fn with_active(self, active: bool) -> UtxoView {
        UtxoView { is_active: active, ..self }
    }
}

/// A storage cell holding a UTXO record: its address and the record.
/// Whether a request carries the signing authority of the address is not a
/// property of the cell but of the caller, and is passed to the lifecycle
/// operations as an explicit authority argument.
#[derive(Clone, Debug, PartialEq, Eq)]
pub struct UtxoAccount {
    pub key: [u8; 32],
    pub utxo: UTXO,
}

/// The mathematical value of a [`UtxoAccount`].
pub ghost struct UtxoAccountView {
    pub key: Seq<u8>,
    pub utxo: UtxoView,
}

impl View for UtxoAccount {
    type V = UtxoAccountView;

    open spec fn view(&self) -> UtxoAccountView {
        UtxoAccountView { key: self.key@, utxo: self.utxo@ }
    }
}

impl UtxoAccountView {
    /// The same cell with its record's activation flag set to `active`.
    pub open spec fn with_active(self, active: bool) -> UtxoAccountView {
        UtxoAccountView { key: self.key, utxo: self.utxo.with_active(active) }
    }
}

/// The vault record of a verification-module deployment: the aggregate
/// native value locked by deposits, and the once-only initialization flag.
#[derive(Clone, Copy, Debug, PartialEq, Eq, Structural)]
pub struct VerificationAdmin {
    pub total_locked: u64,
    pub is_initialized: bool,
}

/// The fixed byte size of an encoded vault record.
pub const MAX_ADMIN_SIZE: usize = 8 + 1;

/// The storage size charged for a UTXO record: a fixed 96-byte header for
/// the two identity fields and the seed, the two variable byte fields, and
/// one byte for each of the two flags.
pub fn get_utxo_size(verification_data_len: usize, content_data_len: usize) -> (r: usize)
    requires
        verification_data_len + content_data_len + 98 <= usize::MAX,
    ensures
        r == 96 + verification_data_len + content_data_len + 2,
{
    96 + verification_data_len + content_data_len + 2
}

} // verus!
