//! The stage identity: a closed set of named stages and one open case for
//! stages defined elsewhere.

use vstd::prelude::*;
use vstd::string::StringSliceAdditionalSpecFns;

verus! {

/// Stage IDs for all known stages.
///
/// For custom stages, use [`StageId::Other`].
///
/// A custom stage may carry the name of a known stage. It is still a different
/// identity: whoever keys by the name alone cannot tell the two apart, whoever
/// keys by the identity can.
#[derive(Clone, Copy, Debug, Hash)]
pub enum StageId {
    /// Static file stage. Static files are generated outside of the pipeline
    /// and need no stage of their own; the identity is kept for callers that
    /// still hold it, and stands in no listing.
    StaticFile,
    /// Header stage in the process.
    Headers,
    /// Bodies stage in the process.
    Bodies,
    /// Sender recovery stage in the process.
    SenderRecovery,
    /// Execution stage in the process.
    Execution,
    /// Merkle unwind stage in the process.
    MerkleUnwind,
    /// Account hashing stage in the process.
    AccountHashing,
    /// Storage hashing stage in the process.
    StorageHashing,
    /// Merkle execute stage in the process.
    MerkleExecute,
    /// Transaction lookup stage in the process.
    TransactionLookup,
    /// Index storage history stage in the process.
    IndexStorageHistory,
    /// Index account history stage in the process.
    IndexAccountHistory,
    /// Finish stage in the process.
    Finish,
    /// Other custom stage with a provided string identifier.
    Other(&'static str),
}

/// What a stage identity is, mathematically: one of the named stages, or a
/// custom stage with the characters of its name.
pub enum Stage {
    StaticFile,
    Headers,
    Bodies,
    SenderRecovery,
    Execution,
    MerkleUnwind,
    AccountHashing,
    StorageHashing,
    MerkleExecute,
    TransactionLookup,
    IndexStorageHistory,
    IndexAccountHistory,
    Finish,
    Other(Seq<char>),
}

impl View for StageId {
    type V = Stage;

    open spec fn view(&self) -> Stage {
        match *self {
            StageId::StaticFile => Stage::StaticFile,
            StageId::Headers => Stage::Headers,
            StageId::Bodies => Stage::Bodies,
            StageId::SenderRecovery => Stage::SenderRecovery,
            StageId::Execution => Stage::Execution,
            StageId::MerkleUnwind => Stage::MerkleUnwind,
            StageId::AccountHashing => Stage::AccountHashing,
            StageId::StorageHashing => Stage::StorageHashing,
            StageId::MerkleExecute => Stage::MerkleExecute,
            StageId::TransactionLookup => Stage::TransactionLookup,
            StageId::IndexStorageHistory => Stage::IndexStorageHistory,
            StageId::IndexAccountHistory => Stage::IndexAccountHistory,
            StageId::Finish => Stage::Finish,
            StageId::Other(s) => Stage::Other(s@),
        }
    }
}

impl Stage {
    /// The canonical name of a stage: fixed for the named stages, the given
    /// characters for a custom one.
    pub open spec fn name(self) -> Seq<char> {
        match self {
            Stage::StaticFile => "StaticFile"@,
            Stage::Headers => "Headers"@,
            Stage::Bodies => "Bodies"@,
            Stage::SenderRecovery => "SenderRecovery"@,
            Stage::Execution => "Execution"@,
            Stage::MerkleUnwind => "MerkleUnwind"@,
            Stage::AccountHashing => "AccountHashing"@,
            Stage::StorageHashing => "StorageHashing"@,
            Stage::MerkleExecute => "MerkleExecute"@,
            Stage::TransactionLookup => "TransactionLookup"@,
            Stage::IndexStorageHistory => "IndexStorageHistory"@,
            Stage::IndexAccountHistory => "IndexAccountHistory"@,
            Stage::Finish => "Finish"@,
            Stage::Other(s) => s,
        }
    }
}

/// Whether two strings hold the same characters.
///
/// The strings are compared byte by byte; two strings with the same encoding
/// hold the same characters.
pub fn same_text(a: &str, b: &str) -> (same: bool)
    ensures
        same == (a@ == b@),
{
    let x = a.as_bytes();
    let y = b.as_bytes();
    proof {
        vstd::utf8::encode_utf8_decode_utf8(a@);
        vstd::utf8::encode_utf8_decode_utf8(b@);
    }
    if x.len() != y.len() {
        return false;
    }
    let mut i: usize = 0;
    while i < x.len()
        invariant
            i <= x.len(),
            x.len() == y.len(),
            x@ == a.spec_bytes(),
            y@ == b.spec_bytes(),
            forall|k: int| 0 <= k < i ==> x@[k] == y@[k],
        decreases x.len() - i,
    {
        if x[i] != y[i] {
            return false;
        }
        i += 1;
    }
    assert(x@ =~= y@);
    true
}

impl PartialEq for StageId {
    /// Two identities are equal when they are the same named stage, or both
    /// custom stages with the same name.
    fn eq(&self, other: &StageId) -> (equal: bool) {
        match (*self, *other) {
            (StageId::StaticFile, StageId::StaticFile) => true,
            (StageId::Headers, StageId::Headers) => true,
            (StageId::Bodies, StageId::Bodies) => true,
            (StageId::SenderRecovery, StageId::SenderRecovery) => true,
            (StageId::Execution, StageId::Execution) => true,
            (StageId::MerkleUnwind, StageId::MerkleUnwind) => true,
            (StageId::AccountHashing, StageId::AccountHashing) => true,
            (StageId::StorageHashing, StageId::StorageHashing) => true,
            (StageId::MerkleExecute, StageId::MerkleExecute) => true,
            (StageId::TransactionLookup, StageId::TransactionLookup) => true,
            (StageId::IndexStorageHistory, StageId::IndexStorageHistory) => true,
            (StageId::IndexAccountHistory, StageId::IndexAccountHistory) => true,
            (StageId::Finish, StageId::Finish) => true,
            (StageId::Other(a), StageId::Other(b)) => same_text(a, b),
            _ => false,
        }
    }
}

impl vstd::std_specs::cmp::PartialEqSpecImpl for StageId {
    open spec fn obeys_eq_spec() -> bool {
        true
    }

    open spec fn eq_spec(&self, other: &StageId) -> bool {
        self@ == other@
    }
}

impl Eq for StageId {}

impl StageId {
    /// Return stage id formatted as string.
    pub fn as_str(&self) -> (name: &str)
        ensures
            name@ == self@.name(),
    {
        match self {
            StageId::StaticFile => "StaticFile",
            StageId::Headers => "Headers",
            StageId::Bodies => "Bodies",
            StageId::SenderRecovery => "SenderRecovery",
            StageId::Execution => "Execution",
            StageId::MerkleUnwind => "MerkleUnwind",
            StageId::AccountHashing => "AccountHashing",
            StageId::StorageHashing => "StorageHashing",
            StageId::MerkleExecute => "MerkleExecute",
            StageId::TransactionLookup => "TransactionLookup",
            StageId::IndexAccountHistory => "IndexAccountHistory",
            StageId::IndexStorageHistory => "IndexStorageHistory",
            StageId::Finish => "Finish",
            StageId::Other(s) => s,
        }
    }

    /// The stage id as an owned string, as it is shown and stored: the same
    /// characters as [`StageId::as_str`].
    pub fn display(&self) -> (shown: String)
        ensures
            shown@ == self@.name(),
    {
        self.as_str().to_owned()
    }

    /// Returns true if it's a downloading stage [StageId::Headers] or [StageId::Bodies]
    pub fn is_downloading_stage(&self) -> (downloading: bool)
        ensures
            downloading == (self@ == Stage::Headers || self@ == Stage::Bodies),
    {
        matches!(self, StageId::Headers | StageId::Bodies)
    }

    /// Returns `true` if it's [TransactionLookup](StageId::TransactionLookup) stage.
    pub fn is_tx_lookup(&self) -> (tx_lookup: bool)
        ensures
            tx_lookup == (self@ == Stage::TransactionLookup),
    {
        matches!(self, StageId::TransactionLookup)
    }

    /// Returns true indicating if it's the finish stage [StageId::Finish]
    pub fn is_finish(&self) -> (finish: bool)
        ensures
            finish == (self@ == Stage::Finish),
    {
        matches!(self, StageId::Finish)
    }
}

} // verus!
