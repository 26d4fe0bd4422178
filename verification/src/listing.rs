//! The two fixed listings over the stage identities: the canonical order of
//! the pipeline, and the stages that need durable state before they run.

use crate::id::{Stage, StageId};
use vstd::prelude::*;

verus! {

/// The stages of the default pipeline, in the order in which it runs them.
pub open spec fn canonical_order() -> Seq<Stage> {
    seq![
        Stage::Headers,
        Stage::Bodies,
        Stage::SenderRecovery,
        Stage::Execution,
        Stage::MerkleUnwind,
        Stage::AccountHashing,
        Stage::StorageHashing,
        Stage::MerkleExecute,
        Stage::TransactionLookup,
        Stage::IndexStorageHistory,
        Stage::IndexAccountHistory,
        Stage::Finish,
    ]
}

/// The stages that must not run without a state snapshot of an earlier stage.
pub open spec fn state_required() -> Set<Stage> {
    set![
        Stage::Execution,
        Stage::MerkleUnwind,
        Stage::AccountHashing,
        Stage::StorageHashing,
        Stage::MerkleExecute,
        Stage::IndexStorageHistory,
        Stage::IndexAccountHistory,
    ]
}

/// What a listing of identities holds: the stage of each entry, in order.
pub open spec fn stages_of(listing: Seq<StageId>) -> Seq<Stage> {
    listing.map_values(|id: StageId| id@)
}

impl StageId {
    /// All supported Stages
    pub const ALL: [StageId; 12] = [
        StageId::Headers,
        StageId::Bodies,
        StageId::SenderRecovery,
        StageId::Execution,
        StageId::MerkleUnwind,
        StageId::AccountHashing,
        StageId::StorageHashing,
        StageId::MerkleExecute,
        StageId::TransactionLookup,
        StageId::IndexStorageHistory,
        StageId::IndexAccountHistory,
        StageId::Finish,
    ];

    /// Stages that require state.
    pub const STATE_REQUIRED: [StageId; 7] = [
        StageId::Execution,
        StageId::MerkleUnwind,
        StageId::AccountHashing,
        StageId::StorageHashing,
        StageId::MerkleExecute,
        StageId::IndexStorageHistory,
        StageId::IndexAccountHistory,
    ];

    /// Returns true if the stage is one of [`StageId::STATE_REQUIRED`]: it
    /// needs the state that an earlier stage has left.
    pub fn requires_state(&self) -> (required: bool)
        ensures
            required == state_required().contains(self@),
    {
        match self {
            StageId::Execution => true,
            StageId::MerkleUnwind => true,
            StageId::AccountHashing => true,
            StageId::StorageHashing => true,
            StageId::MerkleExecute => true,
            StageId::IndexStorageHistory => true,
            StageId::IndexAccountHistory => true,
            StageId::StaticFile => false,
            StageId::Headers => false,
            StageId::Bodies => false,
            StageId::SenderRecovery => false,
            StageId::TransactionLookup => false,
            StageId::Finish => false,
            StageId::Other(_) => false,
        }
    }
}

/// [`StageId::ALL`] holds the canonical order, entry by entry.
pub proof fn all_is_canonical_order()
    ensures
        stages_of(StageId::ALL@) == canonical_order(),
{
    assert(stages_of(StageId::ALL@) =~= canonical_order());
}

/// [`StageId::STATE_REQUIRED`] holds the stages that require state, each of
/// them once and no other.
pub proof fn state_required_is_listed()
    ensures
        stages_of(StageId::STATE_REQUIRED@).to_set() == state_required(),
        stages_of(StageId::STATE_REQUIRED@).no_duplicates(),
{
    let listed = stages_of(StageId::STATE_REQUIRED@);
    assert(listed.len() == 7);
    assert(listed[0] == Stage::Execution);
    assert(listed[1] == Stage::MerkleUnwind);
    assert(listed[2] == Stage::AccountHashing);
    assert(listed[3] == Stage::StorageHashing);
    assert(listed[4] == Stage::MerkleExecute);
    assert(listed[5] == Stage::IndexStorageHistory);
    assert(listed[6] == Stage::IndexAccountHistory);
    assert(listed.to_set() =~= state_required());
}

/// The canonical order has exactly twelve entries, no stage stands in it
/// twice, and its first entry is the header stage.
pub proof fn canonical_order_is_distinct_and_starts_with_headers()
    ensures
        StageId::ALL@.len() == 12,
        stages_of(StageId::ALL@).no_duplicates(),
        StageId::ALL@[0]@ == Stage::Headers,
{
    all_is_canonical_order();
    assert(canonical_order().len() == 12);
}

/// Every stage that requires state stands in the canonical order.
pub proof fn state_required_within_canonical_order()
    ensures
        stages_of(StageId::STATE_REQUIRED@).to_set().subset_of(
            stages_of(StageId::ALL@).to_set(),
        ),
        state_required().subset_of(canonical_order().to_set()),
{
    all_is_canonical_order();
    state_required_is_listed();
    let order = canonical_order();
    assert(order[3] == Stage::Execution);
    assert(order[4] == Stage::MerkleUnwind);
    assert(order[5] == Stage::AccountHashing);
    assert(order[6] == Stage::StorageHashing);
    assert(order[7] == Stage::MerkleExecute);
    assert(order[9] == Stage::IndexStorageHistory);
    assert(order[10] == Stage::IndexAccountHistory);
    assert forall|stage: Stage| state_required().contains(stage) implies order.to_set().contains(
        stage,
    ) by {
        assert(order.contains(stage));
    }
}

/// Every stage of the canonical order has a name of at least one character,
/// and none of them is a custom stage or the static file stage.
pub proof fn canonical_names_are_not_empty()
    ensures
        forall|i: int|
            0 <= i < canonical_order().len() ==> (#[trigger] canonical_order()[i]).name().len()
                > 0,
        forall|i: int|
            0 <= i < canonical_order().len() ==> !(#[trigger] canonical_order()[i] is Other)
                && !(canonical_order()[i] is StaticFile),
{
    reveal_strlit("Headers");
    reveal_strlit("Bodies");
    reveal_strlit("SenderRecovery");
    reveal_strlit("Execution");
    reveal_strlit("MerkleUnwind");
    reveal_strlit("AccountHashing");
    reveal_strlit("StorageHashing");
    reveal_strlit("MerkleExecute");
    reveal_strlit("TransactionLookup");
    reveal_strlit("IndexStorageHistory");
    reveal_strlit("IndexAccountHistory");
    reveal_strlit("Finish");
}

/// Of the canonical order, exactly the first two stages are downloading
/// stages, exactly the last is the finish stage, and exactly one is the
/// transaction lookup stage.
pub proof fn canonical_order_classified()
    ensures
        forall|i: int|
            0 <= i < canonical_order().len() ==> ((#[trigger] canonical_order()[i]
                == Stage::Headers || canonical_order()[i] == Stage::Bodies) <==> i < 2),
        forall|i: int|
            0 <= i < canonical_order().len() ==> (#[trigger] canonical_order()[i] == Stage::Finish
                <==> i == 11),
        forall|i: int|
            0 <= i < canonical_order().len() ==> (#[trigger] canonical_order()[i]
                == Stage::TransactionLookup <==> i == 8),
{
}

/// A custom stage is no named stage, whatever its name: it has the name it
/// was given, also where a named stage has that name too.
pub proof fn custom_differs_from_named(text: Seq<char>, named: Stage)
    requires
        !(named is Other),
    ensures
        Stage::Other(text) != named,
        Stage::Other(text).name() == text,
        Stage::Other(named.name()).name() == named.name(),
{
}

/// Two custom stages are the same identity exactly when their names hold
/// the same characters.
pub proof fn custom_equal_by_name(a: Seq<char>, b: Seq<char>)
    ensures
        (Stage::Other(a) == Stage::Other(b)) <==> a == b,
{
}

} // verus!
