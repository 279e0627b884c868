//! Applied block effects, keyed by block number, and their rollback.

use crate::error::StreamError;
use crate::model::BlockRef;
use crate::text::{decimal, decimal_of};
use vstd::prelude::*;
use vstd::string::StringExecFns;

verus! {

/// What applying one block left behind.
#[derive(Clone, Debug, PartialEq, Eq)]
pub struct BlockSummary {
    pub block_number: u64,
    /// The payload's type, without the type-URL prefix.
    pub payload_type: String,
    /// The payload's size in bytes.
    pub payload_len: usize,
}

/// The effect of one block as a mathematical value.
pub ghost struct Effect {
    pub payload_type: Seq<char>,
    pub payload_len: nat,
}

impl View for BlockSummary {
    type V = Effect;

    open spec fn view(&self) -> Effect {
        Effect { payload_type: self.payload_type@, payload_len: self.payload_len as nat }
    }
}

impl BlockSummary {
    /// The report line of a block: its number, its payload type and the
    /// payload's size.
    pub open spec fn line_of(self) -> Seq<char> {
        "Block #"@ + decimal_of(self.block_number as nat) + " - Payload "@ + self.payload_type@
            + " ("@ + decimal_of(self.payload_len as nat) + " bytes)"@
    }

    /// The report line, such as `Block #12 - Payload eth.Transfers (8 bytes)`.
    pub fn line(&self) -> (text: String)
        ensures
            text@ == self.line_of(),
    {
        let mut text = String::from_str("Block #");
        let number = decimal(self.block_number);
        text.append(number.as_str());
        text.append(" - Payload ");
        text.append(self.payload_type.as_str());
        text.append(" (");
        let size = decimal(self.payload_len as u64);
        text.append(size.as_str());
        text.append(" bytes)");
        text
    }

    /// An equal summary that the caller owns.
    pub fn duplicate(&self) -> (s: BlockSummary)
        ensures
            s == *self,
    {
        BlockSummary {
            block_number: self.block_number,
            payload_type: self.payload_type.clone(),
            payload_len: self.payload_len,
        }
    }
}

/// The effects in place after a rollback to block `last_valid`: those of the
/// blocks up to and including it, unchanged.
pub open spec fn rolled_back(effects: Map<u64, Effect>, last_valid: u64) -> Map<u64, Effect> {
    effects.restrict(Set::new(|n: u64| n <= last_valid))
}

/// Whether an entry for block `number` survives a pruning that drops every
/// block above `limit` and the block `skip`.
pub open spec fn keeps(number: u64, limit: u64, skip: Option<u64>) -> bool {
    number <= limit && skip != Some(number)
}

/// The entries that survive a pruning, in their order.
pub open spec fn pruned(entries: Seq<BlockSummary>, limit: u64, skip: Option<u64>) -> Seq<BlockSummary>
    decreases entries.len(),
{
    if entries.len() == 0 {
        Seq::empty()
    } else {
        let rest = pruned(entries.drop_last(), limit, skip);
        if keeps(entries.last().block_number, limit, skip) {
            rest.push(entries.last())
        } else {
            rest
        }
    }
}

/// The effects that a sequence of entries stands for: a later entry for a
/// block replaces an earlier one.
pub open spec fn effects_of(entries: Seq<BlockSummary>) -> Map<u64, Effect>
    decreases entries.len(),
{
    if entries.len() == 0 {
        Map::empty()
    } else {
        effects_of(entries.drop_last()).insert(entries.last().block_number, entries.last()@)
    }
}

proof fn lemma_pruned_effects(entries: Seq<BlockSummary>, limit: u64, skip: Option<u64>)
    ensures
        effects_of(pruned(entries, limit, skip)) == Map::new(
            |n: u64| effects_of(entries).dom().contains(n) && keeps(n, limit, skip),
            |n: u64| effects_of(entries)[n],
        ),
    decreases entries.len(),
{
    let target = Map::new(
        |n: u64| effects_of(entries).dom().contains(n) && keeps(n, limit, skip),
        |n: u64| effects_of(entries)[n],
    );
    if entries.len() == 0 {
        assert(effects_of(pruned(entries, limit, skip)) =~= target);
    } else {
        lemma_pruned_effects(entries.drop_last(), limit, skip);
        let rest = pruned(entries.drop_last(), limit, skip);
        if keeps(entries.last().block_number, limit, skip) {
            assert(rest.push(entries.last()).drop_last() =~= rest);
            assert(rest.push(entries.last()).last() == entries.last());
        }
        assert(effects_of(pruned(entries, limit, skip)) =~= target);
    }
}

/// The capability to unwind applied effects when the chain reorganizes.
pub trait ReorgHandler {
    /// The effects currently in place, by block number.
    spec fn in_place(&self) -> Map<u64, Effect>;

    /// Whether the handler, as it stands, is able to unwind to block
    /// `last_valid`.
    spec fn can_undo(&self, last_valid: u64) -> bool;

    /// Discards every effect of a block above `last_valid_block`. It succeeds
    /// exactly when the handler is able to unwind that far; on failure
    /// nothing is discarded.
    fn apply_undo(&mut self, last_valid_block: &BlockRef) -> (r: Result<(), StreamError>)
        ensures
            r is Ok <==> old(self).can_undo(last_valid_block.number),
            r is Ok ==> final(self).in_place() == rolled_back(
                old(self).in_place(),
                last_valid_block.number,
            ),
            r is Err ==> final(self).in_place() == old(self).in_place(),
    ;
}

/// An in-memory record of applied blocks.
#[derive(Clone, Debug, PartialEq, Eq)]
pub struct Ledger {
    entries: Vec<BlockSummary>,
}

impl View for Ledger {
    type V = Map<u64, Effect>;

    closed spec fn view(&self) -> Map<u64, Effect> {
        effects_of(self.entries@)
    }
}

impl Ledger {
    /// A ledger with no block applied.
    pub fn new() -> (l: Ledger)
        ensures
            l@ == Map::<u64, Effect>::empty(),
    {
        Ledger { entries: Vec::new() }
    }

    fn prune(&mut self, limit: u64, skip: Option<u64>)
        ensures
            final(self).entries@ == pruned(old(self).entries@, limit, skip),
    {
        let mut kept: Vec<BlockSummary> = Vec::new();
        let mut i: usize = 0;
        while i < self.entries.len()
            invariant
                i <= self.entries.len(),
                kept@ == pruned(self.entries@.take(i as int), limit, skip),
            decreases self.entries.len() - i,
        {
            let entry = &self.entries[i];
            let outside = match skip {
                Some(n) => n == entry.block_number,
                None => false,
            };
            proof {
                assert(self.entries@.take(i + 1).drop_last() =~= self.entries@.take(i as int));
            }
            if entry.block_number <= limit && !outside {
                kept.push(entry.duplicate());
            }
            i = i + 1;
        }
        proof {
            assert(self.entries@.take(i as int) =~= self.entries@);
        }
        self.entries = kept;
    }

    /// Records the effect of a block. An effect already recorded for the same
    /// block number is replaced, so applying a block twice equals applying it once.
    pub fn apply(&mut self, summary: BlockSummary)
        ensures
            final(self)@ == old(self)@.insert(summary.block_number, summary@),
    {
        let ghost before = self.entries@;
        let ghost number = summary.block_number;
        self.prune(u64::MAX, Some(summary.block_number));
        let ghost rest = self.entries@;
        self.entries.push(summary);
        proof {
            lemma_pruned_effects(before, u64::MAX, Some(number));
            assert(self.entries@.drop_last() =~= rest);
            assert(self@ =~= effects_of(before).insert(number, summary@));
        }
    }

    /// Discards the effect of every block above `last_valid`.
    pub fn rollback(&mut self, last_valid: u64)
        ensures
            final(self)@ == rolled_back(old(self)@, last_valid),
    {
        let ghost before = self.entries@;
        self.prune(last_valid, None);
        proof {
            lemma_pruned_effects(before, last_valid, None);
            assert(self@ =~= rolled_back(effects_of(before), last_valid));
        }
    }

    /// The effect recorded for block `number`, if any.
    pub fn effect_of(&self, number: u64) -> (r: Option<BlockSummary>)
        ensures
            r is Some <==> self@.dom().contains(number),
            r is Some ==> r.unwrap().block_number == number && r.unwrap()@ == self@[number],
    {
        let mut found: Option<usize> = None;
        let mut i: usize = 0;
        while i < self.entries.len()
            invariant
                i <= self.entries.len(),
                found is Some <==> effects_of(self.entries@.take(i as int)).dom().contains(number),
                found is Some ==> found.unwrap() < i && self.entries@[found.unwrap() as int].block_number
                    == number && self.entries@[found.unwrap() as int]@ == effects_of(
                    self.entries@.take(i as int),
                )[number],
            decreases self.entries.len() - i,
        {
            proof {
                assert(self.entries@.take(i + 1).drop_last() =~= self.entries@.take(i as int));
            }
            if self.entries[i].block_number == number {
                found = Some(i);
            }
            i = i + 1;
        }
        proof {
            assert(self.entries@.take(i as int) =~= self.entries@);
        }
        match found {
            Some(at) => Some(self.entries[at].duplicate()),
            None => None,
        }
    }

    /// Whether an effect is recorded for block `number`.
    pub fn contains(&self, number: u64) -> (b: bool)
        ensures
            b == self@.dom().contains(number),
    {
        self.effect_of(number).is_some()
    }
}

impl ReorgHandler for Ledger {
    open spec fn in_place(&self) -> Map<u64, Effect> {
        self@
    }

    /// A ledger can always unwind.
    open spec fn can_undo(&self, last_valid: u64) -> bool {
        true
    }

    fn apply_undo(&mut self, last_valid_block: &BlockRef) -> (r: Result<(), StreamError>) {
        self.rollback(last_valid_block.number);
        Ok(())
    }
}

/// Applying the same block twice leaves what applying it once leaves.
pub proof fn lemma_apply_is_idempotent(effects: Map<u64, Effect>, number: u64, effect: Effect)
    ensures
        effects.insert(number, effect).insert(number, effect) == effects.insert(number, effect),
{
    assert(effects.insert(number, effect).insert(number, effect) =~= effects.insert(
        number,
        effect,
    ));
}

/// A rollback removes every block above the last valid one and leaves every
/// other block exactly as it was.
pub proof fn lemma_rollback_discards_above(effects: Map<u64, Effect>, last_valid: u64, number: u64)
    ensures
        number > last_valid ==> !rolled_back(effects, last_valid).dom().contains(number),
        number <= last_valid ==> (rolled_back(effects, last_valid).dom().contains(number)
            <==> effects.dom().contains(number)),
        number <= last_valid && effects.dom().contains(number) ==> rolled_back(
            effects,
            last_valid,
        )[number] == effects[number],
{
}

/// A rollback delivered twice leaves what one rollback leaves.
pub proof fn lemma_rollback_is_idempotent(effects: Map<u64, Effect>, last_valid: u64)
    ensures
        rolled_back(rolled_back(effects, last_valid), last_valid) == rolled_back(
            effects,
            last_valid,
        ),
{
    assert(rolled_back(rolled_back(effects, last_valid), last_valid) =~= rolled_back(
        effects,
        last_valid,
    ));
}

/// After a rollback, a block from another fork is recorded like any other:
/// it is in place afterwards, at any number, and blocks below it stay.
pub proof fn lemma_apply_after_rollback(
    effects: Map<u64, Effect>,
    last_valid: u64,
    number: u64,
    effect: Effect,
)
    ensures
        rolled_back(effects, last_valid).insert(number, effect)[number] == effect,
        rolled_back(effects, last_valid).insert(number, effect).dom().contains(number),
        forall|n: u64|
            n != number ==> (#[trigger] rolled_back(effects, last_valid).insert(
                number,
                effect,
            ).dom().contains(n) <==> n <= last_valid && effects.dom().contains(n)),
{
}

} // verus!
