//! The runtime: one instance of every pallet, the routing of calls to them,
//! and the replay of blocks.
//!
//! A block is replayed in one pass. Its height must be the next one. Each
//! extrinsic first raises its caller's nonce and is then routed; the first
//! refusal ends the block. Nothing is rolled back: what earlier extrinsics
//! did stays, and so does the nonce that the refused one raised.

use vstd::prelude::*;
use crate::balances;
use crate::balances::{INSUFFICIENT_FUNDS, OVERFLOW};
use crate::proof_of_existence;
use crate::proof_of_existence::{ALREADY_CLAIMED, CLAIM_NOT_FOUND, NOT_OWNER};
use crate::support::{Dispatch, DispatchResult};
use crate::system;
use crate::system::SystemState;
use crate::types::{AccountId, Balance, Block, BlockNumber, Extrinsic, Nonce};

verus! {

/// The state of all pallets, as mathematical values.
#[verifier::ext_equal]
pub struct RuntimeState {
    /// Height and nonces.
    pub system: SystemState,
    /// The ledger, keyed by the account's characters.
    pub balances: Map<Seq<char>, Balance>,
    /// The owner of each claimed content, both as characters.
    pub claims: Map<Seq<char>, Seq<char>>,
}

/// Every call that can be made from outside, tagged with the pallet that
/// takes it.
pub enum RuntimeCall {
    Balances(balances::Call),
    ProofOfExistence(proof_of_existence::Call),
}

impl RuntimeCall {
    /// What the pallet that takes this call answers when `caller` makes it in
    /// state `s`.
    pub open spec fn result_on(self, s: RuntimeState, caller: Seq<char>) -> DispatchResult {
        match self {
            RuntimeCall::Balances(call) => call.result_on(s.balances, caller),
            RuntimeCall::ProofOfExistence(call) => call.result_on(s.claims, caller),
        }
    }

    /// The state after `caller` made this call in state `s`: the pallet that
    /// takes the call has applied it, the others are as they were.
    pub open spec fn apply_to(self, s: RuntimeState, caller: Seq<char>) -> RuntimeState {
        match self {
            RuntimeCall::Balances(call) => RuntimeState {
                balances: call.apply_to(s.balances, caller),
                ..s
            },
            RuntimeCall::ProofOfExistence(call) => RuntimeState {
                claims: call.apply_to(s.claims, caller),
                ..s
            },
        }
    }
}

/// Where the replay of a sequence of extrinsics ends.
pub struct Replay {
    /// The state it leaves.
    pub state: RuntimeState,
    /// The index of the extrinsic that was refused and the reason given, if
    /// one was.
    pub failure: Option<(int, &'static str)>,
}

impl RuntimeState {
    /// The state of a runtime that has taken in nothing.
    pub open spec fn genesis() -> RuntimeState {
        RuntimeState {
            system: SystemState::genesis(),
            balances: Map::empty(),
            claims: Map::empty(),
        }
    }

    /// The state one block higher.
    pub open spec fn raise_height(self) -> RuntimeState {
        RuntimeState { system: self.system.inc_block_number(), ..self }
    }

    /// The state after the nonce of `who` was raised.
    pub open spec fn raise_nonce(self, who: Seq<char>) -> RuntimeState {
        RuntimeState { system: self.system.inc_nonce(who), ..self }
    }

    /// What routing answers for `ext`.
    pub open spec fn extrinsic_result(self, ext: Extrinsic) -> DispatchResult {
        ext.call.result_on(self.raise_nonce(ext.caller@), ext.caller@)
    }

    /// The state after `ext` was taken in: its caller's nonce is raised, then
    /// its call is routed.
    pub open spec fn after_extrinsic(self, ext: Extrinsic) -> RuntimeState {
        ext.call.apply_to(self.raise_nonce(ext.caller@), ext.caller@)
    }

    /// Whether `block` declares the height that follows this state's.
    pub open spec fn expects(self, block: Block) -> bool {
        block.header.block_number == self.system.block_number + 1
    }

    /// The state after `block` was handed in. A block of the wrong height
    /// changes nothing.
    pub open spec fn after_block(self, block: Block) -> RuntimeState {
        if self.expects(block) {
            replay(self.raise_height(), block.extrinsics@).state
        } else {
            self
        }
    }

    /// What the runtime answers when `block` is handed in.
    pub open spec fn block_result(self, block: Block) -> Result<(), BlockExecutionError> {
        if !self.expects(block) {
            Err(
                BlockExecutionError::UnexpectedBlockNumber {
                    current: self.system.block_number as BlockNumber,
                    declared: block.header.block_number,
                },
            )
        } else {
            match replay(self.raise_height(), block.extrinsics@).failure {
                Some((index, reason)) => Err(
                    BlockExecutionError::ExtrinsicFailed {
                        block_number: block.header.block_number,
                        extrinsic_index: index as usize,
                        reason,
                    },
                ),
                None => Ok(()),
            }
        }
    }

    /// The extrinsics of `block` that are taken in when it is handed in: none
    /// where its height is wrong, else all, or those up to and including the
    /// first that is refused.
    pub open spec fn taken_in(self, block: Block) -> Seq<Extrinsic> {
        if self.expects(block) {
            block.extrinsics@.take(attempts(self.raise_height(), block.extrinsics@))
        } else {
            Seq::empty()
        }
    }

    /// Whether every nonce that the replay of `block` raises stays within
    /// `Nonce::MAX`.
    pub open spec fn has_room_for(self, block: Block) -> bool {
        self.expects(block) ==> nonces_fit_from(self.raise_height(), block.extrinsics@, 0)
    }

    /// Whether the nonce of every caller in `block` lies at least the number
    /// of the block's extrinsics below `Nonce::MAX`. This is more than
    /// [`RuntimeState::has_room_for`] asks, and can be tested without
    /// replaying the block.
    pub open spec fn callers_have_room(self, block: Block) -> bool {
        forall|i: int|
            0 <= i < block.extrinsics@.len() ==> self.system.nonce_of(
                (#[trigger] block.extrinsics@[i]).caller@,
            ) + block.extrinsics@.len() <= Nonce::MAX
    }
}

/// The replay of `exts` from index `from` on, begun in state `s`: the
/// extrinsics are taken in one after the other, up to and including the first
/// that is refused.
pub open spec fn replay_from(s: RuntimeState, exts: Seq<Extrinsic>, from: int) -> Replay
    decreases exts.len() - from,
{
    if 0 <= from < exts.len() {
        match s.extrinsic_result(exts[from]) {
            Err(reason) => Replay {
                state: s.after_extrinsic(exts[from]),
                failure: Some((from, reason)),
            },
            Ok(_) => replay_from(s.after_extrinsic(exts[from]), exts, from + 1),
        }
    } else {
        Replay { state: s, failure: None }
    }
}

/// The replay of all of `exts`, begun in state `s`.
pub open spec fn replay(s: RuntimeState, exts: Seq<Extrinsic>) -> Replay {
    replay_from(s, exts, 0)
}

/// Whether the replay of `exts` from index `from` on, begun in state `s`, finds
/// the nonce of each caller below `Nonce::MAX` when it comes to raise it.
pub open spec fn nonces_fit_from(s: RuntimeState, exts: Seq<Extrinsic>, from: int) -> bool
    decreases exts.len() - from,
{
    if 0 <= from < exts.len() {
        &&& s.system.nonce_of(exts[from].caller@) < Nonce::MAX
        &&& (s.extrinsic_result(exts[from]) is Ok ==> nonces_fit_from(
            s.after_extrinsic(exts[from]),
            exts,
            from + 1,
        ))
    } else {
        true
    }
}

/// How many of `exts` a replay begun in state `s` takes in: all of them, or
/// those up to and including the first that is refused.
pub open spec fn attempts(s: RuntimeState, exts: Seq<Extrinsic>) -> int {
    match replay(s, exts).failure {
        Some((index, _)) => index + 1,
        None => exts.len() as int,
    }
}

/// How many of `exts` have `who` as their caller.
pub open spec fn authored_by(exts: Seq<Extrinsic>, who: Seq<char>) -> nat
    decreases exts.len(),
{
    if exts.len() == 0 {
        0
    } else if exts.first().caller@ == who {
        1 + authored_by(exts.drop_first(), who)
    } else {
        authored_by(exts.drop_first(), who)
    }
}

/// The state after `blocks` were handed in one after the other, begun in
/// state `s`. A refused block does not keep the next one from being handed in.
pub open spec fn after_blocks(s: RuntimeState, blocks: Seq<Block>) -> RuntimeState
    decreases blocks.len(),
{
    if blocks.len() == 0 {
        s
    } else {
        after_blocks(s, blocks.drop_last()).after_block(blocks.last())
    }
}

/// The extrinsics that were taken in while `blocks` were handed in one after
/// the other, begun in state `s`, in the order in which they were taken in.
pub open spec fn taken_in_blocks(s: RuntimeState, blocks: Seq<Block>) -> Seq<Extrinsic>
    decreases blocks.len(),
{
    if blocks.len() == 0 {
        Seq::empty()
    } else {
        taken_in_blocks(s, blocks.drop_last()) + after_blocks(s, blocks.drop_last()).taken_in(
            blocks.last(),
        )
    }
}

/// Why a block was not taken in whole.
#[derive(Debug, Clone, Copy, PartialEq, Eq)]
pub enum BlockExecutionError {
    /// The block does not declare the height that follows the current one.
    /// Nothing was changed.
    UnexpectedBlockNumber { current: BlockNumber, declared: BlockNumber },
    /// The extrinsic at `extrinsic_index` was refused for `reason`, and the
    /// extrinsics behind it were not taken in.
    ExtrinsicFailed { block_number: BlockNumber, extrinsic_index: usize, reason: &'static str },
}

/// One instance of every pallet.
pub struct Runtime {
    pub system: system::Pallet,
    pub balances: balances::Pallet,
    pub proof_of_existence: proof_of_existence::Pallet,
}

impl View for Runtime {
    type V = RuntimeState;

    open spec fn view(&self) -> RuntimeState {
        RuntimeState {
            system: self.system@,
            balances: self.balances@,
            claims: self.proof_of_existence@,
        }
    }
}

impl Runtime {
    /// A runtime that has taken in nothing.
    pub fn new() -> (runtime: Self)
        ensures
            runtime@ == RuntimeState::genesis(),
    {
        Self {
            system: system::Pallet::new(),
            balances: balances::Pallet::new(),
            proof_of_existence: proof_of_existence::Pallet::new(),
        }
    }

    /// Tests whether the nonces of the callers in `block` leave room for its
    /// replay. Where they do, [`Runtime::execute_block`] may be called.
    pub fn callers_have_room(&self, block: &Block) -> (ok: bool)
        ensures
            ok == self@.callers_have_room(*block),
            ok ==> self@.has_room_for(*block),
    {
        let count = block.extrinsics.len();
        let mut i: usize = 0;
        while i < count
            invariant
                i <= count,
                count == block.extrinsics@.len(),
                forall|j: int|
                    0 <= j < i ==> self@.system.nonce_of((#[trigger] block.extrinsics@[j]).caller@)
                        + count <= Nonce::MAX,
            decreases count - i,
        {
            let nonce = match self.system.nonce(&block.extrinsics[i].caller) {
                Some(stored) => stored,
                None => 0,
            };
            if count > (Nonce::MAX - nonce) as usize {
                return false;
            }
            i += 1;
        }
        proof {
            callers_with_room_fit(self@, *block);
        }
        true
    }

    /// Replays `block`.
    ///
    /// A block whose declared height is not the current height plus one is
    /// refused with [`BlockExecutionError::UnexpectedBlockNumber`] and changes
    /// nothing. Otherwise the height is raised, and the extrinsics are taken
    /// in order: the caller's nonce is raised, then the call is routed. The
    /// first refusal ends the replay with
    /// [`BlockExecutionError::ExtrinsicFailed`]; what was done up to then,
    /// the refused extrinsic's nonce included, stays.
    ///
    /// No nonce may leave the range of `Nonce` on the way; see
    /// [`Runtime::callers_have_room`] for a test.
    pub fn execute_block(&mut self, block: Block) -> (r: Result<(), BlockExecutionError>)
        requires
            old(self)@.has_room_for(block),
        ensures
            r == old(self)@.block_result(block),
            final(self)@ == old(self)@.after_block(block),
    {
        let declared = block.header.block_number;
        let current = self.system.block_number();
        if current == BlockNumber::MAX || declared != current + 1 {
            return Err(BlockExecutionError::UnexpectedBlockNumber { current, declared });
        }
        self.system.inc_block_number();

        let ghost start = self@;
        let ghost exts = block.extrinsics@;
        assert(exts.len() == block.extrinsics.len());
        let mut i: usize = 0;
        for ext in it: block.extrinsics.into_iter()
            invariant
                i == it.index(),
                it.seq() == exts,
                exts == block.extrinsics@,
                exts.len() <= usize::MAX,
                declared == block.header.block_number,
                old(self)@.expects(block),
                start == old(self)@.raise_height(),
                replay_from(self@, exts, i as int) == replay(start, exts),
                nonces_fit_from(self@, exts, i as int),
        {
            let Extrinsic { caller, call } = ext;
            self.system.inc_nonce(&caller);
            let res = self.dispatch(caller, call);
            if let Err(reason) = res {
                return Err(
                    BlockExecutionError::ExtrinsicFailed {
                        block_number: declared,
                        extrinsic_index: i,
                        reason,
                    },
                );
            }
            i += 1;
        }
        Ok(())
    }
}

impl Dispatch for Runtime {
    type Caller = AccountId;

    type Call = RuntimeCall;

    /// Routes `call` to the pallet that takes it and hands that pallet's
    /// answer back unchanged. Height and nonces are not touched.
    fn dispatch(&mut self, caller: AccountId, call: RuntimeCall) -> (r: DispatchResult)
        ensures
            r == call.result_on(old(self)@, caller@),
            final(self)@ == call.apply_to(old(self)@, caller@),
    {
        match call {
            RuntimeCall::Balances(call) => self.balances.dispatch(caller, call),
            RuntimeCall::ProofOfExistence(call) => self.proof_of_existence.dispatch(caller, call),
        }
    }
}

/// A call that is refused leaves the state as it was.
pub proof fn refused_call_changes_nothing(s: RuntimeState, caller: Seq<char>, call: RuntimeCall)
    requires
        call.result_on(s, caller) is Err,
    ensures
        call.apply_to(s, caller) == s,
{
}

/// A replay that is refused is refused at an index it has come to.
proof fn refusal_is_in_range(s: RuntimeState, exts: Seq<Extrinsic>, from: int)
    requires
        0 <= from,
    ensures
        match replay_from(s, exts, from).failure {
            Some((index, _)) => from <= index < exts.len(),
            None => true,
        },
    decreases exts.len() - from,
{
    if from < exts.len() && s.extrinsic_result(exts[from]) is Ok {
        refusal_is_in_range(s.after_extrinsic(exts[from]), exts, from + 1);
    }
}

/// The replay of the extrinsics before a refusal, on their own, is not refused
/// and ends in the state in which the refused extrinsic was taken in.
proof fn replay_up_to_refusal(
    s: RuntimeState,
    exts: Seq<Extrinsic>,
    from: int,
    index: int,
    reason: &'static str,
)
    requires
        0 <= from,
        replay_from(s, exts, from).failure == Some((index, reason)),
    ensures
        from <= index < exts.len(),
        replay_from(s, exts.take(index), from).failure is None,
        replay_from(s, exts.take(index), from).state.extrinsic_result(exts[index]) == Err::<
            (),
            &'static str,
        >(reason),
        replay_from(s, exts, from).state == replay_from(
            s,
            exts.take(index),
            from,
        ).state.after_extrinsic(exts[index]),
    decreases exts.len() - from,
{
    refusal_is_in_range(s, exts, from);
    let next = s.after_extrinsic(exts[from]);
    if s.extrinsic_result(exts[from]) is Ok {
        refusal_is_in_range(next, exts, from + 1);
        assert(exts.take(index)[from] == exts[from]);
        replay_up_to_refusal(next, exts, from + 1, index, reason);
    } else {
        assert(exts.take(index).len() == from);
    }
}

/// The replay of a sequence that agrees with `exts` up to and including the
/// extrinsic that is refused ends as the replay of `exts` does.
proof fn replay_with_other_tail(
    s: RuntimeState,
    exts: Seq<Extrinsic>,
    others: Seq<Extrinsic>,
    from: int,
    index: int,
    reason: &'static str,
)
    requires
        0 <= from,
        replay_from(s, exts, from).failure == Some((index, reason)),
        others.len() > index,
        others.take(index + 1) == exts.take(index + 1),
    ensures
        replay_from(s, others, from) == replay_from(s, exts, from),
    decreases exts.len() - from,
{
    refusal_is_in_range(s, exts, from);
    assert(others[from] == exts[from]) by {
        assert(others.take(index + 1)[from] == others[from]);
        assert(exts.take(index + 1)[from] == exts[from]);
    }
    if s.extrinsic_result(exts[from]) is Ok {
        replay_with_other_tail(
            s.after_extrinsic(exts[from]),
            exts,
            others,
            from + 1,
            index,
            reason,
        );
    }
}

/// A block fails fast and is not rolled back. Where the replay of `exts` is
/// refused at `index`: every extrinsic before `index` was accepted; the state
/// that the replay leaves is the one that those extrinsics led to, with the
/// nonce of the refused extrinsic's caller raised and nothing else changed;
/// and `reason` is what routing answered for the refused extrinsic there.
pub proof fn refusal_keeps_what_was_done(
    s: RuntimeState,
    exts: Seq<Extrinsic>,
    index: int,
    reason: &'static str,
)
    requires
        replay(s, exts).failure == Some((index, reason)),
    ensures
        0 <= index < exts.len(),
        replay(s, exts.take(index)).failure is None,
        replay(s, exts.take(index)).state.extrinsic_result(exts[index]) == Err::<
            (),
            &'static str,
        >(reason),
        replay(s, exts).state == replay(s, exts.take(index)).state.raise_nonce(
            exts[index].caller@,
        ),
{
    replay_up_to_refusal(s, exts, 0, index, reason);
    let before = replay(s, exts.take(index)).state;
    refused_call_changes_nothing(
        before.raise_nonce(exts[index].caller@),
        exts[index].caller@,
        exts[index].call,
    );
}

/// The extrinsics behind a refused one are never taken in: where the replay
/// of `exts` is refused at `index`, the replay of any sequence that agrees
/// with `exts` up to and including `index` has the same end.
pub proof fn refusal_hides_what_follows(
    s: RuntimeState,
    exts: Seq<Extrinsic>,
    others: Seq<Extrinsic>,
    index: int,
    reason: &'static str,
)
    requires
        replay(s, exts).failure == Some((index, reason)),
        others.len() > index,
        others.take(index + 1) == exts.take(index + 1),
    ensures
        replay(s, others) == replay(s, exts),
{
    replay_with_other_tail(s, exts, others, 0, index, reason);
}

/// Where no extrinsic is refused, the replay ends in the state that taking
/// the extrinsics in one after the other leads to, the last one included.
pub proof fn accepted_replay_takes_in_all(s: RuntimeState, exts: Seq<Extrinsic>)
    requires
        exts.len() > 0,
        replay(s, exts).failure is None,
    ensures
        replay(s, exts.drop_last()).failure is None,
        replay(s, exts.drop_last()).state.extrinsic_result(exts.last()) is Ok,
        replay(s, exts).state == replay(s, exts.drop_last()).state.after_extrinsic(exts.last()),
{
    accepted_replay_unrolls(s, exts, 0);
}

/// The same from any index on.
proof fn accepted_replay_unrolls(s: RuntimeState, exts: Seq<Extrinsic>, from: int)
    requires
        0 <= from < exts.len(),
        replay_from(s, exts, from).failure is None,
    ensures
        replay_from(s, exts.drop_last(), from).failure is None,
        replay_from(s, exts.drop_last(), from).state.extrinsic_result(exts.last()) is Ok,
        replay_from(s, exts, from).state == replay_from(
            s,
            exts.drop_last(),
            from,
        ).state.after_extrinsic(exts.last()),
    decreases exts.len() - from,
{
    let next = s.after_extrinsic(exts[from]);
    if from + 1 < exts.len() {
        assert(exts.drop_last()[from] == exts[from]);
        accepted_replay_unrolls(next, exts, from + 1);
    } else {
        assert(exts.drop_last().len() == from);
        assert(exts.last() == exts[from]);
        assert(replay_from(next, exts, from + 1).state == next);
    }
}

/// Counting callers in two sequences laid end to end adds up.
pub proof fn authored_by_adds_up(a: Seq<Extrinsic>, b: Seq<Extrinsic>, who: Seq<char>)
    ensures
        authored_by(a + b, who) == authored_by(a, who) + authored_by(b, who),
    decreases a.len(),
{
    if a.len() == 0 {
        assert(a + b =~= b);
    } else {
        assert((a + b).drop_first() =~= a.drop_first() + b);
        authored_by_adds_up(a.drop_first(), b, who);
    }
}

/// The replay from index `from` on raises the nonce of `who` by the number of
/// extrinsics with caller `who` between `from` and where the replay stops.
proof fn nonce_counts_from(s: RuntimeState, exts: Seq<Extrinsic>, who: Seq<char>, from: int)
    requires
        0 <= from <= exts.len(),
    ensures
        ({
            let end = replay_from(s, exts, from);
            let stop = match end.failure {
                Some((index, _)) => index + 1,
                None => exts.len() as int,
            };
            &&& from <= stop <= exts.len()
            &&& end.state.system.nonce_of(who) == s.system.nonce_of(who) + authored_by(
                exts.subrange(from, stop),
                who,
            )
        }),
    decreases exts.len() - from,
{
    refusal_is_in_range(s, exts, from);
    if from < exts.len() {
        let next = s.after_extrinsic(exts[from]);
        let end = replay_from(s, exts, from);
        let stop = match end.failure {
            Some((index, _)) => index + 1,
            None => exts.len() as int,
        };
        if s.extrinsic_result(exts[from]) is Ok {
            refusal_is_in_range(next, exts, from + 1);
            nonce_counts_from(next, exts, who, from + 1);
        }
        let taken = exts.subrange(from, stop);
        assert(taken.first() == exts[from]);
        assert(taken.drop_first() =~= exts.subrange(from + 1, stop));
        if s.extrinsic_result(exts[from]) is Err {
            assert(authored_by(exts.subrange(from + 1, stop), who) == 0);
        }
        assert(next.system == s.system.inc_nonce(exts[from].caller@));
    } else {
        assert(exts.subrange(from, from).len() == 0);
    }
}

/// A nonce counts the extrinsics that its account authored and that were
/// taken in, accepted or refused: the replay of `exts` raises the nonce of
/// `who` by the number of extrinsics with caller `who` among those it takes in.
pub proof fn nonce_counts_extrinsics(s: RuntimeState, exts: Seq<Extrinsic>, who: Seq<char>)
    ensures
        0 <= attempts(s, exts) <= exts.len(),
        replay(s, exts).state.system.nonce_of(who) == s.system.nonce_of(who) + authored_by(
            exts.take(attempts(s, exts)),
            who,
        ),
{
    nonce_counts_from(s, exts, who, 0);
}

/// The same of a block: handing in `block` raises the nonce of `who` by the
/// number of extrinsics with caller `who` among those of the block that are
/// taken in; for a block of the wrong height these are none.
pub proof fn nonce_counts_extrinsics_of_block(s: RuntimeState, block: Block, who: Seq<char>)
    ensures
        s.after_block(block).system.nonce_of(who) == s.system.nonce_of(who) + authored_by(
            s.taken_in(block),
            who,
        ),
{
    if s.expects(block) {
        nonce_counts_extrinsics(s.raise_height(), block.extrinsics@, who);
    }
}

/// The same over any number of blocks: after `blocks` were handed in one
/// after the other, the nonce of `who` has risen by the number of extrinsics
/// with caller `who` among all that were taken in. From
/// [`RuntimeState::genesis`] on, the nonce is that number.
pub proof fn nonce_counts_extrinsics_of_blocks(
    s: RuntimeState,
    blocks: Seq<Block>,
    who: Seq<char>,
)
    ensures
        after_blocks(s, blocks).system.nonce_of(who) == s.system.nonce_of(who) + authored_by(
            taken_in_blocks(s, blocks),
            who,
        ),
        s == RuntimeState::genesis() ==> after_blocks(s, blocks).system.nonce_of(who)
            == authored_by(taken_in_blocks(s, blocks), who),
    decreases blocks.len(),
{
    if blocks.len() > 0 {
        let before = after_blocks(s, blocks.drop_last());
        nonce_counts_extrinsics_of_blocks(s, blocks.drop_last(), who);
        nonce_counts_extrinsics_of_block(before, blocks.last(), who);
        authored_by_adds_up(
            taken_in_blocks(s, blocks.drop_last()),
            before.taken_in(blocks.last()),
            who,
        );
    }
}

/// Callers whose nonces lie far enough below `Nonce::MAX` leave room for a
/// block: where [`RuntimeState::callers_have_room`] holds, so does
/// [`RuntimeState::has_room_for`].
pub proof fn callers_with_room_fit(s: RuntimeState, block: Block)
    requires
        s.callers_have_room(block),
    ensures
        s.has_room_for(block),
{
    callers_with_room_fit_from(s.raise_height(), block.extrinsics@, 0);
}

/// The same from any index on, with room for the extrinsics that are left.
proof fn callers_with_room_fit_from(s: RuntimeState, exts: Seq<Extrinsic>, from: int)
    requires
        0 <= from,
        forall|i: int|
            from <= i < exts.len() ==> s.system.nonce_of((#[trigger] exts[i]).caller@) + exts.len()
                - from <= Nonce::MAX,
    ensures
        nonces_fit_from(s, exts, from),
    decreases exts.len() - from,
{
    if from < exts.len() {
        let next = s.after_extrinsic(exts[from]);
        assert(next.system == s.system.inc_nonce(exts[from].caller@));
        assert forall|i: int| from + 1 <= i < exts.len() implies next.system.nonce_of(
            (#[trigger] exts[i]).caller@,
        ) + exts.len() - (from + 1) <= Nonce::MAX by {
            assert(s.system.nonce_of(exts[i].caller@) + exts.len() - from <= Nonce::MAX);
        }
        assert(s.system.nonce_of(exts[from].caller@) + exts.len() - from <= Nonce::MAX);
        callers_with_room_fit_from(next, exts, from + 1);
    }
}

/// The five reasons for which a call is refused differ from one another, so
/// that the reason tells which rule refused the call.
pub proof fn reasons_differ()
    ensures
        INSUFFICIENT_FUNDS != OVERFLOW,
        INSUFFICIENT_FUNDS != ALREADY_CLAIMED,
        INSUFFICIENT_FUNDS != CLAIM_NOT_FOUND,
        INSUFFICIENT_FUNDS != NOT_OWNER,
        OVERFLOW != ALREADY_CLAIMED,
        OVERFLOW != CLAIM_NOT_FOUND,
        OVERFLOW != NOT_OWNER,
        ALREADY_CLAIMED != CLAIM_NOT_FOUND,
        ALREADY_CLAIMED != NOT_OWNER,
        CLAIM_NOT_FOUND != NOT_OWNER,
{
    reveal_strlit("Not enough funds.");
    reveal_strlit("Overflow");
    reveal_strlit("this content is already claimed");
    reveal_strlit("claim does not exist");
    reveal_strlit("this content is owned by someone else");
    assert(INSUFFICIENT_FUNDS@.len() == 17);
    assert(OVERFLOW@.len() == 8);
    assert(ALREADY_CLAIMED@.len() == 31);
    assert(CLAIM_NOT_FOUND@.len() == 20);
    assert(NOT_OWNER@.len() == 37);
}

} // verus!
