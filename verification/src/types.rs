//! Data model: values, rounds, steps, the replica state, and the event and
//! message alphabets of the consensus core.

use vstd::prelude::*;

verus! {

/// Opaque identifier of a proposed value (conceptually the hash of a block).
/// The core compares values only for equality.
#[derive(Clone, Copy, Debug, PartialEq, Eq, Structural)]
pub struct Value {
    pub id: u64,
}

/// A value together with the round in which it was recorded.
#[derive(Clone, Copy, Debug, PartialEq, Eq, Structural)]
pub struct RoundValue {
    pub round: i64,
    pub value: Value,
}

/// The replica's position within one round of the protocol.
/// `Commit` is terminal within a height.
#[derive(Clone, Copy, Debug, PartialEq, Eq, Structural)]
pub enum RoundStep {
    NewRound,
    Propose,
    Prevote,
    Precommit,
    Commit,
}

/// The replica's consensus state for one height.
#[derive(Clone, Copy, Debug, PartialEq, Eq)]
pub struct State {
    /// Index of the value being decided; never changed by the step function.
    pub height: i64,
    /// Retry counter within the height; never decreases.
    pub round: i64,
    /// Current protocol step of the round.
    pub step: RoundStep,
    /// The value this replica has precommitted to, if any, with the round of
    /// the lock; released only under specific conditions.
    pub locked: Option<RoundValue>,
    /// The most recent value seen to reach a prevote quorum (a polka), kept
    /// for re-proposal when this replica becomes proposer.
    pub valid: Option<RoundValue>,
}

impl State {
    /// Data-model invariants of a state: height and round are non-negative,
    /// the initial `NewRound` step only occurs at round 0, a lock implies a
    /// remembered valid value at a round at least as late as the lock's, and
    /// both `locked` and `valid` date from the current round or earlier.
    pub open spec fn wf(self) -> bool {
        &&& self.height >= 0
        &&& self.round >= 0
        &&& (self.step is NewRound ==> self.round == 0)
        &&& (self.locked matches Some(l) ==> {
                &&& 0 <= l.round <= self.round
                &&& self.valid matches Some(va) && l.round <= va.round
            })
        &&& (self.valid matches Some(va) ==> 0 <= va.round <= self.round)
    }

    /// A fresh state for the given height: round 0, step `NewRound`, nothing
    /// locked and nothing recorded as valid. Locks never cross heights.
    pub fn new(height: i64) -> (s: State)
        requires
            height >= 0,
        ensures
            s == (State {
                height: height,
                round: 0,
                step: RoundStep::NewRound,
                locked: None::<RoundValue>,
                valid: None::<RoundValue>,
            }),
            s.wf(),
    {
        State { height, round: 0, step: RoundStep::NewRound, locked: None, valid: None }
    }

    /// Functional update of the round; every other field is kept.
    pub fn set_round(self, round: i64) -> (s: State)
        ensures
            s == (State {
                height: self.height,
                round: round,
                step: self.step,
                locked: self.locked,
                valid: self.valid,
            }),
    {
        State { round, ..self }
    }

    /// Functional update of the step; every other field is kept.
    pub fn set_step(self, step: RoundStep) -> (s: State)
        ensures
            s == (State {
                height: self.height,
                round: self.round,
                step: step,
                locked: self.locked,
                valid: self.valid,
            }),
    {
        State { step, ..self }
    }

    /// Locks the given value at the current round; every other field is kept.
    pub fn set_locked(self, locked: Value) -> (s: State)
        ensures
            s == (State {
                height: self.height,
                round: self.round,
                step: self.step,
                locked: Some(RoundValue { round: self.round, value: locked }),
                valid: self.valid,
            }),
    {
        State { locked: Some(RoundValue { round: self.round, value: locked }), ..self }
    }

    /// Records the given value as valid at the current round; every other
    /// field is kept.
    pub fn set_valid(self, valid: Value) -> (s: State)
        ensures
            s == (State {
                height: self.height,
                round: self.round,
                step: self.step,
                locked: self.locked,
                valid: Some(RoundValue { round: self.round, value: valid }),
            }),
    {
        State { valid: Some(RoundValue { round: self.round, value: valid }), ..self }
    }
}

/// An event synthesized by the driver from network, timer and proposer-role
/// signals; each call of the step function consumes exactly one.
#[derive(Clone, Copy, Debug, PartialEq, Eq, Structural)]
pub enum Event {
    /// Enter round `r` as a non-proposer.
    NewRound(i64),
    /// Enter round `r` as the proposer, with a freshly assembled value.
    NewRoundProposer(i64, Value),
    /// A complete, validated proposal for round `r`.
    Proposal(i64, Value),
    /// A complete proposal for round `r` that failed validation.
    ProposalInvalid(i64),
    /// A proposal for round `r` referencing an earlier polka at round `vr`.
    ProposalPolka(i64, i64, Value),
    /// A prevote quorum for round `r` over any mix of values.
    PolkaAny(i64),
    /// A prevote quorum for nil at round `r`.
    PolkaNil(i64),
    /// A prevote quorum for one value at round `r`.
    PolkaValue(i64, Value),
    /// A precommit quorum for round `r` over any mix of values.
    PrecommitAny(i64),
    /// A precommit quorum for one value at round `r`: a decision.
    PrecommitValue(i64, Value),
    /// Peers were observed at the later round `r`; jump forward.
    RoundSkip(i64),
    /// As `RoundSkip`, but this replica proposes in round `r`.
    RoundSkipProposer(i64, Value),
    /// The propose timer for round `r` expired.
    TimeoutPropose(i64),
    /// The prevote timer for round `r` expired.
    TimeoutPrevote(i64),
    /// The precommit timer for round `r` expired.
    TimeoutPrecommit(i64),
    /// As `TimeoutPrecommit`, but this replica proposes in the next round.
    TimeoutPrecommitProposer(i64, Value),
}

impl Event {
    /// Well-formed events carry non-negative rounds; a polka reference round
    /// precedes the proposal's round; and the round of a precommit timeout
    /// leaves room for the move to the following round.
    pub open spec fn wf(self) -> bool {
        match self {
            Event::NewRound(r) => r >= 0,
            Event::NewRoundProposer(r, _) => r >= 0,
            Event::Proposal(r, _) => r >= 0,
            Event::ProposalInvalid(r) => r >= 0,
            Event::ProposalPolka(r, vr, _) => 0 <= vr < r,
            Event::PolkaAny(r) => r >= 0,
            Event::PolkaNil(r) => r >= 0,
            Event::PolkaValue(r, _) => r >= 0,
            Event::PrecommitAny(r) => r >= 0,
            Event::PrecommitValue(r, _) => r >= 0,
            Event::RoundSkip(r) => r >= 0,
            Event::RoundSkipProposer(r, _) => r >= 0,
            Event::TimeoutPropose(r) => r >= 0,
            Event::TimeoutPrevote(r) => r >= 0,
            Event::TimeoutPrecommit(r) => 0 <= r < i64::MAX,
            Event::TimeoutPrecommitProposer(r, _) => 0 <= r < i64::MAX,
        }
    }
}

/// A proposal to be broadcast: the proposed value, the round it is proposed
/// in, and the round of the polka that justifies it (`-1` when none).
#[derive(Clone, Copy, Debug, PartialEq, Eq, Structural)]
pub struct Proposal {
    pub round: i64,
    pub value: Value,
    pub pol_round: i64,
}

impl Proposal {
    pub fn new(round: i64, value: Value, pol_round: i64) -> (p: Proposal)
        ensures
            p == (Proposal { round: round, value: value, pol_round: pol_round }),
    {
        Proposal { round, value, pol_round }
    }
}

/// A prevote or precommit to be broadcast; `None` is a vote for nil.
#[derive(Clone, Copy, Debug, PartialEq, Eq)]
pub struct Vote {
    pub round: i64,
    pub value: Option<Value>,
}

impl Vote {
    pub fn new(round: i64, value: Option<Value>) -> (v: Vote)
        ensures
            v == (Vote { round: round, value: value }),
    {
        Vote { round, value }
    }
}

/// A request to arm the timer for the given round and step.
#[derive(Clone, Copy, Debug, PartialEq, Eq, Structural)]
pub struct Timeout {
    pub round: i64,
    pub step: RoundStep,
}

impl Timeout {
    pub fn new(round: i64, step: RoundStep) -> (t: Timeout)
        ensures
            t == (Timeout { round: round, step: step }),
    {
        Timeout { round, step }
    }
}

/// A request the core returns for the host to perform.
#[derive(Clone, Copy, Debug, PartialEq, Eq)]
pub enum Message {
    /// Reserved; not emitted by any handler.
    NewRound,
    /// Broadcast this proposal.
    Proposal(Proposal),
    /// Broadcast this prevote.
    Prevote(Vote),
    /// Broadcast this precommit.
    Precommit(Vote),
    /// Arm this timer.
    Timeout(Timeout),
    /// The decision for this height, with the round it was reached in.
    Decision(RoundValue),
}

} // verus!
