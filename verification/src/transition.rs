//! The transition function of the consensus core: spec-level handlers, the
//! transition relation `next_spec`, and the verified executable step
//! function `State::next` together with its handlers.
//!
//! Two rules of the step function deserve note. A precommit quorum for a
//! value (`PrecommitValue`) decides at any round and any step before
//! `Commit`; once `Commit` is reached the state is frozen and every event is
//! ignored. A precommit timeout moves to the round after the one it names,
//! and is dropped when that round would not lie beyond the current one, so
//! that the round never decreases.

use crate::types::{Event, Message, Proposal, RoundStep, RoundValue, State, Timeout, Value, Vote};
use vstd::prelude::*;

verus! {

/// Enter round `r` as proposer and broadcast a proposal: the remembered
/// valid value with its polka round when there is one, else the fresh value
/// `v` with polka round `-1`.
pub open spec fn propose_self(s: State, r: i64, v: Value) -> (State, Option<Message>) {
    let proposal = match s.valid {
        Some(rv) => Proposal { round: r, value: rv.value, pol_round: rv.round },
        None => Proposal { round: r, value: v, pol_round: -1i64 },
    };
    (
        State {
            height: s.height,
            round: r,
            step: RoundStep::Propose,
            locked: s.locked,
            valid: s.valid,
        },
        Some(Message::Proposal(proposal)),
    )
}

/// Enter round `r` as a non-proposer and arm the propose timer.
pub open spec fn propose_other(s: State, r: i64) -> (State, Option<Message>) {
    (
        State {
            height: s.height,
            round: r,
            step: RoundStep::Propose,
            locked: s.locked,
            valid: s.valid,
        },
        Some(Message::Timeout(Timeout { round: r, step: RoundStep::Propose })),
    )
}

/// Move to `Prevote` and vote on a newly proposed value: nil when locked on
/// a different value, else the proposed value.
pub open spec fn prevote_new(s: State, proposed: Value) -> (State, Option<Message>) {
    let vote_value = match s.locked {
        Some(l) => if proposed != l.value {
            None
        } else {
            Some(proposed)
        },
        None => Some(proposed),
    };
    (
        State {
            height: s.height,
            round: s.round,
            step: RoundStep::Prevote,
            locked: s.locked,
            valid: s.valid,
        },
        Some(Message::Prevote(Vote { round: s.round, value: vote_value })),
    )
}

/// Move to `Prevote` and vote nil: the proposal was invalid or the propose
/// timer expired.
pub open spec fn prevote_nil(s: State) -> (State, Option<Message>) {
    (
        State {
            height: s.height,
            round: s.round,
            step: RoundStep::Prevote,
            locked: s.locked,
            valid: s.valid,
        },
        Some(Message::Prevote(Vote { round: s.round, value: None })),
    )
}

/// Move to `Prevote` on a proposal that references a past polka at round
/// `vr`. Vote for the proposed value when there is no lock, when the lock is
/// not later than the referenced polka (safe to release), or when the lock
/// is on that very value; vote nil otherwise.
pub open spec fn prevote_polka(s: State, vr: i64, proposed: Value) -> (State, Option<Message>) {
    let vote_value = match s.locked {
        Some(l) => if l.round <= vr || l.value == proposed {
            Some(proposed)
        } else {
            None
        },
        None => Some(proposed),
    };
    (
        State {
            height: s.height,
            round: s.round,
            step: RoundStep::Prevote,
            locked: s.locked,
            valid: s.valid,
        },
        Some(Message::Prevote(Vote { round: s.round, value: vote_value })),
    )
}

/// Arm the prevote timer; the state is unchanged.
pub open spec fn arm_prevote_timer(s: State) -> (State, Option<Message>) {
    (s, Some(Message::Timeout(Timeout { round: s.round, step: RoundStep::Prevote })))
}

/// Move to `Precommit` and vote nil: a nil polka or a prevote timeout.
pub open spec fn precommit_nil(s: State) -> (State, Option<Message>) {
    (
        State {
            height: s.height,
            round: s.round,
            step: RoundStep::Precommit,
            locked: s.locked,
            valid: s.valid,
        },
        Some(Message::Precommit(Vote { round: s.round, value: None })),
    )
}

/// Lock the value that reached a polka, record it as valid, move to
/// `Precommit` and vote for it. This is the only rule that sets `locked`.
pub open spec fn lock_precommit(s: State, v: Value) -> (State, Option<Message>) {
    (
        State {
            height: s.height,
            round: s.round,
            step: RoundStep::Precommit,
            locked: Some(RoundValue { round: s.round, value: v }),
            valid: Some(RoundValue { round: s.round, value: v }),
        },
        Some(Message::Precommit(Vote { round: s.round, value: Some(v) })),
    )
}

/// Record the value that reached a polka as valid at the current round,
/// without moving the step or the lock, and emit nothing.
pub open spec fn set_valid_only(s: State, v: Value) -> (State, Option<Message>) {
    (
        State {
            height: s.height,
            round: s.round,
            step: s.step,
            locked: s.locked,
            valid: Some(RoundValue { round: s.round, value: v }),
        },
        None,
    )
}

/// Arm the precommit timer; the state is unchanged.
pub open spec fn arm_precommit_timer(s: State) -> (State, Option<Message>) {
    (s, Some(Message::Timeout(Timeout { round: s.round, step: RoundStep::Precommit })))
}

/// Decide the value `v` that reached a precommit quorum at round `r`: move
/// to the terminal `Commit` step and deliver the decision.
pub open spec fn decide(s: State, r: i64, v: Value) -> (State, Option<Message>) {
    (
        State {
            height: s.height,
            round: s.round,
            step: RoundStep::Commit,
            locked: s.locked,
            valid: s.valid,
        },
        Some(Message::Decision(RoundValue { round: r, value: v })),
    )
}

/// The transition relation of the core: for each state and event, the next
/// state and the message emitted, if any. Any combination no rule matches
/// leaves the state unchanged and emits nothing; once the step is `Commit`
/// every event is ignored.
pub open spec fn next_spec(s: State, e: Event) -> (State, Option<Message>) {
    if s.step is Commit {
        (s, None)
    } else {
        match e {
            Event::NewRound(r) => if s.step is NewRound {
                propose_other(s, r)
            } else {
                (s, None)
            },
            Event::NewRoundProposer(r, v) => if s.step is NewRound {
                propose_self(s, r, v)
            } else {
                (s, None)
            },
            Event::Proposal(r, v) => if s.step is Propose && r == s.round {
                prevote_new(s, v)
            } else {
                (s, None)
            },
            Event::ProposalInvalid(r) => if s.step is Propose && r == s.round {
                prevote_nil(s)
            } else {
                (s, None)
            },
            Event::ProposalPolka(r, vr, v) => if s.step is Propose && r == s.round {
                prevote_polka(s, vr, v)
            } else {
                (s, None)
            },
            Event::TimeoutPropose(r) => if s.step is Propose && r == s.round {
                prevote_nil(s)
            } else {
                (s, None)
            },
            Event::PolkaAny(r) => if s.step is Prevote && r == s.round {
                arm_prevote_timer(s)
            } else {
                (s, None)
            },
            Event::PolkaNil(r) => if s.step is Prevote && r == s.round {
                precommit_nil(s)
            } else {
                (s, None)
            },
            Event::PolkaValue(r, v) => if s.step is Prevote && r == s.round {
                lock_precommit(s, v)
            } else if s.step is Precommit && r == s.round {
                set_valid_only(s, v)
            } else {
                (s, None)
            },
            Event::TimeoutPrevote(r) => if s.step is Prevote && r == s.round {
                precommit_nil(s)
            } else {
                (s, None)
            },
            Event::PrecommitAny(r) => if r == s.round {
                arm_precommit_timer(s)
            } else {
                (s, None)
            },
            Event::PrecommitValue(r, v) => decide(s, r, v),
            Event::RoundSkip(r) => if r > s.round {
                propose_other(s, r)
            } else {
                (s, None)
            },
            Event::RoundSkipProposer(r, v) => if r > s.round {
                propose_self(s, r, v)
            } else {
                (s, None)
            },
            Event::TimeoutPrecommit(r) => if r + 1 > s.round {
                propose_other(s, (r + 1) as i64)
            } else {
                (s, None)
            },
            Event::TimeoutPrecommitProposer(r, v) => if r == s.round {
                propose_self(s, (r + 1) as i64, v)
            } else {
                (s, None)
            },
        }
    }
}

/// This replica proposes in round `r`: see `propose_self`.
pub fn handle_new_round_proposer(s: State, r: i64, v: Value) -> (res: (State, Option<Message>))
    ensures
        res == propose_self(s, r, v),
{
    let s = s.set_round(r).set_step(RoundStep::Propose);
    let (value, pol_round) = match s.valid {
        Some(rv) => (rv.value, rv.round),
        None => (v, -1),
    };
    (s, Some(Message::Proposal(Proposal::new(r, value, pol_round))))
}

/// Another replica proposes in round `r`: see `propose_other`.
pub fn handle_new_round(s: State, r: i64) -> (res: (State, Option<Message>))
    ensures
        res == propose_other(s, r),
{
    let s = s.set_round(r).set_step(RoundStep::Propose);
    (s, Some(Message::Timeout(Timeout::new(s.round, s.step))))
}

/// A complete proposal with a new value arrived: see `prevote_new`.
pub fn handle_proposal(s: State, proposed: Value) -> (res: (State, Option<Message>))
    ensures
        res == prevote_new(s, proposed),
{
    let s = s.set_step(RoundStep::Prevote);
    let value = match s.locked {
        Some(locked) => if proposed != locked.value {
            None
        } else {
            Some(proposed)
        },
        None => Some(proposed),
    };
    (s, Some(Message::Prevote(Vote::new(s.round, value))))
}

/// A complete proposal failed validation: see `prevote_nil`.
pub fn handle_proposal_invalid(s: State) -> (res: (State, Option<Message>))
    ensures
        res == prevote_nil(s),
{
    let s = s.set_step(RoundStep::Prevote);
    (s, Some(Message::Prevote(Vote::new(s.round, None))))
}

/// A proposal referencing a past polka at round `vr` arrived: see
/// `prevote_polka`.
pub fn handle_proposal_polka(s: State, vr: i64, proposed: Value) -> (res: (State, Option<Message>))
    ensures
        res == prevote_polka(s, vr, proposed),
{
    let s = s.set_step(RoundStep::Prevote);
    let value = match s.locked {
        Some(locked) => if locked.round <= vr || locked.value == proposed {
            Some(proposed)
        } else {
            None
        },
        None => Some(proposed),
    };
    (s, Some(Message::Prevote(Vote::new(s.round, value))))
}

/// The propose timer expired: see `prevote_nil`.
pub fn handle_timeout_propose(s: State) -> (res: (State, Option<Message>))
    ensures
        res == prevote_nil(s),
{
    let s = s.set_step(RoundStep::Prevote);
    (s, Some(Message::Prevote(Vote::new(s.round, None))))
}

/// A prevote quorum over mixed values: see `arm_prevote_timer`. Intended to
/// be delivered once per round; re-arming the timer is harmless.
pub fn handle_polka_any(s: State) -> (res: (State, Option<Message>))
    ensures
        res == arm_prevote_timer(s),
{
    (s, Some(Message::Timeout(Timeout::new(s.round, RoundStep::Prevote))))
}

/// A prevote quorum for nil: see `precommit_nil`.
pub fn handle_polka_nil(s: State) -> (res: (State, Option<Message>))
    ensures
        res == precommit_nil(s),
{
    let s = s.set_step(RoundStep::Precommit);
    (s, Some(Message::Precommit(Vote::new(s.round, None))))
}

/// A prevote quorum for one value while still in `Prevote`: see
/// `lock_precommit`.
pub fn handle_polka_value_prevote(s: State, v: Value) -> (res: (State, Option<Message>))
    ensures
        res == lock_precommit(s, v),
{
    let s = s.set_locked(v).set_valid(v).set_step(RoundStep::Precommit);
    (s, Some(Message::Precommit(Vote::new(s.round, Some(v)))))
}

/// A prevote quorum for one value, observed after this replica already
/// precommitted: see `set_valid_only`.
pub fn handle_polka_value_precommit(s: State, v: Value) -> (res: (State, Option<Message>))
    ensures
        res == set_valid_only(s, v),
{
    let s = s.set_valid(v);
    (s, None)
}

/// The prevote timer expired: see `precommit_nil`.
pub fn handle_timeout_prevote(s: State) -> (res: (State, Option<Message>))
    ensures
        res == precommit_nil(s),
{
    let s = s.set_step(RoundStep::Precommit);
    (s, Some(Message::Precommit(Vote::new(s.round, None))))
}

/// A precommit quorum over mixed values: see `arm_precommit_timer`.
pub fn handle_precommit_any(s: State) -> (res: (State, Option<Message>))
    ensures
        res == arm_precommit_timer(s),
{
    (s, Some(Message::Timeout(Timeout::new(s.round, RoundStep::Precommit))))
}

/// The precommit timer for round `r` expired: enter the following round as
/// a non-proposer, see `propose_other`.
pub fn handle_timeout_precommit(s: State, r: i64) -> (res: (State, Option<Message>))
    requires
        r < i64::MAX,
    ensures
        res == propose_other(s, (r + 1) as i64),
{
    handle_new_round(s, r + 1)
}

/// A precommit quorum for one value at round `r`: see `decide`.
pub fn handle_precommit_value(s: State, r: i64, v: Value) -> (res: (State, Option<Message>))
    ensures
        res == decide(s, r, v),
{
    let s = s.set_step(RoundStep::Commit);
    (s, Some(Message::Decision(RoundValue { round: r, value: v })))
}

impl State {
    /// The step function of the consensus core. It is total over
    /// well-formed states and events, follows `next_spec`, and after every
    /// call: the height is unchanged; the round has not decreased; a prior
    /// lock either persists or the emitted message is the precommit for the
    /// newly locked value; a lock always comes with a valid value at a round
    /// at least as late; a `Commit` state is frozen; and every emitted
    /// prevote, precommit or timeout carries the new state's round.
    pub fn next(self, event: Event) -> (res: (State, Option<Message>))
        requires
            self.wf(),
            event.wf(),
        ensures
            res == next_spec(self, event),
            res.0.wf(),
            res.0.height == self.height,
            res.0.round >= self.round,
            self.step is Commit ==> res.0 == self && res.1 is None,
            self.locked is Some && res.0.locked != self.locked ==> (res.1 matches Some(
                Message::Precommit(vt),
            ) && vt.round == res.0.round && vt.value is Some),
            res.0.locked matches Some(l) ==> (res.0.valid matches Some(va) && va.round >= l.round),
            res.1 matches Some(Message::Prevote(vt)) ==> vt.round == res.0.round,
            res.1 matches Some(Message::Precommit(vt)) ==> vt.round == res.0.round,
            res.1 matches Some(Message::Timeout(t)) ==> t.round == res.0.round,
    {
        if self.step == RoundStep::Commit {
            return (self, None);
        }
        let round: i64 = self.round;
        match event {
            Event::NewRound(r) => if self.step == RoundStep::NewRound {
                handle_new_round(self, r)
            } else {
                (self, None)
            },
            Event::NewRoundProposer(r, v) => if self.step == RoundStep::NewRound {
                handle_new_round_proposer(self, r, v)
            } else {
                (self, None)
            },
            Event::Proposal(r, v) => if self.step == RoundStep::Propose && r == round {
                handle_proposal(self, v)
            } else {
                (self, None)
            },
            Event::ProposalInvalid(r) => if self.step == RoundStep::Propose && r == round {
                handle_proposal_invalid(self)
            } else {
                (self, None)
            },
            Event::ProposalPolka(r, vr, v) => if self.step == RoundStep::Propose && r == round {
                handle_proposal_polka(self, vr, v)
            } else {
                (self, None)
            },
            Event::TimeoutPropose(r) => if self.step == RoundStep::Propose && r == round {
                handle_timeout_propose(self)
            } else {
                (self, None)
            },
            Event::PolkaAny(r) => if self.step == RoundStep::Prevote && r == round {
                handle_polka_any(self)
            } else {
                (self, None)
            },
            Event::PolkaNil(r) => if self.step == RoundStep::Prevote && r == round {
                handle_polka_nil(self)
            } else {
                (self, None)
            },
            Event::PolkaValue(r, v) => if self.step == RoundStep::Prevote && r == round {
                handle_polka_value_prevote(self, v)
            } else if self.step == RoundStep::Precommit && r == round {
                handle_polka_value_precommit(self, v)
            } else {
                (self, None)
            },
            Event::TimeoutPrevote(r) => if self.step == RoundStep::Prevote && r == round {
                handle_timeout_prevote(self)
            } else {
                (self, None)
            },
            Event::PrecommitAny(r) => if r == round {
                handle_precommit_any(self)
            } else {
                (self, None)
            },
            Event::PrecommitValue(r, v) => handle_precommit_value(self, r, v),
            Event::RoundSkip(r) => if r > round {
                handle_new_round(self, r)
            } else {
                (self, None)
            },
            Event::RoundSkipProposer(r, v) => if r > round {
                handle_new_round_proposer(self, r, v)
            } else {
                (self, None)
            },
            Event::TimeoutPrecommit(r) => if r + 1 > round {
                handle_timeout_precommit(self, r)
            } else {
                (self, None)
            },
            Event::TimeoutPrecommitProposer(r, v) => if r == round {
                handle_new_round_proposer(self, r + 1, v)
            } else {
                (self, None)
            },
        }
    }
}

} // verus!
