// Scenario walks of the consensus core: sequences of events fed to a fresh
// state, with the exact states and messages expected after each step.

use consensus_core::types::{
    Event, Message, Proposal, RoundStep, RoundValue, State, Timeout, Value, Vote,
};

fn v(id: u64) -> Value {
    Value { id }
}

#[test]
fn proposer_happy_path_fresh_value() {
    let s = State::new(0);
    let (s1, m1) = s.next(Event::NewRoundProposer(0, v(1)));
    assert_eq!(s1.round, 0);
    assert_eq!(s1.step, RoundStep::Propose);
    assert_eq!(s1.locked, None);
    assert_eq!(s1.valid, None);
    assert_eq!(
        m1,
        Some(Message::Proposal(Proposal { round: 0, value: v(1), pol_round: -1 }))
    );
}

#[test]
fn non_proposer_proposal_prevote_lock_decide() {
    let s = State::new(0);
    let (s1, m1) = s.next(Event::NewRound(0));
    assert_eq!(
        m1,
        Some(Message::Timeout(Timeout { round: 0, step: RoundStep::Propose }))
    );
    let (s2, m2) = s1.next(Event::Proposal(0, v(1)));
    assert_eq!(
        m2,
        Some(Message::Prevote(Vote { round: 0, value: Some(v(1)) }))
    );
    let (s3, m3) = s2.next(Event::PolkaValue(0, v(1)));
    assert_eq!(
        m3,
        Some(Message::Precommit(Vote { round: 0, value: Some(v(1)) }))
    );
    let (s4, m4) = s3.next(Event::PrecommitValue(0, v(1)));
    assert_eq!(
        m4,
        Some(Message::Decision(RoundValue { round: 0, value: v(1) }))
    );
    assert_eq!(s4.step, RoundStep::Commit);
    assert_eq!(s4.locked, Some(RoundValue { round: 0, value: v(1) }));
    assert_eq!(s4.valid, Some(RoundValue { round: 0, value: v(1) }));
}

// The state reached by the previous scenario just before the decision:
// round 0, step Precommit, locked and valid both on value 1 at round 0.
fn locked_state() -> State {
    let s = State::new(0);
    let (s1, _) = s.next(Event::NewRound(0));
    let (s2, _) = s1.next(Event::Proposal(0, v(1)));
    let (s3, _) = s2.next(Event::PolkaValue(0, v(1)));
    s3
}

#[test]
fn lock_prevents_prevote_for_conflicting_proposal() {
    let s = locked_state();
    let (s1, m1) = s.next(Event::TimeoutPrecommit(0));
    assert_eq!(s1.round, 1);
    assert_eq!(s1.step, RoundStep::Propose);
    assert_eq!(
        m1,
        Some(Message::Timeout(Timeout { round: 1, step: RoundStep::Propose }))
    );
    let (s2, m2) = s1.next(Event::Proposal(1, v(2)));
    assert_eq!(s2.step, RoundStep::Prevote);
    assert_eq!(m2, Some(Message::Prevote(Vote { round: 1, value: None })));
    assert_eq!(s2.locked, Some(RoundValue { round: 0, value: v(1) }));
}

#[test]
fn unlock_via_proposal_polka_at_later_round() {
    let s = locked_state();
    let (s1, _) = s.next(Event::TimeoutPrecommit(0));
    assert_eq!(s1.locked, Some(RoundValue { round: 0, value: v(1) }));
    let (s2, m2) = s1.next(Event::ProposalPolka(1, 0, v(2)));
    assert_eq!(s2.step, RoundStep::Prevote);
    assert_eq!(
        m2,
        Some(Message::Prevote(Vote { round: 1, value: Some(v(2)) }))
    );
}

#[test]
fn round_skip() {
    let s = State::new(0);
    let (s1, _) = s.next(Event::NewRound(0));
    let (s2, _) = s1.next(Event::Proposal(0, v(1)));
    assert_eq!(s2.step, RoundStep::Prevote);
    let (s3, m3) = s2.next(Event::RoundSkip(5));
    assert_eq!(s3.round, 5);
    assert_eq!(s3.step, RoundStep::Propose);
    assert_eq!(
        m3,
        Some(Message::Timeout(Timeout { round: 5, step: RoundStep::Propose }))
    );
}

#[test]
fn stale_event_dropped() {
    let s = State {
        height: 0,
        round: 3,
        step: RoundStep::Prevote,
        locked: None,
        valid: None,
    };
    let (s1, m1) = s.next(Event::PolkaAny(2));
    assert_eq!(s1, s);
    assert_eq!(m1, None);
}
