//! The round of play as two state machines: the dispatcher that phase-filters
//! what the peer sends, and the orchestrator that commits, reveals, validates
//! and adjudicates. The caller performs the sends and reads; these machines
//! decide what happens next.
use vstd::prelude::*;

use crate::crypto::{commit_to_play, commitment, hash_play, is_nonce, reveal_matches, reveal_valid};
use crate::model::{evaluate, mirror, outcome_of, Message, MessageView, Outcome, Play};

verus! {

/// How a round ends.
#[derive(Debug, Clone, Copy, PartialEq, Eq, Structural)]
pub enum RoundEnd {
    /// Both reveals matched their commitments and the round was adjudicated.
    Adjudicated { local: Play, peer: Play, outcome: Outcome },
    /// The peer's reveal does not re-hash to the hash it announced.
    CheatDetected,
    /// The peer closed the link, or reading from it failed.
    ConnectionClosed,
    /// A line from the peer could not be decoded as a message.
    ProtocolError,
    /// Sending to the peer failed.
    WriteFailed,
}

/// What the orchestrator learns while a round runs.
#[derive(Debug)]
pub enum Event {
    /// A message that the dispatcher handed over.
    Received(Message),
    /// A line from the peer that did not decode.
    DecodeFailed,
    /// The link was closed or could not be read.
    Closed,
    /// A send to the peer failed.
    SendFailed,
}

pub ghost enum EventView {
    Received(MessageView),
    DecodeFailed,
    Closed,
    SendFailed,
}

impl View for Event {
    type V = EventView;

    open spec fn view(&self) -> EventView {
        match self {
            Event::Received(m) => EventView::Received(m@),
            Event::DecodeFailed => EventView::DecodeFailed,
            Event::Closed => EventView::Closed,
            Event::SendFailed => EventView::SendFailed,
        }
    }
}

/// What the caller does after an event.
#[derive(Debug)]
pub enum Step {
    /// Send this message to the peer, then wait for the next event.
    Send(Message),
    /// Nothing to do: wait for the next event.
    Wait,
    /// The round is over.
    End(RoundEnd),
}

pub ghost enum StepView {
    Send(MessageView),
    Wait,
    End(RoundEnd),
}

impl View for Step {
    type V = StepView;

    open spec fn view(&self) -> StepView {
        match self {
            Step::Send(m) => StepView::Send(m@),
            Step::Wait => StepView::Wait,
            Step::End(e) => StepView::End(*e),
        }
    }
}

/// Where a round stands once its own commitment has been sent.
#[derive(Debug, Clone, Copy, PartialEq, Eq, Structural)]
pub enum Phase {
    AwaitingPeerCommit,
    AwaitingPeerReveal,
    Over,
}

/// One round, from one peer's point of view.
pub struct Round {
    choice: Play,
    secret: String,
    hash: String,
    peer_hash: String,
    phase: Phase,
}

pub ghost struct RoundView {
    pub choice: Play,
    pub secret: Seq<char>,
    pub hash: Seq<char>,
    pub peer_hash: Seq<char>,
    pub phase: Phase,
}

impl View for Round {
    type V = RoundView;

    closed spec fn view(&self) -> RoundView {
        RoundView {
            choice: self.choice,
            secret: self.secret@,
            hash: self.hash@,
            peer_hash: self.peer_hash@,
            phase: self.phase,
        }
    }
}

/// A round's own hash binds its choice to its secret.
pub open spec fn round_wf(r: RoundView) -> bool {
    r.hash == commitment(r.choice, r.secret)
}

/// The round ends with `end` and takes no further part.
pub open spec fn finish(r: RoundView, end: RoundEnd) -> (RoundView, StepView) {
    (RoundView { phase: Phase::Over, ..r }, StepView::End(end))
}

/// How the peer's reveal is judged against the hash it announced.
pub open spec fn judge(r: RoundView, choice: Play, secret: Seq<char>) -> RoundEnd {
    if reveal_valid(r.peer_hash, choice, secret) {
        RoundEnd::Adjudicated { local: r.choice, peer: choice, outcome: outcome_of(r.choice, choice) }
    } else {
        RoundEnd::CheatDetected
    }
}

/// The orchestrator's transition: the next state and what the caller does.
/// A message of the variant that the phase does not expect is ignored.
pub open spec fn round_step(r: RoundView, e: EventView) -> (RoundView, StepView) {
    if r.phase == Phase::Over {
        (r, StepView::Wait)
    } else {
        match e {
            EventView::DecodeFailed => finish(r, RoundEnd::ProtocolError),
            EventView::Closed => finish(r, RoundEnd::ConnectionClosed),
            EventView::SendFailed => finish(r, RoundEnd::WriteFailed),
            EventView::Received(MessageView::CommittedHash(h)) => {
                if r.phase == Phase::AwaitingPeerCommit {
                    (
                        RoundView { peer_hash: h, phase: Phase::AwaitingPeerReveal, ..r },
                        StepView::Send(MessageView::Revealed(r.choice, r.secret)),
                    )
                } else {
                    (r, StepView::Wait)
                }
            },
            EventView::Received(MessageView::Revealed(c, s)) => {
                if r.phase == Phase::AwaitingPeerReveal {
                    finish(r, judge(r, c, s))
                } else {
                    (r, StepView::Wait)
                }
            },
        }
    }
}

impl Round {
    #[verifier::type_invariant]
    spec fn inv(self) -> bool {
        round_wf(self@)
    }

    /// A round for `choice` under a given secret.
    pub fn with_secret(choice: Play, secret: String) -> (r: Round)
        ensures
            r@.choice == choice,
            r@.secret == secret@,
            r@.peer_hash == Seq::<char>::empty(),
            r@.phase == Phase::AwaitingPeerCommit,
            round_wf(r@),
    {
        let hash = hash_play(&choice, secret.as_str());
        Round { choice, secret, hash, peer_hash: String::new(), phase: Phase::AwaitingPeerCommit }
    }

    /// A round for `choice` under a fresh secret.
    pub fn new(choice: Play) -> (r: Round)
        ensures
            r@.choice == choice,
            is_nonce(r@.secret),
            r@.peer_hash == Seq::<char>::empty(),
            r@.phase == Phase::AwaitingPeerCommit,
            round_wf(r@),
    {
        let (secret, hash) = commit_to_play(&choice);
        Round { choice, secret, hash, peer_hash: String::new(), phase: Phase::AwaitingPeerCommit }
    }

    /// The first message of the round: the commitment to be sent to the peer.
    pub fn commit_message(&self) -> (m: Message)
        ensures
            m@ == MessageView::CommittedHash(commitment(self@.choice, self@.secret)),
    {
        proof {
            use_type_invariant(self);
        }
        Message::CommittedHash(self.hash.clone())
    }

    pub fn phase(&self) -> (p: Phase)
        ensures
            p == self@.phase,
    {
        self.phase
    }

    pub fn choice(&self) -> (c: Play)
        ensures
            c == self@.choice,
    {
        self.choice
    }

    /// Advances the round by one event.
    pub fn on_event(&mut self, e: Event) -> (s: Step)
        ensures
            round_wf(final(self)@),
            (final(self)@, s@) == round_step(old(self)@, e@),
    {
        proof {
            use_type_invariant(&*self);
        }
        if self.phase == Phase::Over {
            return Step::Wait;
        }
        match e {
            Event::DecodeFailed => {
                self.phase = Phase::Over;
                Step::End(RoundEnd::ProtocolError)
            },
            Event::Closed => {
                self.phase = Phase::Over;
                Step::End(RoundEnd::ConnectionClosed)
            },
            Event::SendFailed => {
                self.phase = Phase::Over;
                Step::End(RoundEnd::WriteFailed)
            },
            Event::Received(Message::CommittedHash(h)) => {
                if self.phase == Phase::AwaitingPeerCommit {
                    self.peer_hash = h;
                    self.phase = Phase::AwaitingPeerReveal;
                    Step::Send(Message::Revealed { choice: self.choice, secret: self.secret.clone() })
                } else {
                    Step::Wait
                }
            },
            Event::Received(Message::Revealed { choice, secret }) => {
                if self.phase == Phase::AwaitingPeerReveal {
                    self.phase = Phase::Over;
                    if reveal_matches(self.peer_hash.as_str(), &choice, secret.as_str()) {
                        let outcome = evaluate(&self.choice, &choice);
                        Step::End(RoundEnd::Adjudicated { local: self.choice, peer: choice, outcome })
                    } else {
                        Step::End(RoundEnd::CheatDetected)
                    }
                } else {
                    Step::Wait
                }
            },
        }
    }
}

/// One reading from the link, as the caller's decoder gives it.
#[derive(Debug)]
pub enum Inbound {
    /// A line that decoded to a message.
    Line(Message),
    /// A line that did not decode.
    Undecodable,
    /// The link was closed or could not be read.
    Closed,
}

pub ghost enum InboundView {
    Line(MessageView),
    Undecodable,
    Closed,
}

impl View for Inbound {
    type V = InboundView;

    open spec fn view(&self) -> InboundView {
        match self {
            Inbound::Line(m) => InboundView::Line(m@),
            Inbound::Undecodable => InboundView::Undecodable,
            Inbound::Closed => InboundView::Closed,
        }
    }
}

/// The message variant the dispatcher waits for.
#[derive(Debug, Clone, Copy, PartialEq, Eq, Structural)]
pub enum Expect {
    Commit,
    Reveal,
    Nothing,
}

/// The dispatcher's transition: its next expectation, and the event it
/// hands to the orchestrator, if any. A decoded message of another variant
/// than the one expected is dropped; a decode failure or a closed link ends
/// the dispatcher's work and is handed on.
pub open spec fn dispatch_step(x: Expect, i: InboundView) -> (Expect, Option<EventView>) {
    if x == Expect::Nothing {
        (x, None)
    } else {
        match i {
            InboundView::Undecodable => (Expect::Nothing, Some(EventView::DecodeFailed)),
            InboundView::Closed => (Expect::Nothing, Some(EventView::Closed)),
            InboundView::Line(m) => match m {
                MessageView::CommittedHash(_) => if x == Expect::Commit {
                    (Expect::Reveal, Some(EventView::Received(m)))
                } else {
                    (x, None)
                },
                MessageView::Revealed(_, _) => if x == Expect::Reveal {
                    (Expect::Nothing, Some(EventView::Received(m)))
                } else {
                    (x, None)
                },
            },
        }
    }
}

pub open spec fn option_view(e: Option<Event>) -> Option<EventView> {
    match e {
        Some(e) => Some(e@),
        None => None,
    }
}

/// Reads the peer's lines for one round and passes on, in order, its
/// commitment and then its reveal.
pub struct Dispatcher {
    expect: Expect,
}

impl Dispatcher {
    pub fn new() -> (d: Dispatcher)
        ensures
            d.expecting() == Expect::Commit,
    {
        Dispatcher { expect: Expect::Commit }
    }

    pub closed spec fn expecting(&self) -> Expect {
        self.expect
    }

    /// Whether the dispatcher's work for the round is done: the caller stops reading.
    pub fn is_done(&self) -> (r: bool)
        ensures
            r == (self.expecting() == Expect::Nothing),
    {
        self.expect == Expect::Nothing
    }

    /// Takes one reading from the link; returns the event to hand to the
    /// orchestrator, if any.
    pub fn accept(&mut self, input: Inbound) -> (r: Option<Event>)
        ensures
            (final(self).expecting(), option_view(r)) == dispatch_step(old(self).expecting(), input@),
    {
        if self.expect == Expect::Nothing {
            return None;
        }
        match input {
            Inbound::Undecodable => {
                self.expect = Expect::Nothing;
                Some(Event::DecodeFailed)
            },
            Inbound::Closed => {
                self.expect = Expect::Nothing;
                Some(Event::Closed)
            },
            Inbound::Line(m) => {
                let is_commit = match &m {
                    Message::CommittedHash(_) => true,
                    Message::Revealed { .. } => false,
                };
                if is_commit && self.expect == Expect::Commit {
                    self.expect = Expect::Reveal;
                    Some(Event::Received(m))
                } else if !is_commit && self.expect == Expect::Reveal {
                    self.expect = Expect::Nothing;
                    Some(Event::Received(m))
                } else {
                    None
                }
            },
        }
    }
}

/// The dispatcher never hands on a reveal before a commitment: while it
/// waits for the commitment, a reveal is dropped.
pub proof fn lemma_no_reveal_before_commit(i: InboundView)
    ensures
        !(dispatch_step(Expect::Commit, i).1 matches Some(EventView::Received(MessageView::Revealed(_, _)))),
{
}

/// After the reveal, a decode failure or a closed link, nothing more is handed on.
pub proof fn lemma_done_forwards_nothing(i: InboundView)
    ensures
        dispatch_step(Expect::Nothing, i) == (Expect::Nothing, None::<EventView>),
{
}

/// A decode failure in either phase ends the round with a protocol error,
/// and a closed link ends it as closed, whatever the round was waiting for.
pub proof fn lemma_failures_end_round(r: RoundView, x: Expect)
    requires
        x != Expect::Nothing,
        r.phase != Phase::Over,
    ensures
        dispatch_step(x, InboundView::Undecodable).1 == Some(EventView::DecodeFailed),
        round_step(r, EventView::DecodeFailed).1 == StepView::End(RoundEnd::ProtocolError),
        dispatch_step(x, InboundView::Closed).1 == Some(EventView::Closed),
        round_step(r, EventView::Closed).1 == StepView::End(RoundEnd::ConnectionClosed),
{
}

/// A round adjudicates only a reveal that re-hashes to the peer's announced
/// hash, and then reports the outcome of its own choice against the peer's.
pub proof fn lemma_adjudicated_only_if_valid(r: RoundView, e: EventView)
    ensures
        match round_step(r, e).1 {
            StepView::End(RoundEnd::Adjudicated { local, peer, outcome }) => {
                &&& r.phase == Phase::AwaitingPeerReveal
                &&& local == r.choice
                &&& outcome == outcome_of(r.choice, peer)
                &&& match e {
                    EventView::Received(MessageView::Revealed(c, s)) => c == peer && reveal_valid(
                        r.peer_hash,
                        c,
                        s,
                    ),
                    _ => false,
                }
            },
            _ => true,
        },
{
}

/// Two honest peers that run the protocol reach mirrored outcomes: once each
/// has the other's commitment and then the other's reveal, neither flags a
/// cheat and their outcomes are each other's mirror.
pub proof fn lemma_honest_peers_agree(a: RoundView, b: RoundView)
    requires
        round_wf(a),
        round_wf(b),
        a.phase == Phase::AwaitingPeerCommit,
        b.phase == Phase::AwaitingPeerCommit,
    ensures
        ({
            let (a1, sa1) = round_step(a, EventView::Received(MessageView::CommittedHash(b.hash)));
            let (b1, sb1) = round_step(b, EventView::Received(MessageView::CommittedHash(a.hash)));
            sa1 == StepView::Send(MessageView::Revealed(a.choice, a.secret)) && sb1 == StepView::Send(
                MessageView::Revealed(b.choice, b.secret),
            ) && round_step(a1, EventView::Received(MessageView::Revealed(b.choice, b.secret))).1
                == StepView::End(
                RoundEnd::Adjudicated {
                    local: a.choice,
                    peer: b.choice,
                    outcome: outcome_of(a.choice, b.choice),
                },
            ) && round_step(b1, EventView::Received(MessageView::Revealed(a.choice, a.secret))).1
                == StepView::End(
                RoundEnd::Adjudicated {
                    local: b.choice,
                    peer: a.choice,
                    outcome: mirror(outcome_of(a.choice, b.choice)),
                },
            )
        }),
{
    crate::model::lemma_outcome_mirrored(a.choice, b.choice);
}

} // verus!
