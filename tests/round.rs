use crypto_rps::crypto::hash_play;
use crypto_rps::model::{Message, Outcome, Play};
use crypto_rps::protocol::{Dispatcher, Event, Inbound, Phase, Round, RoundEnd, Step};

fn sent(step: Step) -> Message {
    match step {
        Step::Send(m) => m,
        other => panic!("expected a send, got {:?}", other),
    }
}

fn ended(step: Step) -> RoundEnd {
    match step {
        Step::End(e) => e,
        other => panic!("expected the end of the round, got {:?}", other),
    }
}

fn forwarded(d: &mut Dispatcher, m: Message) -> Event {
    d.accept(Inbound::Line(m)).expect("the dispatcher hands the message on")
}

#[test]
fn fair_play_rock_against_scissors() {
    let mut a = Round::new(Play::Rock);
    let mut b = Round::new(Play::Scissors);
    let (mut da, mut db) = (Dispatcher::new(), Dispatcher::new());

    let a_commit = a.commit_message();
    let b_commit = b.commit_message();
    let a_reveal = sent(a.on_event(forwarded(&mut da, b_commit)));
    let b_reveal = sent(b.on_event(forwarded(&mut db, a_commit)));
    assert_eq!(a.phase(), Phase::AwaitingPeerReveal);

    let a_end = ended(a.on_event(forwarded(&mut da, b_reveal)));
    let b_end = ended(b.on_event(forwarded(&mut db, a_reveal)));
    assert_eq!(
        a_end,
        RoundEnd::Adjudicated { local: Play::Rock, peer: Play::Scissors, outcome: Outcome::Win }
    );
    assert_eq!(
        b_end,
        RoundEnd::Adjudicated { local: Play::Scissors, peer: Play::Rock, outcome: Outcome::Loss }
    );
    assert!(da.is_done() && db.is_done());
    assert_eq!(a.phase(), Phase::Over);
}

#[test]
fn fair_play_with_equal_choices_draws() {
    let mut a = Round::with_secret(Play::Paper, "aa".to_string());
    let mut b = Round::with_secret(Play::Paper, "bb".to_string());
    let a_reveal = sent(a.on_event(Event::Received(b.commit_message())));
    let b_reveal = sent(b.on_event(Event::Received(a.commit_message())));
    assert_eq!(
        ended(a.on_event(Event::Received(b_reveal))),
        RoundEnd::Adjudicated { local: Play::Paper, peer: Play::Paper, outcome: Outcome::Draw }
    );
    assert_eq!(
        ended(b.on_event(Event::Received(a_reveal))),
        RoundEnd::Adjudicated { local: Play::Paper, peer: Play::Paper, outcome: Outcome::Draw }
    );
}

#[test]
fn reveal_of_another_choice_is_detected_as_cheating() {
    let mut a = Round::new(Play::Rock);
    let mut da = Dispatcher::new();
    let secret = "1f".repeat(32);
    let b_commit = Message::CommittedHash(hash_play(&Play::Scissors, &secret));
    let reveal = sent(a.on_event(forwarded(&mut da, b_commit)));
    assert!(matches!(reveal, Message::Revealed { choice: Play::Rock, .. }));
    let cheat = Message::Revealed { choice: Play::Rock, secret };
    assert_eq!(ended(a.on_event(forwarded(&mut da, cheat))), RoundEnd::CheatDetected);
    assert_eq!(a.phase(), Phase::Over);
}

#[test]
fn reveal_with_another_secret_is_detected_as_cheating() {
    let mut a = Round::with_secret(Play::Paper, "00".to_string());
    let b_commit = Message::CommittedHash(hash_play(&Play::Rock, "01"));
    sent(a.on_event(Event::Received(b_commit)));
    let cheat = Message::Revealed { choice: Play::Rock, secret: "02".to_string() };
    assert_eq!(ended(a.on_event(Event::Received(cheat))), RoundEnd::CheatDetected);
}

#[test]
fn undecodable_line_in_phase_one_is_a_protocol_error() {
    let mut a = Round::new(Play::Rock);
    let mut da = Dispatcher::new();
    let e = da.accept(Inbound::Undecodable).expect("a decode failure is handed on");
    assert!(matches!(e, Event::DecodeFailed));
    assert!(da.is_done());
    assert_eq!(ended(a.on_event(e)), RoundEnd::ProtocolError);
    assert!(da.accept(Inbound::Closed).is_none());
}

#[test]
fn undecodable_line_in_phase_two_is_a_protocol_error() {
    let mut a = Round::new(Play::Rock);
    let mut da = Dispatcher::new();
    let b = Round::new(Play::Paper);
    sent(a.on_event(forwarded(&mut da, b.commit_message())));
    let e = da.accept(Inbound::Undecodable).expect("a decode failure is handed on");
    assert_eq!(ended(a.on_event(e)), RoundEnd::ProtocolError);
}

#[test]
fn disconnect_after_commit_ends_the_round() {
    let mut a = Round::new(Play::Rock);
    let mut da = Dispatcher::new();
    let b = Round::new(Play::Scissors);
    sent(a.on_event(forwarded(&mut da, b.commit_message())));
    let e = da.accept(Inbound::Closed).expect("the closed link is handed on");
    assert!(matches!(e, Event::Closed));
    assert_eq!(ended(a.on_event(e)), RoundEnd::ConnectionClosed);
    assert!(matches!(a.on_event(Event::Closed), Step::Wait));
}

#[test]
fn failed_send_ends_the_round() {
    let mut a = Round::new(Play::Scissors);
    assert_eq!(ended(a.on_event(Event::SendFailed)), RoundEnd::WriteFailed);
}

#[test]
fn dispatcher_drops_messages_of_the_other_phase() {
    let mut d = Dispatcher::new();
    let early = Message::Revealed { choice: Play::Rock, secret: "00".to_string() };
    assert!(d.accept(Inbound::Line(early)).is_none());
    assert!(!d.is_done());
    let commit = Message::CommittedHash("ab".to_string());
    assert!(matches!(
        d.accept(Inbound::Line(commit)),
        Some(Event::Received(Message::CommittedHash(_)))
    ));
    let late = Message::CommittedHash("cd".to_string());
    assert!(d.accept(Inbound::Line(late)).is_none());
    let reveal = Message::Revealed { choice: Play::Paper, secret: "00".to_string() };
    assert!(matches!(
        d.accept(Inbound::Line(reveal)),
        Some(Event::Received(Message::Revealed { choice: Play::Paper, .. }))
    ));
    assert!(d.is_done());
}

#[test]
fn round_ignores_a_reveal_before_the_commitment() {
    let mut a = Round::new(Play::Rock);
    let early = Message::Revealed { choice: Play::Rock, secret: "00".to_string() };
    assert!(matches!(a.on_event(Event::Received(early)), Step::Wait));
    assert_eq!(a.phase(), Phase::AwaitingPeerCommit);
    assert_eq!(a.choice(), Play::Rock);
}

#[test]
fn commit_message_carries_the_round_commitment() {
    let a = Round::with_secret(Play::Rock, "abc".to_string());
    match a.commit_message() {
        Message::CommittedHash(h) => assert_eq!(
            h,
            "aaea87b44c5d9a64d8a01797cb734a7aaf3c893029b6baf3c1e609a8de45acef"
        ),
        other => panic!("unexpected {:?}", other),
    }
}
