//! The values a round works with: the three choices, the roles, the wire
//! messages and the outcome of a round.
use vstd::prelude::*;

verus! {

/// One of the three choices of the game.
#[derive(Debug, Clone, Copy, PartialEq, Eq, Structural)]
pub enum Play {
    Rock,
    Paper,
    Scissors,
}

/// The part a peer takes in establishing the connection.
#[derive(Debug, Clone, Copy, PartialEq, Eq, Structural)]
pub enum Mode {
    Server,
    Client,
}

/// What a peer makes of a round that both sides revealed honestly.
#[derive(Debug, Clone, Copy, PartialEq, Eq, Structural)]
pub enum Outcome {
    Win,
    Loss,
    Draw,
}

impl Play {
    /// The canonical short token of a choice: it is hashed into the
    /// commitment and names the choice on the wire.
    pub open spec fn value(self) -> Seq<char> {
        match self {
            Play::Rock => seq!['r'],
            Play::Paper => seq!['p'],
            Play::Scissors => seq!['s'],
        }
    }

    pub fn get_value(&self) -> (r: &'static str)
        ensures
            r@ == self.value(),
    {
        proof {
            reveal_strlit("r");
            reveal_strlit("p");
            reveal_strlit("s");
        }
        match self {
            Play::Rock => "r",
            Play::Paper => "p",
            Play::Scissors => "s",
        }
    }
}

/// Rock beats Scissors, Scissors beats Paper, Paper beats Rock.
pub open spec fn beats(a: Play, b: Play) -> bool {
    (a == Play::Rock && b == Play::Scissors) || (a == Play::Scissors && b == Play::Paper) || (
    a == Play::Paper && b == Play::Rock)
}

/// The outcome for the peer that played `a` against `b`.
pub open spec fn outcome_of(a: Play, b: Play) -> Outcome {
    if a == b {
        Outcome::Draw
    } else if beats(a, b) {
        Outcome::Win
    } else {
        Outcome::Loss
    }
}

/// The same round seen from the other side.
pub open spec fn mirror(o: Outcome) -> Outcome {
    match o {
        Outcome::Win => Outcome::Loss,
        Outcome::Loss => Outcome::Win,
        Outcome::Draw => Outcome::Draw,
    }
}

impl Outcome {
    pub open spec fn text(self) -> Seq<char> {
        match self {
            Outcome::Win => "Win"@,
            Outcome::Loss => "Loss"@,
            Outcome::Draw => "Draw"@,
        }
    }

    /// The word reported to the player.
    pub fn label(&self) -> (r: String)
        ensures
            r@ == self.text(),
    {
        match self {
            Outcome::Win => "Win".to_owned(),
            Outcome::Loss => "Loss".to_owned(),
            Outcome::Draw => "Draw".to_owned(),
        }
    }
}

/// Adjudicates one round from the point of view of the peer that played `a`.
pub fn evaluate(a: &Play, b: &Play) -> (r: Outcome)
    ensures
        r == outcome_of(*a, *b),
{
    match (a, b) {
        (Play::Rock, Play::Rock) => Outcome::Draw,
        (Play::Rock, Play::Paper) => Outcome::Loss,
        (Play::Rock, Play::Scissors) => Outcome::Win,
        (Play::Paper, Play::Rock) => Outcome::Win,
        (Play::Paper, Play::Paper) => Outcome::Draw,
        (Play::Paper, Play::Scissors) => Outcome::Loss,
        (Play::Scissors, Play::Rock) => Outcome::Loss,
        (Play::Scissors, Play::Paper) => Outcome::Win,
        (Play::Scissors, Play::Scissors) => Outcome::Draw,
    }
}

/// The outcome of `play` against `opponent_play`, as the word shown to the player.
pub fn get_result(play: &Play, opponent_play: &Play) -> (r: String)
    ensures
        r@ == outcome_of(*play, *opponent_play).text(),
{
    evaluate(play, opponent_play).label()
}

/// Every choice draws against itself.
pub proof fn lemma_same_choice_draws(a: Play)
    ensures
        outcome_of(a, a) == Outcome::Draw,
{
}

/// Swapping the two choices swaps Win and Loss and keeps Draw.
pub proof fn lemma_outcome_mirrored(a: Play, b: Play)
    ensures
        outcome_of(b, a) == mirror(outcome_of(a, b)),
{
}

/// Between distinct choices exactly one side wins.
pub proof fn lemma_distinct_choices_decide(a: Play, b: Play)
    requires
        a != b,
    ensures
        beats(a, b) != beats(b, a),
        outcome_of(a, b) != Outcome::Draw,
{
}

/// A message of a round, as the protocol sees it.
#[derive(Debug)]
pub enum Message {
    /// Phase one: the hash that binds the sender to its hidden choice.
    CommittedHash(String),
    /// Phase two: the choice and the secret behind the hash announced before.
    Revealed { choice: Play, secret: String },
}

/// A message with its text fields taken as character sequences.
pub ghost enum MessageView {
    CommittedHash(Seq<char>),
    Revealed(Play, Seq<char>),
}

impl View for Message {
    type V = MessageView;

    open spec fn view(&self) -> MessageView {
        match self {
            Message::CommittedHash(h) => MessageView::CommittedHash(h@),
            Message::Revealed { choice, secret } => MessageView::Revealed(*choice, secret@),
        }
    }
}

} // verus!
