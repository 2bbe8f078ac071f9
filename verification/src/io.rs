use vstd::prelude::*;

use crate::ids::{ActorId, MessageId};

verus! {

/// How a finished game ended.
#[derive(Clone, Copy, Debug, PartialEq, Eq, Structural)]
pub enum GameResult {
    Win,
    Lose,
}

/// What a player is told about a game.
#[derive(Clone, Copy, Debug, PartialEq, Eq, Structural)]
pub struct GameStatus {
    pub left_seconds: u32,
    pub left_attempts: u32,
    pub game_result: Option<GameResult>,
}

/// A request that a player sends to the session program.
#[derive(Clone, Debug, PartialEq, Eq)]
pub enum SessionAction {
    StartGame { user: ActorId },
    CheckWord { user: ActorId, word: String },
    CheckGameStatus { user: ActorId },
}

/// An answer of the session program to a player.
#[derive(Clone, Debug, PartialEq, Eq)]
pub enum SessionEvent {
    GameStarted { user: ActorId },
    WordChecked { user: ActorId, correct_positions: Vec<u8>, contained_in_word: Vec<u8> },
    GameStatus(GameStatus),
    GameError(String),
    MessageAlreadySent,
}

/// A request that the session program forwards to the word game program.
#[derive(Clone, Debug, PartialEq, Eq)]
pub enum WordleAction {
    StartGame { user: ActorId },
    CheckWord { user: ActorId, word: String },
}

/// An answer of the word game program.
#[derive(Clone, Debug, PartialEq, Eq)]
pub enum WordleEvent {
    GameStarted { user: ActorId },
    WordChecked { user: ActorId, correct_positions: Vec<u8>, contained_in_word: Vec<u8> },
}

/// Where the session stands in its exchange with the word game program.
#[derive(Clone, Debug, PartialEq, Eq)]
pub enum SessionStatus {
    /// Ready to take a player's request.
    Waiting,
    /// A request was forwarded and its answer has not come back.
    MessageSent,
    /// The answer came back and waits to be handled.
    MessageReceive(WordleEvent),
}

/// The session: which program plays the word game, the identifiers of the
/// forwarded message and of the player's message that caused it, and the
/// status of the exchange.
#[derive(Debug, PartialEq, Eq)]
pub struct Session {
    pub target_program_id: ActorId,
    pub msg_ids: (MessageId, MessageId),
    pub session_status: SessionStatus,
}

/// `SessionEvent` with its byte and character strings taken as sequences.
pub enum SessionEventView {
    GameStarted { user: ActorId },
    WordChecked { user: ActorId, correct_positions: Seq<u8>, contained_in_word: Seq<u8> },
    GameStatus(GameStatus),
    GameError(Seq<char>),
    MessageAlreadySent,
}

impl View for SessionEvent {
    type V = SessionEventView;

    open spec fn view(&self) -> SessionEventView {
        match self {
            SessionEvent::GameStarted { user } => SessionEventView::GameStarted { user: *user },
            SessionEvent::WordChecked { user, correct_positions, contained_in_word } =>
                SessionEventView::WordChecked {
                    user: *user,
                    correct_positions: correct_positions@,
                    contained_in_word: contained_in_word@,
                },
            SessionEvent::GameStatus(s) => SessionEventView::GameStatus(*s),
            SessionEvent::GameError(m) => SessionEventView::GameError(m@),
            SessionEvent::MessageAlreadySent => SessionEventView::MessageAlreadySent,
        }
    }
}

} // verus!
