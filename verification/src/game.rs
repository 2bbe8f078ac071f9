use vstd::prelude::*;

use crate::io::{GameResult, GameStatus};

verus! {

/// Blocks after which a started game is reminded of.
pub const INIT_BLOCKS: u32 = 10;

/// Seconds that one block lasts.
pub const SECONDS_BLOCKS_RATIO: u64 = 3;

/// Seconds that a player has for a game.
pub const INIT_SECONDS: u64 = 30;

/// Guesses that a player has for a game.
pub const INIT_ATTEMPTS: u32 = 3;

/// Letters in a word of the game: a guess with this many correct positions wins.
pub const WORD_LENGTH: usize = 5;

/// The length of a game in seconds is the reminder delay in blocks times the
/// length of a block.
pub proof fn lemma_game_length()
    ensures
        INIT_SECONDS == INIT_BLOCKS * SECONDS_BLOCKS_RATIO,
{
}

/// Seconds elapsed since the epoch, from a block timestamp in milliseconds.
pub fn get_timestamp(block_timestamp_ms: u64) -> (seconds: u64)
    ensures
        seconds == block_timestamp_ms / 1000,
{
    block_timestamp_ms / 1000
}

/// Seconds left of a game started at `start`, at time `now`.
pub open spec fn left_seconds(start: int, now: int) -> int {
    if now - start > INIT_SECONDS {
        0
    } else {
        INIT_SECONDS - (now - start)
    }
}

/// Seconds left of a game started at `start_timestamp`, at time `now`
/// (both in seconds). The clock does not run backwards: `now` is not
/// before the start.
pub fn get_left_seconds(start_timestamp: u64, now: u64) -> (secs: u64)
    requires
        start_timestamp <= now,
    ensures
        secs == left_seconds(start_timestamp as int, now as int),
        secs <= INIT_SECONDS,
{
    let elapse_time = now - start_timestamp;
    if elapse_time > INIT_SECONDS {
        0
    } else {
        INIT_SECONDS - elapse_time
    }
}

/// One guess of a player, with the answer of the word game once it came.
#[derive(Clone, Debug, PartialEq, Eq)]
pub struct WordGuessResult {
    pub word: String,
    pub correct_positions: Option<Vec<u8>>,
    pub contained_in_word: Option<Vec<u8>>,
}

/// `WordGuessResult` with its strings taken as sequences.
#[verifier::ext_equal]
pub struct WordGuessView {
    pub word: Seq<char>,
    pub correct_positions: Option<Seq<u8>>,
    pub contained_in_word: Option<Seq<u8>>,
}

pub open spec fn opt_bytes_view(o: Option<Vec<u8>>) -> Option<Seq<u8>> {
    match o {
        Some(v) => Some(v@),
        None => None,
    }
}

impl View for WordGuessResult {
    type V = WordGuessView;

    open spec fn view(&self) -> WordGuessView {
        WordGuessView {
            word: self.word@,
            correct_positions: opt_bytes_view(self.correct_positions),
            contained_in_word: opt_bytes_view(self.contained_in_word),
        }
    }
}

/// A player's game: when it started, its status, and the guesses made.
#[derive(Clone, Debug, PartialEq, Eq)]
pub struct UserGame {
    pub start_timestamp: u64,
    pub status: GameStatus,
    pub history: Vec<WordGuessResult>,
}

/// `UserGame` with its guesses taken as a sequence of views.
#[verifier::ext_equal]
pub struct UserGameView {
    pub start_timestamp: u64,
    pub status: GameStatus,
    pub history: Seq<WordGuessView>,
}

impl View for UserGame {
    type V = UserGameView;

    open spec fn view(&self) -> UserGameView {
        UserGameView {
            start_timestamp: self.start_timestamp,
            status: self.status,
            history: self.history@.map_values(|g: WordGuessResult| g@),
        }
    }
}

/// What holds of every game: its counters stay within the starting ones,
/// a game still open has a guess left, and a lost game has none.
pub open spec fn game_wf(g: UserGameView) -> bool {
    &&& g.status.left_attempts <= INIT_ATTEMPTS
    &&& g.status.left_seconds <= INIT_SECONDS
    &&& g.status.game_result is None ==> g.status.left_attempts >= 1
    &&& g.status.game_result == Some(GameResult::Lose) ==> g.status.left_attempts == 0
}

/// The game a player gets when the word game has started one at time `now`.
pub open spec fn fresh_game(now: u64) -> UserGameView {
    UserGameView {
        start_timestamp: now,
        status: GameStatus {
            left_seconds: INIT_SECONDS as u32,
            left_attempts: INIT_ATTEMPTS,
            game_result: None,
        },
        history: Seq::empty(),
    }
}

/// The status of game `g` after the word game answered a guess with
/// `correct_positions` at time `now`: one guess fewer, the seconds left
/// counted again, won when every position is correct, lost when no guess is
/// left.
pub open spec fn checked_status(g: UserGameView, correct_positions: Seq<u8>, now: u64) -> GameStatus {
    let attempts = (g.status.left_attempts - 1) as u32;
    GameStatus {
        left_seconds: left_seconds(g.start_timestamp as int, now as int) as u32,
        left_attempts: attempts,
        game_result: if correct_positions.len() == WORD_LENGTH {
            Some(GameResult::Win)
        } else if attempts == 0 {
            Some(GameResult::Lose)
        } else {
            None
        },
    }
}

/// The guesses of `g` with the answer filled into the last one.
pub open spec fn answered_history(
    history: Seq<WordGuessView>,
    correct_positions: Seq<u8>,
    contained_in_word: Seq<u8>,
) -> Seq<WordGuessView> {
    if history.len() == 0 {
        history
    } else {
        history.update(
            history.len() - 1,
            WordGuessView {
                word: history.last().word,
                correct_positions: Some(correct_positions),
                contained_in_word: Some(contained_in_word),
            },
        )
    }
}

/// Game `g` after the word game answered its last guess at time `now`.
pub open spec fn checked_game(
    g: UserGameView,
    correct_positions: Seq<u8>,
    contained_in_word: Seq<u8>,
    now: u64,
) -> UserGameView {
    UserGameView {
        start_timestamp: g.start_timestamp,
        status: checked_status(g, correct_positions, now),
        history: answered_history(g.history, correct_positions, contained_in_word),
    }
}

/// A new game started at time `now`.
pub fn new_game(now: u64) -> (g: UserGame)
    ensures
        g@ == fresh_game(now),
        game_wf(g@),
{
    let g = UserGame {
        start_timestamp: now,
        status: GameStatus {
            left_seconds: INIT_SECONDS as u32,
            left_attempts: INIT_ATTEMPTS,
            game_result: None,
        },
        history: Vec::new(),
    };
    assert(g@.history =~= Seq::<WordGuessView>::empty());
    g
}

/// The status after the word game answered a guess of game `g` with
/// `correct_positions` at time `now`.
pub fn check_status(g: &UserGame, correct_positions: &Vec<u8>, now: u64) -> (s: GameStatus)
    requires
        g.status.left_attempts >= 1,
        g.start_timestamp <= now,
    ensures
        s == checked_status(g@, correct_positions@, now),
{
    let current_left_attempts = g.status.left_attempts - 1;
    let current_left_seconds = get_left_seconds(g.start_timestamp, now);
    let game_result = if correct_positions.len() == WORD_LENGTH {
        Some(GameResult::Win)
    } else if current_left_attempts == 0 {
        Some(GameResult::Lose)
    } else {
        None
    };
    GameStatus {
        left_seconds: current_left_seconds as u32,
        left_attempts: current_left_attempts,
        game_result,
    }
}

/// Answering a guess of a well-formed game that has a guess left keeps it
/// well formed.
pub proof fn lemma_checked_game_wf(
    g: UserGameView,
    correct_positions: Seq<u8>,
    contained_in_word: Seq<u8>,
    now: u64,
)
    requires
        game_wf(g),
        g.status.left_attempts >= 1,
        g.start_timestamp <= now,
    ensures
        game_wf(checked_game(g, correct_positions, contained_in_word, now)),
{
}

} // verus!
