use vstd::prelude::*;

use crate::game::{
    checked_game, checked_status, fresh_game, game_wf, lemma_checked_game_wf, left_seconds,
    UserGameView, WordGuessView, INIT_ATTEMPTS, INIT_BLOCKS, INIT_SECONDS, WORD_LENGTH,
};
use crate::ids::{ActorId, MessageId};
use crate::io::{GameResult, GameStatus, SessionAction, SessionEventView, SessionStatus, Session, WordleAction, WordleEvent};
use crate::program::{
    games_wf, handle_next, reply_next, sent_next, waiting_message, EffectView, Failure,
    ProgramView,
};

verus! {

/// Every step of the program keeps every game well formed: taking a
/// request, recording a forwarded message, and taking an answer.
pub proof fn lemma_steps_keep_games_wf(
    p: ProgramView,
    action: SessionAction,
    block_timestamp_ms: u64,
    sent: MessageId,
    original: MessageId,
    reply_to: MessageId,
    event: WordleEvent,
)
    requires
        games_wf(p.games),
    ensures
        games_wf(handle_next(p, action, block_timestamp_ms).0.games),
        games_wf(sent_next(p, sent, original).games),
        games_wf(reply_next(p, reply_to, event).0.games),
{
    let q = handle_next(p, action, block_timestamp_ms).0;
    let now = block_timestamp_ms / 1000;
    assert forall|k: ActorId| #[trigger] q.games.contains_key(k) implies game_wf(q.games[k]) by {
        if p.games.contains_key(k) {
            assert(game_wf(p.games[k]));
            match p.session.session_status {
                SessionStatus::MessageReceive(WordleEvent::WordChecked { user, correct_positions, contained_in_word }) => {
                    if k == user && p.games[k].status.left_attempts >= 1 && p.games[k].start_timestamp <= now {
                        lemma_checked_game_wf(p.games[k], correct_positions@, contained_in_word@, now);
                    }
                },
                _ => {},
            }
        }
    }
}

/// A request that fails changes nothing.
pub proof fn lemma_failure_changes_nothing(p: ProgramView, action: SessionAction, block_timestamp_ms: u64)
    requires
        handle_next(p, action, block_timestamp_ms).1 is Fail,
    ensures
        handle_next(p, action, block_timestamp_ms).0 == p,
{
}

/// While a forwarded request awaits its answer, every request is answered
/// with an error and changes nothing.
pub proof fn lemma_busy_session_refuses(p: ProgramView, action: SessionAction, block_timestamp_ms: u64)
    requires
        p.session.session_status is MessageSent,
    ensures
        handle_next(p, action, block_timestamp_ms).0 == p,
        handle_next(p, action, block_timestamp_ms).1 == EffectView::Reply(
            SessionEventView::GameError(waiting_message()),
        ),
{
}

/// The program forwards a request only when the session is ready, and
/// forwarding leaves the session as it was until the message is recorded:
/// one exchange with the word game at a time.
pub proof fn lemma_forwarding_only_when_ready(
    p: ProgramView,
    action: SessionAction,
    block_timestamp_ms: u64,
)
    requires
        handle_next(p, action, block_timestamp_ms).1 is SendAndWait,
    ensures
        p.session.session_status is Waiting,
        handle_next(p, action, block_timestamp_ms).0.session == p.session,
{
}

/// An answer to any message but the forwarded one changes nothing and wakes
/// nothing.
pub proof fn lemma_stray_answer_ignored(p: ProgramView, reply_to: MessageId, event: WordleEvent)
    requires
        reply_to != p.session.msg_ids.0,
    ensures
        reply_next(p, reply_to, event) == (p, Option::<MessageId>::None),
{
}

/// Recording a forwarded message and then taking the answer to it wakes the
/// player's message and keeps the answer for handling.
pub proof fn lemma_answer_to_forwarded_request(
    p: ProgramView,
    sent: MessageId,
    original: MessageId,
    event: WordleEvent,
)
    ensures
        reply_next(sent_next(p, sent, original), sent, event).1 == Some(original),
        reply_next(sent_next(p, sent, original), sent, event).0.session == (Session {
            msg_ids: (sent, original),
            session_status: SessionStatus::MessageReceive(event),
            ..p.session
        }),
        reply_next(sent_next(p, sent, original), sent, event).0.games == p.games,
{
}

/// Starting a game: the request is forwarded unchanged; once the word game
/// answers that the game started, the player is told so and reminded after
/// the game's length in blocks, the player has a fresh game started at the
/// time of handling, the other games are as they were, and the session is
/// ready again.
pub proof fn lemma_start_game_round_trip(
    p: ProgramView,
    user: ActorId,
    sent: MessageId,
    original: MessageId,
    block_timestamp_ms: u64,
    woken_action: SessionAction,
    woken_timestamp_ms: u64,
)
    requires
        p.session.session_status is Waiting,
    ensures
        ({
            let (p1, e1) = handle_next(p, SessionAction::StartGame { user }, block_timestamp_ms);
            let p2 = sent_next(p1, sent, original);
            let (p3, wake) = reply_next(p2, sent, WordleEvent::GameStarted { user });
            let (p4, e4) = handle_next(p3, woken_action, woken_timestamp_ms);
            &&& p1 == p
            &&& e1 == EffectView::SendAndWait(WordleAction::StartGame { user })
            &&& wake == Some(original)
            &&& e4 == EffectView::ReplyAndRemind {
                event: SessionEventView::GameStarted { user },
                reminder: SessionAction::CheckGameStatus { user },
                delay_blocks: INIT_BLOCKS,
            }
            &&& p4.games == p.games.insert(user, fresh_game(woken_timestamp_ms / 1000))
            &&& p4.session == Session {
                msg_ids: (sent, original),
                session_status: SessionStatus::Waiting,
                ..p.session
            }
        }),
{
}

/// Guessing a word in an open game: the guess is recorded and forwarded;
/// once the word game answers, the guess holds the answer, one guess fewer
/// is left, the seconds left are counted again, the player is told the
/// answer while the game goes on and the status once it is over, the other
/// games are as they were, and the session is ready again.
pub proof fn lemma_check_word_round_trip(
    p: ProgramView,
    user: ActorId,
    word: String,
    sent: MessageId,
    original: MessageId,
    correct_positions: Vec<u8>,
    contained_in_word: Vec<u8>,
    block_timestamp_ms: u64,
    woken_action: SessionAction,
    woken_timestamp_ms: u64,
)
    requires
        p.session.session_status is Waiting,
        games_wf(p.games),
        p.games.contains_key(user),
        p.games[user].status.game_result is None,
        p.games[user].status.left_seconds > 0,
        p.games[user].start_timestamp <= woken_timestamp_ms / 1000,
    ensures
        ({
            let g = p.games[user];
            let (p1, e1) = handle_next(p, SessionAction::CheckWord { user, word }, block_timestamp_ms);
            let p2 = sent_next(p1, sent, original);
            let answer = WordleEvent::WordChecked { user, correct_positions, contained_in_word };
            let (p3, wake) = reply_next(p2, sent, answer);
            let (p4, e4) = handle_next(p3, woken_action, woken_timestamp_ms);
            let g4 = p4.games[user];
            let now = woken_timestamp_ms / 1000;
            &&& e1 == EffectView::SendAndWait(WordleAction::CheckWord { user, word })
            &&& wake == Some(original)
            &&& p4.games.contains_key(user)
            &&& g4 == checked_game(
                UserGameView {
                    history: g.history.push(
                        WordGuessView { word: word@, correct_positions: None, contained_in_word: None },
                    ),
                    ..g
                },
                correct_positions@,
                contained_in_word@,
                now,
            )
            &&& g4.history.len() == g.history.len() + 1
            &&& forall|i: int| 0 <= i < g.history.len() ==> #[trigger] g4.history[i] == g.history[i]
            &&& g4.history.last() == WordGuessView {
                word: word@,
                correct_positions: Some(correct_positions@),
                contained_in_word: Some(contained_in_word@),
            }
            &&& g4.status.left_attempts == g.status.left_attempts - 1
            &&& g4.status.left_seconds == left_seconds(g.start_timestamp as int, now as int)
            &&& e4 == EffectView::Reply(
                if g4.status.game_result is None {
                    SessionEventView::WordChecked {
                        user,
                        correct_positions: correct_positions@,
                        contained_in_word: contained_in_word@,
                    }
                } else {
                    SessionEventView::GameStatus(g4.status)
                },
            )
            &&& p4.games.remove(user) == p.games.remove(user)
            &&& p4.session == Session {
                msg_ids: (sent, original),
                session_status: SessionStatus::Waiting,
                ..p.session
            }
        }),
{
    let g = p.games[user];
    assert(game_wf(g));
    let (p1, e1) = handle_next(p, SessionAction::CheckWord { user, word }, block_timestamp_ms);
    let p2 = sent_next(p1, sent, original);
    let answer = WordleEvent::WordChecked { user, correct_positions, contained_in_word };
    let (p3, wake) = reply_next(p2, sent, answer);
    let (p4, e4) = handle_next(p3, woken_action, woken_timestamp_ms);
    assert(p3.games[user].status == g.status);
    assert(p4.games.remove(user) =~= p.games.remove(user));
}

/// A finished game does not change on the player's requests: a guess and a
/// status query both answer the final status and change nothing.
pub proof fn lemma_finished_game_is_final(
    p: ProgramView,
    user: ActorId,
    word: String,
    block_timestamp_ms: u64,
)
    requires
        p.session.session_status is Waiting,
        p.games.contains_key(user),
        p.games[user].status.game_result is Some,
    ensures
        handle_next(p, SessionAction::CheckWord { user, word }, block_timestamp_ms) == (
            p,
            EffectView::Reply(SessionEventView::GameStatus(p.games[user].status)),
        ),
        handle_next(p, SessionAction::CheckGameStatus { user }, block_timestamp_ms) == (
            p,
            EffectView::Reply(SessionEventView::GameStatus(p.games[user].status)),
        ),
{
}

/// A player's requests need a game: without one, a guess and a status query
/// fail with `UnknownUser` and change nothing.
pub proof fn lemma_no_game_no_request(
    p: ProgramView,
    user: ActorId,
    word: String,
    block_timestamp_ms: u64,
)
    requires
        p.session.session_status is Waiting,
        !p.games.contains_key(user),
    ensures
        handle_next(p, SessionAction::CheckWord { user, word }, block_timestamp_ms) == (
            p,
            EffectView::Fail(Failure::UnknownUser),
        ),
        handle_next(p, SessionAction::CheckGameStatus { user }, block_timestamp_ms) == (
            p,
            EffectView::Fail(Failure::UnknownUser),
        ),
{
}

/// A player's game status changes only when the word game's answer about
/// that player is handled; then it is either a fresh game or one guess
/// fewer than before.
pub proof fn lemma_status_changes_only_on_answer(
    p: ProgramView,
    action: SessionAction,
    block_timestamp_ms: u64,
    user: ActorId,
)
    requires
        p.games.contains_key(user),
    ensures
        ({
            let q = handle_next(p, action, block_timestamp_ms).0;
            q.games.contains_key(user)
                && (q.games[user].status == p.games[user].status || match p.session.session_status {
                    SessionStatus::MessageReceive(WordleEvent::GameStarted { user: u }) => u == user
                        && q.games[user] == fresh_game(block_timestamp_ms / 1000),
                    SessionStatus::MessageReceive(WordleEvent::WordChecked { user: u, .. }) => u
                        == user && q.games[user].status.left_attempts == p.games[user].status.left_attempts
                        - 1,
                    _ => false,
                })
        }),
{
}

/// The seconds left of a game are all of them at its start, never more, and
/// they never grow as time passes.
pub proof fn lemma_left_seconds_run_down(start: int, now: int, later: int)
    requires
        start <= now <= later,
    ensures
        left_seconds(start, start) == INIT_SECONDS,
        0 <= left_seconds(start, later) <= left_seconds(start, now) <= INIT_SECONDS,
{
}

/// An answered guess costs exactly one guess, and decides the game as
/// follows: it is won exactly when every position of the word is correct,
/// whatever number of guesses is left; otherwise it is lost exactly when that
/// was the last guess, and goes on when guesses are left.
pub proof fn lemma_answer_decides_game(g: UserGameView, correct_positions: Seq<u8>, now: u64)
    requires
        g.status.left_attempts >= 1,
    ensures
        checked_status(g, correct_positions, now).left_attempts + 1 == g.status.left_attempts,
        checked_status(g, correct_positions, now).game_result == Some(GameResult::Win)
            <==> correct_positions.len() == WORD_LENGTH,
        checked_status(g, correct_positions, now).game_result == Some(GameResult::Lose)
            <==> (correct_positions.len() != WORD_LENGTH && g.status.left_attempts == 1),
        checked_status(g, correct_positions, now).game_result is None
            <==> (correct_positions.len() != WORD_LENGTH && g.status.left_attempts > 1),
{
}

/// An answered guess leaves the seconds of the game's clock at the time of
/// the answer: whatever of the game's length has not elapsed since its start.
pub proof fn lemma_answer_recounts_seconds(g: UserGameView, correct_positions: Seq<u8>, now: u64)
    requires
        g.status.left_attempts >= 1,
        g.start_timestamp <= now,
    ensures
        now - g.start_timestamp <= INIT_SECONDS ==> checked_status(g, correct_positions, now).left_seconds
            + (now - g.start_timestamp) == INIT_SECONDS,
        now - g.start_timestamp >= INIT_SECONDS ==> checked_status(g, correct_positions, now).left_seconds
            == 0,
{
    lemma_game_clock(g.start_timestamp as int, now as int);
}

/// The game clock: until the game's length has elapsed, the seconds left and
/// the seconds elapsed add up to the game's length; the clock reaches zero
/// exactly when the whole length has elapsed, and each further second takes
/// exactly one second off while any is left.
pub proof fn lemma_game_clock(start: int, now: int)
    requires
        start <= now,
    ensures
        now - start <= INIT_SECONDS ==> left_seconds(start, now) + (now - start) == INIT_SECONDS,
        left_seconds(start, now) == 0 <==> now - start >= INIT_SECONDS,
        left_seconds(start, now) > 0 ==> left_seconds(start, now + 1) == left_seconds(start, now) - 1,
        left_seconds(start, now) == 0 ==> left_seconds(start, now + 1) == 0,
{
}

/// A status query of a player who has a game, while the session is ready,
/// answers that game's stored status, open or finished, and changes nothing.
pub proof fn lemma_status_query_reports_stored_status(
    p: ProgramView,
    user: ActorId,
    block_timestamp_ms: u64,
)
    requires
        p.session.session_status is Waiting,
        p.games.contains_key(user),
    ensures
        handle_next(p, SessionAction::CheckGameStatus { user }, block_timestamp_ms) == (
            p,
            EffectView::Reply(SessionEventView::GameStatus(p.games[user].status)),
        ),
{
}

/// A game started by the word game's answer handled at block timestamp
/// `ms` starts at that time in whole seconds, with the whole game's length
/// and every guess left, no result and no guess made.
pub proof fn lemma_started_game_is_fresh(
    p: ProgramView,
    user: ActorId,
    action: SessionAction,
    ms: u64,
)
    requires
        p.session.session_status == SessionStatus::MessageReceive(WordleEvent::GameStarted { user }),
    ensures
        ({
            let g = handle_next(p, action, ms).0.games[user];
            &&& handle_next(p, action, ms).0.games.contains_key(user)
            &&& g.start_timestamp == ms / 1000
            &&& g.status == GameStatus {
                left_seconds: 30,
                left_attempts: 3,
                game_result: None,
            }
            &&& g.history.len() == 0
            &&& left_seconds(g.start_timestamp as int, (ms / 1000) as int) == INIT_SECONDS
            &&& INIT_SECONDS == 30 && INIT_ATTEMPTS == 3
        }),
{
}

/// Once a game's clock has run out, a guess is no longer forwarded: it is
/// answered with the stored status and changes nothing.
pub proof fn lemma_time_over_refuses_guess(
    p: ProgramView,
    user: ActorId,
    word: String,
    block_timestamp_ms: u64,
)
    requires
        p.session.session_status is Waiting,
        p.games.contains_key(user),
        p.games[user].status.left_seconds == 0,
    ensures
        handle_next(p, SessionAction::CheckWord { user, word }, block_timestamp_ms) == (
            p,
            EffectView::Reply(SessionEventView::GameStatus(p.games[user].status)),
        ),
{
}

} // verus!
