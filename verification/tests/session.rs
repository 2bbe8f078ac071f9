use game_session::game::{get_left_seconds, get_timestamp, INIT_ATTEMPTS, INIT_BLOCKS, INIT_SECONDS};
use game_session::ids::{ActorId, MessageId};
use game_session::io::{
    GameResult, GameStatus, Session, SessionAction, SessionEvent, SessionStatus, WordleAction,
    WordleEvent,
};
use game_session::program::{Effect, Failure, GameSessionProgram};

fn target() -> ActorId {
    ActorId::from_u64(2)
}

fn alice() -> ActorId {
    ActorId::from_u64(8)
}

fn bob() -> ActorId {
    ActorId(9, 1, 0, 7)
}

fn mid(n: u64) -> MessageId {
    MessageId(n, 0, 0, 0)
}

fn status(secs: u32, attempts: u32, result: Option<GameResult>) -> GameStatus {
    GameStatus { left_seconds: secs, left_attempts: attempts, game_result: result }
}

/// Starts a game for `user` at `ms`, walking through the exchange with the
/// word game.
fn start(p: &mut GameSessionProgram, user: ActorId, ms: u64, sent: u64, original: u64) -> Effect {
    let e = p.handle(SessionAction::StartGame { user }, ms);
    assert_eq!(e, Effect::SendAndWait(WordleAction::StartGame { user }));
    p.message_sent(mid(sent), mid(original));
    assert_eq!(p.handle_reply(mid(sent), WordleEvent::GameStarted { user }), Some(mid(original)));
    p.handle(SessionAction::StartGame { user }, ms)
}

/// Guesses `word` for `user`; the word game answers with the given
/// positions, and the answer is handled at `answer_ms`.
fn guess(
    p: &mut GameSessionProgram,
    user: ActorId,
    word: &str,
    correct: Vec<u8>,
    contained: Vec<u8>,
    ms: u64,
    answer_ms: u64,
) -> Effect {
    let action = SessionAction::CheckWord { user, word: String::from(word) };
    let e = p.handle(action.clone(), ms);
    assert_eq!(e, Effect::SendAndWait(WordleAction::CheckWord { user, word: String::from(word) }));
    p.message_sent(mid(100), mid(101));
    let answer = WordleEvent::WordChecked { user, correct_positions: correct, contained_in_word: contained };
    assert_eq!(p.handle_reply(mid(100), answer), Some(mid(101)));
    p.handle(action, answer_ms)
}

#[test]
fn timestamp_is_in_whole_seconds() {
    assert_eq!(get_timestamp(0), 0);
    assert_eq!(get_timestamp(999), 0);
    assert_eq!(get_timestamp(12_345), 12);
    assert_eq!(get_timestamp(u64::MAX), u64::MAX / 1000);
}

#[test]
fn left_seconds_run_down_to_zero() {
    assert_eq!(get_left_seconds(100, 100), 30);
    assert_eq!(get_left_seconds(100, 112), 18);
    assert_eq!(get_left_seconds(100, 130), 0);
    assert_eq!(get_left_seconds(100, 131), 0);
    assert_eq!(get_left_seconds(0, u64::MAX), 0);
    assert_eq!(INIT_SECONDS, INIT_BLOCKS as u64 * 3);
}

#[test]
fn init_sets_up_a_waiting_session() {
    let p = GameSessionProgram::init(target());
    assert_eq!(
        *p.state(),
        Session {
            target_program_id: target(),
            msg_ids: (MessageId::zero(), MessageId::zero()),
            session_status: SessionStatus::Waiting,
        }
    );
    assert!(p.game(&alice()).is_none());
}

#[test]
fn start_game_round_trip() {
    let mut p = GameSessionProgram::init(target());
    let e = start(&mut p, alice(), 7_500, 3, 4);
    assert_eq!(
        e,
        Effect::ReplyAndRemind {
            event: SessionEvent::GameStarted { user: alice() },
            reminder: SessionAction::CheckGameStatus { user: alice() },
            delay_blocks: INIT_BLOCKS,
        }
    );
    assert_eq!(p.state().session_status, SessionStatus::Waiting);
    assert_eq!(p.state().msg_ids, (mid(3), mid(4)));
    let g = p.game(&alice()).unwrap();
    assert_eq!(g.start_timestamp, 7);
    assert_eq!(g.status, status(30, INIT_ATTEMPTS, None));
    assert!(g.history.is_empty());
    assert!(p.game(&bob()).is_none());
    let e = p.handle(SessionAction::CheckGameStatus { user: alice() }, 8_000);
    assert_eq!(e, Effect::Reply(SessionEvent::GameStatus(status(30, 3, None))));
}

#[test]
fn busy_session_refuses_and_stray_answer_is_ignored() {
    let mut p = GameSessionProgram::init(target());
    let e = p.handle(SessionAction::StartGame { user: alice() }, 0);
    assert_eq!(e, Effect::SendAndWait(WordleAction::StartGame { user: alice() }));
    p.message_sent(mid(5), mid(6));
    let e = p.handle(SessionAction::StartGame { user: bob() }, 0);
    assert_eq!(e, Effect::Reply(SessionEvent::GameError(String::from("Session is waiting"))));
    assert_eq!(p.state().session_status, SessionStatus::MessageSent);
    assert_eq!(p.handle_reply(mid(9), WordleEvent::GameStarted { user: alice() }), None);
    assert_eq!(p.state().session_status, SessionStatus::MessageSent);
    assert_eq!(p.state().msg_ids, (mid(5), mid(6)));
}

#[test]
fn guess_is_answered_and_counted() {
    let mut p = GameSessionProgram::init(target());
    start(&mut p, alice(), 10_000, 1, 2);
    let e = guess(&mut p, alice(), "huodd", vec![0], vec![1, 2], 12_000, 22_000);
    assert_eq!(
        e,
        Effect::Reply(SessionEvent::WordChecked {
            user: alice(),
            correct_positions: vec![0],
            contained_in_word: vec![1, 2],
        })
    );
    let g = p.game(&alice()).unwrap();
    assert_eq!(g.status, status(18, 2, None));
    assert_eq!(g.history.len(), 1);
    assert_eq!(g.history[0].word, "huodd");
    assert_eq!(g.history[0].correct_positions, Some(vec![0]));
    assert_eq!(g.history[0].contained_in_word, Some(vec![1, 2]));
    assert_eq!(p.state().session_status, SessionStatus::Waiting);
}

#[test]
fn all_positions_correct_wins() {
    let mut p = GameSessionProgram::init(target());
    start(&mut p, alice(), 0, 1, 2);
    let e = guess(&mut p, alice(), "house", vec![0, 1, 2, 3, 4], vec![], 1_000, 5_000);
    assert_eq!(e, Effect::Reply(SessionEvent::GameStatus(status(25, 2, Some(GameResult::Win)))));
    let e = p.handle(SessionAction::CheckWord { user: alice(), word: String::from("mouse") }, 6_000);
    assert_eq!(e, Effect::Reply(SessionEvent::GameStatus(status(25, 2, Some(GameResult::Win)))));
    assert_eq!(p.game(&alice()).unwrap().history.len(), 1);
}

#[test]
fn last_wrong_guess_loses_and_the_game_stays_lost() {
    let mut p = GameSessionProgram::init(target());
    start(&mut p, alice(), 0, 1, 2);
    guess(&mut p, alice(), "aaaaa", vec![], vec![], 0, 1_000);
    guess(&mut p, alice(), "bbbbb", vec![], vec![], 1_000, 2_000);
    let e = guess(&mut p, alice(), "ccccc", vec![1], vec![], 2_000, 3_000);
    let lost = status(27, 0, Some(GameResult::Lose));
    assert_eq!(e, Effect::Reply(SessionEvent::GameStatus(lost)));
    let e = p.handle(SessionAction::CheckWord { user: alice(), word: String::from("house") }, 4_000);
    assert_eq!(e, Effect::Reply(SessionEvent::GameStatus(lost)));
    let e = p.handle(SessionAction::CheckGameStatus { user: alice() }, 4_000);
    assert_eq!(e, Effect::Reply(SessionEvent::GameStatus(lost)));
    assert_eq!(p.game(&alice()).unwrap().history.len(), 3);
    assert_eq!(p.state().session_status, SessionStatus::Waiting);
}

#[test]
fn time_over_stops_forwarding_guesses() {
    let mut p = GameSessionProgram::init(target());
    start(&mut p, alice(), 0, 1, 2);
    let e = guess(&mut p, alice(), "aaaaa", vec![], vec![4], 1_000, 40_000);
    assert_eq!(
        e,
        Effect::Reply(SessionEvent::WordChecked {
            user: alice(),
            correct_positions: vec![],
            contained_in_word: vec![4],
        })
    );
    assert_eq!(p.game(&alice()).unwrap().status, status(0, 2, None));
    let e = p.handle(SessionAction::CheckWord { user: alice(), word: String::from("house") }, 41_000);
    assert_eq!(e, Effect::Reply(SessionEvent::GameStatus(status(0, 2, None))));
    assert_eq!(p.game(&alice()).unwrap().history.len(), 1);
}

#[test]
fn requests_without_a_game_fail() {
    let mut p = GameSessionProgram::init(target());
    let e = p.handle(SessionAction::CheckGameStatus { user: alice() }, 0);
    assert_eq!(e, Effect::Fail(Failure::UnknownUser));
    let e = p.handle(SessionAction::CheckWord { user: alice(), word: String::from("house") }, 0);
    assert_eq!(e, Effect::Fail(Failure::UnknownUser));
    assert_eq!(p.state().session_status, SessionStatus::Waiting);
}

#[test]
fn answer_about_a_player_without_game_fails_and_is_kept() {
    let mut p = GameSessionProgram::init(target());
    start(&mut p, alice(), 0, 1, 2);
    p.handle(SessionAction::CheckWord { user: alice(), word: String::from("house") }, 0);
    p.message_sent(mid(3), mid(4));
    let answer = WordleEvent::WordChecked { user: bob(), correct_positions: vec![], contained_in_word: vec![] };
    p.handle_reply(mid(3), answer.clone());
    let e = p.handle(SessionAction::CheckGameStatus { user: alice() }, 1_000);
    assert_eq!(e, Effect::Fail(Failure::UnknownUser));
    assert_eq!(p.state().session_status, SessionStatus::MessageReceive(answer));
}

#[test]
fn answer_to_a_lost_game_fails() {
    let mut p = GameSessionProgram::init(target());
    start(&mut p, alice(), 0, 1, 2);
    start(&mut p, bob(), 0, 3, 4);
    guess(&mut p, alice(), "aaaaa", vec![], vec![], 0, 0);
    guess(&mut p, alice(), "aaaaa", vec![], vec![], 0, 0);
    guess(&mut p, alice(), "aaaaa", vec![], vec![], 0, 0);
    let e = p.handle(SessionAction::CheckWord { user: bob(), word: String::from("house") }, 0);
    assert_eq!(e, Effect::SendAndWait(WordleAction::CheckWord { user: bob(), word: String::from("house") }));
    p.message_sent(mid(7), mid(8));
    let answer = WordleEvent::WordChecked { user: alice(), correct_positions: vec![], contained_in_word: vec![] };
    p.handle_reply(mid(7), answer);
    let e = p.handle(SessionAction::CheckWord { user: bob(), word: String::from("house") }, 0);
    assert_eq!(e, Effect::Fail(Failure::NoAttemptsLeft));
    assert_eq!(p.game(&alice()).unwrap().status, status(30, 0, Some(GameResult::Lose)));
}

#[test]
fn answer_before_the_start_of_the_game_fails() {
    let mut p = GameSessionProgram::init(target());
    start(&mut p, alice(), 100_000, 1, 2);
    let e = guess(&mut p, alice(), "house", vec![0], vec![], 100_000, 99_000);
    assert_eq!(e, Effect::Fail(Failure::ClockBeforeStart));
    assert_eq!(p.game(&alice()).unwrap().status, status(30, 3, None));
    assert!(matches!(p.state().session_status, SessionStatus::MessageReceive(_)));
    let e = p.handle(SessionAction::CheckGameStatus { user: alice() }, 101_000);
    assert_eq!(
        e,
        Effect::Reply(SessionEvent::WordChecked {
            user: alice(),
            correct_positions: vec![0],
            contained_in_word: vec![],
        })
    );
    assert_eq!(p.game(&alice()).unwrap().status, status(29, 2, None));
}

#[test]
fn starting_again_gives_a_fresh_game() {
    let mut p = GameSessionProgram::init(target());
    start(&mut p, alice(), 0, 1, 2);
    start(&mut p, bob(), 0, 5, 6);
    guess(&mut p, alice(), "aaaaa", vec![], vec![], 0, 3_000);
    start(&mut p, alice(), 9_000, 3, 4);
    let g = p.game(&alice()).unwrap();
    assert_eq!(g.start_timestamp, 9);
    assert_eq!(g.status, status(30, 3, None));
    assert!(g.history.is_empty());
    assert_eq!(p.game(&bob()).unwrap().status, status(30, 3, None));
}
