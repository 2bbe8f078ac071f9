use vstd::prelude::*;

use crate::game::{
    check_status, checked_game, fresh_game, game_wf, get_timestamp, lemma_checked_game_wf,
    new_game, UserGame, UserGameView, WordGuessResult, WordGuessView, INIT_BLOCKS,
};
use crate::games::GameBook;
use crate::ids::{ActorId, MessageId};
use crate::io::{
    Session, SessionAction, SessionEvent, SessionEventView, SessionStatus,
    WordleAction, WordleEvent,
};

verus! {

/// Why a request cannot be served; the program stops on it and nothing
/// changes.
#[derive(Clone, Copy, Debug, PartialEq, Eq, Structural)]
pub enum Failure {
    /// The player has no game.
    UnknownUser,
    /// The word game answered a guess of a game that has no guess left.
    NoAttemptsLeft,
    /// The clock reads a time before the start of the game.
    ClockBeforeStart,
}

/// What the program does after taking a request.
#[derive(Debug, PartialEq, Eq)]
pub enum Effect {
    /// Answer the player.
    Reply(SessionEvent),
    /// Forward a request to the word game program, record the message with
    /// `message_sent`, and wait for the answer.
    SendAndWait(WordleAction),
    /// Answer the player, and send `reminder` to this program after
    /// `delay_blocks` blocks.
    ReplyAndRemind { event: SessionEvent, reminder: SessionAction, delay_blocks: u32 },
    /// Stop without answering; every change of this request is undone.
    Fail(Failure),
}

/// `Effect` with its answer taken as a view.
pub enum EffectView {
    Reply(SessionEventView),
    SendAndWait(WordleAction),
    ReplyAndRemind { event: SessionEventView, reminder: SessionAction, delay_blocks: u32 },
    Fail(Failure),
}

impl View for Effect {
    type V = EffectView;

    open spec fn view(&self) -> EffectView {
        match self {
            Effect::Reply(e) => EffectView::Reply(e@),
            Effect::SendAndWait(a) => EffectView::SendAndWait(*a),
            Effect::ReplyAndRemind { event, reminder, delay_blocks } => EffectView::ReplyAndRemind {
                event: event@,
                reminder: *reminder,
                delay_blocks: *delay_blocks,
            },
            Effect::Fail(f) => EffectView::Fail(*f),
        }
    }
}

/// The state of the session program: the session and every player's game.
#[verifier::ext_equal]
pub struct ProgramView {
    pub session: Session,
    pub games: Map<ActorId, UserGameView>,
}

/// Every game in `games` is well formed.
pub open spec fn games_wf(games: Map<ActorId, UserGameView>) -> bool {
    forall|k: ActorId| #[trigger] games.contains_key(k) ==> game_wf(games[k])
}

/// The answer while a forwarded request awaits its answer.
pub open spec fn waiting_message() -> Seq<char> {
    "Session is waiting"@
}

/// The program right after it was set up to play with `target`.
pub open spec fn initial(target: ActorId) -> ProgramView {
    ProgramView {
        session: Session {
            target_program_id: target,
            msg_ids: (MessageId(0, 0, 0, 0), MessageId(0, 0, 0, 0)),
            session_status: SessionStatus::Waiting,
        },
        games: Map::empty(),
    }
}

/// A player's request taken while the session is ready.
pub open spec fn waiting_next(p: ProgramView, action: SessionAction) -> (ProgramView, EffectView) {
    match action {
        SessionAction::StartGame { user } => (
            p,
            EffectView::SendAndWait(WordleAction::StartGame { user }),
        ),
        SessionAction::CheckWord { user, word } => {
            if !p.games.contains_key(user) {
                (p, EffectView::Fail(Failure::UnknownUser))
            } else {
                let g = p.games[user];
                if g.status.game_result is Some || g.status.left_seconds == 0 {
                    (p, EffectView::Reply(SessionEventView::GameStatus(g.status)))
                } else {
                    let guess = WordGuessView {
                        word: word@,
                        correct_positions: None,
                        contained_in_word: None,
                    };
                    (
                        ProgramView {
                            games: p.games.insert(
                                user,
                                UserGameView { history: g.history.push(guess), ..g },
                            ),
                            ..p
                        },
                        EffectView::SendAndWait(WordleAction::CheckWord { user, word }),
                    )
                }
            }
        },
        SessionAction::CheckGameStatus { user } => {
            if !p.games.contains_key(user) {
                (p, EffectView::Fail(Failure::UnknownUser))
            } else {
                (p, EffectView::Reply(SessionEventView::GameStatus(p.games[user].status)))
            }
        },
    }
}

/// The failure, if any, of handling the word game's answer `event` at time
/// `now` (in seconds).
pub open spec fn event_failure(p: ProgramView, event: WordleEvent, now: u64) -> Option<Failure> {
    match event {
        WordleEvent::GameStarted { .. } => None,
        WordleEvent::WordChecked { user, .. } => {
            if !p.games.contains_key(user) {
                Some(Failure::UnknownUser)
            } else if p.games[user].status.left_attempts == 0 {
                Some(Failure::NoAttemptsLeft)
            } else if now < p.games[user].start_timestamp {
                Some(Failure::ClockBeforeStart)
            } else {
                None
            }
        },
    }
}

/// The word game's answer `event` handled at time `now` (in seconds): the
/// game it speaks of is started or updated, the player is answered, and the
/// session is ready again.
pub open spec fn event_next(p: ProgramView, event: WordleEvent, now: u64) -> (ProgramView, EffectView) {
    match event_failure(p, event, now) {
        Some(f) => (p, EffectView::Fail(f)),
        None => {
            let session = Session { session_status: SessionStatus::Waiting, ..p.session };
            match event {
                WordleEvent::GameStarted { user } => (
                    ProgramView { session, games: p.games.insert(user, fresh_game(now)) },
                    EffectView::ReplyAndRemind {
                        event: SessionEventView::GameStarted { user },
                        reminder: SessionAction::CheckGameStatus { user },
                        delay_blocks: INIT_BLOCKS,
                    },
                ),
                WordleEvent::WordChecked { user, correct_positions, contained_in_word } => {
                    let g = checked_game(
                        p.games[user],
                        correct_positions@,
                        contained_in_word@,
                        now,
                    );
                    let reply = if g.status.game_result is None {
                        SessionEventView::WordChecked {
                            user,
                            correct_positions: correct_positions@,
                            contained_in_word: contained_in_word@,
                        }
                    } else {
                        SessionEventView::GameStatus(g.status)
                    };
                    (ProgramView { session, games: p.games.insert(user, g) }, EffectView::Reply(reply))
                },
            }
        },
    }
}

/// A player's request `action` taken when the block timestamp is
/// `block_timestamp_ms` (in milliseconds).
pub open spec fn handle_next(p: ProgramView, action: SessionAction, block_timestamp_ms: u64) -> (
    ProgramView,
    EffectView,
) {
    match p.session.session_status {
        SessionStatus::MessageSent => (
            p,
            EffectView::Reply(SessionEventView::GameError(waiting_message())),
        ),
        SessionStatus::Waiting => waiting_next(p, action),
        SessionStatus::MessageReceive(event) => event_next(p, event, block_timestamp_ms / 1000),
    }
}

/// The program after it forwarded a request as message `sent`, on behalf of
/// the player's message `original`.
pub open spec fn sent_next(p: ProgramView, sent: MessageId, original: MessageId) -> ProgramView {
    ProgramView {
        session: Session {
            msg_ids: (sent, original),
            session_status: SessionStatus::MessageSent,
            ..p.session
        },
        ..p
    }
}

/// The program after an answer `event` to message `reply_to` came back, and
/// the player's message to wake, if the answer is to the forwarded request.
pub open spec fn reply_next(p: ProgramView, reply_to: MessageId, event: WordleEvent) -> (
    ProgramView,
    Option<MessageId>,
) {
    if reply_to == p.session.msg_ids.0 {
        (
            ProgramView {
                session: Session {
                    session_status: SessionStatus::MessageReceive(event),
                    ..p.session
                },
                ..p
            },
            Some(p.session.msg_ids.1),
        )
    } else {
        (p, None)
    }
}

/// The session program: it stands between the players and the word game
/// program, forwards their requests one at a time, and keeps their games.
pub struct GameSessionProgram {
    session: Session,
    games: GameBook,
}

impl View for GameSessionProgram {
    type V = ProgramView;

    closed spec fn view(&self) -> ProgramView {
        ProgramView { session: self.session, games: self.games@ }
    }
}

impl GameSessionProgram {
    /// The program's internal invariant: every game is well formed.
    pub closed spec fn wf(&self) -> bool {
        &&& self.games.wf()
        &&& games_wf(self.games@)
    }

    /// Sets the program up to play the word game with `target_program_id`.
    pub fn init(target_program_id: ActorId) -> (p: GameSessionProgram)
        ensures
            p.wf(),
            p@ == initial(target_program_id),
    {
        GameSessionProgram {
            session: Session {
                target_program_id,
                msg_ids: (MessageId::zero(), MessageId::zero()),
                session_status: SessionStatus::Waiting,
            },
            games: GameBook::new(),
        }
    }

    /// The session.
    pub fn state(&self) -> (s: &Session)
        ensures
            *s == self@.session,
    {
        &self.session
    }

    /// The game of `user`, if it has one.
    pub fn game(&self, user: &ActorId) -> (r: Option<&UserGame>)
        requires
            self.wf(),
        ensures
            r is None <==> !self@.games.contains_key(*user),
            r matches Some(g) ==> g@ == self@.games[*user],
    {
        self.games.get(user)
    }

    /// Takes a player's request `action` when the block timestamp is
    /// `block_timestamp_ms` milliseconds.
    pub fn handle(&mut self, action: SessionAction, block_timestamp_ms: u64) -> (effect: Effect)
        requires
            old(self).wf(),
        ensures
            final(self).wf(),
            final(self)@ == handle_next(old(self)@, action, block_timestamp_ms).0,
            effect@ == handle_next(old(self)@, action, block_timestamp_ms).1,
    {
        let sent = match &self.session.session_status {
            SessionStatus::MessageSent => true,
            _ => false,
        };
        if sent {
            return Effect::Reply(SessionEvent::GameError("Session is waiting".to_owned()));
        }
        let waiting = match &self.session.session_status {
            SessionStatus::Waiting => true,
            _ => false,
        };
        if waiting {
            return self.handle_waiting(action);
        }
        let now = get_timestamp(block_timestamp_ms);
        match self.event_failure(now) {
            Some(f) => {
                return Effect::Fail(f);
            },
            None => {},
        }
        let mut status = SessionStatus::Waiting;
        std::mem::swap(&mut status, &mut self.session.session_status);
        match status {
            SessionStatus::MessageReceive(event) => self.apply_event(event, now),
            _ => {
                proof {
                    assert(false);
                }
                Effect::Fail(Failure::UnknownUser)
            },
        }
    }

    fn handle_waiting(&mut self, action: SessionAction) -> (effect: Effect)
        requires
            old(self).wf(),
            old(self).session.session_status is Waiting,
        ensures
            final(self).wf(),
            final(self)@ == waiting_next(old(self)@, action).0,
            effect@ == waiting_next(old(self)@, action).1,
    {
        match action {
            SessionAction::StartGame { user } => Effect::SendAndWait(WordleAction::StartGame { user }),
            SessionAction::CheckWord { user, word } => {
                let status = match self.games.get(&user) {
                    Some(g) => g.status,
                    None => {
                        return Effect::Fail(Failure::UnknownUser);
                    },
                };
                if status.game_result.is_some() || status.left_seconds == 0 {
                    Effect::Reply(SessionEvent::GameStatus(status))
                } else {
                    let guess = WordGuessResult {
                        word: word.clone(),
                        correct_positions: None,
                        contained_in_word: None,
                    };
                    let ghost before = self.games@;
                    self.games.push_guess(&user, guess);
                    proof {
                        let g = before[user];
                        let g2 = self.games@[user];
                        assert(game_wf(g));
                        assert(g2.status == g.status);
                        assert forall|k: ActorId| #[trigger] self.games@.contains_key(k) implies game_wf(self.games@[k]) by {
                            if k != user {
                                assert(before.contains_key(k));
                            }
                        }
                    }
                    Effect::SendAndWait(WordleAction::CheckWord { user, word })
                }
            },
            SessionAction::CheckGameStatus { user } => {
                match self.games.get(&user) {
                    Some(g) => Effect::Reply(SessionEvent::GameStatus(g.status)),
                    None => Effect::Fail(Failure::UnknownUser),
                }
            },
        }
    }

    fn event_failure(&self, now: u64) -> (r: Option<Failure>)
        requires
            self.wf(),
            self.session.session_status is MessageReceive,
        ensures
            r == event_failure(self@, self.session.session_status->MessageReceive_0, now),
    {
        match &self.session.session_status {
            SessionStatus::MessageReceive(WordleEvent::WordChecked { user, .. }) => {
                match self.games.get(user) {
                    None => Some(Failure::UnknownUser),
                    Some(g) => {
                        if g.status.left_attempts == 0 {
                            Some(Failure::NoAttemptsLeft)
                        } else if now < g.start_timestamp {
                            Some(Failure::ClockBeforeStart)
                        } else {
                            None
                        }
                    },
                }
            },
            _ => None,
        }
    }

    fn apply_event(&mut self, event: WordleEvent, now: u64) -> (effect: Effect)
        requires
            old(self).wf(),
            old(self).session.session_status is Waiting,
            event_failure(old(self)@, event, now) is None,
        ensures
            final(self).wf(),
            final(self)@ == event_next(
                ProgramView {
                    session: Session {
                        session_status: SessionStatus::MessageReceive(event),
                        ..old(self)@.session
                    },
                    ..old(self)@
                },
                event,
                now,
            ).0,
            effect@ == event_next(
                ProgramView {
                    session: Session {
                        session_status: SessionStatus::MessageReceive(event),
                        ..old(self)@.session
                    },
                    ..old(self)@
                },
                event,
                now,
            ).1,
    {
        let ghost before = self.games@;
        match event {
            WordleEvent::GameStarted { user } => {
                let g = new_game(now);
                self.games.insert(user, g);
                proof {
                    assert forall|k: ActorId| #[trigger] self.games@.contains_key(k) implies game_wf(self.games@[k]) by {
                        if k != user {
                            assert(before.contains_key(k));
                        }
                    }
                }
                Effect::ReplyAndRemind {
                    event: SessionEvent::GameStarted { user },
                    reminder: SessionAction::CheckGameStatus { user },
                    delay_blocks: INIT_BLOCKS,
                }
            },
            WordleEvent::WordChecked { user, correct_positions, contained_in_word } => {
                let status = match self.games.get(&user) {
                    Some(g) => check_status(g, &correct_positions, now),
                    None => {
                        proof {
                            assert(false);
                        }
                        return Effect::Fail(Failure::UnknownUser);
                    },
                };
                let cp = correct_positions.clone();
                let ciw = contained_in_word.clone();
                proof {
                    assert(cp@ =~= correct_positions@);
                    assert(ciw@ =~= contained_in_word@);
                    lemma_checked_game_wf(before[user], correct_positions@, contained_in_word@, now);
                }
                self.games.record_answer(&user, status, cp, ciw);
                proof {
                    assert(self.games@[user] =~= checked_game(
                        before[user],
                        correct_positions@,
                        contained_in_word@,
                        now,
                    ));
                    assert forall|k: ActorId| #[trigger] self.games@.contains_key(k) implies game_wf(self.games@[k]) by {
                        if k != user {
                            assert(before.contains_key(k));
                        }
                    }
                }
                if status.game_result.is_none() {
                    Effect::Reply(SessionEvent::WordChecked { user, correct_positions, contained_in_word })
                } else {
                    Effect::Reply(SessionEvent::GameStatus(status))
                }
            },
        }
    }

    /// Records that a request was forwarded as message `sent` on behalf of
    /// the player's message `original`; the session then awaits the answer.
    pub fn message_sent(&mut self, sent: MessageId, original: MessageId)
        requires
            old(self).wf(),
        ensures
            final(self).wf(),
            final(self)@ == sent_next(old(self)@, sent, original),
    {
        self.session.msg_ids = (sent, original);
        self.session.session_status = SessionStatus::MessageSent;
    }

    /// Whether `reply_to` is the forwarded message whose answer the session
    /// takes.
    pub fn awaits_reply_to(&self, reply_to: MessageId) -> (r: bool)
        ensures
            r == (reply_to == self@.session.msg_ids.0),
    {
        reply_to == self.session.msg_ids.0
    }

    /// Takes the answer `event` to message `reply_to`; where it answers the
    /// forwarded request, it is kept for handling and the player's message to
    /// wake is returned.
    pub fn handle_reply(&mut self, reply_to: MessageId, event: WordleEvent) -> (wake: Option<MessageId>)
        requires
            old(self).wf(),
        ensures
            final(self).wf(),
            final(self)@ == reply_next(old(self)@, reply_to, event).0,
            wake == reply_next(old(self)@, reply_to, event).1,
    {
        if reply_to == self.session.msg_ids.0 {
            self.session.session_status = SessionStatus::MessageReceive(event);
            Some(self.session.msg_ids.1)
        } else {
            None
        }
    }
}

} // verus!
