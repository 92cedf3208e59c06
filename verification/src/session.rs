//! The correlation ledger and the session state machine.

use vstd::prelude::*;

use crate::ids::{ActorId, MessageId};
use crate::protocol::{
    GameSessionAction, GameSessionEvent, GameSessionInit, GameSessionState, GameStatus,
    SessionInfo, SessionStatus, SpecGameSessionEvent, SpecSessionInfo, SpecSessionStatus,
    SpecWordleEvent, WordleAction, WordleEvent, spec_event_user, spec_has_guessed,
    spec_is_wait_reply, spec_new_session, spec_session_event_of, is_valid_word, spec_valid_word,
    TRIES_LIMIT,
};

verus! {

/// Why an inbound player request was refused.  A refused request aborts
/// with no mutation of the ledger.
#[derive(Clone, Copy, PartialEq, Eq, Structural, Debug)]
pub enum SessionError {
    /// A start request while a game is already in progress.
    AlreadyInGame,
    /// A guess while no game is in progress.
    NotInGame,
    /// A guess that is not five lowercase letters.
    InvalidWord,
}

/// What the caller must perform after a handler accepted an inbound
/// event.  The state machine decides; the transport carries it out.
#[derive(Debug)]
pub enum HandleOutcome {
    /// Reply to the inbound request with this event.
    Reply(GameSessionEvent),
    /// Send `to_wordle` to the word-checking service, report the assigned
    /// message identifier through
    /// [`GameSession::record_wordle_request`], schedule `deadline` (if
    /// any) back to the coordinator itself after
    /// [`crate::protocol::DEADLINE_DELAY`] time units, then suspend the
    /// current handler until it is woken.
    SendAndWait { to_wordle: WordleAction, deadline: Option<GameSessionAction> },
    /// Push this event to player `to` (fire and forget, not a reply to a
    /// live request).
    Notify { to: ActorId, event: GameSessionEvent },
    /// Nothing to do.
    NoAction,
}

/// The whole coordinator state: the fixed address of the word-checking
/// service, and one session record per player.
pub struct GameSession {
    pub wordle_program_id: ActorId,
    pub sessions: Vec<(ActorId, SessionInfo)>,
}

/// Spec view of [`GameSession`]: the ledger as a sequence of
/// (player, record) pairs in insertion order.
#[verifier::ext_equal]
pub struct SpecGameSession {
    pub wordle_program_id: ActorId,
    pub sessions: Seq<(ActorId, SpecSessionInfo)>,
}

impl View for GameSession {
    type V = SpecGameSession;

    open spec fn view(&self) -> SpecGameSession {
        SpecGameSession {
            wordle_program_id: self.wordle_program_id,
            sessions: Seq::new(
                self.sessions@.len(),
                |i: int| (self.sessions@[i].0, self.sessions@[i].1@),
            ),
        }
    }
}

impl SpecGameSession {
    /// Whether the ledger holds a record for `user`.
    pub open spec fn contains_player(self, user: ActorId) -> bool {
        exists|i: int| 0 <= i < self.sessions.len() && self.sessions[i].0 == user
    }

    /// The position of `user`'s record in the ledger.
    pub open spec fn index_of(self, user: ActorId) -> int {
        choose|i: int| 0 <= i < self.sessions.len() && self.sessions[i].0 == user
    }

    /// The record the ledger holds for `user`.
    pub open spec fn session(self, user: ActorId) -> SpecSessionInfo {
        self.sessions[self.index_of(user)].1
    }

    /// `user`'s record if one exists, else the fresh record a first
    /// request would create for them.
    pub open spec fn session_or_new(self, user: ActorId) -> SpecSessionInfo {
        if self.contains_player(user) {
            self.session(user)
        } else {
            spec_new_session()
        }
    }

    /// The ledger after `user`'s record is set to `info`: overwritten in
    /// place if present, appended if not.  The service address and every
    /// other player's record are untouched.
    pub open spec fn with_session(self, user: ActorId, info: SpecSessionInfo) -> SpecGameSession {
        SpecGameSession {
            wordle_program_id: self.wordle_program_id,
            sessions: if self.contains_player(user) {
                self.sessions.update(self.index_of(user), (user, info))
            } else {
                self.sessions.push((user, info))
            },
        }
    }

    /// With unique keys, any position holding `user`'s key is the one
    /// `index_of` picks.
    pub proof fn lemma_index_unique(self, user: ActorId, i: int)
        requires
            self.wf(),
            0 <= i < self.sessions.len(),
            self.sessions[i].0 == user,
        ensures
            self.contains_player(user),
            self.index_of(user) == i,
            self.session(user) == self.sessions[i].1,
    {
        assert(self.contains_player(user));
        let w = self.index_of(user);
        assert(0 <= w < self.sessions.len() && self.sessions[w].0 == user);
        if w != i {
            assert(self.sessions[w].0 != self.sessions[i].0);
            assert(false);
        }
    }

    /// Setting one player's record keeps the ledger well formed, as long
    /// as the new record respects the tries bound.
    pub proof fn lemma_with_session_wf(self, user: ActorId, info: SpecSessionInfo)
        requires
            self.wf(),
            !(info.session_status is GameOver) ==> info.tries < TRIES_LIMIT,
        ensures
            self.with_session(user, info).wf(),
    {
        let post = self.with_session(user, info);
        if self.contains_player(user) {
            let i = self.index_of(user);
            assert(0 <= i < self.sessions.len() && self.sessions[i].0 == user);
            assert forall|a: int, b: int|
                0 <= a < post.sessions.len() && 0 <= b < post.sessions.len() && a != b
                    implies post.sessions[a].0 != post.sessions[b].0 by {
                assert(post.sessions[a].0 == self.sessions[a].0);
                assert(post.sessions[b].0 == self.sessions[b].0);
            }
            assert forall|a: int|
                0 <= a < post.sessions.len()
                    && !(#[trigger] post.sessions[a].1.session_status is GameOver)
                    implies post.sessions[a].1.tries < TRIES_LIMIT by {
                if a != i {
                    assert(post.sessions[a] == self.sessions[a]);
                }
            }
        } else {
            let n = self.sessions.len() as int;
            assert forall|a: int, b: int|
                0 <= a < post.sessions.len() && 0 <= b < post.sessions.len() && a != b
                    implies post.sessions[a].0 != post.sessions[b].0 by {
                if a < n && b < n {
                    assert(post.sessions[a].0 == self.sessions[a].0);
                    assert(post.sessions[b].0 == self.sessions[b].0);
                } else if a < n {
                    assert(post.sessions[b].0 == user);
                    assert(post.sessions[a].0 == self.sessions[a].0);
                    if self.sessions[a].0 == user {
                        assert(self.contains_player(user));
                    }
                } else {
                    assert(post.sessions[a].0 == user);
                    assert(post.sessions[b].0 == self.sessions[b].0);
                    if self.sessions[b].0 == user {
                        assert(self.contains_player(user));
                    }
                }
            }
            assert forall|a: int|
                0 <= a < post.sessions.len()
                    && !(#[trigger] post.sessions[a].1.session_status is GameOver)
                    implies post.sessions[a].1.tries < TRIES_LIMIT by {
                if a < n {
                    assert(post.sessions[a] == self.sessions[a]);
                }
            }
        }
    }

    /// Setting one player's record never touches another player's.
    pub proof fn lemma_with_session_frame(
        self,
        user: ActorId,
        info: SpecSessionInfo,
        other: ActorId,
    )
        requires
            self.wf(),
            other != user,
        ensures
            self.with_session(user, info).contains_player(other) == self.contains_player(other),
            self.contains_player(other) ==> self.with_session(user, info).session(other)
                == self.session(other),
    {
        let post = self.with_session(user, info);
        let n = self.sessions.len() as int;
        if self.contains_player(user) {
            let i = self.index_of(user);
            assert(0 <= i < n && self.sessions[i].0 == user);
            assert(forall|j: int|
                0 <= j < post.sessions.len() ==> (#[trigger] post.sessions[j]).0
                    == self.sessions[j].0);
            if self.contains_player(other) {
                let k = self.index_of(other);
                assert(0 <= k < n && self.sessions[k].0 == other);
                assert(post.sessions[k].0 == other);
                assert(post.contains_player(other));
                assert(k != i);
                assert(post.sessions[k].1 == self.sessions[k].1);
                assert forall|j: int|
                    0 <= j < post.sessions.len() && j != k
                        implies (#[trigger] post.sessions[j]).0 != other by {
                    assert(self.sessions[j].0 != self.sessions[k].0);
                }
                post.lemma_with_session_index_unique(other, k);
            }
            if post.contains_player(other) {
                let k = post.index_of(other);
                assert(0 <= k < post.sessions.len() && post.sessions[k].0 == other);
                assert(self.sessions[k].0 == other);
                assert(self.contains_player(other));
            }
        } else {
            if self.contains_player(other) {
                let k = self.index_of(other);
                assert(0 <= k < n && self.sessions[k].0 == other);
                assert(post.sessions[k].0 == other);
                assert(post.contains_player(other));
                assert(post.sessions[k].1 == self.sessions[k].1);
                assert forall|j: int|
                    0 <= j < post.sessions.len() && j != k
                        implies (#[trigger] post.sessions[j]).0 != other by {
                    if j < n {
                        assert(post.sessions[j].0 == self.sessions[j].0);
                        assert(self.sessions[j].0 != self.sessions[k].0);
                    } else {
                        assert(post.sessions[j].0 == user);
                    }
                }
                post.lemma_with_session_index_unique(other, k);
            }
            if post.contains_player(other) {
                let k = post.index_of(other);
                assert(0 <= k < post.sessions.len() && post.sessions[k].0 == other);
                assert(post.sessions[n].0 == user);
                assert(k != n);
                assert(self.sessions[k].0 == other);
                assert(self.contains_player(other));
            }
        }
    }

    /// As [`Self::lemma_index_unique`], but for a ledger just produced by
    /// [`Self::with_session`], whose own well-formedness may not have
    /// been established yet: a position holding `user`'s key determines
    /// `session(user)` as long as no other position holds it.
    proof fn lemma_with_session_index_unique(self, user: ActorId, i: int)
        requires
            0 <= i < self.sessions.len(),
            self.sessions[i].0 == user,
            forall|j: int|
                0 <= j < self.sessions.len() && j != i ==> (#[trigger] self.sessions[j]).0
                    != user,
        ensures
            self.contains_player(user),
            self.index_of(user) == i,
            self.session(user) == self.sessions[i].1,
    {
        assert(self.contains_player(user));
        let w = self.index_of(user);
        assert(0 <= w < self.sessions.len() && self.sessions[w].0 == user);
    }

    /// After setting `user`'s record, looking `user` up finds exactly it.
    pub proof fn lemma_with_session_session(self, user: ActorId, info: SpecSessionInfo)
        requires
            self.wf(),
        ensures
            self.with_session(user, info).contains_player(user),
            self.with_session(user, info).session(user) == info,
    {
        let post = self.with_session(user, info);
        if self.contains_player(user) {
            let i = self.index_of(user);
            assert(0 <= i < self.sessions.len() && self.sessions[i].0 == user);
            assert(post.sessions[i] == (user, info));
            assert forall|j: int|
                0 <= j < post.sessions.len() && j != i
                    implies (#[trigger] post.sessions[j]).0 != user by {
                assert(post.sessions[j].0 == self.sessions[j].0);
                assert(self.sessions[j].0 != self.sessions[i].0);
            }
            post.lemma_with_session_index_unique(user, i);
        } else {
            let n = self.sessions.len() as int;
            assert(post.sessions[n] == (user, info));
            assert forall|j: int|
                0 <= j < post.sessions.len() && j != n
                    implies (#[trigger] post.sessions[j]).0 != user by {
                assert(post.sessions[j].0 == self.sessions[j].0);
                if post.sessions[j].0 == user {
                    assert(self.contains_player(user));
                }
            }
            post.lemma_with_session_index_unique(user, n);
        }
    }

    /// Well-formedness of the ledger: at most one record per player, and
    /// a session that has not reached `GameOver` has spent fewer than
    /// [`crate::protocol::TRIES_LIMIT`] tries.
    pub open spec fn wf(self) -> bool {
        &&& forall|i: int, j: int|
            #![trigger self.sessions[i].0, self.sessions[j].0]
            0 <= i < self.sessions.len() && 0 <= j < self.sessions.len() && i != j
                ==> self.sessions[i].0 != self.sessions[j].0
        &&& forall|i: int|
            0 <= i < self.sessions.len()
                ==> (!(#[trigger] self.sessions[i].1.session_status is GameOver)
                    ==> self.sessions[i].1.tries < TRIES_LIMIT)
    }
}

/// What a player's "start game" request does, relating the ledger before
/// (`pre`) and after (`post`), the requesting `user`, the inbound
/// request's identifier `msg_id`, and the handler's result `r`.
///
/// With a buffered service reply the player is answered at once and asked
/// for input; with no game in progress (or a start still unanswered) a
/// start request goes out to the service, the record is reset to zero
/// tries, and a deadline is scheduled; during an active game the request
/// is refused and nothing changes.
pub open spec fn start_game_post(
    pre: SpecGameSession,
    post: SpecGameSession,
    user: ActorId,
    msg_id: MessageId,
    r: Result<HandleOutcome, SessionError>,
) -> bool {
    let s = pre.session_or_new(user);
    match s.session_status {
        SpecSessionStatus::ReplyReceived(ev) => {
            &&& r matches Ok(HandleOutcome::Reply(e)) && e@ == spec_session_event_of(ev)
            &&& post == pre.with_session(
                user,
                SpecSessionInfo { session_status: SpecSessionStatus::WaitUserInput, ..s },
            )
        },
        SpecSessionStatus::Init | SpecSessionStatus::GameOver(_)
        | SpecSessionStatus::WaitWordleStartReply => {
            &&& r matches Ok(HandleOutcome::SendAndWait { to_wordle, deadline })
            &&& to_wordle matches WordleAction::StartGame { user: su }
            &&& su == user
            &&& deadline matches Some(GameSessionAction::CheckGameStatus {
                user: du,
                session_id: ds,
            })
            &&& du == user
            &&& ds == msg_id
            &&& post == pre.with_session(
                user,
                SpecSessionInfo {
                    session_id: msg_id,
                    original_msg_id: msg_id,
                    tries: 0u8,
                    session_status: SpecSessionStatus::WaitWordleStartReply,
                    ..s
                },
            )
        },
        SpecSessionStatus::WaitUserInput | SpecSessionStatus::WaitWordleCheckWordReply => {
            &&& r == Err::<HandleOutcome, SessionError>(SessionError::AlreadyInGame)
            &&& post == pre
        },
    }
}

/// What a player's guess does.  An invalid word is refused before
/// anything else is looked at.  A buffered check reply is consumed: the
/// try is counted, a fully correct guess wins at once, the
/// [`TRIES_LIMIT`]th try without one loses, and otherwise the per-letter
/// outcome is forwarded and more input awaited.  With a game awaiting
/// input the guess goes out to the service.  With no active game the
/// guess is refused.
pub open spec fn check_word_post(
    pre: SpecGameSession,
    post: SpecGameSession,
    user: ActorId,
    msg_id: MessageId,
    word: Seq<char>,
    r: Result<HandleOutcome, SessionError>,
) -> bool {
    let s = pre.session_or_new(user);
    if !spec_valid_word(word) {
        &&& r == Err::<HandleOutcome, SessionError>(SessionError::InvalidWord)
        &&& post == pre
    } else {
        match s.session_status {
            SpecSessionStatus::ReplyReceived(ev) => {
                let t = (s.tries + 1) as u8;
                if spec_has_guessed(ev) {
                    &&& r matches Ok(HandleOutcome::Reply(e))
                        && e@ == SpecGameSessionEvent::GameOver(GameStatus::Win)
                    &&& post == pre.with_session(
                        user,
                        SpecSessionInfo {
                            tries: t,
                            session_status: SpecSessionStatus::GameOver(GameStatus::Win),
                            ..s
                        },
                    )
                } else if t == TRIES_LIMIT {
                    &&& r matches Ok(HandleOutcome::Reply(e))
                        && e@ == SpecGameSessionEvent::GameOver(GameStatus::Lose)
                    &&& post == pre.with_session(
                        user,
                        SpecSessionInfo {
                            tries: t,
                            session_status: SpecSessionStatus::GameOver(GameStatus::Lose),
                            ..s
                        },
                    )
                } else {
                    &&& r matches Ok(HandleOutcome::Reply(e)) && e@ == spec_session_event_of(ev)
                    &&& post == pre.with_session(
                        user,
                        SpecSessionInfo {
                            tries: t,
                            session_status: SpecSessionStatus::WaitUserInput,
                            ..s
                        },
                    )
                }
            },
            SpecSessionStatus::WaitUserInput | SpecSessionStatus::WaitWordleCheckWordReply => {
                &&& r matches Ok(HandleOutcome::SendAndWait { to_wordle, deadline })
                &&& deadline is None
                &&& to_wordle matches WordleAction::CheckWord { user: cu, word: cw }
                &&& cu == user
                &&& cw@ == word
                &&& post == pre.with_session(
                    user,
                    SpecSessionInfo {
                        original_msg_id: msg_id,
                        session_status: SpecSessionStatus::WaitWordleCheckWordReply,
                        ..s
                    },
                )
            },
            SpecSessionStatus::Init | SpecSessionStatus::WaitWordleStartReply
            | SpecSessionStatus::GameOver(_) => {
                &&& r == Err::<HandleOutcome, SessionError>(SessionError::NotInGame)
                &&& post == pre
            },
        }
    }
}

/// What a self-scheduled deadline event does.  It fires only when its
/// declared sender is the coordinator itself, a record exists whose
/// owning request it names, and the game is not already over; then the
/// session is forced to a loss and the player notified.  In every other
/// case it is a no-op.
pub open spec fn check_status_post(
    pre: SpecGameSession,
    post: SpecGameSession,
    source: ActorId,
    program_id: ActorId,
    user: ActorId,
    session_id: MessageId,
    r: Option<GameSessionEvent>,
) -> bool {
    let fire = source == program_id && pre.contains_player(user)
        && pre.session(user).session_id == session_id
        && !(pre.session(user).session_status is GameOver);
    if fire {
        &&& r matches Some(e) && e@ == SpecGameSessionEvent::GameOver(GameStatus::Lose)
        &&& post == pre.with_session(
            user,
            SpecSessionInfo {
                session_status: SpecSessionStatus::GameOver(GameStatus::Lose),
                ..pre.session(user)
            },
        )
    } else {
        &&& r is None
        &&& post == pre
    }
}

/// What a reply from the word-checking service does.  It is accepted
/// only when the player it names has a record that is waiting for a
/// service reply and whose pending request the reply answers; the reply
/// is then buffered and the suspended request's identifier returned so
/// that it can be woken.  A stale, duplicate or mismatched reply is
/// discarded with nothing changed and nothing woken.
pub open spec fn reply_post(
    pre: SpecGameSession,
    post: SpecGameSession,
    reply_to: MessageId,
    ev: SpecWordleEvent,
    r: Option<MessageId>,
) -> bool {
    let user = spec_event_user(ev);
    let accept = pre.contains_player(user)
        && reply_to == pre.session(user).send_to_wordle_msg_id
        && spec_is_wait_reply(pre.session(user).session_status);
    if accept {
        &&& r == Some(pre.session(user).original_msg_id)
        &&& post == pre.with_session(
            user,
            SpecSessionInfo {
                session_status: SpecSessionStatus::ReplyReceived(ev),
                ..pre.session(user)
            },
        )
    } else {
        &&& r is None
        &&& post == pre
    }
}

/// In a well-formed ledger a player has at most one record — any two
/// positions holding the player's key coincide — and, while that
/// player's game is not over, fewer than [`TRIES_LIMIT`] tries are
/// spent.  Every handler preserves well-formedness, so this holds at any
/// time.
pub proof fn lemma_one_record_per_player(g: SpecGameSession, user: ActorId, i: int, j: int)
    requires
        g.wf(),
        0 <= i < g.sessions.len(),
        0 <= j < g.sessions.len(),
        g.sessions[i].0 == user,
        g.sessions[j].0 == user,
    ensures
        i == j,
        !(g.sessions[i].1.session_status is GameOver) ==> g.sessions[i].1.tries < TRIES_LIMIT,
{
}

/// Starting accepted: with a buffered service reply the session keeps
/// its tries and merely awaits input, with nothing sent out; otherwise
/// the tries are reset to zero and a fresh start request goes out to the
/// service.
pub proof fn lemma_start_resets(
    pre: SpecGameSession,
    post: SpecGameSession,
    user: ActorId,
    msg_id: MessageId,
    r: Result<HandleOutcome, SessionError>,
)
    requires
        pre.wf(),
        start_game_post(pre, post, user, msg_id, r),
        r is Ok,
    ensures
        pre.session_or_new(user).session_status matches SpecSessionStatus::ReplyReceived(_) ==> {
            &&& post.session(user).session_status == SpecSessionStatus::WaitUserInput
            &&& post.session(user).tries == pre.session_or_new(user).tries
            &&& r matches Ok(HandleOutcome::Reply(_))
        },
        !(pre.session_or_new(user).session_status matches SpecSessionStatus::ReplyReceived(_))
            ==> {
            &&& post.session(user).session_status == SpecSessionStatus::WaitWordleStartReply
            &&& post.session(user).tries == 0
            &&& r matches Ok(HandleOutcome::SendAndWait { .. })
        },
{
    let s = pre.session_or_new(user);
    match s.session_status {
        SpecSessionStatus::ReplyReceived(_) => {
            pre.lemma_with_session_session(
                user,
                SpecSessionInfo { session_status: SpecSessionStatus::WaitUserInput, ..s },
            );
        },
        SpecSessionStatus::Init | SpecSessionStatus::GameOver(_)
        | SpecSessionStatus::WaitWordleStartReply => {
            pre.lemma_with_session_session(
                user,
                SpecSessionInfo {
                    session_id: msg_id,
                    original_msg_id: msg_id,
                    tries: 0u8,
                    session_status: SpecSessionStatus::WaitWordleStartReply,
                    ..s
                },
            );
        },
        _ => {},
    }
}

/// A malformed guess — wrong length, or any character that is not a
/// lowercase letter — is refused with the ledger untouched.
pub proof fn lemma_invalid_word_rejected(
    pre: SpecGameSession,
    post: SpecGameSession,
    user: ActorId,
    msg_id: MessageId,
    word: Seq<char>,
    r: Result<HandleOutcome, SessionError>,
)
    requires
        check_word_post(pre, post, user, msg_id, word, r),
        !spec_valid_word(word),
    ensures
        post == pre,
        r == Err::<HandleOutcome, SessionError>(SessionError::InvalidWord),
{
}

/// A service reply that does not answer the session's pending request —
/// or that arrives while the session is not waiting for one, or names a
/// player without a record — changes nothing and wakes nothing.
pub proof fn lemma_stale_reply_ignored(
    pre: SpecGameSession,
    post: SpecGameSession,
    reply_to: MessageId,
    ev: SpecWordleEvent,
    r: Option<MessageId>,
)
    requires
        reply_post(pre, post, reply_to, ev, r),
        !(pre.contains_player(spec_event_user(ev))
            && reply_to == pre.session(spec_event_user(ev)).send_to_wordle_msg_id
            && spec_is_wait_reply(pre.session(spec_event_user(ev)).session_status)),
    ensures
        post == pre,
        r is None,
{
}

/// A fully correct guess wins the game immediately, whichever try it
/// is: the win is declared before the try limit is even considered.
pub proof fn lemma_win_immediate(
    pre: SpecGameSession,
    post: SpecGameSession,
    user: ActorId,
    msg_id: MessageId,
    word: Seq<char>,
    r: Result<HandleOutcome, SessionError>,
)
    requires
        pre.wf(),
        check_word_post(pre, post, user, msg_id, word, r),
        spec_valid_word(word),
        pre.session_or_new(user).session_status matches SpecSessionStatus::ReplyReceived(ev)
            && spec_has_guessed(ev),
    ensures
        post.contains_player(user),
        post.session(user).session_status == SpecSessionStatus::GameOver(GameStatus::Win),
        post.session(user).tries == pre.session_or_new(user).tries + 1,
        r matches Ok(HandleOutcome::Reply(e))
            && e@ == SpecGameSessionEvent::GameOver(GameStatus::Win),
{
    let s = pre.session_or_new(user);
    pre.lemma_with_session_session(
        user,
        SpecSessionInfo {
            tries: (s.tries + 1) as u8,
            session_status: SpecSessionStatus::GameOver(GameStatus::Win),
            ..s
        },
    );
}

/// The [`TRIES_LIMIT`]th guess, when the buffered reply was not fully
/// correct, loses the game.
pub proof fn lemma_fifth_try_loses(
    pre: SpecGameSession,
    post: SpecGameSession,
    user: ActorId,
    msg_id: MessageId,
    word: Seq<char>,
    r: Result<HandleOutcome, SessionError>,
)
    requires
        pre.wf(),
        check_word_post(pre, post, user, msg_id, word, r),
        spec_valid_word(word),
        pre.session_or_new(user).session_status matches SpecSessionStatus::ReplyReceived(ev)
            && !spec_has_guessed(ev),
        pre.session_or_new(user).tries == TRIES_LIMIT - 1,
    ensures
        post.contains_player(user),
        post.session(user).session_status == SpecSessionStatus::GameOver(GameStatus::Lose),
        post.session(user).tries == TRIES_LIMIT,
        r matches Ok(HandleOutcome::Reply(e))
            && e@ == SpecGameSessionEvent::GameOver(GameStatus::Lose),
{
    let s = pre.session_or_new(user);
    pre.lemma_with_session_session(
        user,
        SpecSessionInfo {
            tries: (s.tries + 1) as u8,
            session_status: SpecSessionStatus::GameOver(GameStatus::Lose),
            ..s
        },
    );
}

/// A guess that consumes a buffered reply below the try limit, without
/// a fully correct match, merely counts the try, forwards the
/// per-letter outcome and awaits more input.
pub proof fn lemma_intermediate_guess(
    pre: SpecGameSession,
    post: SpecGameSession,
    user: ActorId,
    msg_id: MessageId,
    word: Seq<char>,
    r: Result<HandleOutcome, SessionError>,
)
    requires
        pre.wf(),
        check_word_post(pre, post, user, msg_id, word, r),
        spec_valid_word(word),
        pre.session_or_new(user).session_status matches SpecSessionStatus::ReplyReceived(ev)
            && !spec_has_guessed(ev),
        pre.session_or_new(user).tries < TRIES_LIMIT - 1,
    ensures
        post.contains_player(user),
        post.session(user).session_status == SpecSessionStatus::WaitUserInput,
        post.session(user).tries == pre.session_or_new(user).tries + 1,
        pre.session_or_new(user).session_status matches SpecSessionStatus::ReplyReceived(ev)
            ==> r matches Ok(HandleOutcome::Reply(e)) && e@ == spec_session_event_of(ev),
{
    let s = pre.session_or_new(user);
    pre.lemma_with_session_session(
        user,
        SpecSessionInfo {
            tries: (s.tries + 1) as u8,
            session_status: SpecSessionStatus::WaitUserInput,
            ..s
        },
    );
}

/// A deadline event arriving after the session already reached
/// `GameOver` — by a win, a loss, or an earlier deadline — is a no-op.
pub proof fn lemma_deadline_after_game_over(
    pre: SpecGameSession,
    post: SpecGameSession,
    source: ActorId,
    program_id: ActorId,
    user: ActorId,
    session_id: MessageId,
    r: Option<GameSessionEvent>,
)
    requires
        check_status_post(pre, post, source, program_id, user, session_id, r),
        pre.contains_player(user) ==> pre.session(user).session_status is GameOver,
    ensures
        post == pre,
        r is None,
{
}

impl GameSession {
    /// A coordinator with the given service address and an empty ledger.
    pub fn from_init(init: GameSessionInit) -> (r: GameSession)
        requires
            init.wordle_program_id.0 != 0,
        ensures
            r@.wordle_program_id == init.wordle_program_id,
            r@.sessions.len() == 0,
            r@.wf(),
    {
        GameSession { wordle_program_id: init.wordle_program_id, sessions: Vec::new() }
    }

    /// The position of `user`'s record, if one exists.
    fn find_index(&self, user: ActorId) -> (r: Option<usize>)
        requires
            self@.wf(),
        ensures
            match r {
                Some(i) => i < self@.sessions.len() && self@.sessions[i as int].0 == user
                    && self@.contains_player(user) && self@.index_of(user) == i,
                None => !self@.contains_player(user),
            },
    {
        let n = self.sessions.len();
        let mut i: usize = 0;
        while i < n
            invariant
                self@.wf(),
                n == self.sessions@.len(),
                i <= n,
                forall|j: int| 0 <= j < i ==> self@.sessions[j].0 != user,
            decreases n - i,
        {
            if self.sessions[i].0 == user {
                proof {
                    self@.lemma_index_unique(user, i as int);
                }
                return Some(i);
            }
            i += 1;
        }
        proof {
            assert(forall|j: int| 0 <= j < self@.sessions.len() ==> self@.sessions[j].0 != user);
        }
        None
    }

    /// Overwrites the record at position `i`, which must already be
    /// `user`'s, with `info`.
    fn set_session(&mut self, i: usize, user: ActorId, info: SessionInfo)
        requires
            old(self)@.wf(),
            i < old(self)@.sessions.len(),
            old(self)@.sessions[i as int].0 == user,
            !(info@.session_status is GameOver) ==> info@.tries < TRIES_LIMIT,
        ensures
            final(self)@.wf(),
            final(self)@ == old(self)@.with_session(user, info@),
    {
        proof {
            old(self)@.lemma_index_unique(user, i as int);
            old(self)@.lemma_with_session_wf(user, info@);
        }
        self.sessions[i] = (user, info);
        proof {
            assert(self@.sessions =~~= old(self)@.sessions.update(i as int, (user, info@)));
            assert(self@ =~~= old(self)@.with_session(user, info@));
        }
    }

    /// Appends a record for `user`, who must not have one yet.
    fn push_session(&mut self, user: ActorId, info: SessionInfo)
        requires
            old(self)@.wf(),
            !old(self)@.contains_player(user),
            !(info@.session_status is GameOver) ==> info@.tries < TRIES_LIMIT,
        ensures
            final(self)@.wf(),
            final(self)@ == old(self)@.with_session(user, info@),
    {
        proof {
            old(self)@.lemma_with_session_wf(user, info@);
        }
        self.sessions.push((user, info));
        proof {
            assert(self@.sessions =~~= old(self)@.sessions.push((user, info@)));
            assert(self@ =~~= old(self)@.with_session(user, info@));
        }
    }

    /// Handles a player's "start game" request, as
    /// [`start_game_post`] describes.
    pub fn handle_start_game(&mut self, user: ActorId, msg_id: MessageId) -> (r: Result<
        HandleOutcome,
        SessionError,
    >)
        requires
            old(self)@.wf(),
        ensures
            final(self)@.wf(),
            start_game_post(old(self)@, final(self)@, user, msg_id, r),
    {
        let idx = self.find_index(user);
        match idx {
            Some(i) => {
                let sid = self.sessions[i].1.session_id;
                let omid = self.sessions[i].1.original_msg_id;
                let wmid = self.sessions[i].1.send_to_wordle_msg_id;
                let tries = self.sessions[i].1.tries;
                let status = self.sessions[i].1.session_status.clone();
                match status {
                    SessionStatus::ReplyReceived(ev) => {
                        let e = ev.to_session_event();
                        proof {
                            assert(!(old(self)@.sessions[i as int].1.session_status
                                is GameOver));
                            assert(old(self)@.sessions[i as int].1.tries < TRIES_LIMIT);
                        }
                        self.set_session(
                            i,
                            user,
                            SessionInfo {
                                session_id: sid,
                                original_msg_id: omid,
                                send_to_wordle_msg_id: wmid,
                                tries,
                                session_status: SessionStatus::WaitUserInput,
                            },
                        );
                        Ok(HandleOutcome::Reply(e))
                    },
                    SessionStatus::Init | SessionStatus::GameOver(_)
                    | SessionStatus::WaitWordleStartReply => {
                        self.set_session(
                            i,
                            user,
                            SessionInfo {
                                session_id: msg_id,
                                original_msg_id: msg_id,
                                send_to_wordle_msg_id: wmid,
                                tries: 0,
                                session_status: SessionStatus::WaitWordleStartReply,
                            },
                        );
                        Ok(HandleOutcome::SendAndWait {
                            to_wordle: WordleAction::StartGame { user },
                            deadline: Some(GameSessionAction::CheckGameStatus {
                                user,
                                session_id: msg_id,
                            }),
                        })
                    },
                    SessionStatus::WaitUserInput | SessionStatus::WaitWordleCheckWordReply => {
                        Err(SessionError::AlreadyInGame)
                    },
                }
            },
            None => {
                self.push_session(
                    user,
                    SessionInfo {
                        session_id: msg_id,
                        original_msg_id: msg_id,
                        send_to_wordle_msg_id: MessageId::zero(),
                        tries: 0,
                        session_status: SessionStatus::WaitWordleStartReply,
                    },
                );
                Ok(HandleOutcome::SendAndWait {
                    to_wordle: WordleAction::StartGame { user },
                    deadline: Some(GameSessionAction::CheckGameStatus {
                        user,
                        session_id: msg_id,
                    }),
                })
            },
        }
    }

    /// Handles a player's guess, as [`check_word_post`] describes.
    ///
    /// A buffered service reply can only be a check reply here: a
    /// buffered start reply is consumed by the start-game path, and a
    /// caller that re-enters with a guess while one is buffered must have
    /// checked it first (the transport treats that as a fatal protocol
    /// error, as a start reply says nothing about a guess).
    pub fn handle_check_word(&mut self, user: ActorId, msg_id: MessageId, word: String) -> (r:
        Result<HandleOutcome, SessionError>)
        requires
            old(self)@.wf(),
            old(self)@.session_or_new(user).session_status matches
                SpecSessionStatus::ReplyReceived(ev) ==> ev is WordChecked,
        ensures
            final(self)@.wf(),
            check_word_post(old(self)@, final(self)@, user, msg_id, word@, r),
    {
        if !is_valid_word(&word) {
            return Err(SessionError::InvalidWord);
        }
        let idx = self.find_index(user);
        match idx {
            Some(i) => {
                let sid = self.sessions[i].1.session_id;
                let omid = self.sessions[i].1.original_msg_id;
                let wmid = self.sessions[i].1.send_to_wordle_msg_id;
                let tries = self.sessions[i].1.tries;
                let status = self.sessions[i].1.session_status.clone();
                match status {
                    SessionStatus::ReplyReceived(ev) => {
                        proof {
                            assert(!(old(self)@.sessions[i as int].1.session_status
                                is GameOver));
                            assert(old(self)@.sessions[i as int].1.tries < TRIES_LIMIT);
                        }
                        let t = tries + 1;
                        if ev.has_guessed() {
                            self.set_session(
                                i,
                                user,
                                SessionInfo {
                                    session_id: sid,
                                    original_msg_id: omid,
                                    send_to_wordle_msg_id: wmid,
                                    tries: t,
                                    session_status: SessionStatus::GameOver(GameStatus::Win),
                                },
                            );
                            Ok(HandleOutcome::Reply(GameSessionEvent::GameOver(
                                GameStatus::Win,
                            )))
                        } else if t == TRIES_LIMIT {
                            self.set_session(
                                i,
                                user,
                                SessionInfo {
                                    session_id: sid,
                                    original_msg_id: omid,
                                    send_to_wordle_msg_id: wmid,
                                    tries: t,
                                    session_status: SessionStatus::GameOver(GameStatus::Lose),
                                },
                            );
                            Ok(HandleOutcome::Reply(GameSessionEvent::GameOver(
                                GameStatus::Lose,
                            )))
                        } else {
                            let e = ev.to_session_event();
                            self.set_session(
                                i,
                                user,
                                SessionInfo {
                                    session_id: sid,
                                    original_msg_id: omid,
                                    send_to_wordle_msg_id: wmid,
                                    tries: t,
                                    session_status: SessionStatus::WaitUserInput,
                                },
                            );
                            Ok(HandleOutcome::Reply(e))
                        }
                    },
                    SessionStatus::WaitUserInput | SessionStatus::WaitWordleCheckWordReply => {
                        proof {
                            assert(!(old(self)@.sessions[i as int].1.session_status
                                is GameOver));
                            assert(old(self)@.sessions[i as int].1.tries < TRIES_LIMIT);
                        }
                        self.set_session(
                            i,
                            user,
                            SessionInfo {
                                session_id: sid,
                                original_msg_id: msg_id,
                                send_to_wordle_msg_id: wmid,
                                tries,
                                session_status: SessionStatus::WaitWordleCheckWordReply,
                            },
                        );
                        Ok(HandleOutcome::SendAndWait {
                            to_wordle: WordleAction::CheckWord { user, word },
                            deadline: None,
                        })
                    },
                    SessionStatus::Init | SessionStatus::WaitWordleStartReply
                    | SessionStatus::GameOver(_) => Err(SessionError::NotInGame),
                }
            },
            None => Err(SessionError::NotInGame),
        }
    }

    /// Handles a self-scheduled deadline event, as
    /// [`check_status_post`] describes.  `source` is the declared sender
    /// of the event and `program_id` the coordinator's own address; a
    /// deadline from anyone else is a forgery and ignored.
    pub fn handle_check_game_status(
        &mut self,
        source: ActorId,
        program_id: ActorId,
        user: ActorId,
        session_id: MessageId,
    ) -> (r: Option<GameSessionEvent>)
        requires
            old(self)@.wf(),
        ensures
            final(self)@.wf(),
            check_status_post(
                old(self)@,
                final(self)@,
                source,
                program_id,
                user,
                session_id,
                r,
            ),
    {
        if !(source == program_id) {
            return None;
        }
        let idx = self.find_index(user);
        match idx {
            Some(i) => {
                let sid = self.sessions[i].1.session_id;
                let over = matches!(self.sessions[i].1.session_status, SessionStatus::GameOver(_));
                if sid == session_id && !over {
                    let omid = self.sessions[i].1.original_msg_id;
                    let wmid = self.sessions[i].1.send_to_wordle_msg_id;
                    let tries = self.sessions[i].1.tries;
                    self.set_session(
                        i,
                        user,
                        SessionInfo {
                            session_id: sid,
                            original_msg_id: omid,
                            send_to_wordle_msg_id: wmid,
                            tries,
                            session_status: SessionStatus::GameOver(GameStatus::Lose),
                        },
                    );
                    Some(GameSessionEvent::GameOver(GameStatus::Lose))
                } else {
                    None
                }
            },
            None => None,
        }
    }

    /// Handles a reply event from the word-checking service, as
    /// [`reply_post`] describes.  `reply_to` is the identifier of the
    /// request this reply answers.  The returned identifier, if any, is
    /// the suspended request to wake.
    pub fn handle_reply(&mut self, reply_to: MessageId, event: WordleEvent) -> (r: Option<
        MessageId,
    >)
        requires
            old(self)@.wf(),
        ensures
            final(self)@.wf(),
            reply_post(old(self)@, final(self)@, reply_to, event@, r),
    {
        let user = *event.get_user();
        let idx = self.find_index(user);
        match idx {
            Some(i) => {
                let wmid = self.sessions[i].1.send_to_wordle_msg_id;
                let is_wait = self.sessions[i].1.is_wait_reply_status();
                if reply_to == wmid && is_wait {
                    let sid = self.sessions[i].1.session_id;
                    let omid = self.sessions[i].1.original_msg_id;
                    let tries = self.sessions[i].1.tries;
                    proof {
                        assert(!(old(self)@.sessions[i as int].1.session_status is GameOver));
                        assert(old(self)@.sessions[i as int].1.tries < TRIES_LIMIT);
                    }
                    self.set_session(
                        i,
                        user,
                        SessionInfo {
                            session_id: sid,
                            original_msg_id: omid,
                            send_to_wordle_msg_id: wmid,
                            tries,
                            session_status: SessionStatus::ReplyReceived(event),
                        },
                    );
                    Some(omid)
                } else {
                    None
                }
            },
            None => None,
        }
    }

    /// Records the identifier the outbound gateway assigned to the
    /// request just sent to the word-checking service, so that the
    /// service's reply can later be matched against it.  The caller
    /// performs the send a [`HandleOutcome::SendAndWait`] asked for and
    /// reports the identifier here before suspending.
    pub fn record_wordle_request(&mut self, user: ActorId, send_id: MessageId)
        requires
            old(self)@.wf(),
            old(self)@.contains_player(user),
        ensures
            final(self)@.wf(),
            final(self)@ == old(self)@.with_session(
                user,
                SpecSessionInfo {
                    send_to_wordle_msg_id: send_id,
                    ..old(self)@.session(user)
                },
            ),
    {
        let idx = self.find_index(user);
        match idx {
            Some(i) => {
                let sid = self.sessions[i].1.session_id;
                let omid = self.sessions[i].1.original_msg_id;
                let tries = self.sessions[i].1.tries;
                let status = self.sessions[i].1.session_status.clone();
                proof {
                    if !(old(self)@.sessions[i as int].1.session_status is GameOver) {
                        assert(old(self)@.sessions[i as int].1.tries < TRIES_LIMIT);
                    }
                }
                self.set_session(
                    i,
                    user,
                    SessionInfo {
                        session_id: sid,
                        original_msg_id: omid,
                        send_to_wordle_msg_id: send_id,
                        tries,
                        session_status: status,
                    },
                );
            },
            None => {
                proof {
                    assert(false);
                }
            },
        }
    }

    /// Handles any inbound request, dispatching on its kind: the single
    /// entry point a transport drives.  `source` is the sender of the
    /// inbound message (the player for start and guess requests),
    /// `msg_id` its identifier, and `program_id` the coordinator's own
    /// address, against which a deadline event's sender is checked.
    pub fn handle_action(
        &mut self,
        source: ActorId,
        msg_id: MessageId,
        program_id: ActorId,
        action: GameSessionAction,
    ) -> (r: Result<HandleOutcome, SessionError>)
        requires
            old(self)@.wf(),
            action matches GameSessionAction::CheckWord { .. } ==> (old(
                self,
            )@.session_or_new(source).session_status matches SpecSessionStatus::ReplyReceived(ev)
                ==> ev is WordChecked),
        ensures
            final(self)@.wf(),
            match action {
                GameSessionAction::StartGame => start_game_post(
                    old(self)@,
                    final(self)@,
                    source,
                    msg_id,
                    r,
                ),
                GameSessionAction::CheckWord { word } => check_word_post(
                    old(self)@,
                    final(self)@,
                    source,
                    msg_id,
                    word@,
                    r,
                ),
                GameSessionAction::CheckGameStatus { user, session_id } => {
                    ||| {
                        &&& r matches Ok(HandleOutcome::Notify { to, event })
                        &&& to == user
                        &&& check_status_post(
                            old(self)@,
                            final(self)@,
                            source,
                            program_id,
                            user,
                            session_id,
                            Some(event),
                        )
                    }
                    ||| {
                        &&& r == Ok::<HandleOutcome, SessionError>(HandleOutcome::NoAction)
                        &&& check_status_post(
                            old(self)@,
                            final(self)@,
                            source,
                            program_id,
                            user,
                            session_id,
                            None::<GameSessionEvent>,
                        )
                    }
                },
            },
    {
        match action {
            GameSessionAction::StartGame => self.handle_start_game(source, msg_id),
            GameSessionAction::CheckWord { word } => self.handle_check_word(
                source,
                msg_id,
                word,
            ),
            GameSessionAction::CheckGameStatus { user, session_id } => {
                match self.handle_check_game_status(source, program_id, user, session_id) {
                    Some(event) => Ok(HandleOutcome::Notify { to: user, event }),
                    None => Ok(HandleOutcome::NoAction),
                }
            },
        }
    }

    /// The read-only snapshot of the ledger.
    pub fn snapshot(&self) -> (r: GameSessionState)
        ensures
            r.wordle_program_id == self@.wordle_program_id,
            r.game_sessions@.len() == self@.sessions.len(),
            forall|i: int|
                0 <= i < r.game_sessions@.len()
                    ==> (#[trigger] r.game_sessions@[i].0, r.game_sessions@[i].1@)
                        == self@.sessions[i],
    {
        let n = self.sessions.len();
        let mut out: Vec<(ActorId, SessionInfo)> = Vec::new();
        let mut i: usize = 0;
        while i < n
            invariant
                n == self.sessions@.len(),
                i <= n,
                out@.len() == i,
                forall|j: int|
                    0 <= j < i ==> (#[trigger] out@[j].0, out@[j].1@) == self@.sessions[j],
            decreases n - i,
        {
            let entry = (self.sessions[i].0, self.sessions[i].1.clone());
            out.push(entry);
            i += 1;
        }
        GameSessionState { wordle_program_id: self.wordle_program_id, game_sessions: out }
    }
}

} // verus!

