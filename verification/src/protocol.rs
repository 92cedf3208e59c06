//! The messages exchanged with players and with the word-checking service,
//! and the per-player session record.
//!
//! Each type that carries a `Vec` or `String` payload also has a spec-level
//! view (`Spec…`) over `Seq`, so that contracts can speak of payloads
//! mathematically.

use vstd::prelude::*;
use vstd::string::StrSliceExecFns;

use crate::ids::{ActorId, MessageId};

verus! {

/// The number of guesses a player is allowed in one game.
pub const TRIES_LIMIT: u8 = 5;

/// The number of characters a guess must have.
pub const WORD_LENGTH: usize = 5;

/// How many time units after a game start the self-addressed deadline
/// message is scheduled to arrive.
pub const DEADLINE_DELAY: u32 = 200;

/// The initialization payload: the fixed address of the word-checking
/// service.
#[derive(Clone, Copy, PartialEq, Eq, Structural, Debug)]
pub struct GameSessionInit {
    pub wordle_program_id: ActorId,
}

impl GameSessionInit {
    /// The zero address is rejected at startup; a caller must establish
    /// that the configured service address is a real one.
    pub fn assert_valid(&self)
        requires
            self.wordle_program_id.0 != 0,
    {
    }
}

/// An inbound request to the coordinator: from a player (`StartGame`,
/// `CheckWord`), or from the coordinator's own past self
/// (`CheckGameStatus`, the scheduled deadline).
#[derive(Clone, Debug)]
pub enum GameSessionAction {
    StartGame,
    CheckWord { word: String },
    CheckGameStatus { user: ActorId, session_id: MessageId },
}

/// An outbound request to the word-checking service.
#[derive(Clone, Debug)]
pub enum WordleAction {
    StartGame { user: ActorId },
    CheckWord { user: ActorId, word: String },
}

/// Whether a finished game was won or lost.
#[derive(Clone, Copy, PartialEq, Eq, Structural, Debug)]
pub enum GameStatus {
    Win,
    Lose,
}

/// An event delivered to a player.
#[derive(Clone, PartialEq, Debug)]
pub enum GameSessionEvent {
    StartSuccess,
    CheckWordResult { correct_positions: Vec<u8>, contained_in_word: Vec<u8> },
    GameOver(GameStatus),
}

/// Spec view of [`GameSessionEvent`], with sequences in place of vectors.
#[verifier::ext_equal]
pub enum SpecGameSessionEvent {
    StartSuccess,
    CheckWordResult { correct_positions: Seq<u8>, contained_in_word: Seq<u8> },
    GameOver(GameStatus),
}

impl View for GameSessionEvent {
    type V = SpecGameSessionEvent;

    open spec fn view(&self) -> SpecGameSessionEvent {
        match self {
            GameSessionEvent::StartSuccess => SpecGameSessionEvent::StartSuccess,
            GameSessionEvent::CheckWordResult { correct_positions, contained_in_word } => {
                SpecGameSessionEvent::CheckWordResult {
                    correct_positions: correct_positions@,
                    contained_in_word: contained_in_word@,
                }
            },
            GameSessionEvent::GameOver(status) => SpecGameSessionEvent::GameOver(*status),
        }
    }
}

/// A reply event received from the word-checking service.
#[derive(Debug)]
pub enum WordleEvent {
    GameStarted { user: ActorId },
    WordChecked { user: ActorId, correct_positions: Vec<u8>, contained_in_word: Vec<u8> },
}

/// Spec view of [`WordleEvent`], with sequences in place of vectors.
#[verifier::ext_equal]
pub enum SpecWordleEvent {
    GameStarted { user: ActorId },
    WordChecked { user: ActorId, correct_positions: Seq<u8>, contained_in_word: Seq<u8> },
}

impl View for WordleEvent {
    type V = SpecWordleEvent;

    open spec fn view(&self) -> SpecWordleEvent {
        match self {
            WordleEvent::GameStarted { user } => SpecWordleEvent::GameStarted { user: *user },
            WordleEvent::WordChecked { user, correct_positions, contained_in_word } => {
                SpecWordleEvent::WordChecked {
                    user: *user,
                    correct_positions: correct_positions@,
                    contained_in_word: contained_in_word@,
                }
            },
        }
    }
}

/// The player a service reply speaks about.
pub open spec fn spec_event_user(ev: SpecWordleEvent) -> ActorId {
    match ev {
        SpecWordleEvent::GameStarted { user } => user,
        SpecWordleEvent::WordChecked { user, .. } => user,
    }
}

/// The position indices a fully correct guess reports: every one of the
/// five letter positions.
pub open spec fn spec_winning_positions() -> Seq<u8> {
    seq![0u8, 1u8, 2u8, 3u8, 4u8]
}

/// Whether a service reply reports a fully correct guess.
pub open spec fn spec_has_guessed(ev: SpecWordleEvent) -> bool {
    ev matches SpecWordleEvent::WordChecked { correct_positions, .. }
        && correct_positions == spec_winning_positions()
}

/// The event forwarded to the player when a buffered service reply is
/// consumed: a start reply becomes `StartSuccess`, a check reply carries
/// the per-letter outcome over.
pub open spec fn spec_session_event_of(ev: SpecWordleEvent) -> SpecGameSessionEvent {
    match ev {
        SpecWordleEvent::GameStarted { .. } => SpecGameSessionEvent::StartSuccess,
        SpecWordleEvent::WordChecked { correct_positions, contained_in_word, .. } => {
            SpecGameSessionEvent::CheckWordResult { correct_positions, contained_in_word }
        },
    }
}

impl Clone for WordleEvent {
    /// Cloning keeps the view.
    fn clone(&self) -> (r: Self)
        ensures
            r@ == self@,
    {
        match self {
            WordleEvent::GameStarted { user } => WordleEvent::GameStarted { user: *user },
            WordleEvent::WordChecked { user, correct_positions, contained_in_word } => {
                let cp = correct_positions.clone();
                let ciw = contained_in_word.clone();
                proof {
                    assert(cp@ =~= correct_positions@);
                    assert(ciw@ =~= contained_in_word@);
                }
                WordleEvent::WordChecked {
                    user: *user,
                    correct_positions: cp,
                    contained_in_word: ciw,
                }
            },
        }
    }
}

impl WordleEvent {
    /// The player this reply speaks about.
    pub fn get_user(&self) -> (r: &ActorId)
        ensures
            *r == spec_event_user(self@),
    {
        match self {
            WordleEvent::GameStarted { user } => user,
            WordleEvent::WordChecked { user, .. } => user,
        }
    }

    /// Whether this check reply reports a fully correct guess.  Only a
    /// `WordChecked` reply can be asked; a start reply says nothing about
    /// a guess.
    pub fn has_guessed(&self) -> (r: bool)
        requires
            self@ is WordChecked,
        ensures
            r == spec_has_guessed(self@),
    {
        match self {
            WordleEvent::GameStarted { .. } => false,
            WordleEvent::WordChecked { correct_positions, .. } => {
                if correct_positions.len() != 5 {
                    proof {
                        assert(correct_positions@ != spec_winning_positions());
                    }
                    false
                } else {
                    let mut i: usize = 0;
                    let mut ok = true;
                    while i < 5
                        invariant
                            i <= 5,
                            correct_positions@.len() == 5,
                            ok == forall|j: int|
                                0 <= j < i ==> correct_positions@[j] == spec_winning_positions()[j],
                        decreases 5 - i,
                    {
                        if correct_positions[i] != i as u8 {
                            ok = false;
                        }
                        i += 1;
                    }
                    proof {
                        if ok {
                            assert(correct_positions@ =~= spec_winning_positions());
                        }
                    }
                    ok
                }
            },
        }
    }

    /// The event forwarded to the player when this reply is consumed.
    pub fn to_session_event(&self) -> (r: GameSessionEvent)
        ensures
            r@ == spec_session_event_of(self@),
    {
        match self {
            WordleEvent::GameStarted { .. } => GameSessionEvent::StartSuccess,
            WordleEvent::WordChecked { correct_positions, contained_in_word, .. } => {
                let cp = correct_positions.clone();
                let ciw = contained_in_word.clone();
                proof {
                    assert(cp@ =~= correct_positions@);
                    assert(ciw@ =~= contained_in_word@);
                }
                GameSessionEvent::CheckWordResult {
                    correct_positions: cp,
                    contained_in_word: ciw,
                }
            },
        }
    }
}

/// The state-machine discriminant of one session.
#[derive(Debug)]
pub enum SessionStatus {
    Init,
    WaitUserInput,
    WaitWordleStartReply,
    WaitWordleCheckWordReply,
    ReplyReceived(WordleEvent),
    GameOver(GameStatus),
}

/// Spec view of [`SessionStatus`].
#[verifier::ext_equal]
pub enum SpecSessionStatus {
    Init,
    WaitUserInput,
    WaitWordleStartReply,
    WaitWordleCheckWordReply,
    ReplyReceived(SpecWordleEvent),
    GameOver(GameStatus),
}

impl View for SessionStatus {
    type V = SpecSessionStatus;

    open spec fn view(&self) -> SpecSessionStatus {
        match self {
            SessionStatus::Init => SpecSessionStatus::Init,
            SessionStatus::WaitUserInput => SpecSessionStatus::WaitUserInput,
            SessionStatus::WaitWordleStartReply => SpecSessionStatus::WaitWordleStartReply,
            SessionStatus::WaitWordleCheckWordReply => {
                SpecSessionStatus::WaitWordleCheckWordReply
            },
            SessionStatus::ReplyReceived(ev) => SpecSessionStatus::ReplyReceived(ev@),
            SessionStatus::GameOver(status) => SpecSessionStatus::GameOver(*status),
        }
    }
}

/// Whether a session in this state is waiting for a reply from the
/// word-checking service.  Only in these two states is the stored pending
/// request identifier meaningful.
pub open spec fn spec_is_wait_reply(s: SpecSessionStatus) -> bool {
    s is WaitWordleStartReply || s is WaitWordleCheckWordReply
}

impl Default for SessionStatus {
    /// A fresh record starts in `Init`.
    fn default() -> (r: Self)
        ensures
            r@ == SpecSessionStatus::Init,
    {
        SessionStatus::Init
    }
}

impl Clone for SessionStatus {
    /// Cloning keeps the view.
    fn clone(&self) -> (r: Self)
        ensures
            r@ == self@,
    {
        match self {
            SessionStatus::Init => SessionStatus::Init,
            SessionStatus::WaitUserInput => SessionStatus::WaitUserInput,
            SessionStatus::WaitWordleStartReply => SessionStatus::WaitWordleStartReply,
            SessionStatus::WaitWordleCheckWordReply => SessionStatus::WaitWordleCheckWordReply,
            SessionStatus::ReplyReceived(ev) => SessionStatus::ReplyReceived(ev.clone()),
            SessionStatus::GameOver(status) => SessionStatus::GameOver(*status),
        }
    }
}

/// The per-player session record.
#[derive(Debug)]
pub struct SessionInfo {
    /// Identifier of the inbound request currently owning this session's
    /// suspension; a deadline event must name it to be honoured.
    pub session_id: MessageId,
    /// Identifier of the suspended inbound request, i.e. the handle to
    /// wake when the awaited reply arrives.
    pub original_msg_id: MessageId,
    /// Identifier of the outstanding request sent to the word-checking
    /// service; an incoming reply must answer it to be accepted.
    pub send_to_wordle_msg_id: MessageId,
    /// Guesses made in the current game.
    pub tries: u8,
    /// The state-machine discriminant.
    pub session_status: SessionStatus,
}

/// Spec view of [`SessionInfo`].
#[verifier::ext_equal]
pub struct SpecSessionInfo {
    pub session_id: MessageId,
    pub original_msg_id: MessageId,
    pub send_to_wordle_msg_id: MessageId,
    pub tries: u8,
    pub session_status: SpecSessionStatus,
}

impl View for SessionInfo {
    type V = SpecSessionInfo;

    open spec fn view(&self) -> SpecSessionInfo {
        SpecSessionInfo {
            session_id: self.session_id,
            original_msg_id: self.original_msg_id,
            send_to_wordle_msg_id: self.send_to_wordle_msg_id,
            tries: self.tries,
            session_status: self.session_status@,
        }
    }
}

/// The view of a fresh record: zero identifiers, no tries, `Init` status.
pub open spec fn spec_new_session() -> SpecSessionInfo {
    SpecSessionInfo {
        session_id: MessageId(0),
        original_msg_id: MessageId(0),
        send_to_wordle_msg_id: MessageId(0),
        tries: 0u8,
        session_status: SpecSessionStatus::Init,
    }
}

impl Default for SessionInfo {
    /// A fresh record, as created lazily on a player's first request.
    fn default() -> (r: Self)
        ensures
            r@ == spec_new_session(),
    {
        SessionInfo {
            session_id: MessageId(0),
            original_msg_id: MessageId(0),
            send_to_wordle_msg_id: MessageId(0),
            tries: 0,
            session_status: SessionStatus::Init,
        }
    }
}

impl Clone for SessionInfo {
    /// Cloning keeps the view.
    fn clone(&self) -> (r: Self)
        ensures
            r@ == self@,
    {
        SessionInfo {
            session_id: self.session_id,
            original_msg_id: self.original_msg_id,
            send_to_wordle_msg_id: self.send_to_wordle_msg_id,
            tries: self.tries,
            session_status: self.session_status.clone(),
        }
    }
}

impl SessionInfo {
    /// Whether this session is waiting for a reply from the word-checking
    /// service.
    pub fn is_wait_reply_status(&self) -> (r: bool)
        ensures
            r == spec_is_wait_reply(self@.session_status),
    {
        match self.session_status {
            SessionStatus::WaitWordleStartReply => true,
            SessionStatus::WaitWordleCheckWordReply => true,
            _ => false,
        }
    }
}

/// The read-only snapshot of the whole ledger handed to an external
/// caller: the service address and every (player, record) pair.
#[derive(Debug)]
pub struct GameSessionState {
    pub wordle_program_id: ActorId,
    pub game_sessions: Vec<(ActorId, SessionInfo)>,
}

/// Whether `c` is a lowercase letter, `'a'` through `'z'`.
pub open spec fn spec_lowercase_letter(c: char) -> bool {
    ('a' as u32) <= (c as u32) && (c as u32) <= ('z' as u32)
}

/// Whether a guess is acceptable: exactly [`WORD_LENGTH`] characters,
/// every one a lowercase letter.
pub open spec fn spec_valid_word(w: Seq<char>) -> bool {
    w.len() == WORD_LENGTH && forall|i: int| 0 <= i < w.len() ==> spec_lowercase_letter(#[trigger] w[i])
}

/// Checks a guess against the word rule: exactly [`WORD_LENGTH`]
/// characters, all lowercase letters.
pub fn is_valid_word(word: &String) -> (r: bool)
    ensures
        r == spec_valid_word(word@),
{
    let s = word.as_str();
    let n = s.unicode_len();
    if n != WORD_LENGTH {
        return false;
    }
    let mut i: usize = 0;
    while i < WORD_LENGTH
        invariant
            s@ == word@,
            word@.len() == WORD_LENGTH,
            i <= WORD_LENGTH,
            forall|j: int| 0 <= j < i ==> spec_lowercase_letter(#[trigger] word@[j]),
        decreases WORD_LENGTH - i,
    {
        let c = s.get_char(i);
        let u = c as u32;
        if u < 'a' as u32 || u > 'z' as u32 {
            return false;
        }
        i += 1;
    }
    true
}

} // verus!
