//! Edge cases of the session state machine: stale and mismatched
//! replies, deadline races, per-player isolation, restart semantics and
//! guess validation.

use game_session::ids::{ActorId, MessageId};
use game_session::protocol::{
    GameSessionAction, GameSessionEvent, GameSessionInit, GameStatus, SessionStatus, WordleAction,
    WordleEvent, is_valid_word,
};
use game_session::session::{GameSession, HandleOutcome, SessionError};

const WORDLE: ActorId = ActorId(2);
const PROGRAM: ActorId = ActorId(1);

fn fresh_session() -> GameSession {
    GameSession::from_init(GameSessionInit { wordle_program_id: WORDLE })
}

/// Brings `user` to the point of awaiting input: start sent, confirmed
/// and the woken request answered.
fn started(gs: &mut GameSession, user: ActorId, msg_id: u64, wordle_msg_id: u64) {
    gs.handle_start_game(user, MessageId(msg_id)).expect("start refused");
    gs.record_wordle_request(user, MessageId(wordle_msg_id));
    let woken = gs.handle_reply(MessageId(wordle_msg_id), WordleEvent::GameStarted { user });
    assert_eq!(woken, Some(MessageId(msg_id)));
    let outcome = gs.handle_start_game(user, MessageId(msg_id)).expect("woken start refused");
    assert!(matches!(outcome, HandleOutcome::Reply(GameSessionEvent::StartSuccess)));
}

/// One full guess exchange; returns the player-visible event.
fn guessed(
    gs: &mut GameSession,
    user: ActorId,
    msg_id: u64,
    wordle_msg_id: u64,
    word: &str,
    correct_positions: Vec<u8>,
) -> GameSessionEvent {
    gs.handle_check_word(user, MessageId(msg_id), word.to_string()).expect("guess refused");
    gs.record_wordle_request(user, MessageId(wordle_msg_id));
    let woken = gs.handle_reply(
        MessageId(wordle_msg_id),
        WordleEvent::WordChecked { user, correct_positions, contained_in_word: vec![] },
    );
    assert_eq!(woken, Some(MessageId(msg_id)));
    match gs.handle_check_word(user, MessageId(msg_id), word.to_string()).unwrap() {
        HandleOutcome::Reply(event) => event,
        _ => panic!("woken guess did not reply"),
    }
}

fn session_of(gs: &GameSession, user: ActorId) -> game_session::protocol::SessionInfo {
    gs.snapshot()
        .game_sessions
        .into_iter()
        .find(|(u, _)| *u == user)
        .expect("no session for user")
        .1
}

#[test]
fn test_word_validation() {
    assert!(!WORDLE.is_zero());
    assert!(ActorId(0).is_zero());
    assert!(is_valid_word(&"horse".to_string()));
    assert!(!is_valid_word(&"Horse".to_string()));
    assert!(!is_valid_word(&"hors".to_string()));
    assert!(!is_valid_word(&"horses".to_string()));
    assert!(!is_valid_word(&"hors3".to_string()));
    assert!(!is_valid_word(&"hor e".to_string()));
    assert!(!is_valid_word(&"".to_string()));
}

#[test]
fn test_has_guessed() {
    let user = ActorId(7);
    let full = WordleEvent::WordChecked {
        user,
        correct_positions: vec![0, 1, 2, 3, 4],
        contained_in_word: vec![],
    };
    assert!(full.has_guessed());
    let partial = WordleEvent::WordChecked {
        user,
        correct_positions: vec![0, 1, 3, 4],
        contained_in_word: vec![2],
    };
    assert!(!partial.has_guessed());
    let reordered = WordleEvent::WordChecked {
        user,
        correct_positions: vec![4, 3, 2, 1, 0],
        contained_in_word: vec![],
    };
    assert!(!reordered.has_guessed());
}

#[test]
fn test_invalid_word_no_mutation() {
    let user = ActorId(50);
    let mut gs = fresh_session();
    started(&mut gs, user, 1, 1001);
    let before = session_of(&gs, user);

    let refused = gs.handle_check_word(user, MessageId(2), "houSe".to_string());
    assert_eq!(refused.unwrap_err(), SessionError::InvalidWord);

    let after = session_of(&gs, user);
    assert_eq!(after.tries, before.tries);
    assert!(matches!(after.session_status, SessionStatus::WaitUserInput));
    assert_eq!(after.session_id, before.session_id);
    assert_eq!(after.original_msg_id, before.original_msg_id);
    assert_eq!(after.send_to_wordle_msg_id, before.send_to_wordle_msg_id);
}

#[test]
fn test_mismatched_reply_ignored() {
    let user = ActorId(50);
    let mut gs = fresh_session();
    gs.handle_start_game(user, MessageId(1)).expect("start refused");
    gs.record_wordle_request(user, MessageId(1001));

    // A reply that answers some other request is discarded: no wake, no
    // status change.
    let woken = gs.handle_reply(MessageId(9999), WordleEvent::GameStarted { user });
    assert_eq!(woken, None);
    let info = session_of(&gs, user);
    assert!(matches!(info.session_status, SessionStatus::WaitWordleStartReply));

    // A reply for a player without a record is discarded.
    let woken = gs.handle_reply(MessageId(1001), WordleEvent::GameStarted { user: ActorId(51) });
    assert_eq!(woken, None);

    // The matching reply is accepted exactly once; delivered again it is
    // discarded, because the session is no longer waiting.
    let woken = gs.handle_reply(MessageId(1001), WordleEvent::GameStarted { user });
    assert_eq!(woken, Some(MessageId(1)));
    let woken = gs.handle_reply(MessageId(1001), WordleEvent::GameStarted { user });
    assert_eq!(woken, None);
    let info = session_of(&gs, user);
    assert!(matches!(info.session_status, SessionStatus::ReplyReceived(_)));
}

#[test]
fn test_deadline_after_game_over_noop() {
    let user = ActorId(50);
    let mut gs = fresh_session();
    started(&mut gs, user, 1, 1001);
    let event = guessed(&mut gs, user, 2, 1002, "horse", vec![0, 1, 2, 3, 4]);
    assert!(matches!(event, GameSessionEvent::GameOver(GameStatus::Win)));

    // The deadline scheduled at the start now fires; the game is already
    // over, so nothing happens.
    let notice = gs.handle_check_game_status(PROGRAM, PROGRAM, user, MessageId(1));
    assert_eq!(notice, None);
    let info = session_of(&gs, user);
    assert!(matches!(info.session_status, SessionStatus::GameOver(GameStatus::Win)));
    assert_eq!(info.tries, 1);
}

#[test]
fn test_deadline_guards() {
    let user = ActorId(50);
    let mut gs = fresh_session();
    gs.handle_start_game(user, MessageId(1)).expect("start refused");
    gs.record_wordle_request(user, MessageId(1001));

    // A deadline event whose declared sender is not the coordinator
    // itself is a forgery and is ignored.
    let notice = gs.handle_check_game_status(ActorId(66), PROGRAM, user, MessageId(1));
    assert_eq!(notice, None);
    // One naming a different owning request is ignored.
    let notice = gs.handle_check_game_status(PROGRAM, PROGRAM, user, MessageId(77));
    assert_eq!(notice, None);
    // One for a player without a record is ignored.
    let notice = gs.handle_check_game_status(PROGRAM, PROGRAM, ActorId(51), MessageId(1));
    assert_eq!(notice, None);
    let info = session_of(&gs, user);
    assert!(matches!(info.session_status, SessionStatus::WaitWordleStartReply));

    // The genuine deadline forces the loss.
    let notice = gs.handle_check_game_status(PROGRAM, PROGRAM, user, MessageId(1));
    assert!(matches!(notice, Some(GameSessionEvent::GameOver(GameStatus::Lose))));
}

#[test]
fn test_deadline_then_late_reply_discarded() {
    let user = ActorId(50);
    let mut gs = fresh_session();
    gs.handle_start_game(user, MessageId(1)).expect("start refused");
    gs.record_wordle_request(user, MessageId(1001));

    // No reply arrives before the deadline: the player is notified of
    // the loss.
    let notice = gs.handle_check_game_status(PROGRAM, PROGRAM, user, MessageId(1));
    assert!(matches!(notice, Some(GameSessionEvent::GameOver(GameStatus::Lose))));

    // The service's reply straggles in afterwards and is discarded.
    let woken = gs.handle_reply(MessageId(1001), WordleEvent::GameStarted { user });
    assert_eq!(woken, None);
    let info = session_of(&gs, user);
    assert!(matches!(info.session_status, SessionStatus::GameOver(GameStatus::Lose)));
}

#[test]
fn test_five_guesses_lose() {
    let user = ActorId(50);
    let mut gs = fresh_session();
    started(&mut gs, user, 1, 1001);
    for i in 0..4u64 {
        let event = guessed(&mut gs, user, 10 + i, 1010 + i, "crane", vec![1, 2]);
        match event {
            GameSessionEvent::CheckWordResult { correct_positions, .. } => {
                assert_eq!(correct_positions, vec![1, 2]);
            },
            _ => panic!("expected a per-letter outcome"),
        }
        assert_eq!(session_of(&gs, user).tries, (i + 1) as u8);
    }
    let event = guessed(&mut gs, user, 20, 1020, "crane", vec![1, 2]);
    assert!(matches!(event, GameSessionEvent::GameOver(GameStatus::Lose)));
    let info = session_of(&gs, user);
    assert_eq!(info.tries, 5);
    assert!(matches!(info.session_status, SessionStatus::GameOver(GameStatus::Lose)));
}

#[test]
fn test_win_then_restart_resets_tries() {
    let user = ActorId(50);
    let mut gs = fresh_session();
    started(&mut gs, user, 1, 1001);
    let event = guessed(&mut gs, user, 2, 1002, "hello", vec![0]);
    assert!(matches!(event, GameSessionEvent::CheckWordResult { .. }));
    let event = guessed(&mut gs, user, 3, 1003, "horse", vec![0, 1, 2, 3, 4]);
    assert!(matches!(event, GameSessionEvent::GameOver(GameStatus::Win)));
    assert_eq!(session_of(&gs, user).tries, 2);

    // Starting a new game from the terminal state resets the count and
    // sends a fresh start request; still only one record exists.
    let outcome = gs.handle_start_game(user, MessageId(4)).expect("restart refused");
    assert!(matches!(outcome, HandleOutcome::SendAndWait { .. }));
    let info = session_of(&gs, user);
    assert_eq!(info.tries, 0);
    assert!(matches!(info.session_status, SessionStatus::WaitWordleStartReply));
    assert_eq!(gs.snapshot().game_sessions.len(), 1);
}

#[test]
fn test_players_are_independent() {
    let alice = ActorId(50);
    let bob = ActorId(51);
    let mut gs = fresh_session();
    started(&mut gs, alice, 1, 1001);
    started(&mut gs, bob, 2, 1002);

    let event = guessed(&mut gs, alice, 3, 1003, "horse", vec![0, 1, 2, 3, 4]);
    assert!(matches!(event, GameSessionEvent::GameOver(GameStatus::Win)));

    // Bob's session is untouched by Alice's win.
    let info = session_of(&gs, bob);
    assert_eq!(info.tries, 0);
    assert!(matches!(info.session_status, SessionStatus::WaitUserInput));

    let state = gs.snapshot();
    assert_eq!(state.game_sessions.len(), 2);
    assert_eq!(state.wordle_program_id, WORDLE);
}

#[test]
fn test_handle_action_dispatch() {
    let user = ActorId(50);
    let mut gs = fresh_session();

    // A start request goes out to the service with a deadline scheduled
    // under the inbound request's identifier.
    let outcome = gs.handle_action(user, MessageId(1), PROGRAM, GameSessionAction::StartGame);
    match outcome.expect("start refused") {
        HandleOutcome::SendAndWait { to_wordle, deadline } => {
            assert!(matches!(to_wordle, WordleAction::StartGame { user: u } if u == user));
            match deadline {
                Some(GameSessionAction::CheckGameStatus { user: du, session_id }) => {
                    assert_eq!(du, user);
                    assert_eq!(session_id, MessageId(1));
                },
                _ => panic!("no deadline scheduled"),
            }
        },
        _ => panic!("start did not send"),
    }
    gs.record_wordle_request(user, MessageId(1001));
    gs.handle_reply(MessageId(1001), WordleEvent::GameStarted { user });
    let outcome = gs.handle_action(user, MessageId(1), PROGRAM, GameSessionAction::StartGame);
    assert!(matches!(outcome, Ok(HandleOutcome::Reply(GameSessionEvent::StartSuccess))));

    // A guess goes out without a deadline.
    let outcome = gs.handle_action(
        user,
        MessageId(2),
        PROGRAM,
        GameSessionAction::CheckWord { word: "horse".to_string() },
    );
    match outcome.expect("guess refused") {
        HandleOutcome::SendAndWait { to_wordle, deadline } => {
            assert!(deadline.is_none());
            match to_wordle {
                WordleAction::CheckWord { user: cu, word } => {
                    assert_eq!(cu, user);
                    assert_eq!(word, "horse");
                },
                _ => panic!("wrong outbound request"),
            }
        },
        _ => panic!("guess did not send"),
    }

    // A deadline event delivered through the same entry point notifies
    // the player.
    let outcome = gs.handle_action(
        PROGRAM,
        MessageId(3),
        PROGRAM,
        GameSessionAction::CheckGameStatus { user, session_id: MessageId(1) },
    );
    match outcome.expect("deadline refused") {
        HandleOutcome::Notify { to, event } => {
            assert_eq!(to, user);
            assert!(matches!(event, GameSessionEvent::GameOver(GameStatus::Lose)));
        },
        _ => panic!("deadline did not notify"),
    }

    // Delivered again, the game is already over: nothing to do.
    let outcome = gs.handle_action(
        PROGRAM,
        MessageId(4),
        PROGRAM,
        GameSessionAction::CheckGameStatus { user, session_id: MessageId(1) },
    );
    assert!(matches!(outcome, Ok(HandleOutcome::NoAction)));
}

#[test]
fn test_snapshot_matches_ledger() {
    let user = ActorId(50);
    let mut gs = fresh_session();
    started(&mut gs, user, 1, 1001);
    let state = gs.snapshot();
    assert_eq!(state.wordle_program_id, WORDLE);
    assert_eq!(state.game_sessions.len(), 1);
    let (u, info) = &state.game_sessions[0];
    assert_eq!(*u, user);
    assert_eq!(info.session_id, MessageId(1));
    assert_eq!(info.original_msg_id, MessageId(1));
    assert_eq!(info.send_to_wordle_msg_id, MessageId(1001));
    assert_eq!(info.tries, 0);
    assert!(matches!(info.session_status, SessionStatus::WaitUserInput));
}

#[test]
fn test_start_while_awaiting_start_reply_retries() {
    let user = ActorId(50);
    let mut gs = fresh_session();
    gs.handle_start_game(user, MessageId(1)).expect("start refused");
    gs.record_wordle_request(user, MessageId(1001));

    // A stuck awaiting-start session may be re-entered: the retry sends
    // a fresh start request under the new identifiers.
    let outcome = gs.handle_start_game(user, MessageId(2)).expect("retry refused");
    assert!(matches!(outcome, HandleOutcome::SendAndWait { .. }));
    gs.record_wordle_request(user, MessageId(1002));
    let info = session_of(&gs, user);
    assert_eq!(info.session_id, MessageId(2));
    assert_eq!(info.send_to_wordle_msg_id, MessageId(1002));

    // The first request's reply no longer matches and is discarded.
    let woken = gs.handle_reply(MessageId(1001), WordleEvent::GameStarted { user });
    assert_eq!(woken, None);
}

#[test]
fn test_check_then_win_counts_attempts() {
    let user = ActorId(50);
    let mut gs = fresh_session();
    started(&mut gs, user, 1, 1001);

    // First guess: four letters in place, nothing else contained.
    let event = guessed(&mut gs, user, 2, 1002, "hello", vec![0, 1, 3, 4]);
    match event {
        GameSessionEvent::CheckWordResult { correct_positions, contained_in_word } => {
            assert_eq!(correct_positions, vec![0, 1, 3, 4]);
            assert_eq!(contained_in_word, vec![]);
        },
        _ => panic!("expected a per-letter outcome"),
    }
    let info = session_of(&gs, user);
    assert_eq!(info.tries, 1);
    assert!(matches!(info.session_status, SessionStatus::WaitUserInput));

    // Second guess: every letter in place.
    let event = guessed(&mut gs, user, 3, 1003, "horse", vec![0, 1, 2, 3, 4]);
    assert!(matches!(event, GameSessionEvent::GameOver(GameStatus::Win)));
    let info = session_of(&gs, user);
    assert_eq!(info.tries, 2);
    assert!(matches!(info.session_status, SessionStatus::GameOver(GameStatus::Win)));
}

#[test]
fn test_start_consumes_buffered_check_reply() {
    let user = ActorId(50);
    let mut gs = fresh_session();
    started(&mut gs, user, 1, 1001);

    // A guess goes out and the service answers, but the suspended guess
    // is never re-run; instead the player sends a fresh start request.
    gs.handle_check_word(user, MessageId(2), "hello".to_string()).expect("guess refused");
    gs.record_wordle_request(user, MessageId(1002));
    let woken = gs.handle_reply(
        MessageId(1002),
        WordleEvent::WordChecked {
            user,
            correct_positions: vec![0],
            contained_in_word: vec![],
        },
    );
    assert_eq!(woken, Some(MessageId(2)));

    // The buffered outcome is handed over as the start request's reply,
    // translated into the per-letter event, and input is awaited; no try
    // is counted and nothing new is sent out.
    let outcome = gs.handle_start_game(user, MessageId(3)).expect("start refused");
    match outcome {
        HandleOutcome::Reply(GameSessionEvent::CheckWordResult { correct_positions, .. }) => {
            assert_eq!(correct_positions, vec![0]);
        },
        _ => panic!("expected the buffered outcome as a reply"),
    }
    let info = session_of(&gs, user);
    assert_eq!(info.tries, 0);
    assert!(matches!(info.session_status, SessionStatus::WaitUserInput));
}

#[test]
fn test_winning_fifth_guess_still_wins() {
    let user = ActorId(50);
    let mut gs = fresh_session();
    started(&mut gs, user, 1, 1001);
    for i in 0..4u64 {
        let event = guessed(&mut gs, user, 10 + i, 1010 + i, "crane", vec![1, 2]);
        assert!(matches!(event, GameSessionEvent::CheckWordResult { .. }));
    }
    // The fifth guess is fully correct: the win is declared even though
    // the try limit is reached by this very guess.
    let event = guessed(&mut gs, user, 20, 1020, "horse", vec![0, 1, 2, 3, 4]);
    assert!(matches!(event, GameSessionEvent::GameOver(GameStatus::Win)));
    let info = session_of(&gs, user);
    assert_eq!(info.tries, 5);
    assert!(matches!(info.session_status, SessionStatus::GameOver(GameStatus::Win)));
}
