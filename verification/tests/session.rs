use wordle_game_session::session::handle;
use wordle_game_session::session::handle_reply;
use wordle_game_session::session::init;
use wordle_game_session::session::state;
use wordle_game_session::types::Command;
use wordle_game_session::types::ServiceAction;
use wordle_game_session::types::ServiceEvent;
use wordle_game_session::types::SessionError;
use wordle_game_session::types::WordleAction;
use wordle_game_session::types::WordleEvent;
use wordle_game_session::types::WordleInit;
use wordle_game_session::types::WordlePlayerStatus;
use wordle_game_session::types::WordleState;
use wordle_game_session::types::WordleStatus;

fn new_session(count_attempts: u32) -> WordleState {
    let config = WordleInit { wordle_address: 100, count_attempts, delay_timeout: 1 };
    let session = init(config);
    let snapshot = state(&session);
    assert_eq!(snapshot.count_attemps, count_attempts);
    assert_eq!(snapshot.status, WordleStatus::Init);
    session
}

/// Plays one caller call to completion: if the coordinator forwards the
/// request, feeds it `outcome` as the service's reply and resumes the
/// suspended call, as the host runtime would.
fn run_exchange(
    session: &mut WordleState,
    user: u64,
    msg_id: u64,
    sent_id: u64,
    action: WordleAction,
    outcome: ServiceEvent,
) -> WordleEvent {
    let cmd = handle(session, user, msg_id, sent_id, action.clone());
    match cmd {
        Command::Reply(reply) => reply,
        Command::Forward { .. } => {
            let wake = handle_reply(session, sent_id, outcome).expect("misrouted reply");
            assert_eq!(wake, msg_id);
            match handle(session, user, wake, sent_id, action) {
                Command::Reply(reply) => reply,
                Command::Forward { .. } => panic!("resumed call forwarded again"),
            }
        }
    }
}

fn partial_outcome(user: u64, correct_positions: Vec<u8>) -> ServiceEvent {
    ServiceEvent::WordChecked { user, correct_positions, contained_in_word: Vec::new() }
}

fn winning_outcome_for(user: u64) -> ServiceEvent {
    ServiceEvent::WordChecked {
        user,
        correct_positions: vec![0, 1, 2, 3, 4],
        contained_in_word: Vec::new(),
    }
}

#[test]
fn handle_start_game() {
    let mut session = new_session(5);
    run_exchange(
        &mut session,
        42,
        1,
        2,
        WordleAction::StartGame,
        ServiceEvent::GameStarted { user: 42 },
    );
    let snapshot = state(&session);
    assert_eq!(snapshot.status, WordleStatus::GameStarted);
}

#[test]
fn handle_you_are_win() {
    let mut session = new_session(5);
    run_exchange(
        &mut session,
        42,
        1,
        2,
        WordleAction::StartGame,
        ServiceEvent::GameStarted { user: 42 },
    );
    run_exchange(
        &mut session,
        42,
        3,
        4,
        WordleAction::CheckWord("house".to_string()),
        partial_outcome(42, vec![0, 1, 3, 4]),
    );
    run_exchange(
        &mut session,
        42,
        5,
        6,
        WordleAction::CheckWord("human".to_string()),
        partial_outcome(42, vec![0]),
    );
    run_exchange(
        &mut session,
        42,
        7,
        8,
        WordleAction::CheckWord("horse".to_string()),
        winning_outcome_for(42),
    );
    let snapshot = state(&session);
    assert_eq!(snapshot.status, WordleStatus::GameOver(WordlePlayerStatus::Win));
}

#[test]
fn handle_you_are_loose() {
    let mut session = new_session(5);
    run_exchange(
        &mut session,
        42,
        1,
        2,
        WordleAction::StartGame,
        ServiceEvent::GameStarted { user: 42 },
    );
    let words = ["11111", "11111", "11111", "11111", "12345", "12345"];
    for (i, word) in words.iter().enumerate() {
        run_exchange(
            &mut session,
            42,
            3 + 2 * i as u64,
            4 + 2 * i as u64,
            WordleAction::CheckWord(word.to_string()),
            partial_outcome(42, Vec::new()),
        );
    }
    let snapshot = state(&session);
    assert_eq!(snapshot.status, WordleStatus::GameOver(WordlePlayerStatus::Loose));
}

#[test]
fn query_status_defaults_to_loose() {
    let in_flight_start = WordleStatus::GameStartMessageSent { orig_id: 9, sent_id: 10 };
    let in_flight_guess = WordleStatus::CheckWordMessageSent { orig_id: 11, sent_id: 12 };
    let phases = [
        WordleStatus::Init,
        in_flight_start,
        WordleStatus::GameStarted,
        in_flight_guess,
        WordleStatus::GameOver(WordlePlayerStatus::Loose),
    ];
    for phase in phases {
        let mut session = WordleState {
            wordle_address: 100,
            status: phase.clone(),
            count_attemps: 3,
            delay_timeout: 1,
        };
        let cmd = handle(&mut session, 42, 1, 2, WordleAction::CheckGameStatus);
        assert_eq!(cmd, Command::Reply(WordleEvent::YouAreLoose));
        assert_eq!(session.status, phase);
        assert_eq!(session.count_attemps, 3);
    }
    let mut won = WordleState {
        wordle_address: 100,
        status: WordleStatus::GameOver(WordlePlayerStatus::Win),
        count_attemps: 3,
        delay_timeout: 1,
    };
    let cmd = handle(&mut won, 42, 1, 2, WordleAction::CheckGameStatus);
    assert_eq!(cmd, Command::Reply(WordleEvent::YouAreWin));
    assert_eq!(won.status, WordleStatus::GameOver(WordlePlayerStatus::Win));
}

#[test]
fn init_rejects_guess() {
    let mut session = new_session(5);
    let before = state(&session);
    let action = WordleAction::CheckWord("horse".to_string());
    let cmd = handle(&mut session, 42, 1, 2, action.clone());
    assert_eq!(cmd, Command::Reply(WordleEvent::WrongActionToTrigger(before.clone(), action)));
    assert_eq!(state(&session), before);
}

#[test]
fn in_flight_rejects_actions() {
    let mut session = WordleState {
        wordle_address: 100,
        status: WordleStatus::GameStartMessageSent { orig_id: 1, sent_id: 2 },
        count_attemps: 5,
        delay_timeout: 1,
    };
    let before = state(&session);
    let cmd = handle(&mut session, 42, 3, 4, WordleAction::StartGame);
    assert_eq!(
        cmd,
        Command::Reply(WordleEvent::WrongActionToTrigger(before.clone(), WordleAction::StartGame))
    );
    assert_eq!(state(&session), before);

    let mut guessing = WordleState {
        wordle_address: 100,
        status: WordleStatus::CheckWordMessageSent { orig_id: 5, sent_id: 6 },
        count_attemps: 2,
        delay_timeout: 1,
    };
    let before_guess = state(&guessing);
    let action = WordleAction::CheckWord("horse".to_string());
    let cmd = handle(&mut guessing, 42, 7, 8, action.clone());
    assert_eq!(
        cmd,
        Command::Reply(WordleEvent::WrongActionToTrigger(before_guess.clone(), action))
    );
    assert_eq!(state(&guessing), before_guess);
}

#[test]
fn misrouted_reply_is_fatal() {
    let mut session = WordleState {
        wordle_address: 100,
        status: WordleStatus::GameStartMessageSent { orig_id: 1, sent_id: 2 },
        count_attemps: 5,
        delay_timeout: 1,
    };
    let before = state(&session);
    let wrong_id = handle_reply(&mut session, 3, ServiceEvent::GameStarted { user: 42 });
    assert_eq!(wrong_id, Err(SessionError::MisroutedReply));
    assert_eq!(state(&session), before);

    let mut idle = new_session(5);
    let before_idle = state(&idle);
    let no_call = handle_reply(&mut idle, 2, ServiceEvent::GameStarted { user: 42 });
    assert_eq!(no_call, Err(SessionError::MisroutedReply));
    assert_eq!(state(&idle), before_idle);
}

#[test]
fn start_game_forwards_and_schedules_watchdog() {
    let mut session = new_session(5);
    let cmd = handle(&mut session, 42, 1, 2, WordleAction::StartGame);
    assert_eq!(
        cmd,
        Command::Forward {
            target: 100,
            request: ServiceAction::StartGame { user: 42 },
            watchdog_delay: Some(1),
        }
    );
    assert_eq!(session.status, WordleStatus::GameStartMessageSent { orig_id: 1, sent_id: 2 });
}

#[test]
fn guess_forwards_without_watchdog() {
    let mut session = WordleState {
        wordle_address: 100,
        status: WordleStatus::GameStarted,
        count_attemps: 5,
        delay_timeout: 1,
    };
    let cmd = handle(&mut session, 42, 3, 4, WordleAction::CheckWord("horse".to_string()));
    assert_eq!(
        cmd,
        Command::Forward {
            target: 100,
            request: ServiceAction::CheckWord { user: 42, word: "horse".to_string() },
            watchdog_delay: None,
        }
    );
    assert_eq!(session.status, WordleStatus::CheckWordMessageSent { orig_id: 3, sent_id: 4 });
}

#[test]
fn start_rejected_by_service() {
    let mut session = new_session(5);
    let outcome = partial_outcome(42, Vec::new());
    let reply = run_exchange(&mut session, 42, 1, 2, WordleAction::StartGame, outcome.clone());
    assert_eq!(reply, WordleEvent::GameStartFail(outcome.clone()));
    assert_eq!(session.status, WordleStatus::GameStartMessageReceived { event: outcome });
    assert_eq!(session.count_attemps, 5);
}

#[test]
fn guess_rejected_by_service() {
    let mut session = WordleState {
        wordle_address: 100,
        status: WordleStatus::GameStarted,
        count_attemps: 5,
        delay_timeout: 1,
    };
    let outcome = ServiceEvent::GameStarted { user: 42 };
    let reply = run_exchange(
        &mut session,
        42,
        3,
        4,
        WordleAction::CheckWord("horse".to_string()),
        outcome.clone(),
    );
    assert_eq!(reply, WordleEvent::CheckWordFail(outcome.clone()));
    assert_eq!(session.status, WordleStatus::CheckWordMessageReceived { event: outcome });
    assert_eq!(session.count_attemps, 5);
}

#[test]
fn winning_scenario_counts_attempts() {
    let mut session = new_session(5);
    let reply = run_exchange(
        &mut session,
        42,
        1,
        2,
        WordleAction::StartGame,
        ServiceEvent::GameStarted { user: 42 },
    );
    assert_eq!(reply, WordleEvent::GameStartSuccess);
    assert_eq!(session.status, WordleStatus::GameStarted);

    let house = partial_outcome(42, vec![0, 1, 3, 4]);
    let reply = run_exchange(
        &mut session,
        42,
        3,
        4,
        WordleAction::CheckWord("house".to_string()),
        house.clone(),
    );
    assert_eq!(reply, WordleEvent::CheckWordSuccess(house));
    assert_eq!(session.count_attemps, 4);
    assert_eq!(session.status, WordleStatus::GameStarted);

    let human = partial_outcome(42, vec![0]);
    let reply = run_exchange(
        &mut session,
        42,
        5,
        6,
        WordleAction::CheckWord("human".to_string()),
        human.clone(),
    );
    assert_eq!(reply, WordleEvent::CheckWordSuccess(human));
    assert_eq!(session.count_attemps, 3);
    assert_eq!(session.status, WordleStatus::GameStarted);

    let horse = winning_outcome_for(42);
    let reply = run_exchange(
        &mut session,
        42,
        7,
        8,
        WordleAction::CheckWord("horse".to_string()),
        horse.clone(),
    );
    assert_eq!(reply, WordleEvent::CheckWordSuccess(horse));
    assert_eq!(session.status, WordleStatus::GameOver(WordlePlayerStatus::Win));
    assert_eq!(session.count_attemps, 3);
}

#[test]
fn losing_scenario_reaches_zero_then_replies_terminal() {
    let mut session = new_session(5);
    run_exchange(
        &mut session,
        42,
        1,
        2,
        WordleAction::StartGame,
        ServiceEvent::GameStarted { user: 42 },
    );
    for i in 0..5u64 {
        let reply = run_exchange(
            &mut session,
            42,
            3 + 2 * i,
            4 + 2 * i,
            WordleAction::CheckWord("11111".to_string()),
            partial_outcome(42, Vec::new()),
        );
        assert_eq!(reply, WordleEvent::CheckWordSuccess(partial_outcome(42, Vec::new())));
        assert_eq!(session.count_attemps, 4 - i as u32);
    }
    assert_eq!(session.count_attemps, 0);
    assert_eq!(session.status, WordleStatus::GameOver(WordlePlayerStatus::Loose));

    let reply = run_exchange(
        &mut session,
        42,
        20,
        21,
        WordleAction::CheckWord("12345".to_string()),
        partial_outcome(42, Vec::new()),
    );
    assert_eq!(reply, WordleEvent::YouAreLoose);
    assert_eq!(session.status, WordleStatus::GameOver(WordlePlayerStatus::Loose));
    assert_eq!(session.count_attemps, 0);
}

#[test]
fn single_attempt_game_loses_on_first_miss() {
    let mut session = new_session(1);
    run_exchange(
        &mut session,
        42,
        1,
        2,
        WordleAction::StartGame,
        ServiceEvent::GameStarted { user: 42 },
    );
    let miss = partial_outcome(42, vec![0, 1]);
    let reply = run_exchange(
        &mut session,
        42,
        3,
        4,
        WordleAction::CheckWord("house".to_string()),
        miss.clone(),
    );
    assert_eq!(reply, WordleEvent::CheckWordSuccess(miss));
    assert_eq!(session.status, WordleStatus::GameOver(WordlePlayerStatus::Loose));
    assert_eq!(session.count_attemps, 0);
}
