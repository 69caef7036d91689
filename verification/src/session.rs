//! The executable entry points of the coordinator.
//!
//! Each is proved to take exactly the step its model transition describes:
//! `handle` follows `handle_step`, `handle_reply` follows `reply_step`, and
//! both preserve the session invariant `wf`.

use vstd::prelude::*;

use crate::model::ReplyModel;
use crate::model::StatusModel;
use crate::model::handle_step;
use crate::model::reply_step;
use crate::model::wf;
use crate::types::ActorId;
use crate::types::COUNT_WORD;
use crate::types::Command;
use crate::types::MessageId;
use crate::types::ServiceAction;
use crate::types::ServiceEvent;
use crate::types::SessionError;
use crate::types::WordleAction;
use crate::types::WordleEvent;
use crate::types::WordleInit;
use crate::types::WordlePlayerStatus;
use crate::types::WordleState;
use crate::types::WordleStatus;

verus! {

/// Copies a vector of plain values element by element.
fn clone_vec<T: Copy>(v: &Vec<T>) -> (r: Vec<T>)
    ensures
        r@ == v@,
{
    let mut r: Vec<T> = Vec::new();
    let mut i: usize = 0;
    while i < v.len()
        invariant
            i <= v.len(),
            r@.len() == i,
            forall|j: int| 0 <= j < i ==> r@[j] == v@[j],
        decreases v.len() - i,
    {
        let x: T = v[i];
        r.push(x);
        i = i + 1;
    }
    proof {
        assert(r@ =~= v@);
    }
    r
}

/// Copies a service outcome; the copy carries the same model value.
fn clone_event(event: &ServiceEvent) -> (r: ServiceEvent)
    ensures
        r@ == event@,
{
    match event {
        ServiceEvent::GameStarted { user } => ServiceEvent::GameStarted { user: *user },
        ServiceEvent::WordChecked { user, correct_positions, contained_in_word } => {
            ServiceEvent::WordChecked {
                user: *user,
                correct_positions: clone_vec(correct_positions),
                contained_in_word: clone_vec(contained_in_word),
            }
        },
    }
}

/// Copies a session phase; the copy carries the same model value.
fn clone_status(status: &WordleStatus) -> (r: WordleStatus)
    ensures
        r@ == status@,
{
    match status {
        WordleStatus::Init => WordleStatus::Init,
        WordleStatus::GameStartMessageSent { orig_id, sent_id } => {
            WordleStatus::GameStartMessageSent { orig_id: *orig_id, sent_id: *sent_id }
        },
        WordleStatus::GameStartMessageReceived { event } => {
            WordleStatus::GameStartMessageReceived { event: clone_event(event) }
        },
        WordleStatus::GameStarted => WordleStatus::GameStarted,
        WordleStatus::CheckWordMessageSent { orig_id, sent_id } => {
            WordleStatus::CheckWordMessageSent { orig_id: *orig_id, sent_id: *sent_id }
        },
        WordleStatus::CheckWordMessageReceived { event } => {
            WordleStatus::CheckWordMessageReceived { event: clone_event(event) }
        },
        WordleStatus::GameOver(result) => WordleStatus::GameOver(*result),
    }
}

/// Copies a session record; the copy carries the same model value.
fn clone_state(state: &WordleState) -> (r: WordleState)
    ensures
        r@ == state@,
{
    WordleState {
        wordle_address: state.wordle_address,
        status: clone_status(&state.status),
        count_attemps: state.count_attemps,
        delay_timeout: state.delay_timeout,
    }
}

/// Builds the reply that rejects `action` in the current phase, carrying a
/// snapshot of the session for caller introspection.
fn wrong_action(state: &WordleState, action: WordleAction) -> (r: WordleEvent)
    ensures
        r@ == ReplyModel::WrongActionToTrigger(state@, action@),
{
    WordleEvent::WrongActionToTrigger(clone_state(state), action)
}

/// Creates the session record for a fresh instance: no game started and the
/// full allowance of attempts.
pub fn init(config: WordleInit) -> (s: WordleState)
    requires
        config.count_attempts >= 1,
    ensures
        s@.wordle_address == config.wordle_address,
        s@.status == StatusModel::Init,
        s@.count_attemps == config.count_attempts,
        s@.delay_timeout == config.delay_timeout,
        wf(s@),
{
    WordleState {
        wordle_address: config.wordle_address,
        status: WordleStatus::Init,
        count_attemps: config.count_attempts,
        delay_timeout: config.delay_timeout,
    }
}

/// The inbound-request entry point.  `user_id` and `msg_id` identify the
/// caller and the current call; `sent_id` is the identity the substrate
/// assigns to the outbound message if the returned command forwards one.
/// The session takes exactly the step `handle_step` describes, and the
/// returned command is the one it names.
pub fn handle(
    state: &mut WordleState,
    user_id: ActorId,
    msg_id: MessageId,
    sent_id: MessageId,
    action: WordleAction,
) -> (cmd: Command)
    requires
        wf(old(state)@),
    ensures
        final(state)@ == handle_step(old(state)@, user_id, msg_id, sent_id, action@).0,
        cmd@ == handle_step(old(state)@, user_id, msg_id, sent_id, action@).1,
        wf(final(state)@),
{
    if let WordleAction::CheckGameStatus = action {
        let reply = match &state.status {
            WordleStatus::GameOver(WordlePlayerStatus::Win) => WordleEvent::YouAreWin,
            _ => WordleEvent::YouAreLoose,
        };
        return Command::Reply(reply);
    }
    match &state.status {
        WordleStatus::Init => {
            match action {
                WordleAction::StartGame => {
                    let target: ActorId = state.wordle_address;
                    let delay: u32 = state.delay_timeout;
                    state.status = WordleStatus::GameStartMessageSent {
                        orig_id: msg_id,
                        sent_id,
                    };
                    Command::Forward {
                        target,
                        request: ServiceAction::StartGame { user: user_id },
                        watchdog_delay: Some(delay),
                    }
                },
                other => Command::Reply(wrong_action(state, other)),
            }
        },
        WordleStatus::GameStartMessageSent { .. } => Command::Reply(wrong_action(state, action)),
        WordleStatus::GameStartMessageReceived { event } => {
            let observed = clone_event(event);
            match observed {
                ServiceEvent::GameStarted { .. } => {
                    state.status = WordleStatus::GameStarted;
                    Command::Reply(WordleEvent::GameStartSuccess)
                },
                other => Command::Reply(WordleEvent::GameStartFail(other)),
            }
        },
        WordleStatus::GameStarted => {
            match action {
                WordleAction::CheckWord(word) => {
                    let target: ActorId = state.wordle_address;
                    state.status = WordleStatus::CheckWordMessageSent {
                        orig_id: msg_id,
                        sent_id,
                    };
                    Command::Forward {
                        target,
                        request: ServiceAction::CheckWord { user: user_id, word },
                        watchdog_delay: None,
                    }
                },
                other => Command::Reply(wrong_action(state, other)),
            }
        },
        WordleStatus::CheckWordMessageSent { .. } => Command::Reply(wrong_action(state, action)),
        WordleStatus::CheckWordMessageReceived { event } => {
            let observed = clone_event(event);
            match observed {
                ServiceEvent::WordChecked { user, correct_positions, contained_in_word } => {
                    let full_match = correct_positions.len() == COUNT_WORD
                        && contained_in_word.len() == 0;
                    let reply_event = ServiceEvent::WordChecked {
                        user,
                        correct_positions,
                        contained_in_word,
                    };
                    if full_match {
                        state.status = WordleStatus::GameOver(WordlePlayerStatus::Win);
                    } else {
                        let remaining: u32 = state.count_attemps - 1;
                        state.count_attemps = remaining;
                        if remaining == 0 {
                            state.status = WordleStatus::GameOver(WordlePlayerStatus::Loose);
                        } else {
                            state.status = WordleStatus::GameStarted;
                        }
                    }
                    Command::Reply(WordleEvent::CheckWordSuccess(reply_event))
                },
                other => Command::Reply(WordleEvent::CheckWordFail(other)),
            }
        },
        WordleStatus::GameOver(result) => {
            let reply = match result {
                WordlePlayerStatus::Win => WordleEvent::YouAreWin,
                WordlePlayerStatus::Loose => WordleEvent::YouAreLoose,
            };
            Command::Reply(reply)
        },
    }
}

/// The inbound-reply entry point.  A reply correlated with the forwarded
/// call in flight stores the outcome in the phase and returns the suspended
/// caller call to resume; the resumed call must re-enter `handle` with its
/// original action.  A misrouted reply is fatal: the session is left
/// exactly as it was and the error tells the host to abort.
pub fn handle_reply(
    state: &mut WordleState,
    reply_to: MessageId,
    event: ServiceEvent,
) -> (r: Result<MessageId, SessionError>)
    ensures
        reply_step(old(state)@, reply_to, event@) matches Some((next, wake_id))
            ==> final(state)@ == next && r == Ok::<MessageId, SessionError>(wake_id),
        reply_step(old(state)@, reply_to, event@) is None
            ==> *final(state) == *old(state)
                && r == Err::<MessageId, SessionError>(SessionError::MisroutedReply),
        wf(old(state)@) ==> wf(final(state)@),
{
    let (orig, sent, is_start): (MessageId, MessageId, bool) = match &state.status {
        WordleStatus::GameStartMessageSent { orig_id, sent_id } => (*orig_id, *sent_id, true),
        WordleStatus::CheckWordMessageSent { orig_id, sent_id } => (*orig_id, *sent_id, false),
        _ => {
            return Err(SessionError::MisroutedReply);
        },
    };
    if reply_to != sent {
        return Err(SessionError::MisroutedReply);
    }
    if is_start {
        state.status = WordleStatus::GameStartMessageReceived { event };
    } else {
        state.status = WordleStatus::CheckWordMessageReceived { event };
    }
    Ok(orig)
}

/// The state-snapshot entry point: hands out the full session record,
/// verbatim as a model value, with no side effect.
pub fn state(session: &WordleState) -> (r: WordleState)
    ensures
        r@ == session@,
{
    clone_state(session)
}

} // verus!
