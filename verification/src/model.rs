//! The mathematical model of the session and its transition system.
//!
//! Every executable type has a model counterpart in which byte and character
//! vectors become sequences, and a `View` mapping onto it.  The two entry
//! points' contracts state that the executable code takes exactly the steps
//! `handle_step` and `reply_step` describe on the models.

use vstd::prelude::*;

use crate::types::ActorId;
use crate::types::COUNT_WORD;
use crate::types::Command;
use crate::types::MessageId;
use crate::types::ServiceAction;
use crate::types::ServiceEvent;
use crate::types::WordleAction;
use crate::types::WordleEvent;
use crate::types::WordlePlayerStatus;
use crate::types::WordleState;
use crate::types::WordleStatus;

verus! {

/// Model of a caller action: the guessed word as a sequence of characters.
pub enum ActionModel {
    StartGame,
    CheckWord(Seq<char>),
    CheckGameStatus,
}

/// Model of a request forwarded to the game service.
pub enum ServiceActionModel {
    StartGame { user: ActorId },
    CheckWord { user: ActorId, word: Seq<char> },
}

/// Model of a game-service outcome.
pub enum EventModel {
    GameStarted { user: ActorId },
    WordChecked { user: ActorId, correct_positions: Seq<u8>, contained_in_word: Seq<char> },
}

/// Model of the session phase.
pub enum StatusModel {
    Init,
    GameStartMessageSent { orig_id: MessageId, sent_id: MessageId },
    GameStartMessageReceived { event: EventModel },
    GameStarted,
    CheckWordMessageSent { orig_id: MessageId, sent_id: MessageId },
    CheckWordMessageReceived { event: EventModel },
    GameOver(WordlePlayerStatus),
}

/// Model of the session record.
pub struct StateModel {
    pub wordle_address: ActorId,
    pub status: StatusModel,
    pub count_attemps: u32,
    pub delay_timeout: u32,
}

/// Model of a reply to the caller.
pub enum ReplyModel {
    GameStartSuccess,
    GameStartFail(EventModel),
    CheckWordSuccess(EventModel),
    CheckWordFail(EventModel),
    WrongActionToTrigger(StateModel, ActionModel),
    YouAreWin,
    YouAreLoose,
}

/// Model of a command to the host runtime.
pub enum CommandModel {
    Reply(ReplyModel),
    Forward { target: ActorId, request: ServiceActionModel, watchdog_delay: Option<u32> },
}

impl View for WordleAction {
    type V = ActionModel;

    open spec fn view(&self) -> ActionModel {
        match self {
            WordleAction::StartGame => ActionModel::StartGame,
            WordleAction::CheckWord(word) => ActionModel::CheckWord(word@),
            WordleAction::CheckGameStatus => ActionModel::CheckGameStatus,
        }
    }
}

impl View for ServiceAction {
    type V = ServiceActionModel;

    open spec fn view(&self) -> ServiceActionModel {
        match self {
            ServiceAction::StartGame { user } => ServiceActionModel::StartGame { user: *user },
            ServiceAction::CheckWord { user, word } => ServiceActionModel::CheckWord {
                user: *user,
                word: word@,
            },
        }
    }
}

impl View for ServiceEvent {
    type V = EventModel;

    open spec fn view(&self) -> EventModel {
        match self {
            ServiceEvent::GameStarted { user } => EventModel::GameStarted { user: *user },
            ServiceEvent::WordChecked { user, correct_positions, contained_in_word } => {
                EventModel::WordChecked {
                    user: *user,
                    correct_positions: correct_positions@,
                    contained_in_word: contained_in_word@,
                }
            },
        }
    }
}

impl View for WordleStatus {
    type V = StatusModel;

    open spec fn view(&self) -> StatusModel {
        match self {
            WordleStatus::Init => StatusModel::Init,
            WordleStatus::GameStartMessageSent { orig_id, sent_id } => {
                StatusModel::GameStartMessageSent { orig_id: *orig_id, sent_id: *sent_id }
            },
            WordleStatus::GameStartMessageReceived { event } => {
                StatusModel::GameStartMessageReceived { event: event@ }
            },
            WordleStatus::GameStarted => StatusModel::GameStarted,
            WordleStatus::CheckWordMessageSent { orig_id, sent_id } => {
                StatusModel::CheckWordMessageSent { orig_id: *orig_id, sent_id: *sent_id }
            },
            WordleStatus::CheckWordMessageReceived { event } => {
                StatusModel::CheckWordMessageReceived { event: event@ }
            },
            WordleStatus::GameOver(result) => StatusModel::GameOver(*result),
        }
    }
}

impl View for WordleState {
    type V = StateModel;

    open spec fn view(&self) -> StateModel {
        StateModel {
            wordle_address: self.wordle_address,
            status: self.status@,
            count_attemps: self.count_attemps,
            delay_timeout: self.delay_timeout,
        }
    }
}

impl View for WordleEvent {
    type V = ReplyModel;

    open spec fn view(&self) -> ReplyModel {
        match self {
            WordleEvent::GameStartSuccess => ReplyModel::GameStartSuccess,
            WordleEvent::GameStartFail(event) => ReplyModel::GameStartFail(event@),
            WordleEvent::CheckWordSuccess(event) => ReplyModel::CheckWordSuccess(event@),
            WordleEvent::CheckWordFail(event) => ReplyModel::CheckWordFail(event@),
            WordleEvent::WrongActionToTrigger(state, action) => {
                ReplyModel::WrongActionToTrigger(state@, action@)
            },
            WordleEvent::YouAreWin => ReplyModel::YouAreWin,
            WordleEvent::YouAreLoose => ReplyModel::YouAreLoose,
        }
    }
}

impl View for Command {
    type V = CommandModel;

    open spec fn view(&self) -> CommandModel {
        match self {
            Command::Reply(event) => CommandModel::Reply(event@),
            Command::Forward { target, request, watchdog_delay } => CommandModel::Forward {
                target: *target,
                request: request@,
                watchdog_delay: *watchdog_delay,
            },
        }
    }
}

/// The session invariant: the attempt counter stays positive until the game
/// is over.  It reaches zero exactly at the transition to a loss and is
/// never decremented past it.
pub open spec fn wf(s: StateModel) -> bool {
    !(s.status matches StatusModel::GameOver(_)) ==> s.count_attemps >= 1
}

/// A guess outcome that counts as fully correct: every position right and
/// no letter merely contained elsewhere in the word.
pub open spec fn win_checked(correct_positions: Seq<u8>, contained_in_word: Seq<char>) -> bool {
    correct_positions.len() == COUNT_WORD && contained_in_word.len() == 0
}

/// The player-facing result `CheckGameStatus` derives from the phase: a
/// finished game reports its result, and every unfinished phase reports a
/// loss by default.
pub open spec fn query_status_reply(s: StateModel) -> ReplyModel {
    match s.status {
        StatusModel::GameOver(WordlePlayerStatus::Win) => ReplyModel::YouAreWin,
        _ => ReplyModel::YouAreLoose,
    }
}

/// The reply that rejects an action invalid in the current phase.
pub open spec fn reject(s: StateModel, action: ActionModel) -> CommandModel {
    CommandModel::Reply(ReplyModel::WrongActionToTrigger(s, action))
}

/// How a guess outcome, observed by the resumed caller call, is interpreted:
/// a fully correct guess wins; any other evaluated guess spends an attempt
/// and loses once the counter reaches zero; an outcome that is not an
/// evaluation leaves the attempt unspent and the phase as it stands.
pub open spec fn interpret_guess_reply(s: StateModel, event: EventModel) -> (
    StateModel,
    CommandModel,
) {
    match event {
        EventModel::WordChecked { user, correct_positions, contained_in_word } => {
            if win_checked(correct_positions, contained_in_word) {
                (
                    StateModel { status: StatusModel::GameOver(WordlePlayerStatus::Win), ..s },
                    CommandModel::Reply(ReplyModel::CheckWordSuccess(event)),
                )
            } else {
                let remaining = (s.count_attemps - 1) as u32;
                if remaining == 0 {
                    (
                        StateModel {
                            status: StatusModel::GameOver(WordlePlayerStatus::Loose),
                            count_attemps: remaining,
                            ..s
                        },
                        CommandModel::Reply(ReplyModel::CheckWordSuccess(event)),
                    )
                } else {
                    (
                        StateModel {
                            status: StatusModel::GameStarted,
                            count_attemps: remaining,
                            ..s
                        },
                        CommandModel::Reply(ReplyModel::CheckWordSuccess(event)),
                    )
                }
            }
        },
        _ => (s, CommandModel::Reply(ReplyModel::CheckWordFail(event))),
    }
}

/// The step the inbound-request entry point takes.  `user` and `msg_id` are
/// the caller and the identity of the current call; `sent_id` is the
/// identity the substrate assigns to the outbound message if one is sent.
/// Returns the next session record and the command for the host runtime.
pub open spec fn handle_step(
    s: StateModel,
    user: ActorId,
    msg_id: MessageId,
    sent_id: MessageId,
    action: ActionModel,
) -> (StateModel, CommandModel) {
    if action is CheckGameStatus {
        (s, CommandModel::Reply(query_status_reply(s)))
    } else {
        match s.status {
            StatusModel::Init => {
                if action is StartGame {
                    (
                        StateModel {
                            status: StatusModel::GameStartMessageSent { orig_id: msg_id, sent_id },
                            ..s
                        },
                        CommandModel::Forward {
                            target: s.wordle_address,
                            request: ServiceActionModel::StartGame { user },
                            watchdog_delay: Some(s.delay_timeout),
                        },
                    )
                } else {
                    (s, reject(s, action))
                }
            },
            StatusModel::GameStartMessageSent { .. } => (s, reject(s, action)),
            StatusModel::GameStartMessageReceived { event } => {
                if event matches EventModel::GameStarted { .. } {
                    (
                        StateModel { status: StatusModel::GameStarted, ..s },
                        CommandModel::Reply(ReplyModel::GameStartSuccess),
                    )
                } else {
                    (s, CommandModel::Reply(ReplyModel::GameStartFail(event)))
                }
            },
            StatusModel::GameStarted => {
                match action {
                    ActionModel::CheckWord(word) => (
                        StateModel {
                            status: StatusModel::CheckWordMessageSent { orig_id: msg_id, sent_id },
                            ..s
                        },
                        CommandModel::Forward {
                            target: s.wordle_address,
                            request: ServiceActionModel::CheckWord { user, word },
                            watchdog_delay: None,
                        },
                    ),
                    _ => (s, reject(s, action)),
                }
            },
            StatusModel::CheckWordMessageSent { .. } => (s, reject(s, action)),
            StatusModel::CheckWordMessageReceived { event } => interpret_guess_reply(s, event),
            StatusModel::GameOver(result) => {
                (
                    s,
                    CommandModel::Reply(
                        if result is Win {
                            ReplyModel::YouAreWin
                        } else {
                            ReplyModel::YouAreLoose
                        },
                    ),
                )
            },
        }
    }
}

/// Whether an inbound reply correlates with the forwarded call in flight:
/// the phase must record one, and the reply's target must be its identity.
pub open spec fn reply_matches(status: StatusModel, reply_to: MessageId) -> bool {
    ||| status matches StatusModel::GameStartMessageSent { sent_id, .. } && reply_to == sent_id
    ||| status matches StatusModel::CheckWordMessageSent { sent_id, .. } && reply_to == sent_id
}

/// The step the inbound-reply entry point takes.  A correlated reply stores
/// the outcome in the phase and names the suspended caller call to resume;
/// anything else is the fatal misrouted-reply condition, `None`.
pub open spec fn reply_step(s: StateModel, reply_to: MessageId, event: EventModel) -> Option<
    (StateModel, MessageId),
> {
    match s.status {
        StatusModel::GameStartMessageSent { orig_id, sent_id } => {
            if reply_to == sent_id {
                Some(
                    (
                        StateModel {
                            status: StatusModel::GameStartMessageReceived { event },
                            ..s
                        },
                        orig_id,
                    ),
                )
            } else {
                None
            }
        },
        StatusModel::CheckWordMessageSent { orig_id, sent_id } => {
            if reply_to == sent_id {
                Some(
                    (
                        StateModel {
                            status: StatusModel::CheckWordMessageReceived { event },
                            ..s
                        },
                        orig_id,
                    ),
                )
            } else {
                None
            }
        },
        _ => None,
    }
}

} // verus!
