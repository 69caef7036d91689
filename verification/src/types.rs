//! The session record and the messages that cross its boundary.

use vstd::prelude::*;

verus! {

/// Identity of an actor (the game service, a player) on the message-passing
/// substrate.  The coordinator only stores and forwards these.
pub type ActorId = u64;

/// Identity the substrate assigns to a message.  The coordinator compares
/// them for equality to correlate replies with forwarded calls and to resume
/// suspended caller calls; it never inspects them otherwise.
pub type MessageId = u64;

/// Number of letter positions in a guessed word.  A guess outcome counts as
/// fully correct when the service reports this many correct positions and no
/// misplaced letters.
pub const COUNT_WORD: usize = 5;

/// Configuration handed to the coordinator when the instance is set up.
#[derive(Clone, Copy, Debug, PartialEq, Eq)]
pub struct WordleInit {
    /// Address of the game service all requests are forwarded to.
    pub wordle_address: ActorId,
    /// How many non-winning guesses the player may spend before losing.
    pub count_attempts: u32,
    /// Ticks to wait before the watchdog self-message fires.
    pub delay_timeout: u32,
}

/// Final result of a game, as reported to the player.
#[derive(Clone, Copy, Debug, PartialEq, Eq)]
pub enum WordlePlayerStatus {
    Win,
    Loose,
}

/// An action a caller sends to the coordinator.
#[derive(Clone, Debug, PartialEq, Eq)]
pub enum WordleAction {
    /// Begin a game; valid only before one has started.
    StartGame,
    /// Submit a guessed word; valid only while a game is running.
    CheckWord(String),
    /// Ask for the player-facing result; valid in every phase.
    CheckGameStatus,
}

/// A request the coordinator forwards to the game service.
#[derive(Clone, Debug, PartialEq, Eq)]
pub enum ServiceAction {
    StartGame { user: ActorId },
    CheckWord { user: ActorId, word: String },
}

/// The outcome payload the game service sends back for a forwarded request.
/// The coordinator treats it as an opaque tagged result: it inspects only
/// the tag and, for a checked word, the two sets of letter findings.
#[derive(Clone, Debug, PartialEq, Eq)]
pub enum ServiceEvent {
    /// The service accepted the start request.
    GameStarted { user: ActorId },
    /// The service evaluated a guess: which positions were correct and which
    /// letters occur in the word but stand in the wrong place.
    WordChecked { user: ActorId, correct_positions: Vec<u8>, contained_in_word: Vec<char> },
}

/// The phase of the session.  The variants with `orig_id` and `sent_id`
/// record a forwarded call in flight: `orig_id` is the suspended caller call
/// to resume, `sent_id` the identity of the forwarded message whose reply is
/// awaited.
#[derive(Clone, Debug, PartialEq, Eq)]
pub enum WordleStatus {
    /// No game started yet.
    Init,
    /// Start request forwarded, caller suspended.
    GameStartMessageSent { orig_id: MessageId, sent_id: MessageId },
    /// Start reply arrived; observed only by the resumed caller call.
    GameStartMessageReceived { event: ServiceEvent },
    /// Game running, guesses accepted.
    GameStarted,
    /// Guess request forwarded, caller suspended.
    CheckWordMessageSent { orig_id: MessageId, sent_id: MessageId },
    /// Guess reply arrived; observed only by the resumed caller call.
    CheckWordMessageReceived { event: ServiceEvent },
    /// Terminal phase; only `CheckGameStatus` and terminal replies remain.
    GameOver(WordlePlayerStatus),
}

/// The session record: the only state the coordinator holds.
#[derive(Clone, Debug, PartialEq, Eq)]
pub struct WordleState {
    /// Address of the game service; never changes after set-up.
    pub wordle_address: ActorId,
    /// Current phase; the sole field all branching is driven by.
    pub status: WordleStatus,
    /// Guesses left before the game is forced to a loss.
    pub count_attemps: u32,
    /// Watchdog delay in ticks; never changes after set-up.
    pub delay_timeout: u32,
}

/// A reply the coordinator produces for a caller.
#[derive(Clone, Debug, PartialEq, Eq)]
pub enum WordleEvent {
    /// The service accepted the start request; the game is running.
    GameStartSuccess,
    /// The service answered the start request with something other than an
    /// acceptance; the payload is handed back for inspection.
    GameStartFail(ServiceEvent),
    /// The service evaluated the guess; the payload carries the findings.
    CheckWordSuccess(ServiceEvent),
    /// The service answered the guess request with something other than an
    /// evaluation; the attempt is not spent.
    CheckWordFail(ServiceEvent),
    /// The action is invalid in the current phase; carries a snapshot of the
    /// session and the rejected action for caller introspection.
    WrongActionToTrigger(WordleState, WordleAction),
    YouAreWin,
    YouAreLoose,
}

/// What the host runtime must do after an inbound action was processed.
#[derive(Clone, Debug, PartialEq, Eq)]
pub enum Command {
    /// Reply to the current caller call with the given payload.
    Reply(WordleEvent),
    /// Forward `request` to the service at `target` — the substrate assigns
    /// it the identity the handler was given as `sent_id` — and suspend the
    /// current caller call without replying.  When `watchdog_delay` is
    /// `Some(d)`, first schedule a self-directed `CheckGameStatus` message
    /// to be delivered after `d` ticks.
    Forward { target: ActorId, request: ServiceAction, watchdog_delay: Option<u32> },
}

/// The one unrecoverable condition: a reply that cannot be correlated with
/// the forwarded call in flight.  The host must abort the current execution
/// and leave the session as it stands rather than guess intent.
#[derive(Clone, Copy, Debug, PartialEq, Eq)]
pub enum SessionError {
    MisroutedReply,
}

} // verus!
