//! Properties of the transition system, stated and proved over the model.
//!
//! A full guess exchange spans three steps — the caller's request, the
//! service's reply, and the resumed caller call that interprets it —
//! composed here as `guess_round`, with `run_guess_rounds` iterating whole
//! games.

use vstd::prelude::*;

use crate::model::ActionModel;
use crate::model::CommandModel;
use crate::model::EventModel;
use crate::model::ReplyModel;
use crate::model::StateModel;
use crate::model::StatusModel;
use crate::model::handle_step;
use crate::model::query_status_reply;
use crate::model::reject;
use crate::model::reply_matches;
use crate::model::reply_step;
use crate::model::win_checked;
use crate::types::ActorId;
use crate::types::MessageId;
use crate::types::WordlePlayerStatus;

verus! {

/// An outcome that is a guess evaluation at all (as opposed to a start
/// acceptance or any other payload).
pub open spec fn checked_outcome(event: EventModel) -> bool {
    event matches EventModel::WordChecked { .. }
}

/// An outcome that wins the game: a guess evaluation with every position
/// correct and no letter merely contained elsewhere.
pub open spec fn winning_outcome(event: EventModel) -> bool {
    event matches EventModel::WordChecked { correct_positions, contained_in_word, .. }
        && win_checked(correct_positions, contained_in_word)
}

/// One full guess exchange: the caller submits `word` as call `msg_id`, the
/// forwarded request gets identity `sent_id`, the service answers `outcome`,
/// and the resumed caller call interprets it.  Where the session does not
/// forward (or the reply does not correlate), the later steps fall away.
pub open spec fn guess_round(
    s: StateModel,
    user: ActorId,
    msg_id: MessageId,
    sent_id: MessageId,
    word: Seq<char>,
    outcome: EventModel,
) -> StateModel {
    let s1 = handle_step(s, user, msg_id, sent_id, ActionModel::CheckWord(word)).0;
    match reply_step(s1, sent_id, outcome) {
        Some((s2, wake_id)) => handle_step(
            s2,
            user,
            wake_id,
            sent_id,
            ActionModel::CheckWord(word),
        ).0,
        None => s1,
    }
}

/// A whole game of guess exchanges, one per outcome; round `i` uses call
/// identity `msg_ids[i]`, forwarded identity `sent_ids[i]` and word
/// `words[i]`.
pub open spec fn run_guess_rounds(
    s: StateModel,
    user: ActorId,
    msg_ids: Seq<MessageId>,
    sent_ids: Seq<MessageId>,
    words: Seq<Seq<char>>,
    outcomes: Seq<EventModel>,
) -> StateModel
    decreases outcomes.len(),
{
    if outcomes.len() == 0 {
        s
    } else {
        run_guess_rounds(
            guess_round(s, user, msg_ids[0], sent_ids[0], words[0], outcomes[0]),
            user,
            msg_ids.skip(1),
            sent_ids.skip(1),
            words.skip(1),
            outcomes.skip(1),
        )
    }
}

/// What one guess exchange does while a game is running: a winning outcome
/// ends the game won without spending the attempt counter; any other
/// evaluated guess spends one attempt, losing the game exactly when the
/// counter reaches zero and otherwise returning the session to play.
pub proof fn lemma_guess_round(
    s: StateModel,
    user: ActorId,
    msg_id: MessageId,
    sent_id: MessageId,
    word: Seq<char>,
    outcome: EventModel,
)
    requires
        s.status == StatusModel::GameStarted,
        s.count_attemps >= 1,
        checked_outcome(outcome),
    ensures
        winning_outcome(outcome) ==> guess_round(s, user, msg_id, sent_id, word, outcome) == (
        StateModel { status: StatusModel::GameOver(WordlePlayerStatus::Win), ..s }),
        !winning_outcome(outcome) && s.count_attemps == 1 ==> guess_round(
            s,
            user,
            msg_id,
            sent_id,
            word,
            outcome,
        ) == (StateModel {
            status: StatusModel::GameOver(WordlePlayerStatus::Loose),
            count_attemps: 0,
            ..s
        }),
        !winning_outcome(outcome) && s.count_attemps > 1 ==> guess_round(
            s,
            user,
            msg_id,
            sent_id,
            word,
            outcome,
        ) == (StateModel {
            status: StatusModel::GameStarted,
            count_attemps: (s.count_attemps - 1) as u32,
            ..s
        }),
{
}

/// Every game whose guesses eventually draw a winning outcome, with the
/// non-winning evaluations before it leaving the attempt counter short of
/// zero, ends won.
pub proof fn lemma_winning_run_ends_won(
    s: StateModel,
    user: ActorId,
    msg_ids: Seq<MessageId>,
    sent_ids: Seq<MessageId>,
    words: Seq<Seq<char>>,
    outcomes: Seq<EventModel>,
)
    requires
        s.status == StatusModel::GameStarted,
        msg_ids.len() == outcomes.len(),
        sent_ids.len() == outcomes.len(),
        words.len() == outcomes.len(),
        outcomes.len() >= 1,
        s.count_attemps >= outcomes.len(),
        forall|i: int|
            0 <= i < outcomes.len() - 1 ==> checked_outcome(#[trigger] outcomes[i])
                && !winning_outcome(outcomes[i]),
        winning_outcome(outcomes[outcomes.len() - 1]),
    ensures
        run_guess_rounds(s, user, msg_ids, sent_ids, words, outcomes).status
            == StatusModel::GameOver(WordlePlayerStatus::Win),
    decreases outcomes.len(),
{
    lemma_guess_round(s, user, msg_ids[0], sent_ids[0], words[0], outcomes[0]);
    if outcomes.len() > 1 {
        let next = guess_round(s, user, msg_ids[0], sent_ids[0], words[0], outcomes[0]);
        lemma_winning_run_ends_won(
            next,
            user,
            msg_ids.skip(1),
            sent_ids.skip(1),
            words.skip(1),
            outcomes.skip(1),
        );
    }
}

/// Every game of exactly as many non-winning evaluated guesses as the
/// session has attempts ends lost, with the attempt counter reaching
/// exactly zero at the losing transition.
pub proof fn lemma_exhausted_run_ends_lost(
    s: StateModel,
    user: ActorId,
    msg_ids: Seq<MessageId>,
    sent_ids: Seq<MessageId>,
    words: Seq<Seq<char>>,
    outcomes: Seq<EventModel>,
)
    requires
        s.status == StatusModel::GameStarted,
        msg_ids.len() == outcomes.len(),
        sent_ids.len() == outcomes.len(),
        words.len() == outcomes.len(),
        outcomes.len() == s.count_attemps,
        s.count_attemps >= 1,
        forall|i: int|
            0 <= i < outcomes.len() ==> checked_outcome(#[trigger] outcomes[i])
                && !winning_outcome(outcomes[i]),
    ensures
        run_guess_rounds(s, user, msg_ids, sent_ids, words, outcomes).status
            == StatusModel::GameOver(WordlePlayerStatus::Loose),
        run_guess_rounds(s, user, msg_ids, sent_ids, words, outcomes).count_attemps == 0,
    decreases outcomes.len(),
{
    lemma_guess_round(s, user, msg_ids[0], sent_ids[0], words[0], outcomes[0]);
    if outcomes.len() > 1 {
        let next = guess_round(s, user, msg_ids[0], sent_ids[0], words[0], outcomes[0]);
        lemma_exhausted_run_ends_lost(
            next,
            user,
            msg_ids.skip(1),
            sent_ids.skip(1),
            words.skip(1),
            outcomes.skip(1),
        );
    }
}

/// `CheckGameStatus` never changes the session, and its answer defaults to
/// a loss: only a session finished won answers a win; every other phase —
/// finished lost, never started, running, or with a forwarded call in
/// flight — answers a loss.
pub proof fn lemma_query_status(
    s: StateModel,
    user: ActorId,
    msg_id: MessageId,
    sent_id: MessageId,
)
    ensures
        handle_step(s, user, msg_id, sent_id, ActionModel::CheckGameStatus).0 == s,
        handle_step(s, user, msg_id, sent_id, ActionModel::CheckGameStatus).1
            == CommandModel::Reply(query_status_reply(s)),
        s.status == StatusModel::GameOver(WordlePlayerStatus::Win) ==> query_status_reply(s)
            == ReplyModel::YouAreWin,
        s.status != StatusModel::GameOver(WordlePlayerStatus::Win) ==> query_status_reply(s)
            == ReplyModel::YouAreLoose,
{
}

/// Before a game has started, a guess is rejected with `WrongActionToTrigger`
/// and the session is left unchanged.  (The other two actions are answered,
/// not rejected: `StartGame` opens the game and `CheckGameStatus` reports a
/// default loss.)
pub proof fn lemma_init_rejects_guesses(
    s: StateModel,
    user: ActorId,
    msg_id: MessageId,
    sent_id: MessageId,
    action: ActionModel,
)
    requires
        s.status == StatusModel::Init,
        action matches ActionModel::CheckWord(_),
    ensures
        handle_step(s, user, msg_id, sent_id, action).0 == s,
        handle_step(s, user, msg_id, sent_id, action).1 == reject(s, action),
{
}

/// While a forwarded call is in flight, every action but the always-valid
/// `CheckGameStatus` is rejected with `WrongActionToTrigger`, and the whole
/// session — phase, attempt counter and both correlation identities —
/// stays as it was: only one forwarded call is admitted at a time.
pub proof fn lemma_in_flight_rejects_all(
    s: StateModel,
    user: ActorId,
    msg_id: MessageId,
    sent_id: MessageId,
    action: ActionModel,
)
    requires
        s.status matches StatusModel::GameStartMessageSent { .. } || s.status
            matches StatusModel::CheckWordMessageSent { .. },
        !(action is CheckGameStatus),
    ensures
        handle_step(s, user, msg_id, sent_id, action).0 == s,
        handle_step(s, user, msg_id, sent_id, action).1 == reject(s, action),
{
}

/// A reply is consumed exactly when the phase records a forwarded call in
/// flight and the reply's target is its identity; in every other case —
/// wrong phase or mismatched identity — the step refuses it fatally, and
/// `handle_reply` then leaves the session untouched and resumes nothing.
pub proof fn lemma_reply_correlation(s: StateModel, reply_to: MessageId, event: EventModel)
    ensures
        reply_step(s, reply_to, event) is Some <==> reply_matches(s.status, reply_to),
        reply_step(s, reply_to, event) matches Some((next, wake_id)) ==> {
            &&& next.count_attemps == s.count_attemps
            &&& next.wordle_address == s.wordle_address
            &&& next.delay_timeout == s.delay_timeout
            &&& s.status matches StatusModel::GameStartMessageSent { orig_id, .. } ==> wake_id
                == orig_id && next.status == (StatusModel::GameStartMessageReceived { event })
            &&& s.status matches StatusModel::CheckWordMessageSent { orig_id, .. } ==> wake_id
                == orig_id && next.status == (StatusModel::CheckWordMessageReceived { event })
        },
{
}

/// A finished game is terminal: no action moves the session again — any
/// action other than `CheckGameStatus` is answered with the terminal result
/// rather than evaluated — and no reply correlates with it.
pub proof fn lemma_game_over_is_terminal(
    s: StateModel,
    user: ActorId,
    msg_id: MessageId,
    sent_id: MessageId,
    action: ActionModel,
    reply_to: MessageId,
    event: EventModel,
)
    requires
        s.status matches StatusModel::GameOver(_),
    ensures
        handle_step(s, user, msg_id, sent_id, action).0 == s,
        s.status == StatusModel::GameOver(WordlePlayerStatus::Win) ==> handle_step(
            s,
            user,
            msg_id,
            sent_id,
            action,
        ).1 == CommandModel::Reply(ReplyModel::YouAreWin),
        s.status == StatusModel::GameOver(WordlePlayerStatus::Loose) ==> handle_step(
            s,
            user,
            msg_id,
            sent_id,
            action,
        ).1 == CommandModel::Reply(ReplyModel::YouAreLoose),
        reply_step(s, reply_to, event) is None,
{
}

/// The service address and the watchdog delay are immutable: no request
/// step and no reply step ever changes them.
pub proof fn lemma_configuration_immutable(
    s: StateModel,
    user: ActorId,
    msg_id: MessageId,
    sent_id: MessageId,
    action: ActionModel,
    reply_to: MessageId,
    event: EventModel,
)
    ensures
        handle_step(s, user, msg_id, sent_id, action).0.wordle_address == s.wordle_address,
        handle_step(s, user, msg_id, sent_id, action).0.delay_timeout == s.delay_timeout,
        reply_step(s, reply_to, event) matches Some((next, wake_id)) ==> next.wordle_address
            == s.wordle_address && next.delay_timeout == s.delay_timeout,
{
}

} // verus!
