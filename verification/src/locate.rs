//! Finding the `yt-dlp` executable, one question at a time.
//!
//! The caller looks at the file system, starts processes and fetches files;
//! what to do next is decided here. `locate_start` names the first thing to
//! do; the caller does it and hands the outcome to `locate_step`, which names
//! the next, until the action is `Use` or `GiveUp`.
//!
//! Without a forced update, a `yt-dlp` that answers on the search path is
//! used; failing that the local copy; failing that a copy is fetched. A
//! forced update removes the local copy, if there is one, and fetches anew.
use vstd::prelude::*;

verus! {

/// Which executable is used.
#[derive(Debug, Clone, Copy, PartialEq, Eq, Structural)]
pub enum BinarySource {
    /// The one on the search path.
    System,
    /// The local copy.
    Local,
}

/// What the caller was last asked to do.
#[derive(Debug, Clone, Copy, PartialEq, Eq, Structural)]
pub enum LocateState {
    /// Forced update: to see whether an old local copy exists.
    CheckingStale,
    /// Forced update: to remove the old local copy.
    RemovingStale,
    /// To see whether `yt-dlp` answers on the search path.
    ProbingSystem,
    /// To see whether a local copy exists.
    CheckingLocal,
    /// To fetch a copy.
    Fetching,
    /// Nothing: the search is over.
    Finished,
}

/// The outcome of what the caller was asked to do.
#[derive(Debug, Clone, Copy, PartialEq, Eq, Structural)]
pub enum LocateEvent {
    /// Whether the local copy exists.
    LocalExists(bool),
    /// The local copy was removed.
    Removed,
    /// Whether `yt-dlp` ran from the search path and reported success.
    SystemAnswered(bool),
    /// A copy was fetched and stored.
    Fetched,
    /// Removing or fetching failed.
    Failed,
}

/// What the caller does next.
#[derive(Debug, Clone, Copy, PartialEq, Eq, Structural)]
pub enum LocateAction {
    /// See whether the local copy exists.
    CheckLocal,
    /// Remove the local copy.
    RemoveLocal,
    /// Run `yt-dlp --version` from the search path.
    ProbeSystem,
    /// Fetch a copy; `update` tells a forced update from a first fetch.
    Fetch { update: bool },
    /// The search is over: use this executable.
    Use(BinarySource),
    /// The search is over: there is no executable.
    GiveUp,
}

/// The first thing to do.
pub open spec fn first_step(force_update: bool) -> (LocateState, LocateAction) {
    if force_update {
        (LocateState::CheckingStale, LocateAction::CheckLocal)
    } else {
        (LocateState::ProbingSystem, LocateAction::ProbeSystem)
    }
}

/// The next thing to do, or `None` where `event` is no outcome of what
/// `state` waits for.
pub open spec fn next_step(state: LocateState, event: LocateEvent) -> Option<
    (LocateState, LocateAction),
> {
    match (state, event) {
        (LocateState::CheckingStale, LocateEvent::LocalExists(true)) => Some(
            (LocateState::RemovingStale, LocateAction::RemoveLocal),
        ),
        (LocateState::CheckingStale, LocateEvent::LocalExists(false)) => Some(
            (LocateState::Fetching, LocateAction::Fetch { update: true }),
        ),
        (LocateState::RemovingStale, LocateEvent::Removed) => Some(
            (LocateState::Fetching, LocateAction::Fetch { update: true }),
        ),
        (LocateState::ProbingSystem, LocateEvent::SystemAnswered(true)) => Some(
            (LocateState::Finished, LocateAction::Use(BinarySource::System)),
        ),
        (LocateState::ProbingSystem, LocateEvent::SystemAnswered(false)) => Some(
            (LocateState::CheckingLocal, LocateAction::CheckLocal),
        ),
        (LocateState::CheckingLocal, LocateEvent::LocalExists(true)) => Some(
            (LocateState::Finished, LocateAction::Use(BinarySource::Local)),
        ),
        (LocateState::CheckingLocal, LocateEvent::LocalExists(false)) => Some(
            (LocateState::Fetching, LocateAction::Fetch { update: false }),
        ),
        (LocateState::Fetching, LocateEvent::Fetched) => Some(
            (LocateState::Finished, LocateAction::Use(BinarySource::Local)),
        ),
        (LocateState::RemovingStale, LocateEvent::Failed) => Some(
            (LocateState::Finished, LocateAction::GiveUp),
        ),
        (LocateState::Fetching, LocateEvent::Failed) => Some(
            (LocateState::Finished, LocateAction::GiveUp),
        ),
        _ => None,
    }
}

/// Whether an action ends the search.
pub open spec fn is_final(action: LocateAction) -> bool {
    action is Use || action is GiveUp
}

/// How many outcomes a state can still take, at most.
pub open spec fn steps_left(state: LocateState) -> nat {
    match state {
        LocateState::CheckingStale => 3,
        LocateState::ProbingSystem => 3,
        LocateState::RemovingStale => 2,
        LocateState::CheckingLocal => 2,
        LocateState::Fetching => 1,
        LocateState::Finished => 0,
    }
}

/// The state reached from `state` over `events` and the actions named on the
/// way, or `None` where an event is no outcome of what was asked.
pub open spec fn run(state: LocateState, events: Seq<LocateEvent>) -> Option<
    (LocateState, Seq<LocateAction>),
>
    decreases events.len(),
{
    if events.len() == 0 {
        Some((state, seq![]))
    } else {
        match next_step(state, events.first()) {
            None => None,
            Some((next, action)) => match run(next, events.drop_first()) {
                None => None,
                Some((last, actions)) => Some((last, seq![action] + actions)),
            },
        }
    }
}

/// The first thing to do, and the state that waits for its outcome.
pub fn locate_start(force_update: bool) -> (r: (LocateState, LocateAction))
    ensures
        r == first_step(force_update),
{
    if force_update {
        (LocateState::CheckingStale, LocateAction::CheckLocal)
    } else {
        (LocateState::ProbingSystem, LocateAction::ProbeSystem)
    }
}

/// The next thing to do after `event`, and the state that waits for its
/// outcome; `None` where `event` is no outcome of what `state` waits for.
pub fn locate_step(state: LocateState, event: LocateEvent) -> (r: Option<
    (LocateState, LocateAction),
>)
    ensures
        r == next_step(state, event),
{
    match state {
        LocateState::CheckingStale => match event {
            LocateEvent::LocalExists(true) => Some(
                (LocateState::RemovingStale, LocateAction::RemoveLocal),
            ),
            LocateEvent::LocalExists(false) => Some(
                (LocateState::Fetching, LocateAction::Fetch { update: true }),
            ),
            _ => None,
        },
        LocateState::RemovingStale => match event {
            LocateEvent::Removed => Some(
                (LocateState::Fetching, LocateAction::Fetch { update: true }),
            ),
            LocateEvent::Failed => Some((LocateState::Finished, LocateAction::GiveUp)),
            _ => None,
        },
        LocateState::ProbingSystem => match event {
            LocateEvent::SystemAnswered(true) => Some(
                (LocateState::Finished, LocateAction::Use(BinarySource::System)),
            ),
            LocateEvent::SystemAnswered(false) => Some(
                (LocateState::CheckingLocal, LocateAction::CheckLocal),
            ),
            _ => None,
        },
        LocateState::CheckingLocal => match event {
            LocateEvent::LocalExists(true) => Some(
                (LocateState::Finished, LocateAction::Use(BinarySource::Local)),
            ),
            LocateEvent::LocalExists(false) => Some(
                (LocateState::Fetching, LocateAction::Fetch { update: false }),
            ),
            _ => None,
        },
        LocateState::Fetching => match event {
            LocateEvent::Fetched => Some(
                (LocateState::Finished, LocateAction::Use(BinarySource::Local)),
            ),
            LocateEvent::Failed => Some((LocateState::Finished, LocateAction::GiveUp)),
            _ => None,
        },
        LocateState::Finished => None,
    }
}

/// Every step brings the end nearer, and the search is over exactly when the
/// action says so.
pub proof fn lemma_step_progress(state: LocateState, event: LocateEvent)
    requires
        next_step(state, event) is Some,
    ensures
        steps_left(next_step(state, event).unwrap().0) < steps_left(state),
        is_final(next_step(state, event).unwrap().1) <==> next_step(state, event).unwrap().0
            == LocateState::Finished,
{
}

/// A search takes no more outcomes than `steps_left` says, so never more than
/// three, and names one action for each.
pub proof fn lemma_run_is_short(state: LocateState, events: Seq<LocateEvent>)
    requires
        run(state, events) is Some,
    ensures
        events.len() <= steps_left(state) <= 3,
        run(state, events).unwrap().1.len() == events.len(),
    decreases events.len(),
{
    if events.len() > 0 {
        lemma_step_progress(state, events.first());
        lemma_run_is_short(next_step(state, events.first()).unwrap().0, events.drop_first());
    }
}

/// Names the tails of a list of at most three outcomes, so that a run over it
/// can be followed step by step.
proof fn lemma_unfold_short_run(events: Seq<LocateEvent>)
    requires
        events.len() <= 3,
    ensures
        events.len() >= 1 ==> events.drop_first().len() == events.len() - 1,
        events.len() >= 2 ==> events.drop_first().drop_first().len() == events.len() - 2,
        events.len() >= 3 ==> events.drop_first().drop_first().drop_first().len() == 0,
        events.len() >= 2 ==> events.drop_first().first() == events[1],
        events.len() >= 3 ==> events.drop_first().drop_first().first() == events[2],
{
}

/// A forced update never settles for the executable on the search path, and
/// where it ends with an executable, that one was fetched just before.
pub proof fn lemma_forced_update_fetches(events: Seq<LocateEvent>)
    requires
        run(first_step(true).0, events) is Some,
        events.len() > 0,
    ensures
        ({
            let actions = run(first_step(true).0, events).unwrap().1;
            &&& !actions.contains(LocateAction::Use(BinarySource::System))
            &&& !actions.contains(LocateAction::ProbeSystem)
            &&& actions.last() is Use ==> {
                &&& actions.last() == LocateAction::Use(BinarySource::Local)
                &&& actions.len() >= 2
                &&& actions[actions.len() - 2] == (LocateAction::Fetch { update: true })
                &&& events.last() == LocateEvent::Fetched
            }
        }),
{
    lemma_run_is_short(LocateState::CheckingStale, events);
    lemma_unfold_short_run(events);
    reveal_with_fuel(run, 4);
}

/// Without a forced update nothing is fetched while an executable is at hand:
/// a fetch is asked for only after the search path and the local copy both
/// failed.
pub proof fn lemma_fetch_is_last_resort(events: Seq<LocateEvent>, k: int)
    requires
        run(first_step(false).0, events) is Some,
        0 <= k < events.len(),
        run(first_step(false).0, events).unwrap().1[k] is Fetch,
    ensures
        k == 1,
        events[0] == LocateEvent::SystemAnswered(false),
        events[1] == LocateEvent::LocalExists(false),
        run(first_step(false).0, events).unwrap().1[k] == (LocateAction::Fetch { update: false }),
{
    lemma_run_is_short(LocateState::ProbingSystem, events);
    lemma_unfold_short_run(events);
    reveal_with_fuel(run, 4);
}

} // verus!
