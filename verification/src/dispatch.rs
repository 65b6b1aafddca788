//! What an action request asks of the embedder.

use crate::action::MediaSessionActionType;
use vstd::prelude::*;

verus! {

/// What the session does for an action that has no handler.
#[derive(Clone, Copy, Debug, PartialEq, Eq, Structural)]
pub enum DefaultAction {
    /// Start playback on the controlled media.
    Play,
    /// Pause the controlled media.
    Pause,
    /// Nothing: the action needs a handler to have any effect.
    Nothing,
}

impl MediaSessionActionType {
    /// What this action does by default.
    pub open spec fn spec_default_action(self) -> DefaultAction {
        match self {
            MediaSessionActionType::Play => DefaultAction::Play,
            MediaSessionActionType::Pause => DefaultAction::Pause,
            _ => DefaultAction::Nothing,
        }
    }

    /// What this action does by default: `Play` plays, `Pause` pauses, and no
    /// other action does anything.
    #[verifier::when_used_as_spec(spec_default_action)]
    pub fn default_action(self) -> (default: DefaultAction)
        ensures
            default == self.spec_default_action(),
    {
        match self {
            MediaSessionActionType::Play => DefaultAction::Play,
            MediaSessionActionType::Pause => DefaultAction::Pause,
            MediaSessionActionType::SeekBackward => DefaultAction::Nothing,
            MediaSessionActionType::SeekForward => DefaultAction::Nothing,
            MediaSessionActionType::PreviousTrack => DefaultAction::Nothing,
            MediaSessionActionType::NextTrack => DefaultAction::Nothing,
            MediaSessionActionType::SkipAd => DefaultAction::Nothing,
            MediaSessionActionType::Stop => DefaultAction::Nothing,
            MediaSessionActionType::SeekTo => DefaultAction::Nothing,
        }
    }
}

/// The one thing that the embedder is to do for an action request.
#[derive(Debug, PartialEq, Eq)]
pub enum Dispatch<'a, H, M> {
    /// Call this handler, once, and do nothing else whatever it returns.
    Handler(&'a H),
    /// Start playback on this media.
    Play(&'a M),
    /// Pause this media.
    Pause(&'a M),
    /// Do nothing.
    Nothing,
}

/// What is left of an action request once its handler has returned.
#[derive(Clone, Copy, Debug, PartialEq, Eq, Structural)]
pub enum HandlerFollowUp {
    /// Nothing.
    Done,
    /// A warning that the handler failed, and nothing more: the failure goes
    /// no further, and the default action is not taken in the handler's place.
    ReportFailure,
}

/// What is left to do after a handler returned `result`.
pub open spec fn spec_handler_returned<E>(result: Result<(), E>) -> HandlerFollowUp {
    match result {
        Ok(_) => HandlerFollowUp::Done,
        Err(_) => HandlerFollowUp::ReportFailure,
    }
}

/// Decides what is left to do after a handler returned `result`: nothing if
/// it succeeded, a warning if it failed. Either way the request ends there.
#[verifier::when_used_as_spec(spec_handler_returned)]
pub fn handler_returned<E>(result: Result<(), E>) -> (follow_up: HandlerFollowUp)
    ensures
        follow_up == spec_handler_returned(result),
{
    match result {
        Ok(_) => HandlerFollowUp::Done,
        Err(_) => HandlerFollowUp::ReportFailure,
    }
}

} // verus!
