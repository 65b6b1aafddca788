//! The two vocabularies of transport-control actions and the mapping between them.

use vstd::prelude::*;

verus! {

/// An action as an application names it when it registers a handler.
#[derive(Clone, Copy, Debug, PartialEq, Eq, Structural, Hash)]
pub enum MediaSessionAction {
    Play,
    Pause,
    Seekbackward,
    Seekforward,
    Previoustrack,
    Nexttrack,
    Skipad,
    Stop,
    Seekto,
}

/// An action as the dispatcher knows it.
#[derive(Clone, Copy, Debug, PartialEq, Eq, Structural, Hash)]
pub enum MediaSessionActionType {
    Play,
    Pause,
    SeekBackward,
    SeekForward,
    PreviousTrack,
    NextTrack,
    SkipAd,
    Stop,
    SeekTo,
}

impl MediaSessionAction {
    /// The dispatcher's name for this action.
    pub open spec fn action_type(self) -> MediaSessionActionType {
        match self {
            MediaSessionAction::Play => MediaSessionActionType::Play,
            MediaSessionAction::Pause => MediaSessionActionType::Pause,
            MediaSessionAction::Seekbackward => MediaSessionActionType::SeekBackward,
            MediaSessionAction::Seekforward => MediaSessionActionType::SeekForward,
            MediaSessionAction::Previoustrack => MediaSessionActionType::PreviousTrack,
            MediaSessionAction::Nexttrack => MediaSessionActionType::NextTrack,
            MediaSessionAction::Skipad => MediaSessionActionType::SkipAd,
            MediaSessionAction::Stop => MediaSessionActionType::Stop,
            MediaSessionAction::Seekto => MediaSessionActionType::SeekTo,
        }
    }
}

impl MediaSessionActionType {
    /// The application's name for this action.
    pub open spec fn action(self) -> MediaSessionAction {
        match self {
            MediaSessionActionType::Play => MediaSessionAction::Play,
            MediaSessionActionType::Pause => MediaSessionAction::Pause,
            MediaSessionActionType::SeekBackward => MediaSessionAction::Seekbackward,
            MediaSessionActionType::SeekForward => MediaSessionAction::Seekforward,
            MediaSessionActionType::PreviousTrack => MediaSessionAction::Previoustrack,
            MediaSessionActionType::NextTrack => MediaSessionAction::Nexttrack,
            MediaSessionActionType::SkipAd => MediaSessionAction::Skipad,
            MediaSessionActionType::Stop => MediaSessionAction::Stop,
            MediaSessionActionType::SeekTo => MediaSessionAction::Seekto,
        }
    }

    /// The position of this action in the list of the nine actions, from 0.
    pub open spec fn spec_code(self) -> u8 {
        match self {
            MediaSessionActionType::Play => 0,
            MediaSessionActionType::Pause => 1,
            MediaSessionActionType::SeekBackward => 2,
            MediaSessionActionType::SeekForward => 3,
            MediaSessionActionType::PreviousTrack => 4,
            MediaSessionActionType::NextTrack => 5,
            MediaSessionActionType::SkipAd => 6,
            MediaSessionActionType::Stop => 7,
            MediaSessionActionType::SeekTo => 8,
        }
    }

    /// The position of this action in the list of the nine actions, from 0.
    /// Two actions have the same code only if they are the same action.
    #[verifier::when_used_as_spec(spec_code)]
    pub fn code(self) -> (c: u8)
        ensures
            c == self.spec_code(),
    {
        match self {
            MediaSessionActionType::Play => 0,
            MediaSessionActionType::Pause => 1,
            MediaSessionActionType::SeekBackward => 2,
            MediaSessionActionType::SeekForward => 3,
            MediaSessionActionType::PreviousTrack => 4,
            MediaSessionActionType::NextTrack => 5,
            MediaSessionActionType::SkipAd => 6,
            MediaSessionActionType::Stop => 7,
            MediaSessionActionType::SeekTo => 8,
        }
    }
}

impl From<MediaSessionAction> for MediaSessionActionType {
    fn from(action: MediaSessionAction) -> (action_type: MediaSessionActionType) {
        match action {
            MediaSessionAction::Play => MediaSessionActionType::Play,
            MediaSessionAction::Pause => MediaSessionActionType::Pause,
            MediaSessionAction::Seekbackward => MediaSessionActionType::SeekBackward,
            MediaSessionAction::Seekforward => MediaSessionActionType::SeekForward,
            MediaSessionAction::Previoustrack => MediaSessionActionType::PreviousTrack,
            MediaSessionAction::Nexttrack => MediaSessionActionType::NextTrack,
            MediaSessionAction::Skipad => MediaSessionActionType::SkipAd,
            MediaSessionAction::Stop => MediaSessionActionType::Stop,
            MediaSessionAction::Seekto => MediaSessionActionType::SeekTo,
        }
    }
}

impl vstd::std_specs::convert::FromSpecImpl<MediaSessionAction> for MediaSessionActionType {
    open spec fn obeys_from_spec() -> bool {
        true
    }

    open spec fn from_spec(action: MediaSessionAction) -> MediaSessionActionType {
        action.action_type()
    }
}

} // verus!
