//! The session as a mathematical value, and each operation as a function on it.

use crate::action::MediaSessionActionType;
use crate::dispatch::{DefaultAction, Dispatch};
use crate::metadata::{MediaSessionEventView, MediaSessionPlaybackState, MetadataView};
use vstd::prelude::*;

verus! {

/// All that a session knows.
pub struct MediaSessionView<H, M> {
    /// The metadata, once an application or the player has supplied any.
    pub metadata: Option<MetadataView>,
    pub playback_state: MediaSessionPlaybackState,
    /// The handler of each action that has one.
    pub action_handlers: Map<MediaSessionActionType, H>,
    /// The media that default actions act on, once one is registered.
    pub media_instance: Option<M>,
}

/// The metadata that a session stores when an application sets `metadata`
/// while the document is at `url`: the metadata supplied, titled by `url` if
/// it has no title of its own; or, where none is supplied, `url` as the title
/// and nothing else.
pub open spec fn stored_metadata(metadata: Option<MetadataView>, url: Seq<char>) -> MetadataView {
    match metadata {
        Some(metadata) => metadata.resolved(url),
        None => MetadataView::titled(url),
    }
}

impl<H, M> MediaSessionView<H, M> {
    /// A session as it is created: nothing set, nothing registered.
    pub open spec fn initial() -> MediaSessionView<H, M> {
        MediaSessionView {
            metadata: None,
            playback_state: MediaSessionPlaybackState::Unset,
            action_handlers: Map::empty(),
            media_instance: None,
        }
    }

    /// This session with `media` as its controlled media.
    pub open spec fn register_media_instance(self, media: M) -> MediaSessionView<H, M> {
        MediaSessionView { media_instance: Some(media), ..self }
    }

    /// This session with `handler` as the handler of `action`, or with no
    /// handler for `action` where `handler` is `None`.
    pub open spec fn set_action_handler(
        self,
        action: MediaSessionActionType,
        handler: Option<H>,
    ) -> MediaSessionView<H, M> {
        let action_handlers = match handler {
            Some(handler) => self.action_handlers.insert(action, handler),
            None => self.action_handlers.remove(action),
        };
        MediaSessionView { action_handlers, ..self }
    }

    /// This session after an application has set `metadata` while the
    /// document is at `url`.
    pub open spec fn set_metadata(
        self,
        metadata: Option<MetadataView>,
        url: Seq<char>,
    ) -> MediaSessionView<H, M> {
        MediaSessionView { metadata: Some(stored_metadata(metadata, url)), ..self }
    }

    /// Whether a title from the player would be taken: there is no metadata
    /// yet, or the metadata has no title.
    pub open spec fn accepts_player_title(self) -> bool {
        match self.metadata {
            Some(metadata) => metadata.untitled(),
            None => true,
        }
    }

    /// This session after the player has offered `title`.
    pub open spec fn update_title(self, title: Seq<char>) -> MediaSessionView<H, M> {
        match self.metadata {
            Some(metadata) => if metadata.untitled() {
                MediaSessionView { metadata: Some(MetadataView { title, ..metadata }), ..self }
            } else {
                self
            },
            None => MediaSessionView { metadata: Some(MetadataView::titled(title)), ..self },
        }
    }

    /// What a session announces when the player offers `title`: the new
    /// metadata if the title is taken, nothing if it is not.
    pub open spec fn update_title_event(self, title: Seq<char>) -> Option<MediaSessionEventView> {
        if self.accepts_player_title() {
            Some(MediaSessionEventView::SetMetadata(self.update_title(title).metadata.unwrap()))
        } else {
            None
        }
    }

    /// This session with `state` as its playback state.
    pub open spec fn set_playback_state(
        self,
        state: MediaSessionPlaybackState,
    ) -> MediaSessionView<H, M> {
        MediaSessionView { playback_state: state, ..self }
    }

    /// What an action request asks for: the call of its handler if it has
    /// one; else its default action on the controlled media, if there is such
    /// media and the action has a default; else nothing.
    pub open spec fn dispatch<'a>(self, action: MediaSessionActionType) -> Dispatch<'a, H, M> {
        if self.action_handlers.contains_key(action) {
            Dispatch::Handler(&self.action_handlers[action])
        } else {
            match (self.media_instance, action.spec_default_action()) {
                (Some(media), DefaultAction::Play) => Dispatch::Play(&media),
                (Some(media), DefaultAction::Pause) => Dispatch::Pause(&media),
                _ => Dispatch::Nothing,
            }
        }
    }
}

} // verus!
