//! The media session itself.

use crate::action::{MediaSessionAction, MediaSessionActionType};
use crate::dispatch::{DefaultAction, Dispatch};
use crate::handlers::ActionHandlers;
use crate::metadata::{
    MediaMetadata, MediaMetadataInit, MediaSessionEvent, MediaSessionEventView,
    MediaSessionPlaybackState, MetadataView,
};
use crate::model::{stored_metadata, MediaSessionView};
use vstd::prelude::*;

verus! {

/// The media session of one document.
///
/// `H` is what the embedder uses to refer to an action handler, `M` what it
/// uses to refer to the controlled media. The session keeps such values and
/// hands them back; it never calls through them. Nor does it deliver events:
/// an operation that announces something returns the event, and the embedder
/// sends it on.
pub struct MediaSession<H, M> {
    metadata: Option<MediaMetadata>,
    playback_state: MediaSessionPlaybackState,
    action_handlers: ActionHandlers<H>,
    media_instance: Option<M>,
}

/// What `metadata` says, apart from how it is stored.
pub open spec fn supplied(metadata: Option<&MediaMetadataInit>) -> Option<MetadataView> {
    match metadata {
        Some(metadata) => Some(metadata@),
        None => None,
    }
}

/// What `event` says, if there is one.
pub open spec fn announced(event: Option<MediaSessionEvent>) -> Option<MediaSessionEventView> {
    match event {
        Some(event) => Some(event@),
        None => None,
    }
}

impl<H, M> View for MediaSession<H, M> {
    type V = MediaSessionView<H, M>;

    closed spec fn view(&self) -> MediaSessionView<H, M> {
        MediaSessionView {
            metadata: match self.metadata {
                Some(metadata) => Some(metadata@),
                None => None,
            },
            playback_state: self.playback_state,
            action_handlers: self.action_handlers@,
            media_instance: self.media_instance,
        }
    }
}

impl<H, M> MediaSession<H, M> {
    /// A session with no metadata, no playback state, no handler and no
    /// controlled media.
    pub fn new() -> (session: MediaSession<H, M>)
        ensures
            session@ == MediaSessionView::<H, M>::initial(),
    {
        MediaSession {
            metadata: None,
            playback_state: MediaSessionPlaybackState::Unset,
            action_handlers: ActionHandlers::new(),
            media_instance: None,
        }
    }

    /// Makes `media_instance` the controlled media, in place of any that was
    /// registered before.
    pub fn register_media_instance(&mut self, media_instance: M)
        ensures
            final(self)@ == old(self)@.register_media_instance(media_instance),
    {
        self.media_instance = Some(media_instance);
    }

    /// Decides what an action request asks for, and changes nothing. A
    /// registered handler takes the whole request: the embedder calls it
    /// once and leaves the controlled media alone, whatever the handler
    /// returns. Without a handler `Play` plays and `Pause` pauses the
    /// controlled media, if there is one; every other request is dropped.
    #[must_use]
    pub fn handle_action(&self, action: MediaSessionActionType) -> (dispatch: Dispatch<'_, H, M>)
        ensures
            dispatch == self@.dispatch(action),
    {
        if let Some(handler) = self.action_handlers.get(action) {
            return Dispatch::Handler(handler);
        }
        if let Some(media) = &self.media_instance {
            match action.default_action() {
                DefaultAction::Play => Dispatch::Play(media),
                DefaultAction::Pause => Dispatch::Pause(media),
                DefaultAction::Nothing => Dispatch::Nothing,
            }
        } else {
            Dispatch::Nothing
        }
    }

    /// Takes a title that the player found in the media. A title that an
    /// application has set stays: the player's title is stored only where
    /// there is no metadata yet or its title is empty. Returns the event to
    /// send if the title was stored, and `None` if it was not.
    #[must_use]
    pub fn update_title(&mut self, title: String) -> (event: Option<MediaSessionEvent>)
        ensures
            final(self)@ == old(self)@.update_title(title@),
            announced(event) == old(self)@.update_title_event(title@),
    {
        match &mut self.metadata {
            Some(metadata) => {
                if !metadata.title.as_str().is_empty() {
                    return None;
                }
                metadata.title = title;
            },
            None => {
                self.metadata = Some(MediaMetadata::new(title));
            },
        }
        match &self.metadata {
            Some(metadata) => Some(MediaSessionEvent::SetMetadata(metadata.clone())),
            None => None,
        }
    }
}

/// The operations that applications reach, under the names that the Media
/// Session interface of the web platform gives them.
#[allow(non_snake_case)]
impl<H, M> MediaSession<H, M> {
    /// A copy of the stored metadata, or `None` while none is stored.
    pub fn GetMetadata(&self) -> (metadata: Option<MediaMetadataInit>)
        ensures
            match metadata {
                Some(metadata) => self@.metadata == Some(metadata@),
                None => self@.metadata is None,
            },
    {
        match &self.metadata {
            Some(metadata) => Some(
                MediaMetadataInit {
                    title: metadata.title.clone(),
                    artist: metadata.artist.clone(),
                    album: metadata.album.clone(),
                },
            ),
            None => None,
        }
    }

    /// Stores the metadata that an application supplies, in place of whatever
    /// was stored, the player's title included. `url` is the address of the
    /// document at this moment: it becomes the title where the application
    /// supplies none, be it no metadata at all or metadata with an empty
    /// title. Returns the event to send.
    #[must_use]
    pub fn SetMetadata(&mut self, metadata: Option<&MediaMetadataInit>, url: &str) -> (event:
        MediaSessionEvent)
        ensures
            final(self)@ == old(self)@.set_metadata(supplied(metadata), url@),
            event@ == MediaSessionEventView::SetMetadata(stored_metadata(supplied(metadata), url@)),
    {
        let resolved = match metadata {
            Some(metadata) => {
                let title = if metadata.title.as_str().is_empty() {
                    url.to_owned()
                } else {
                    metadata.title.clone()
                };
                MediaMetadata {
                    title,
                    artist: metadata.artist.clone(),
                    album: metadata.album.clone(),
                }
            },
            None => MediaMetadata::new(url.to_owned()),
        };
        self.metadata = Some(resolved.clone());
        MediaSessionEvent::SetMetadata(resolved)
    }

    /// The playback state last set, `Unset` if none was.
    pub fn PlaybackState(&self) -> (state: MediaSessionPlaybackState)
        ensures
            state == self@.playback_state,
    {
        self.playback_state
    }

    /// Stores the playback state, and announces nothing.
    pub fn SetPlaybackState(&mut self, state: MediaSessionPlaybackState)
        ensures
            final(self)@ == old(self)@.set_playback_state(state),
    {
        self.playback_state = state;
    }

    /// Registers `handler` for `action` in place of any handler that the
    /// action had, or, given `None`, leaves the action without a handler.
    /// Nothing is dispatched.
    pub fn SetActionHandler(&mut self, action: MediaSessionAction, handler: Option<H>)
        ensures
            final(self)@ == old(self)@.set_action_handler(action.action_type(), handler),
    {
        match handler {
            Some(handler) => self.action_handlers.insert(action.into(), handler),
            None => self.action_handlers.remove(action.into()),
        }
    }
}

} // verus!
