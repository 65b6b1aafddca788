//! What a session says about the media it presents: metadata, playback
//! state, and the events that carry them outwards.

use vstd::prelude::*;

verus! {

/// Title, artist and album as plain text: what metadata is, apart from how it is stored.
pub struct MetadataView {
    pub title: Seq<char>,
    pub artist: Seq<char>,
    pub album: Seq<char>,
}

impl MetadataView {
    /// Metadata that has `title` and neither artist nor album.
    pub open spec fn titled(title: Seq<char>) -> MetadataView {
        MetadataView { title, artist: Seq::empty(), album: Seq::empty() }
    }

    /// Whether the title is unset, which is to say empty.
    pub open spec fn untitled(self) -> bool {
        self.title.len() == 0
    }

    /// This metadata as a session stores it when the document is at `url`: with
    /// its own title if it has one, else titled by `url`.
    pub open spec fn resolved(self, url: Seq<char>) -> MetadataView {
        if self.untitled() {
            MetadataView { title: url, ..self }
        } else {
            self
        }
    }
}

/// Metadata as an application supplies it and reads it back. An empty title
/// stands for no title.
#[derive(Debug, PartialEq, Eq)]
pub struct MediaMetadataInit {
    pub title: String,
    pub artist: String,
    pub album: String,
}

impl View for MediaMetadataInit {
    type V = MetadataView;

    open spec fn view(&self) -> MetadataView {
        MetadataView { title: self.title@, artist: self.artist@, album: self.album@ }
    }
}

/// Metadata as the session stores it and announces it.
#[derive(Debug, PartialEq, Eq)]
pub struct MediaMetadata {
    pub title: String,
    pub artist: String,
    pub album: String,
}

impl View for MediaMetadata {
    type V = MetadataView;

    open spec fn view(&self) -> MetadataView {
        MetadataView { title: self.title@, artist: self.artist@, album: self.album@ }
    }
}

impl MediaMetadata {
    /// Metadata that has `title` and neither artist nor album.
    pub fn new(title: String) -> (metadata: MediaMetadata)
        ensures
            metadata@ == MetadataView::titled(title@),
    {
        MediaMetadata { title, artist: String::new(), album: String::new() }
    }
}

impl Clone for MediaMetadata {
    fn clone(&self) -> (copy: MediaMetadata)
        ensures
            copy == *self,
    {
        MediaMetadata {
            title: self.title.clone(),
            artist: self.artist.clone(),
            album: self.album.clone(),
        }
    }
}

/// Whether the media of a session is playing.
#[derive(Clone, Copy, Debug, PartialEq, Eq, Structural)]
pub enum MediaSessionPlaybackState {
    /// The application has not said.
    Unset,
    Playing,
    Paused,
}

/// What a session announces to the embedder.
#[derive(Debug, PartialEq, Eq)]
pub enum MediaSessionEvent {
    /// The metadata of the session is now this.
    SetMetadata(MediaMetadata),
}

/// What an event says, apart from how it is stored.
pub enum MediaSessionEventView {
    SetMetadata(MetadataView),
}

impl View for MediaSessionEvent {
    type V = MediaSessionEventView;

    open spec fn view(&self) -> MediaSessionEventView {
        match self {
            MediaSessionEvent::SetMetadata(metadata) => MediaSessionEventView::SetMetadata(
                metadata@,
            ),
        }
    }
}

} // verus!
