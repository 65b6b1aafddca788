use media_session::action::MediaSessionAction;
use media_session::metadata::{
    MediaMetadata, MediaMetadataInit, MediaSessionEvent, MediaSessionPlaybackState,
};
use media_session::session::MediaSession;

const URL: &str = "https://example.org/watch?v=1";

fn init(title: &str, artist: &str, album: &str) -> MediaMetadataInit {
    MediaMetadataInit {
        title: title.to_string(),
        artist: artist.to_string(),
        album: album.to_string(),
    }
}

fn stored(title: &str, artist: &str, album: &str) -> MediaMetadata {
    MediaMetadata {
        title: title.to_string(),
        artist: artist.to_string(),
        album: album.to_string(),
    }
}

#[test]
fn new_session_has_no_metadata_and_no_state() {
    let session: MediaSession<&str, u32> = MediaSession::new();
    assert_eq!(session.GetMetadata(), None);
    assert_eq!(session.PlaybackState(), MediaSessionPlaybackState::Unset);
}

#[test]
fn metadata_new_has_only_a_title() {
    assert_eq!(MediaMetadata::new("Song".to_string()), stored("Song", "", ""));
    assert_eq!(MediaMetadata::new(String::new()), stored("", "", ""));
}

#[test]
fn metadata_clone_is_equal() {
    let metadata = stored("Song", "Band", "Record");
    assert_eq!(metadata.clone(), metadata);
}

#[test]
fn set_metadata_none_stores_url_as_title() {
    let mut session: MediaSession<&str, u32> = MediaSession::new();
    let event = session.SetMetadata(None, URL);
    assert_eq!(event, MediaSessionEvent::SetMetadata(stored(URL, "", "")));
    assert_eq!(session.GetMetadata(), Some(init(URL, "", "")));
}

#[test]
fn set_metadata_none_replaces_what_was_stored() {
    let mut session: MediaSession<&str, u32> = MediaSession::new();
    let _ = session.SetMetadata(Some(&init("Song", "Band", "Record")), URL);
    let event = session.SetMetadata(None, "https://example.org/other");
    assert_eq!(
        event,
        MediaSessionEvent::SetMetadata(stored("https://example.org/other", "", ""))
    );
    assert_eq!(session.GetMetadata(), Some(init("https://example.org/other", "", "")));
}

#[test]
fn set_metadata_with_empty_title_stores_url_as_title() {
    let mut session: MediaSession<&str, u32> = MediaSession::new();
    let event = session.SetMetadata(Some(&init("", "X", "Y")), URL);
    assert_eq!(event, MediaSessionEvent::SetMetadata(stored(URL, "X", "Y")));
    assert_eq!(session.GetMetadata(), Some(init(URL, "X", "Y")));
}

#[test]
fn set_metadata_with_title_stores_it_as_given() {
    let mut session: MediaSession<&str, u32> = MediaSession::new();
    let event = session.SetMetadata(Some(&init("Song", "Band", "Record")), URL);
    assert_eq!(event, MediaSessionEvent::SetMetadata(stored("Song", "Band", "Record")));
    assert_eq!(session.GetMetadata(), Some(init("Song", "Band", "Record")));
}

#[test]
fn set_metadata_keeps_empty_artist_and_album() {
    let mut session: MediaSession<&str, u32> = MediaSession::new();
    let event = session.SetMetadata(Some(&init("Song", "", "")), URL);
    assert_eq!(event, MediaSessionEvent::SetMetadata(stored("Song", "", "")));
    assert_eq!(session.GetMetadata(), Some(init("Song", "", "")));
}

#[test]
fn set_metadata_with_empty_title_and_empty_url_stores_empty_title() {
    let mut session: MediaSession<&str, u32> = MediaSession::new();
    let event = session.SetMetadata(Some(&init("", "X", "Y")), "");
    assert_eq!(event, MediaSessionEvent::SetMetadata(stored("", "X", "Y")));
    assert_eq!(session.GetMetadata(), Some(init("", "X", "Y")));
}

#[test]
fn set_metadata_uses_the_url_of_the_moment() {
    let mut session: MediaSession<&str, u32> = MediaSession::new();
    let _ = session.SetMetadata(None, "https://example.org/a");
    assert_eq!(session.GetMetadata(), Some(init("https://example.org/a", "", "")));
    let _ = session.SetMetadata(Some(&init("", "X", "")), "https://example.org/b");
    assert_eq!(session.GetMetadata(), Some(init("https://example.org/b", "X", "")));
}

#[test]
fn get_metadata_reads_without_changing() {
    let mut session: MediaSession<&str, u32> = MediaSession::new();
    let _ = session.SetMetadata(Some(&init("Song", "Band", "Record")), URL);
    assert_eq!(session.GetMetadata(), session.GetMetadata());
    assert_eq!(session.GetMetadata(), Some(init("Song", "Band", "Record")));
}

#[test]
fn update_title_without_metadata_creates_it() {
    let mut session: MediaSession<&str, u32> = MediaSession::new();
    let event = session.update_title("Foo".to_string());
    assert_eq!(event, Some(MediaSessionEvent::SetMetadata(stored("Foo", "", ""))));
    assert_eq!(session.GetMetadata(), Some(init("Foo", "", "")));
}

#[test]
fn update_title_does_not_replace_explicit_title() {
    let mut session: MediaSession<&str, u32> = MediaSession::new();
    let _ = session.SetMetadata(Some(&init("Explicit", "", "")), URL);
    let event = session.update_title("PlayerTitle".to_string());
    assert_eq!(event, None);
    assert_eq!(session.GetMetadata(), Some(init("Explicit", "", "")));
}

#[test]
fn update_title_does_not_replace_title_taken_from_url() {
    let mut session: MediaSession<&str, u32> = MediaSession::new();
    let _ = session.SetMetadata(Some(&init("", "X", "Y")), URL);
    let event = session.update_title("PlayerTitle".to_string());
    assert_eq!(event, None);
    assert_eq!(session.GetMetadata(), Some(init(URL, "X", "Y")));
}

#[test]
fn update_title_does_not_replace_earlier_player_title() {
    let mut session: MediaSession<&str, u32> = MediaSession::new();
    assert!(session.update_title("First".to_string()).is_some());
    assert_eq!(session.update_title("Second".to_string()), None);
    assert_eq!(session.GetMetadata(), Some(init("First", "", "")));
}

#[test]
fn update_title_fills_empty_title_and_keeps_the_rest() {
    let mut session: MediaSession<&str, u32> = MediaSession::new();
    let _ = session.SetMetadata(Some(&init("", "X", "Y")), "");
    let event = session.update_title("PlayerTitle".to_string());
    assert_eq!(event, Some(MediaSessionEvent::SetMetadata(stored("PlayerTitle", "X", "Y"))));
    assert_eq!(session.GetMetadata(), Some(init("PlayerTitle", "X", "Y")));
}

#[test]
fn update_title_announces_once_for_each_call_on_empty_title() {
    let mut session: MediaSession<&str, u32> = MediaSession::new();
    let first = session.update_title(String::new());
    assert_eq!(first, Some(MediaSessionEvent::SetMetadata(stored("", "", ""))));
    assert_eq!(session.GetMetadata(), Some(init("", "", "")));
    let second = session.update_title(String::new());
    assert_eq!(second, Some(MediaSessionEvent::SetMetadata(stored("", "", ""))));
    let third = session.update_title("Foo".to_string());
    assert_eq!(third, Some(MediaSessionEvent::SetMetadata(stored("Foo", "", ""))));
    assert_eq!(session.update_title("Bar".to_string()), None);
    assert_eq!(session.GetMetadata(), Some(init("Foo", "", "")));
}

#[test]
fn set_metadata_replaces_player_title() {
    let mut session: MediaSession<&str, u32> = MediaSession::new();
    let _ = session.update_title("PlayerTitle".to_string());
    let _ = session.SetMetadata(Some(&init("Explicit", "Band", "")), URL);
    assert_eq!(session.GetMetadata(), Some(init("Explicit", "Band", "")));
    let _ = session.update_title("PlayerTitle".to_string());
    let _ = session.SetMetadata(None, URL);
    assert_eq!(session.GetMetadata(), Some(init(URL, "", "")));
}

#[test]
fn playback_state_is_stored() {
    let mut session: MediaSession<&str, u32> = MediaSession::new();
    session.SetPlaybackState(MediaSessionPlaybackState::Playing);
    assert_eq!(session.PlaybackState(), MediaSessionPlaybackState::Playing);
    session.SetPlaybackState(MediaSessionPlaybackState::Paused);
    assert_eq!(session.PlaybackState(), MediaSessionPlaybackState::Paused);
    session.SetPlaybackState(MediaSessionPlaybackState::Unset);
    assert_eq!(session.PlaybackState(), MediaSessionPlaybackState::Unset);
}

#[test]
fn playback_state_and_metadata_do_not_touch_each_other() {
    let mut session: MediaSession<&str, u32> = MediaSession::new();
    let _ = session.SetMetadata(Some(&init("Song", "Band", "Record")), URL);
    session.SetPlaybackState(MediaSessionPlaybackState::Playing);
    assert_eq!(session.GetMetadata(), Some(init("Song", "Band", "Record")));
    let _ = session.SetMetadata(None, URL);
    let _ = session.update_title("PlayerTitle".to_string());
    session.SetActionHandler(MediaSessionAction::Play, Some("play"));
    session.register_media_instance(3);
    assert_eq!(session.PlaybackState(), MediaSessionPlaybackState::Playing);
    assert_eq!(session.GetMetadata(), Some(init(URL, "", "")));
}

#[test]
fn stored_title_survives_everything_but_set_metadata() {
    let mut session: MediaSession<&str, u32> = MediaSession::new();
    let _ = session.SetMetadata(Some(&init("Explicit", "Band", "Record")), URL);
    let _ = session.update_title("One".to_string());
    session.SetPlaybackState(MediaSessionPlaybackState::Paused);
    session.SetActionHandler(MediaSessionAction::Stop, Some("stop"));
    session.register_media_instance(5);
    let _ = session.update_title(String::new());
    session.SetActionHandler(MediaSessionAction::Stop, None);
    let _ = session.update_title("Two".to_string());
    assert_eq!(session.GetMetadata(), Some(init("Explicit", "Band", "Record")));
}

#[test]
fn metadata_once_stored_is_never_removed() {
    let mut session: MediaSession<&str, u32> = MediaSession::new();
    let _ = session.update_title("Player".to_string());
    assert!(session.GetMetadata().is_some());
    let _ = session.SetMetadata(None, "");
    assert_eq!(session.GetMetadata(), Some(init("", "", "")));
    session.SetPlaybackState(MediaSessionPlaybackState::Unset);
    let _ = session.SetMetadata(Some(&init("", "", "")), "");
    assert_eq!(session.GetMetadata(), Some(init("", "", "")));
}

#[test]
fn stored_title_is_not_empty_while_url_and_player_titles_are_not() {
    let mut session: MediaSession<&str, u32> = MediaSession::new();
    let _ = session.SetMetadata(Some(&init("", "", "")), URL);
    assert!(!session.GetMetadata().unwrap().title.is_empty());
    let _ = session.update_title("Player".to_string());
    assert!(!session.GetMetadata().unwrap().title.is_empty());
    let _ = session.SetMetadata(None, URL);
    assert!(!session.GetMetadata().unwrap().title.is_empty());
    let _ = session.SetMetadata(Some(&init("Song", "", "")), URL);
    assert_eq!(session.GetMetadata().unwrap().title, "Song");
}
