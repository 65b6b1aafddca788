//! What holds of every session, stated over the session as a mathematical value.

use crate::action::{MediaSessionAction, MediaSessionActionType};
use crate::dispatch::{spec_handler_returned, Dispatch, HandlerFollowUp};
use crate::metadata::{MediaSessionEventView, MetadataView};
use crate::model::{stored_metadata, MediaSessionView};
use vstd::prelude::*;

verus! {

/// The two vocabularies of actions correspond one to one: going from an
/// application's name to the dispatcher's and back gives the same name, and so
/// does the round trip from the dispatcher's side. No name on either side is
/// without a partner, and no two names share one.
pub proof fn law_action_names_correspond(
    action: MediaSessionAction,
    action_type: MediaSessionActionType,
)
    ensures
        action.action_type().action() == action,
        action_type.action().action_type() == action_type,
{
}

/// Two actions have the same code only if they are the same action.
pub proof fn law_action_codes_differ(a: MediaSessionActionType, b: MediaSessionActionType)
    ensures
        a.spec_code() == b.spec_code() <==> a == b,
        a.spec_code() < 9,
{
}

/// An action with a handler is dispatched to that handler and to nothing
/// else: one call of the handler, and the controlled media is left alone,
/// whether or not there is any.
pub proof fn law_handler_takes_request<H, M>(
    session: MediaSessionView<H, M>,
    action: MediaSessionActionType,
)
    requires
        session.action_handlers.contains_key(action),
    ensures
        session.dispatch(action) == Dispatch::<H, M>::Handler(&session.action_handlers[action]),
{
}

/// Without a handler and with controlled media, `Play` plays the media,
/// `Pause` pauses it, and every other action does nothing.
pub proof fn law_default_actions<H, M>(
    session: MediaSessionView<H, M>,
    action: MediaSessionActionType,
    media: M,
)
    requires
        !session.action_handlers.contains_key(action),
        session.media_instance == Some(media),
    ensures
        session.dispatch(action) == match action {
            MediaSessionActionType::Play => Dispatch::<H, M>::Play(&media),
            MediaSessionActionType::Pause => Dispatch::<H, M>::Pause(&media),
            _ => Dispatch::<H, M>::Nothing,
        },
{
}

/// Without a handler and without controlled media every action is dropped.
pub proof fn law_request_dropped_without_media<H, M>(
    session: MediaSessionView<H, M>,
    action: MediaSessionActionType,
)
    requires
        !session.action_handlers.contains_key(action),
        session.media_instance is None,
    ensures
        session.dispatch(action) == Dispatch::<H, M>::Nothing,
{
}

/// Registering a handler for an action and then removing it leaves the
/// action without a handler, so that it is dispatched by default again. The
/// session is then as if the handler had only been removed.
pub proof fn law_removed_handler_falls_back<H, M>(
    session: MediaSessionView<H, M>,
    action: MediaSessionActionType,
    handler: H,
)
    ensures
        ({
            let after = session.set_action_handler(action, Some(handler)).set_action_handler(
                action,
                None,
            );
            &&& !after.action_handlers.contains_key(action)
            &&& !(after.dispatch(action) is Handler)
            &&& after == session.set_action_handler(action, None)
            &&& after.dispatch(action) == session.set_action_handler(action, None).dispatch(action)
        }),
{
    let after = session.set_action_handler(action, Some(handler)).set_action_handler(action, None);
    assert(after.action_handlers =~= session.action_handlers.remove(action));
}

/// Registering or removing the handler of one action changes the dispatch of
/// no other action.
pub proof fn law_handlers_are_independent<H, M>(
    session: MediaSessionView<H, M>,
    action: MediaSessionActionType,
    handler: Option<H>,
    other: MediaSessionActionType,
)
    requires
        other != action,
    ensures
        session.set_action_handler(action, handler).dispatch(other) == session.dispatch(other),
{
}

/// Setting no metadata stores the document's address as the title, with
/// empty artist and album, whatever was stored before.
pub proof fn law_set_metadata_none<H, M>(session: MediaSessionView<H, M>, url: Seq<char>)
    ensures
        session.set_metadata(None, url).metadata == Some(
            MetadataView { title: url, artist: Seq::empty(), album: Seq::empty() },
        ),
{
}

/// Setting metadata with an empty title stores the document's address as the
/// title, and artist and album as they were given.
pub proof fn law_set_metadata_untitled<H, M>(
    session: MediaSessionView<H, M>,
    artist: Seq<char>,
    album: Seq<char>,
    url: Seq<char>,
)
    ensures
        session.set_metadata(
            Some(MetadataView { title: Seq::empty(), artist, album }),
            url,
        ).metadata == Some(MetadataView { title: url, artist, album }),
{
}

/// Setting metadata with a title stores it as it was given.
pub proof fn law_set_metadata_titled<H, M>(
    session: MediaSessionView<H, M>,
    metadata: MetadataView,
    url: Seq<char>,
)
    requires
        metadata.title.len() > 0,
    ensures
        session.set_metadata(Some(metadata), url).metadata == Some(metadata),
{
}

/// Setting metadata never stores an empty title while the document has an
/// address: where the title would be empty, the address takes its place.
pub proof fn law_stored_title_not_empty(metadata: Option<MetadataView>, url: Seq<char>)
    requires
        url.len() > 0,
    ensures
        stored_metadata(metadata, url).title.len() > 0,
{
}

/// Setting metadata changes nothing but the metadata.
pub proof fn law_set_metadata_keeps_the_rest<H, M>(
    session: MediaSessionView<H, M>,
    metadata: Option<MetadataView>,
    url: Seq<char>,
)
    ensures
        session.set_metadata(metadata, url).playback_state == session.playback_state,
        session.set_metadata(metadata, url).action_handlers == session.action_handlers,
        session.set_metadata(metadata, url).media_instance == session.media_instance,
{
}

/// A title from the player, offered while no metadata is stored, becomes
/// metadata with that title and with empty artist and album, and is
/// announced once.
pub proof fn law_player_title_without_metadata<H, M>(
    session: MediaSessionView<H, M>,
    title: Seq<char>,
)
    requires
        session.metadata is None,
    ensures
        session.update_title(title).metadata == Some(
            MetadataView { title, artist: Seq::empty(), album: Seq::empty() },
        ),
        session.update_title_event(title) == Some(
            MediaSessionEventView::SetMetadata(
                MetadataView { title, artist: Seq::empty(), album: Seq::empty() },
            ),
        ),
{
}

/// A title that an application has set is never replaced by the player's:
/// after metadata with a title is set, a title from the player changes
/// nothing and is not announced.
pub proof fn law_explicit_title_wins<H, M>(
    session: MediaSessionView<H, M>,
    metadata: MetadataView,
    url: Seq<char>,
    player_title: Seq<char>,
)
    requires
        metadata.title.len() > 0,
    ensures
        ({
            let set = session.set_metadata(Some(metadata), url);
            &&& set.update_title(player_title) == set
            &&& set.update_title(player_title).metadata.unwrap().title == metadata.title
            &&& set.update_title_event(player_title) is None
        }),
{
}

/// Whatever the stored metadata came from, a title from the player leaves a
/// stored title that is not empty as it is, changes nothing else either, and
/// is not announced.
pub proof fn law_player_title_keeps_stored_title<H, M>(
    session: MediaSessionView<H, M>,
    player_title: Seq<char>,
)
    requires
        session.metadata is Some,
        session.metadata.unwrap().title.len() > 0,
    ensures
        session.update_title(player_title) == session,
        session.update_title_event(player_title) is None,
{
}

/// A title from the player, offered while the stored metadata has an empty
/// title, becomes the title, leaves artist and album as they are, and is
/// announced once, with the metadata as it then is.
pub proof fn law_player_title_fills_empty_title<H, M>(
    session: MediaSessionView<H, M>,
    title: Seq<char>,
)
    requires
        session.metadata is Some,
        session.metadata.unwrap().title.len() == 0,
    ensures
        session.update_title(title).metadata == Some(
            MetadataView { title, ..session.metadata.unwrap() },
        ),
        session.update_title_event(title) == Some(
            MediaSessionEventView::SetMetadata(MetadataView { title, ..session.metadata.unwrap() }),
        ),
{
}

/// After metadata with an empty title is set for a document whose address is
/// empty too, the stored title is empty, and a title from the player then
/// becomes the title and is announced once.
pub proof fn law_player_title_after_untitled_metadata<H, M>(
    session: MediaSessionView<H, M>,
    artist: Seq<char>,
    album: Seq<char>,
    title: Seq<char>,
)
    ensures
        ({
            let set = session.set_metadata(
                Some(MetadataView { title: Seq::empty(), artist, album }),
                Seq::empty(),
            );
            &&& set.update_title(title).metadata == Some(MetadataView { title, artist, album })
            &&& set.update_title_event(title) == Some(
                MediaSessionEventView::SetMetadata(MetadataView { title, artist, album }),
            )
        }),
{
}

/// A title from the player changes nothing but the metadata.
pub proof fn law_update_title_keeps_the_rest<H, M>(
    session: MediaSessionView<H, M>,
    title: Seq<char>,
)
    ensures
        session.update_title(title).playback_state == session.playback_state,
        session.update_title(title).action_handlers == session.action_handlers,
        session.update_title(title).media_instance == session.media_instance,
{
}

/// A handler that fails is not made up for: the request of an action with a
/// handler is dispatched to the handler alone, and what follows the failure is
/// a warning, not the default action and not an error for the caller.
pub proof fn law_failed_handler_has_no_fallback<H, M, E>(
    session: MediaSessionView<H, M>,
    action: MediaSessionActionType,
    error: E,
)
    requires
        session.action_handlers.contains_key(action),
    ensures
        session.dispatch(action) == Dispatch::<H, M>::Handler(&session.action_handlers[action]),
        spec_handler_returned(Err::<(), E>(error)) == HandlerFollowUp::ReportFailure,
{
}

} // verus!
