//! Sessions over time: the operations that change a session, and what holds
//! of a session after any number of them.

use crate::action::MediaSessionActionType;
use crate::metadata::{MediaSessionPlaybackState, MetadataView};
use crate::model::MediaSessionView;
use vstd::prelude::*;

verus! {

/// One call that can change a session, with its arguments.
pub enum Operation<H, M> {
    RegisterMediaInstance { media: M },
    SetActionHandler { action: MediaSessionActionType, handler: Option<H> },
    SetMetadata { metadata: Option<MetadataView>, url: Seq<char> },
    UpdateTitle { title: Seq<char> },
    SetPlaybackState { state: MediaSessionPlaybackState },
}

impl<H, M> Operation<H, M> {
    /// Whether this operation sets or removes the handler of `action`.
    pub open spec fn sets_handler_of(self, action: MediaSessionActionType) -> bool {
        match self {
            Operation::SetActionHandler { action: set, .. } => set == action,
            _ => false,
        }
    }

    /// Whether this operation can store an empty title: setting metadata while
    /// the document has no address, or a player's title that is empty.
    pub open spec fn may_store_empty_title(self) -> bool {
        match self {
            Operation::SetMetadata { url, .. } => url.len() == 0,
            Operation::UpdateTitle { title } => title.len() == 0,
            _ => false,
        }
    }
}

impl<H, M> MediaSessionView<H, M> {
    /// This session after `operation`.
    pub open spec fn apply(self, operation: Operation<H, M>) -> MediaSessionView<H, M> {
        match operation {
            Operation::RegisterMediaInstance { media } => self.register_media_instance(media),
            Operation::SetActionHandler { action, handler } => self.set_action_handler(
                action,
                handler,
            ),
            Operation::SetMetadata { metadata, url } => self.set_metadata(metadata, url),
            Operation::UpdateTitle { title } => self.update_title(title),
            Operation::SetPlaybackState { state } => self.set_playback_state(state),
        }
    }

    /// This session after `operations`, the first of them first.
    pub open spec fn apply_all(self, operations: Seq<Operation<H, M>>) -> MediaSessionView<H, M>
        decreases operations.len(),
    {
        if operations.len() == 0 {
            self
        } else {
            self.apply_all(operations.drop_last()).apply(operations.last())
        }
    }

    /// Whether the stored title, if metadata is stored, is not empty.
    pub open spec fn titled_if_any(self) -> bool {
        match self.metadata {
            Some(metadata) => metadata.title.len() > 0,
            None => true,
        }
    }
}

/// Metadata, once stored, is never removed: whatever operations follow, the
/// session still has metadata.
pub proof fn law_metadata_stays<H, M>(
    session: MediaSessionView<H, M>,
    operations: Seq<Operation<H, M>>,
)
    requires
        session.metadata is Some,
    ensures
        session.apply_all(operations).metadata is Some,
    decreases operations.len(),
{
    if operations.len() > 0 {
        law_metadata_stays(session, operations.drop_last());
    }
}

/// A stored title that is not empty changes only when an application sets
/// metadata: after any operations of which none sets metadata, the title is
/// the same, however many titles the player has offered meanwhile.
pub proof fn law_title_changes_only_by_set_metadata<H, M>(
    session: MediaSessionView<H, M>,
    operations: Seq<Operation<H, M>>,
)
    requires
        session.metadata is Some,
        session.metadata.unwrap().title.len() > 0,
        forall|i: int| 0 <= i < operations.len() ==> !(#[trigger] operations[i] is SetMetadata),
    ensures
        session.apply_all(operations).metadata == session.metadata,
    decreases operations.len(),
{
    if operations.len() > 0 {
        let earlier = operations.drop_last();
        assert forall|i: int| 0 <= i < earlier.len() implies !(#[trigger] earlier[i]
            is SetMetadata) by {
            assert(earlier[i] == operations[i]);
        }
        law_title_changes_only_by_set_metadata(session, earlier);
        assert(!(operations[operations.len() - 1] is SetMetadata));
    }
}

/// The stored title is never empty, so long as the document has an address
/// whenever metadata is set and the player offers no empty title: if that
/// holds of a session, it holds after any such operations.
pub proof fn law_title_never_empty<H, M>(
    session: MediaSessionView<H, M>,
    operations: Seq<Operation<H, M>>,
)
    requires
        session.titled_if_any(),
        forall|i: int|
            0 <= i < operations.len() ==> !(#[trigger] operations[i]).may_store_empty_title(),
    ensures
        session.apply_all(operations).titled_if_any(),
    decreases operations.len(),
{
    if operations.len() > 0 {
        let earlier = operations.drop_last();
        assert forall|i: int| 0 <= i < earlier.len() implies !(#[trigger] earlier[i])
            .may_store_empty_title() by {
            assert(earlier[i] == operations[i]);
        }
        law_title_never_empty(session, earlier);
        assert(!operations[operations.len() - 1].may_store_empty_title());
    }
}

/// What an action request asks for depends on the handlers and the
/// controlled media alone: no operation on metadata or playback state
/// changes it.
pub proof fn law_dispatch_ignores_metadata_and_state<H, M>(
    session: MediaSessionView<H, M>,
    operation: Operation<H, M>,
    action: MediaSessionActionType,
)
    requires
        operation is SetMetadata || operation is UpdateTitle || operation is SetPlaybackState,
    ensures
        session.apply(operation).dispatch(action) == session.dispatch(action),
{
}

/// Each action has at most one handler at any time, and it is the one
/// registered last: after any operations, the handler of an action is that of
/// the last operation that set or removed it, or as it was if there is none.
pub proof fn law_last_registration_counts<H, M>(
    session: MediaSessionView<H, M>,
    operations: Seq<Operation<H, M>>,
    action: MediaSessionActionType,
    handler: Option<H>,
    later: Seq<Operation<H, M>>,
)
    requires
        forall|i: int| 0 <= i < later.len() ==> !(#[trigger] later[i]).sets_handler_of(action),
    ensures
        ({
            let end = session.apply_all(operations).apply(
                Operation::SetActionHandler { action, handler },
            ).apply_all(later);
            match handler {
                Some(handler) => end.action_handlers.contains_key(action)
                    && end.action_handlers[action] == handler,
                None => !end.action_handlers.contains_key(action),
            }
        }),
    decreases later.len(),
{
    if later.len() > 0 {
        let earlier = later.drop_last();
        assert forall|i: int| 0 <= i < earlier.len() implies !(#[trigger] earlier[i])
            .sets_handler_of(action) by {
            assert(earlier[i] == later[i]);
        }
        law_last_registration_counts(session, operations, action, handler, earlier);
        assert(!later[later.len() - 1].sets_handler_of(action));
    }
}

} // verus!
