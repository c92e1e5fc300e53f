//! The rules of the bridge: which request on the bus answers a trigger, which
//! notification a read value becomes, and how the consumer's cached state
//! takes a notification.

use vstd::prelude::*;
use crate::metadata::{MetadataModel, PlaybackMetadata, get_playback_metadata, metadata_of};
use crate::property::{PropertyModel, RemoteProperty};
use crate::session::{CallError, Command, FetchError, fetch_view};
use crate::status::{get_playback_status, status_text};

verus! {

/// What sets the bridge to work.
#[derive(Clone, Copy, Debug, PartialEq, Eq, Structural)]
pub enum Trigger {
    /// The status timer ticked.
    StatusTick,
    /// The metadata timer ticked.
    MetadataTick,
    /// The consumer asks for a command.
    Issue(Command),
    /// A call on the player came back.
    CallSucceeded,
    /// A call on the player failed.
    CallFailed(CallError),
}

/// What the bridge asks of the bus.
#[derive(Clone, Copy, Debug, PartialEq, Eq, Structural)]
pub enum Request {
    /// Read the `PlaybackStatus` property.
    ReadStatus,
    /// Read the `Metadata` property.
    ReadMetadata,
    /// Call the method of the command, without arguments.
    Call(Command),
    /// Nothing.
    Nothing,
}

/// What becomes of a failed call: it is dropped, and nothing is asked of the
/// bus or told to the consumer.
pub open spec fn after_failed_call(error: CallError) -> Request {
    Request::Nothing
}

/// The request that answers a trigger. A tick asks for a read of its
/// property, a command for one call of its method, a call that succeeded for
/// a read of the status.
pub open spec fn planned(trigger: Trigger) -> Request {
    match trigger {
        Trigger::StatusTick => Request::ReadStatus,
        Trigger::MetadataTick => Request::ReadMetadata,
        Trigger::Issue(command) => Request::Call(command),
        Trigger::CallSucceeded => Request::ReadStatus,
        Trigger::CallFailed(error) => after_failed_call(error),
    }
}

/// What becomes of a failed call: nothing. This is the one place that
/// decides it.
pub fn on_failed_call(error: CallError) -> (request: Request)
    ensures
        request == after_failed_call(error),
{
    Request::Nothing
}

/// The request that answers a trigger. It depends on the trigger alone: not
/// on what was read before, nor on requests that are still under way.
pub fn plan(trigger: Trigger) -> (request: Request)
    ensures
        request == planned(trigger),
{
    match trigger {
        Trigger::StatusTick => Request::ReadStatus,
        Trigger::MetadataTick => Request::ReadMetadata,
        Trigger::Issue(command) => Request::Call(command),
        Trigger::CallSucceeded => Request::ReadStatus,
        Trigger::CallFailed(error) => on_failed_call(error),
    }
}

/// The mathematical value of a notification.
pub enum NotificationModel {
    StatusUpdated(Seq<char>),
    MetadataUpdated(MetadataModel),
}

/// What the consumer is told after a read.
#[derive(Debug, Clone)]
pub enum Notification {
    /// The status that was read.
    StatusUpdated(String),
    /// The metadata that was read.
    MetadataUpdated(PlaybackMetadata),
}

impl View for Notification {
    type V = NotificationModel;

    open spec fn view(&self) -> NotificationModel {
        match self {
            Notification::StatusUpdated(status) => NotificationModel::StatusUpdated(status@),
            Notification::MetadataUpdated(metadata) => NotificationModel::MetadataUpdated(
                metadata@,
            ),
        }
    }
}

/// The notification after a read of the status.
pub fn status_update(fetched: Result<RemoteProperty, FetchError>) -> (n: Notification)
    ensures
        n@ == NotificationModel::StatusUpdated(status_text(fetch_view(fetched))),
{
    Notification::StatusUpdated(get_playback_status(fetched))
}

/// The notification after a read of the metadata.
pub fn metadata_update(fetched: Result<RemoteProperty, FetchError>) -> (n: Notification)
    ensures
        n@ == NotificationModel::MetadataUpdated(metadata_of(fetch_view(fetched))),
{
    Notification::MetadataUpdated(get_playback_metadata(fetched))
}

/// The mathematical value of the consumer's state.
pub struct ModelView {
    pub status: Seq<char>,
    pub metadata: MetadataModel,
}

/// The state after a notification: the part that the notification speaks of
/// is replaced, the other part is kept.
pub open spec fn applied(model: ModelView, n: NotificationModel) -> ModelView {
    match n {
        NotificationModel::StatusUpdated(status) => ModelView { status, metadata: model.metadata },
        NotificationModel::MetadataUpdated(metadata) => ModelView {
            status: model.status,
            metadata,
        },
    }
}

/// What the consumer holds of the player: the last status and the last
/// metadata that it was told.
#[derive(Debug, Clone)]
pub struct Model {
    pub status: String,
    pub metadata: PlaybackMetadata,
}

impl View for Model {
    type V = ModelView;

    open spec fn view(&self) -> ModelView {
        ModelView { status: self.status@, metadata: self.metadata@ }
    }
}

impl Model {
    /// The state at the start, from a first read of each property.
    pub fn new(
        status: Result<RemoteProperty, FetchError>,
        metadata: Result<RemoteProperty, FetchError>,
    ) -> (model: Model)
        ensures
            model@ == (ModelView {
                status: status_text(fetch_view(status)),
                metadata: metadata_of(fetch_view(metadata)),
            }),
    {
        Model { status: get_playback_status(status), metadata: get_playback_metadata(metadata) }
    }

    /// Takes a notification: the part it speaks of is replaced by its value,
    /// whether or not the value is new.
    pub fn update(&mut self, n: Notification)
        ensures
            final(self)@ == applied(old(self)@, n@),
    {
        match n {
            Notification::StatusUpdated(status) => {
                self.status = status;
            },
            Notification::MetadataUpdated(metadata) => {
                self.metadata = metadata;
            },
        }
    }
}

/// Ticks are answered one by one: a tick of either timer asks for a read of
/// its property whatever the consumer holds, and the value that a read came
/// to is told and taken whether or not it is the value that the consumer
/// holds already. After two reads in a row the consumer holds what the second
/// came to, and the other part of its state is as before.
pub proof fn lemma_ticks_are_independent(
    model: ModelView,
    first: Result<PropertyModel, FetchError>,
    second: Result<PropertyModel, FetchError>,
)
    ensures
        planned(Trigger::StatusTick) == Request::ReadStatus,
        planned(Trigger::MetadataTick) == Request::ReadMetadata,
        applied(
            applied(model, NotificationModel::StatusUpdated(status_text(first))),
            NotificationModel::StatusUpdated(status_text(second)),
        ) == (ModelView { status: status_text(second), metadata: model.metadata }),
        applied(
            applied(model, NotificationModel::MetadataUpdated(metadata_of(first))),
            NotificationModel::MetadataUpdated(metadata_of(second)),
        ) == (ModelView { status: model.status, metadata: metadata_of(second) }),
{
}

/// Taking a notification a second time changes nothing: the consumer only
/// replaces what it holds.
pub proof fn lemma_update_is_idempotent(model: ModelView, n: NotificationModel)
    ensures
        applied(applied(model, n), n) == applied(model, n),
{
}

/// A command asks for one call of its own method and for nothing else; a call
/// that failed asks for nothing, so the consumer is told nothing.
pub proof fn lemma_command_is_one_call(command: Command, error: CallError)
    ensures
        planned(Trigger::Issue(command)) == Request::Call(command),
        planned(Trigger::CallFailed(error)) == Request::Nothing,
        planned(Trigger::CallSucceeded) == Request::ReadStatus,
{
}

} // verus!
