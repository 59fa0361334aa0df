//! Domain events and UI commands consumed by the timeline aggregator, and
//! the errors the decoder can report.

use vstd::prelude::*;

verus! {

/// One command for the aggregator: either a domain event decoded off the
/// wire, or a user-driven command from the surrounding UI layer. The scroll
/// offset carried by `SliderChanged` is in source-time units (nanoseconds).
#[derive(Debug, Clone, PartialEq)]
pub enum Message {
    /// (surface id, output name, time)
    SurfaceCommit(u32, String, u64),
    /// (output name, time)
    FrameStart(String, u64),
    /// (output name, time)
    FrameRepaint(String, u64),
    /// (output name, time)
    FrameRepaintDone(String, u64),
    /// Reset both shape buffers and return to accumulating.
    Refresh,
    /// Set the scroll offset used by the coordinate projection.
    SliderChanged(u64),
    /// Flip the flag that tells the UI layer to schedule periodic refreshes.
    PeriodicRefreshChanged(bool),
}

/// Spec-level image of a [`Message`], with names as character sequences.
pub enum MessageModel {
    SurfaceCommit(u32, Seq<char>, u64),
    FrameStart(Seq<char>, u64),
    FrameRepaint(Seq<char>, u64),
    FrameRepaintDone(Seq<char>, u64),
    Refresh,
    SliderChanged(u64),
    PeriodicRefreshChanged(bool),
}

impl View for Message {
    type V = MessageModel;

    open spec fn view(&self) -> MessageModel {
        match self {
            Message::SurfaceCommit(id, out, t) => MessageModel::SurfaceCommit(*id, out@, *t),
            Message::FrameStart(out, t) => MessageModel::FrameStart(out@, *t),
            Message::FrameRepaint(out, t) => MessageModel::FrameRepaint(out@, *t),
            Message::FrameRepaintDone(out, t) => MessageModel::FrameRepaintDone(out@, *t),
            Message::Refresh => MessageModel::Refresh,
            Message::SliderChanged(x) => MessageModel::SliderChanged(*x),
            Message::PeriodicRefreshChanged(v) => MessageModel::PeriodicRefreshChanged(*v),
        }
    }
}

/// Why a wire frame could not be turned into a domain event.
#[derive(Clone, Copy, Debug, PartialEq, Eq, Structural)]
pub enum DecodeError {
    /// The payload is not a JSON object, or a required field is missing or
    /// has the wrong type.
    MalformedFrame,
    /// The `event` field holds a tag outside the known set: the producer and
    /// consumer have drifted, which is fatal rather than skippable.
    UnknownEventTag,
}

} // verus!
