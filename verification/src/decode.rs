//! Event filter and decoder: parses a wire frame's JSON payload, keeps only
//! frames of the repaint-loop category, and translates them into domain
//! events. Unknown event tags are fatal; malformed payloads are reported as
//! errors rather than panics.
//!
//! The JSON work is done by `serde_json` behind one trusted wrapper whose
//! result carries the name [`frame_fields`]; the filtering and dispatch on
//! the extracted fields is verified exactly, in [`translate`], and
//! [`decode`]'s contract ties the bytes to the outcome through that name.
//! Neither function touches aggregator state: both are pure functions from
//! their arguments to a result.

use vstd::prelude::*;

use crate::message::{DecodeError, Message, MessageModel};

verus! {

/// The fields of one payload's JSON object, a function of the bytes alone:
/// `None` exactly when the bytes are not one valid JSON value, otherwise
/// the six fields of the protocol as [`parse_fields`] extracts them.
pub uninterp spec fn frame_fields(bytes: Seq<u8>) -> Option<RawFieldsModel>;

/// Relies on serde_json::from_slice (one JSON value from the bytes; `Err` on
/// syntax errors, trailing data or invalid UTF-8) and, on the parsed value,
/// its Index impl (a missing key or a non-object yields Null, never a
/// panic), Value::as_str (Some exactly for a JSON string), Value::as_u64
/// (Some exactly for an integer that fits u64) and its Display impl (the
/// field as compact JSON text: a string field keeps its quotes, a missing
/// one renders as `null`). All of these depend on the bytes alone, so the
/// result is named [`frame_fields`].
#[verifier::external_body]
fn parse_fields(frame: &[u8]) -> (r: Option<RawFields>)
    ensures
        (match r {
            Some(f) => Some(f@),
            None => None::<RawFieldsModel>,
        }) == frame_fields(frame@),
{
    let v: serde_json::Value = match serde_json::from_slice(frame) {
        Ok(v) => v,
        Err(_) => return None,
    };
    Some(RawFields {
        category: v["category"].as_str().map(|s| s.to_owned()),
        event: v["event"].as_str().map(|s| s.to_owned()),
        timestamp: v["timestamp"].as_u64(),
        object_text: v["object"].to_string(),
        object_id: v["object"].as_u64(),
        output_text: v["output"].to_string(),
    })
}

/// The fields of one wire frame, extracted as plain values. `object_text`
/// and `output_text` carry the field as JSON text, the opaque identifier
/// form the rest of the pipeline uses; `object_id` carries the `object`
/// field as an integer where it is one.
pub struct RawFields {
    pub category: Option<String>,
    pub event: Option<String>,
    pub timestamp: Option<u64>,
    pub object_text: String,
    pub object_id: Option<u64>,
    pub output_text: String,
}

/// Spec-level image of [`RawFields`], with text as character sequences.
pub struct RawFieldsModel {
    pub category: Option<Seq<char>>,
    pub event: Option<Seq<char>>,
    pub timestamp: Option<u64>,
    pub object_text: Seq<char>,
    pub object_id: Option<u64>,
    pub output_text: Seq<char>,
}

impl View for RawFields {
    type V = RawFieldsModel;

    open spec fn view(&self) -> RawFieldsModel {
        RawFieldsModel {
            category: match self.category {
                Some(c) => Some(c@),
                None => None,
            },
            event: match self.event {
                Some(e) => Some(e@),
                None => None,
            },
            timestamp: self.timestamp,
            object_text: self.object_text@,
            object_id: self.object_id,
            output_text: self.output_text@,
        }
    }
}

/// What [`translate`] returns for given fields. A frame outside the
/// repaint-loop category is skipped. Within the category, a missing or
/// non-string `event`, a missing or non-integer `timestamp`, or (for a
/// surface commit) an `object` id that is no integer within `u32` is a
/// malformed frame; a well-formed frame with an event tag outside the known
/// set is a protocol mismatch and fatal.
pub open spec fn translate_spec(f: RawFieldsModel) -> Result<Option<MessageModel>, DecodeError> {
    if f.category != Some("repaint-loop"@) {
        Ok(None)
    } else {
        match (f.event, f.timestamp) {
            (Some(ev), Some(t)) => {
                if ev == "start-paint"@ {
                    Ok(Some(MessageModel::FrameRepaint(f.object_text, t)))
                } else if ev == "end-paint"@ {
                    Ok(Some(MessageModel::FrameRepaintDone(f.object_text, t)))
                } else if ev == "start-frame"@ {
                    Ok(Some(MessageModel::FrameStart(f.object_text, t)))
                } else if ev == "surface-commit"@ {
                    match f.object_id {
                        Some(id) => {
                            if id <= u32::MAX as u64 {
                                Ok(Some(MessageModel::SurfaceCommit(id as u32, f.output_text, t)))
                            } else {
                                Err(DecodeError::MalformedFrame)
                            }
                        },
                        None => Err(DecodeError::MalformedFrame),
                    }
                } else {
                    Err(DecodeError::UnknownEventTag)
                }
            },
            _ => Err(DecodeError::MalformedFrame),
        }
    }
}

/// Spec-level image of a decode result.
pub open spec fn result_model(r: Result<Option<Message>, DecodeError>) -> Result<
    Option<MessageModel>,
    DecodeError,
> {
    match r {
        Ok(None) => Ok(None),
        Ok(Some(m)) => Ok(Some(m@)),
        Err(e) => Err(e),
    }
}

/// String equality against a literal tag.
fn streq(a: &String, b: &str) -> (r: bool)
    ensures
        r == (a@ == b@),
{
    let bs: String = b.to_owned();
    *a == bs
}

/// Turn extracted fields into the decoder's verdict — skip, one domain
/// event, or an error — as [`translate_spec`] states it.
pub fn translate(fields: RawFields) -> (r: Result<Option<Message>, DecodeError>)
    ensures
        result_model(r) == translate_spec(fields@),
{
    let RawFields { category, event, timestamp, object_text, object_id, output_text } = fields;
    let cat_ok = match &category {
        Some(c) => streq(c, "repaint-loop"),
        None => false,
    };
    if !cat_ok {
        return Ok(None);
    }
    let ev = match event {
        Some(e) => e,
        None => {
            return Err(DecodeError::MalformedFrame);
        },
    };
    let t = match timestamp {
        Some(t) => t,
        None => {
            return Err(DecodeError::MalformedFrame);
        },
    };
    if streq(&ev, "start-paint") {
        Ok(Some(Message::FrameRepaint(object_text, t)))
    } else if streq(&ev, "end-paint") {
        Ok(Some(Message::FrameRepaintDone(object_text, t)))
    } else if streq(&ev, "start-frame") {
        Ok(Some(Message::FrameStart(object_text, t)))
    } else if streq(&ev, "surface-commit") {
        match object_id {
            Some(id) => {
                if id <= u32::MAX as u64 {
                    Ok(Some(Message::SurfaceCommit(id as u32, output_text, t)))
                } else {
                    Err(DecodeError::MalformedFrame)
                }
            },
            None => Err(DecodeError::MalformedFrame),
        }
    } else {
        Err(DecodeError::UnknownEventTag)
    }
}

/// Decode one wire frame: parse the payload as JSON, then filter and
/// translate its fields. A payload that is not one valid JSON value — no
/// [`frame_fields`] — is a malformed frame; otherwise the outcome is
/// exactly [`translate_spec`] of those fields. In particular, decoding
/// never yields a UI command, only domain events, a skip, or an error.
pub fn decode(frame: &[u8]) -> (r: Result<Option<Message>, DecodeError>)
    ensures
        result_model(r) == (match frame_fields(frame@) {
            None => Err::<Option<MessageModel>, DecodeError>(DecodeError::MalformedFrame),
            Some(f) => translate_spec(f),
        }),
        r matches Ok(Some(m)) ==> (m@ is FrameStart || m@ is FrameRepaint
            || m@ is FrameRepaintDone || m@ is SurfaceCommit),
{
    let fields = match parse_fields(frame) {
        Some(f) => f,
        None => {
            return Err(DecodeError::MalformedFrame);
        },
    };
    translate(fields)
}

/// A frame whose category is not exactly `repaint-loop` is skipped, whatever
/// its other fields hold: the translation yields no event and no error, and
/// — taking no aggregator argument at all — leaves every aggregator alone.
pub proof fn lemma_non_repaint_loop_skipped(f: RawFieldsModel)
    requires
        f.category != Some("repaint-loop"@),
    ensures
        translate_spec(f) == Ok::<Option<MessageModel>, DecodeError>(None),
{
}

} // verus!
