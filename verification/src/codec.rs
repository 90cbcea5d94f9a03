//! The line protocol between the host and the worker.
//!
//! The worker reports events, one JSON object per line:
//! `{"type": <text>, "data": <any JSON, optional>}`. The host sends commands,
//! one JSON value per line. Reading and writing JSON is `serde_json`'s work;
//! taking an event out of a parsed value and framing a command as a line is
//! done here.

use crate::json::{
    json_as_text, json_clone, json_field, json_is_null, json_member, json_parse, json_parsed,
    json_shape, json_write, json_written, JsonShape,
};
use serde_json::Value;
use vstd::prelude::*;
use vstd::string::StringExecFns;

verus! {

/// An event that the worker reported.
#[derive(Debug, PartialEq)]
pub struct InboundEvent {
    /// The member `type` of the line.
    pub event_type: String,
    /// The member `data`; `None` where the line had none or had `null`.
    pub data: Option<Value>,
}

/// An event as the contracts speak of it.
pub struct EventView {
    pub event_type: Seq<char>,
    pub data: Option<Value>,
}

impl View for InboundEvent {
    type V = EventView;

    open spec fn view(&self) -> EventView {
        EventView { event_type: self.event_type@, data: self.data }
    }
}

/// Why a line of the worker's output is no event. The line is dropped; the
/// stream goes on.
#[derive(Clone, Copy, Debug, PartialEq, Eq, Structural)]
pub enum DecodeError {
    /// The line is not JSON.
    NotJson,
    /// The line is JSON but no object with a member `type`.
    NoType,
    /// The member `type` is not text.
    TypeNotText,
}

/// A command could not be written as JSON.
#[derive(Clone, Copy, Debug, PartialEq, Eq, Structural)]
pub struct EncodeError;

/// The payload of a parsed line: its member `data`, unless that is `null`.
pub open spec fn envelope_data(value: Value) -> Option<Value> {
    match json_field(json_shape(value), "data"@) {
        Some(data) => if json_shape(data) is Null {
            None
        } else {
            Some(data)
        },
        None => None,
    }
}

/// The event that a parsed line stands for.
pub open spec fn envelope(value: Value) -> Result<EventView, DecodeError> {
    match json_field(json_shape(value), "type"@) {
        None => Err(DecodeError::NoType),
        Some(kind) => match json_shape(kind) {
            JsonShape::Text(name) => Ok(EventView { event_type: name, data: envelope_data(value) }),
            _ => Err(DecodeError::TypeNotText),
        },
    }
}

/// The event that a line of bytes stands for.
pub open spec fn decoded(line: Seq<u8>) -> Result<EventView, DecodeError> {
    match json_parsed(line) {
        Some(value) => envelope(value),
        None => Err(DecodeError::NotJson),
    }
}

/// Whether `outcome` is what a decoder owes for `expected`.
pub open spec fn decodes_to(
    outcome: Result<InboundEvent, DecodeError>,
    expected: Result<EventView, DecodeError>,
) -> bool {
    match expected {
        Ok(view) => outcome is Ok && outcome->Ok_0@ == view,
        Err(error) => outcome == Err::<InboundEvent, DecodeError>(error),
    }
}

/// A line ready to be written: the text and one line feed.
pub open spec fn framed(text: Seq<char>) -> Seq<char> {
    text.push('\n')
}

impl InboundEvent {
    /// A copy of the event.
    pub fn duplicate(&self) -> (copy: InboundEvent)
        ensures
            copy == *self,
    {
        let data = match &self.data {
            Some(payload) => Some(json_clone(payload)),
            None => None,
        };
        InboundEvent { event_type: self.event_type.clone(), data }
    }
}

/// Takes the event out of a parsed line. The value must be an object whose
/// member `type` is text; a member `data` is the payload unless it is `null`;
/// other members are ignored.
pub fn decode_value(value: &Value) -> (outcome: Result<InboundEvent, DecodeError>)
    ensures
        decodes_to(outcome, envelope(*value)),
{
    let kind = match json_member(value, "type") {
        Some(kind) => kind,
        None => {
            return Err(DecodeError::NoType);
        },
    };
    let name = match json_as_text(kind) {
        Some(name) => name,
        None => {
            return Err(DecodeError::TypeNotText);
        },
    };
    let data = match json_member(value, "data") {
        Some(payload) => if json_is_null(payload) {
            None
        } else {
            Some(json_clone(payload))
        },
        None => None,
    };
    Ok(InboundEvent { event_type: String::from_str(name), data })
}

/// Decodes one line of the worker's output. A line that is no event is an
/// error of its own; it never ends the stream.
pub fn decode(line: &[u8]) -> (outcome: Result<InboundEvent, DecodeError>)
    ensures
        decodes_to(outcome, decoded(line@)),
{
    match json_parse(line) {
        Ok(value) => decode_value(&value),
        Err(_) => Err(DecodeError::NotJson),
    }
}

/// Writes a command as compact JSON text. The text holds no line feed, so it
/// stays one line.
pub fn encode(command: &Value) -> (outcome: Result<String, EncodeError>)
    ensures
        match json_written(*command) {
            Some(text) => outcome is Ok && outcome->Ok_0@ == text,
            None => outcome is Err,
        },
        outcome is Ok ==> !outcome->Ok_0@.contains('\n'),
{
    match json_write(command) {
        Ok(text) => Ok(text),
        Err(_) => Err(EncodeError),
    }
}

/// Ends a text with the line feed that makes it a line of the protocol.
pub fn frame(text: String) -> (line: String)
    ensures
        line@ == framed(text@),
{
    proof {
        reveal_strlit("\n");
    }
    let line = text.concat("\n");
    assert(line@ =~= framed(text@));
    line
}

/// A framed text without a line feed of its own is exactly one line: the line
/// feed is its last character and occurs nowhere else.
pub proof fn lemma_framed_is_one_line(text: Seq<char>)
    requires
        !text.contains('\n'),
    ensures
        framed(text).len() == text.len() + 1,
        framed(text).last() == '\n',
        forall|i: int| 0 <= i < text.len() ==> framed(text)[i] != '\n',
        framed(text).drop_last() == text,
{
    assert(framed(text).drop_last() =~= text);
    assert forall|i: int| 0 <= i < text.len() implies framed(text)[i] != '\n' by {
        assert(framed(text)[i] == text[i]);
    }
}

/// Two lines written one after the other stay two lines: whoever reads the
/// stream and splits it at line feeds gets the two texts back, whole and in
/// order.
pub proof fn lemma_lines_do_not_mix(first: Seq<char>, second: Seq<char>)
    requires
        !first.contains('\n'),
        !second.contains('\n'),
    ensures
        ({
            let stream = framed(first) + framed(second);
            &&& stream.len() == first.len() + second.len() + 2
            &&& stream.subrange(0, first.len() as int) == first
            &&& stream.subrange(first.len() as int + 1, stream.len() as int - 1) == second
            &&& forall|i: int|
                0 <= i < stream.len() ==> (stream[i] == '\n' <==> i == first.len() || i
                    == stream.len() - 1)
        }),
{
    let stream = framed(first) + framed(second);
    assert(stream.subrange(0, first.len() as int) =~= first);
    assert(stream.subrange(first.len() as int + 1, stream.len() as int - 1) =~= second);
    assert forall|i: int| 0 <= i < stream.len() implies (stream[i] == '\n' <==> i == first.len()
        || i == stream.len() - 1) by {
        if i < first.len() {
            assert(stream[i] == first[i]);
        } else if first.len() < i < stream.len() - 1 {
            assert(stream[i] == second[i - first.len() - 1]);
        }
    }
}

} // verus!
