//! The message codec: from one text frame to a typed command.
//!
//! A frame is a JSON object with a string member `type` and, for `move`, an
//! object member `data` holding the numbers `x` and `y`.
use vstd::prelude::*;
use json::JsonValue as JV;
use crate::delta::{delta_from_parts, delta_spec};
use vstd::string::StrSliceExecFns;

verus! {

/// One level of a parsed JSON document: scalars as plain values, and the
/// members of an array or an object as their own JSON text.
#[derive(Debug)]
pub enum Json {
    Null,
    Bool(bool),
    /// Sign (true when positive), mantissa and decimal exponent.
    Number(bool, u64, i16),
    Text(String),
    Array(Vec<String>),
    Object(Vec<(String, String)>),
}

/// The top level of the document that `json::parse` reads from `text`, or
/// `None` where it rejects the text.
pub uninterp spec fn json_top(text: Seq<char>) -> Option<Json>;

/// The longest frame, in characters, that is handed to the parser. Within it
/// the parser's decimal exponent (an `i16` counted down once per fraction
/// digit) cannot overflow.
pub const MAX_FRAME_CHARS: usize = 32768;

/// Whether `text` is short enough to be parsed.
pub open spec fn fits(text: Seq<char>) -> bool {
    text.len() <= MAX_FRAME_CHARS
}

/// The top level of `text` as a document, where it fits and parses.
pub open spec fn parsed(text: Seq<char>) -> Option<Json> {
    if fits(text) {
        json_top(text)
    } else {
        None
    }
}

/// Relies on `json::parse` to read one JSON document (an error on malformed
/// text), and on `JsonValue::dump` to write each member back as JSON text.
/// The bound on the length keeps the parser's exponent count in range.
#[verifier::external_body]
fn parse_top(text: &str) -> (r: Option<Json>)
    requires
        fits(text@),
    ensures
        r == json_top(text@),
{
    json::parse(text).ok().map(|v| match v {
        JV::Null => Json::Null,
        JV::Boolean(b) => Json::Bool(b),
        JV::Number(n) => {
            let (p, m, e) = n.as_parts();
            Json::Number(p, m, e)
        },
        JV::Short(s) => Json::Text(s.to_string()),
        JV::String(s) => Json::Text(s),
        JV::Array(a) => Json::Array(a.iter().map(|m| m.dump()).collect()),
        JV::Object(o) => Json::Object(o.iter().map(|(k, m)| (k.to_string(), m.dump())).collect()),
    })
}

/// Parses `text` where it fits within `MAX_FRAME_CHARS`; a longer text is
/// refused unread.
pub fn parse_frame(text: &str) -> (r: Option<Json>)
    ensures
        r == parsed(text@),
{
    if text.unicode_len() > MAX_FRAME_CHARS {
        None
    } else {
        parse_top(text)
    }
}

#[derive(Clone, Copy, Debug, PartialEq, Eq, Structural)]
pub enum Button {
    Left,
    Right,
}

/// A validated instruction from one client frame.
#[derive(Clone, Copy, Debug, PartialEq, Eq, Structural)]
pub enum Command {
    MoveBy { dx: i32, dy: i32 },
    ButtonDown { button: Button },
    ButtonUp { button: Button },
}

#[derive(Clone, Copy, Debug, PartialEq, Eq, Structural)]
pub enum ParseError {
    /// The frame is not valid JSON, or is longer than `MAX_FRAME_CHARS`.
    NotParseable,
    /// `type` is absent, null or not a string.
    MissingType,
    /// `data` is absent or null for a command that needs it.
    MissingData,
    /// `data.x` or `data.y` is absent or not a number.
    BadField,
    /// `type` is a string outside the vocabulary.
    UnknownType,
}

/// The text of the first member of `members` named `key`.
pub open spec fn member(members: Seq<(String, String)>, key: Seq<char>) -> Option<String>
    decreases members.len(),
{
    if members.len() == 0 {
        None
    } else if members[0].0@ == key {
        Some(members[0].1)
    } else {
        member(members.drop_first(), key)
    }
}

/// The member `key` of `doc`, parsed one level; `None` where `doc` is no
/// object or has no such member.
pub open spec fn field_spec(doc: Json, key: Seq<char>) -> Option<Json> {
    match doc {
        Json::Object(members) => match member(members@, key) {
            Some(t) => parsed(t@),
            None => None,
        },
        _ => None,
    }
}

pub open spec fn number_delta(v: Option<Json>) -> Option<i32> {
    match v {
        Some(Json::Number(p, m, e)) => Some(delta_spec(p, m, e)),
        _ => None,
    }
}

/// The `type` string of a frame, where it is one.
pub open spec fn type_text(doc: Json) -> Option<Seq<char>> {
    match field_spec(doc, "type"@) {
        Some(Json::Text(t)) => Some(t@),
        _ => None,
    }
}

/// The command of a `type` that needs no `data`.
pub open spec fn button_command(t: Seq<char>) -> Option<Command> {
    if t == "left_down"@ {
        Some(Command::ButtonDown { button: Button::Left })
    } else if t == "right_down"@ {
        Some(Command::ButtonDown { button: Button::Right })
    } else if t == "left_up"@ {
        Some(Command::ButtonUp { button: Button::Left })
    } else if t == "right_up"@ {
        Some(Command::ButtonUp { button: Button::Right })
    } else {
        None
    }
}

/// Whether `t` is one of the five `type` strings of the protocol.
pub open spec fn is_known_type(t: Seq<char>) -> bool {
    t == "move"@ || button_command(t) is Some
}

pub open spec fn move_spec(data: Option<Json>) -> Result<Command, ParseError> {
    match data {
        None => Err(ParseError::MissingData),
        Some(Json::Null) => Err(ParseError::MissingData),
        Some(d) => match (number_delta(field_spec(d, "x"@)), number_delta(field_spec(d, "y"@))) {
            (Some(dx), Some(dy)) => Ok(Command::MoveBy { dx, dy }),
            _ => Err(ParseError::BadField),
        },
    }
}

/// What a parsed frame decodes to.
pub open spec fn decode_document_spec(doc: Json) -> Result<Command, ParseError> {
    match type_text(doc) {
        None => Err(ParseError::MissingType),
        Some(t) => if t == "move"@ {
            move_spec(field_spec(doc, "data"@))
        } else {
            match button_command(t) {
                Some(c) => Ok(c),
                None => Err(ParseError::UnknownType),
            }
        },
    }
}

/// What a raw text frame decodes to.
pub open spec fn decode_spec(raw: Seq<char>) -> Result<Command, ParseError> {
    match parsed(raw) {
        None => Err(ParseError::NotParseable),
        Some(doc) => decode_document_spec(doc),
    }
}

pub(crate) fn text_is(s: &String, lit: &str) -> (r: bool)
    ensures
        r == (s@ == lit@),
{
    let owned: String = lit.to_owned();
    *s == owned
}

fn member_text(members: &Vec<(String, String)>, key: &str) -> (r: Option<String>)
    ensures
        r == member(members@, key@),
{
    let mut i: usize = 0;
    assert(members@.subrange(0, members@.len() as int) =~= members@);
    while i < members.len()
        invariant
            i <= members@.len(),
            member(members@, key@) == member(members@.subrange(i as int, members@.len() as int), key@),
        decreases members.len() - i,
    {
        let ghost rest = members@.subrange(i as int, members@.len() as int);
        assert(rest.drop_first() =~= members@.subrange(i + 1, members@.len() as int));
        if text_is(&members[i].0, key) {
            return Some(members[i].1.clone());
        }
        i = i + 1;
    }
    None
}

/// The member `key` of `doc`, parsed one level.
pub fn field(doc: &Json, key: &str) -> (r: Option<Json>)
    ensures
        r == field_spec(*doc, key@),
{
    match doc {
        Json::Object(members) => match member_text(members, key) {
            Some(t) => parse_frame(t.as_str()),
            None => None,
        },
        _ => None,
    }
}

fn number_of(v: &Option<Json>) -> (r: Option<i32>)
    ensures
        r == number_delta(*v),
{
    match v {
        Some(Json::Number(p, m, e)) => Some(delta_from_parts(*p, *m, *e)),
        _ => None,
    }
}

/// Decodes a frame that has already been parsed.
pub fn decode_document(doc: &Json) -> (r: Result<Command, ParseError>)
    ensures
        r == decode_document_spec(*doc),
{
    let kind = field(doc, "type");
    let t = match kind {
        Some(Json::Text(t)) => t,
        _ => return Err(ParseError::MissingType),
    };
    if text_is(&t, "move") {
        let data = field(doc, "data");
        match data {
            None => Err(ParseError::MissingData),
            Some(Json::Null) => Err(ParseError::MissingData),
            Some(d) => {
                let x = number_of(&field(&d, "x"));
                let y = number_of(&field(&d, "y"));
                match (x, y) {
                    (Some(dx), Some(dy)) => Ok(Command::MoveBy { dx, dy }),
                    _ => Err(ParseError::BadField),
                }
            },
        }
    } else if text_is(&t, "left_down") {
        Ok(Command::ButtonDown { button: Button::Left })
    } else if text_is(&t, "right_down") {
        Ok(Command::ButtonDown { button: Button::Right })
    } else if text_is(&t, "left_up") {
        Ok(Command::ButtonUp { button: Button::Left })
    } else if text_is(&t, "right_up") {
        Ok(Command::ButtonUp { button: Button::Right })
    } else {
        Err(ParseError::UnknownType)
    }
}

/// Decodes one raw text frame into a command.
pub fn decode(raw: &str) -> (r: Result<Command, ParseError>)
    ensures
        r == decode_spec(raw@),
        parsed(raw@) is None ==> r == Err::<Command, ParseError>(ParseError::NotParseable),
        parsed(raw@) is Some && type_text(parsed(raw@)->Some_0) is None
            ==> r == Err::<Command, ParseError>(ParseError::MissingType),
        parsed(raw@) is Some && type_text(parsed(raw@)->Some_0) is Some
            && !is_known_type(type_text(parsed(raw@)->Some_0)->Some_0)
            ==> r == Err::<Command, ParseError>(ParseError::UnknownType),
{
    match parse_frame(raw) {
        None => Err(ParseError::NotParseable),
        Some(doc) => decode_document(&doc),
    }
}

} // verus!
