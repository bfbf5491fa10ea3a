//! Decoding one CLEF line into a log event.
use vstd::prelude::*;
use crate::json::{json_object_of, parse_object};
use crate::template::{Prop, PropModel, entries_view, lookup, lookup_prop, rendered, render_template, has_placeholder, lemma_render_plain};
use crate::timestamp::{display_of, display_timestamp};

verus! {

/// Why a line could not be decoded.
#[derive(Debug, Clone, Copy, PartialEq, Eq, Structural)]
pub enum DecodeError {
    /// The line is not JSON.
    MalformedJson,
    /// The line is JSON, but not an object.
    InvalidShape,
    /// `@t` is a non-empty string that is not an RFC 3339 timestamp.
    InvalidTimestamp,
}

/// One decoded log event.
#[derive(Debug, Clone, PartialEq, Eq)]
pub struct ClefLine {
    /// `@t` as it was written.
    pub time: String,
    /// `@t` as `DD.MM.YY HH:MM:SS`; empty where `@t` is.
    pub timestamp: String,
    /// `@m`, the pre-rendered message.
    pub message: String,
    /// `@mt`, or `@m` where `@mt` is empty.
    pub template: String,
    /// The template with its placeholders resolved.
    pub rendered: String,
    /// `@l`.
    pub level: String,
    /// `@x`.
    pub exception: String,
    /// `@i`.
    pub eventid: String,
    /// `@r`.
    pub renderings: String,
    /// Every top-level entry of the line's object, reserved fields included.
    pub properties: Vec<(String, Prop)>,
}

/// The mathematical value of a `ClefLine`.
pub struct ClefModel {
    pub time: Seq<char>,
    pub timestamp: Seq<char>,
    pub message: Seq<char>,
    pub template: Seq<char>,
    pub rendered: Seq<char>,
    pub level: Seq<char>,
    pub exception: Seq<char>,
    pub eventid: Seq<char>,
    pub renderings: Seq<char>,
    pub properties: Seq<(Seq<char>, PropModel)>,
}

impl View for ClefLine {
    type V = ClefModel;

    open spec fn view(&self) -> ClefModel {
        ClefModel {
            time: self.time@,
            timestamp: self.timestamp@,
            message: self.message@,
            template: self.template@,
            rendered: self.rendered@,
            level: self.level@,
            exception: self.exception@,
            eventid: self.eventid@,
            renderings: self.renderings@,
            properties: entries_view(self.properties@),
        }
    }
}

/// The string stored under `key`; empty where the key is missing or its value
/// is not a string.
pub open spec fn str_field(es: Seq<(Seq<char>, PropModel)>, key: Seq<char>) -> Seq<char> {
    match lookup(es, key) {
        Some(PropModel::Str(s)) => s,
        _ => Seq::empty(),
    }
}

/// The template of an event: `@mt`, or `@m` where `@mt` is empty.
pub open spec fn template_of(es: Seq<(Seq<char>, PropModel)>) -> Seq<char> {
    if str_field(es, "@mt"@).len() == 0 {
        str_field(es, "@m"@)
    } else {
        str_field(es, "@mt"@)
    }
}

/// The event that the top-level entries `es` of a line's object describe.
pub open spec fn event_of(es: Seq<(Seq<char>, PropModel)>) -> Result<ClefModel, DecodeError> {
    match display_of(str_field(es, "@t"@)) {
        None => Err(DecodeError::InvalidTimestamp),
        Some(d) => Ok(
            ClefModel {
                time: str_field(es, "@t"@),
                timestamp: d,
                message: str_field(es, "@m"@),
                template: template_of(es),
                rendered: rendered(template_of(es), es),
                level: str_field(es, "@l"@),
                exception: str_field(es, "@x"@),
                eventid: str_field(es, "@i"@),
                renderings: str_field(es, "@r"@),
                properties: es,
            },
        ),
    }
}

/// The event decoded from `line`, or why there is none.
pub open spec fn decoded(line: Seq<char>) -> Result<ClefModel, DecodeError> {
    match json_object_of(line) {
        None => Err(DecodeError::MalformedJson),
        Some(None) => Err(DecodeError::InvalidShape),
        Some(Some(es)) => event_of(es),
    }
}

/// The string stored under `key` in `properties`, or an empty string.
fn string_field(properties: &Vec<(String, Prop)>, key: &str) -> (r: String)
    ensures
        r@ == str_field(entries_view(properties@), key@),
{
    match lookup_prop(properties, &String::from_str(key)) {
        Some(Prop::Str(s)) => s.clone(),
        _ => String::new(),
    }
}

impl ClefLine {
    /// Decodes one line: a JSON object whose reserved fields `@t`, `@m`,
    /// `@mt`, `@l`, `@x`, `@i` and `@r` are read as strings (empty where
    /// missing or not a string), with the template rendered against the
    /// object and `@t` written as `DD.MM.YY HH:MM:SS`.
    pub fn new(line: &str) -> (r: Result<ClefLine, DecodeError>)
        ensures
            match r {
                Ok(c) => decoded(line@) == Ok::<ClefModel, DecodeError>(c@),
                Err(e) => decoded(line@) == Err::<ClefModel, DecodeError>(e),
            },
    {
        match parse_object(line) {
            Err(_) => Err(DecodeError::MalformedJson),
            Ok(None) => Err(DecodeError::InvalidShape),
            Ok(Some(properties)) => ClefLine::from_properties(properties),
        }
    }

    /// Builds the event that the top-level entries of a line's object describe.
    pub fn from_properties(properties: Vec<(String, Prop)>) -> (r: Result<ClefLine, DecodeError>)
        ensures
            match r {
                Ok(c) => event_of(entries_view(properties@)) == Ok::<ClefModel, DecodeError>(c@),
                Err(e) => event_of(entries_view(properties@)) == Err::<ClefModel, DecodeError>(e),
            },
    {
        let time = string_field(&properties, "@t");
        let timestamp = match display_timestamp(time.as_str()) {
            Some(d) => d,
            None => return Err(DecodeError::InvalidTimestamp),
        };
        let message = string_field(&properties, "@m");
        let given = string_field(&properties, "@mt");
        let template = if given.as_str().unicode_len() == 0 {
            message.clone()
        } else {
            given
        };
        let rendered = render_template(template.as_str(), &properties);
        let level = string_field(&properties, "@l");
        let exception = string_field(&properties, "@x");
        let eventid = string_field(&properties, "@i");
        let renderings = string_field(&properties, "@r");
        Ok(
            ClefLine {
                time,
                timestamp,
                message,
                template,
                rendered,
                level,
                exception,
                eventid,
                renderings,
                properties,
            },
        )
    }

    /// The event's template rendered against its properties.
    pub fn render(&self) -> (r: String)
        ensures
            r@ == rendered(self.template@, entries_view(self.properties@)),
    {
        render_template(self.template.as_str(), &self.properties)
    }
}

/// The decoded lines of `lines`, in input order, and for each line that does
/// not decode its index and the reason.
pub open spec fn decoded_lines(lines: Seq<Seq<char>>) -> (Seq<ClefModel>, Seq<(int, DecodeError)>)
    decreases lines.len(),
{
    if lines.len() == 0 {
        (Seq::empty(), Seq::empty())
    } else {
        let (events, failures) = decoded_lines(lines.drop_last());
        match decoded(lines.last()) {
            Ok(c) => (events.push(c), failures),
            Err(e) => (events, failures.push((lines.len() - 1, e))),
        }
    }
}

/// The views of a sequence of events.
pub open spec fn events_view(events: Seq<ClefLine>) -> Seq<ClefModel> {
    events.map_values(|c: ClefLine| c@)
}

/// The indices of failures, as integers.
pub open spec fn failures_view(failures: Seq<(usize, DecodeError)>) -> Seq<(int, DecodeError)> {
    failures.map_values(|f: (usize, DecodeError)| (f.0 as int, f.1))
}

/// Decodes each line on its own: a line that fails is set aside with its
/// index and error, and the others keep their input order.
pub fn decode_lines(lines: &Vec<String>) -> (r: (Vec<ClefLine>, Vec<(usize, DecodeError)>))
    ensures
        events_view(r.0@) == decoded_lines(lines@.map_values(|l: String| l@)).0,
        failures_view(r.1@) == decoded_lines(lines@.map_values(|l: String| l@)).1,
{
    let ghost texts = lines@.map_values(|l: String| l@);
    let mut events: Vec<ClefLine> = Vec::new();
    let mut failures: Vec<(usize, DecodeError)> = Vec::new();
    let mut i: usize = 0;
    while i < lines.len()
        invariant
            texts == lines@.map_values(|l: String| l@),
            i <= lines@.len(),
            events_view(events@) == decoded_lines(texts.subrange(0, i as int)).0,
            failures_view(failures@) == decoded_lines(texts.subrange(0, i as int)).1,
        decreases lines.len() - i,
    {
        proof {
            assert(texts.subrange(0, i + 1).drop_last() =~= texts.subrange(0, i as int));
        }
        match ClefLine::new(lines[i].as_str()) {
            Ok(c) => {
                events.push(c);
                assert(events_view(events@) =~= decoded_lines(texts.subrange(0, i + 1)).0);
            },
            Err(e) => {
                failures.push((i, e));
                assert(failures_view(failures@) =~= decoded_lines(texts.subrange(0, i + 1)).1);
            },
        }
        i = i + 1;
    }
    assert(texts.subrange(0, lines@.len() as int) =~= texts);
    (events, failures)
}

/// For every line that decodes, a template with no `{…}` pair is shown as it
/// is written.
pub proof fn lemma_plain_template_unchanged(line: Seq<char>)
    requires
        decoded(line) is Ok,
        !has_placeholder(decoded(line)->Ok_0.template),
    ensures
        decoded(line)->Ok_0.rendered == decoded(line)->Ok_0.template,
{
    let es = json_object_of(line)->Some_0->Some_0;
    lemma_render_plain(template_of(es), es);
}

/// An object without any of the reserved fields decodes to an event whose
/// text fields, rendered message included, are all empty.
pub proof fn lemma_bare_object(line: Seq<char>)
    requires
        json_object_of(line) matches Some(Some(es)) && {
            &&& lookup(es, "@t"@) is None
            &&& lookup(es, "@m"@) is None
            &&& lookup(es, "@mt"@) is None
            &&& lookup(es, "@l"@) is None
            &&& lookup(es, "@x"@) is None
            &&& lookup(es, "@i"@) is None
            &&& lookup(es, "@r"@) is None
        },
    ensures
        decoded(line) matches Ok(c) && {
            &&& c.time.len() == 0
            &&& c.timestamp.len() == 0
            &&& c.message.len() == 0
            &&& c.template.len() == 0
            &&& c.rendered.len() == 0
            &&& c.level.len() == 0
            &&& c.exception.len() == 0
            &&& c.eventid.len() == 0
            &&& c.renderings.len() == 0
        },
{
    let es = json_object_of(line)->Some_0->Some_0;
    lemma_render_plain(Seq::empty(), es);
}

} // verus!
