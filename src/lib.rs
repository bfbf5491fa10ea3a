//! Decoding of Compact Log Event Format (CLEF) lines and rendering of their
//! message templates.
mod clef;
mod json;
mod template;
mod text;
mod timestamp;

pub use template::{
    Prop, PropModel, entries_view, lookup, substitution, index_from, rendered_from, rendered,
    has_placeholder, lemma_index_from, lemma_render_plain, render_template,
};
pub use text::{int_text, nat_text, digit_char};
pub use timestamp::{
    Timestamp, rfc3339_fields, two_digits, display_text, format_timestamp, display_of,
    display_timestamp,
};
pub use json::json_object_of;
pub use clef::{
    DecodeError, ClefLine, ClefModel, str_field, template_of, event_of, decoded,
    decoded_lines, events_view, failures_view, decode_lines, lemma_plain_template_unchanged,
    lemma_bare_object,
};
