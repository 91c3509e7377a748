use vstd::prelude::*;

use crate::error::ReportError;
use crate::text::str_eq;

verus! {

/// The glyph set the renderer draws with.
#[derive(Clone, Copy, Debug, PartialEq, Eq)]
pub enum CharSet {
    Unicode,
    Ascii,
}

/// The unit in which span offsets index the source text.
#[derive(Clone, Copy, Debug, PartialEq, Eq)]
pub enum IndexType {
    Byte,
    Char,
}

/// Where an arrow attaches to its label's span.
#[derive(Clone, Copy, Debug, PartialEq, Eq)]
pub enum LabelAttach {
    Start,
    Middle,
    End,
}

/// An immutable bundle of rendering options. It has no internal invariant;
/// it is carried through unchanged to the external rendering engine.
#[derive(Clone, Copy, Debug, PartialEq, Eq)]
pub struct Config {
    pub cross_gap: bool,
    pub compact: bool,
    pub underlines: bool,
    pub multiline_arrows: bool,
    pub color: bool,
    pub tab_width: usize,
    pub char_set: CharSet,
    pub index_type: IndexType,
    pub label_attach: LabelAttach,
}

/// The attachment point that a boundary name denotes, if any: each of
/// `"start"`, `"middle"` and `"end"` names the like-named variant.
pub open spec fn label_attach_of_name(s: Seq<char>) -> Option<LabelAttach> {
    if s == "start"@ {
        Some(LabelAttach::Start)
    } else if s == "middle"@ {
        Some(LabelAttach::Middle)
    } else if s == "end"@ {
        Some(LabelAttach::End)
    } else {
        None
    }
}

/// Parses a label-attach name; any other name is rejected.
pub fn parse_label_attach(label_attach: &str) -> (r: Result<LabelAttach, ReportError>)
    ensures
        match label_attach_of_name(label_attach@) {
            Some(a) => r == Ok::<LabelAttach, ReportError>(a),
            None => r == Err::<LabelAttach, ReportError>(ReportError::InvalidLabelAttach),
        },
{
    if str_eq(label_attach, "start") {
        Ok(LabelAttach::Start)
    } else if str_eq(label_attach, "middle") {
        Ok(LabelAttach::Middle)
    } else if str_eq(label_attach, "end") {
        Ok(LabelAttach::End)
    } else {
        Err(ReportError::InvalidLabelAttach)
    }
}

impl Config {
    /// Builds a configuration from boundary inputs. Every field is set from
    /// its argument; only an unrecognized label-attach name fails.
    pub fn new(
        cross_gap: bool,
        compact: bool,
        underlines: bool,
        multiline_arrows: bool,
        color: bool,
        tab_width: usize,
        ascii: bool,
        byte_indexed: bool,
        label_attach: &str,
    ) -> (r: Result<Config, ReportError>)
        ensures
            match label_attach_of_name(label_attach@) {
                Some(a) => r == Ok::<Config, ReportError>(
                    Config {
                        cross_gap,
                        compact,
                        underlines,
                        multiline_arrows,
                        color,
                        tab_width,
                        char_set: if ascii { CharSet::Ascii } else { CharSet::Unicode },
                        index_type: if byte_indexed { IndexType::Byte } else { IndexType::Char },
                        label_attach: a,
                    },
                ),
                None => r == Err::<Config, ReportError>(ReportError::InvalidLabelAttach),
            },
    {
        let attach = match parse_label_attach(label_attach) {
            Ok(a) => a,
            Err(e) => {
                return Err(e);
            },
        };
        Ok(
            Config {
                cross_gap,
                compact,
                underlines,
                multiline_arrows,
                color,
                tab_width,
                char_set: if ascii {
                    CharSet::Ascii
                } else {
                    CharSet::Unicode
                },
                index_type: if byte_indexed {
                    IndexType::Byte
                } else {
                    IndexType::Char
                },
                label_attach: attach,
            },
        )
    }
}

impl Default for Config {
    /// The default rendering options: underlines and multiline arrows on,
    /// colored Unicode output, four-column tabs, codepoint indexing, and
    /// labels attached at the middle of their spans.
    fn default() -> (c: Config)
        ensures
            c == (Config {
                cross_gap: false,
                compact: false,
                underlines: true,
                multiline_arrows: true,
                color: true,
                tab_width: 4,
                char_set: CharSet::Unicode,
                index_type: IndexType::Char,
                label_attach: LabelAttach::Middle,
            }),
    {
        Config {
            cross_gap: false,
            compact: false,
            underlines: true,
            multiline_arrows: true,
            color: true,
            tab_width: 4,
            char_set: CharSet::Unicode,
            index_type: IndexType::Char,
            label_attach: LabelAttach::Middle,
        }
    }
}

} // verus!
