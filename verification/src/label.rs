use vstd::prelude::*;

use crate::color::Color;
use crate::error::ReportError;

verus! {

/// The mathematical value of a `Label`: its span bounds and the optional
/// metadata, with text fields abstracted to character sequences.
pub struct LabelView {
    pub start: usize,
    pub end: usize,
    pub target: Option<Seq<char>>,
    pub message: Option<Seq<char>>,
    pub color: Option<Color>,
    pub order: Option<i32>,
    pub priority: Option<i32>,
}

/// The view of an optional owned string.
pub open spec fn opt_text(o: Option<String>) -> Option<Seq<char>> {
    match o {
        Some(s) => Some(s@),
        None => None,
    }
}

/// The view of an optional borrowed string.
pub open spec fn opt_str(o: Option<&str>) -> Option<Seq<char>> {
    match o {
        Some(s) => Some(s@),
        None => None,
    }
}

/// An explicitly supplied value replaces the prior one; an omitted value
/// keeps it.
pub open spec fn or_keep<T>(supplied: Option<T>, prior: Option<T>) -> Option<T> {
    match supplied {
        Some(v) => Some(v),
        None => prior,
    }
}

/// An annotation over a half-open span `[start, end)` of some source's
/// text, with an optional target path, message, color, order and priority.
/// Immutable once constructed: every operation yields a new value.
/// Equality and hashing are structural.
#[derive(Clone, Debug, PartialEq, Hash)]
pub struct Label {
    pub start: usize,
    pub end: usize,
    pub target: Option<String>,
    pub message: Option<String>,
    pub color: Option<Color>,
    pub order: Option<i32>,
    pub priority: Option<i32>,
}

impl View for Label {
    type V = LabelView;

    open spec fn view(&self) -> LabelView {
        LabelView {
            start: self.start,
            end: self.end,
            target: opt_text(self.target),
            message: opt_text(self.message),
            color: self.color,
            order: self.order,
            priority: self.priority,
        }
    }
}

impl Label {
    /// The span ordering invariant: the range `[start, end)` is not empty
    /// in the wrong direction.
    pub open spec fn wf(&self) -> bool {
        self.start <= self.end
    }

    /// Constructs a bare label over `[start, end)`. Bounds are validated
    /// eagerly: exactly the spans with `start <= end` are accepted, and any
    /// other input fails with `InvalidSpan` carrying the offending bounds.
    /// Bounds are not checked against any source length; only the external
    /// rendering engine knows the text being indexed.
    pub fn new(start: usize, end: usize) -> (r: Result<Label, ReportError>)
        ensures
            start <= end ==> r == Ok::<Label, ReportError>(
                Label {
                    start,
                    end,
                    target: None,
                    message: None,
                    color: None,
                    order: None,
                    priority: None,
                },
            ),
            start > end ==> r == Err::<Label, ReportError>(ReportError::InvalidSpan { start, end }),
            r matches Ok(l) ==> l.wf(),
    {
        if start > end {
            Err(ReportError::InvalidSpan { start, end })
        } else {
            Ok(
                Label {
                    start,
                    end,
                    target: None,
                    message: None,
                    color: None,
                    order: None,
                    priority: None,
                },
            )
        }
    }

    /// Replaces exactly the supplied fields; every omitted field, and the
    /// span bounds, keep their prior values.
    pub fn set_params(
        self,
        target: Option<&str>,
        message: Option<&str>,
        color: Option<Color>,
        order: Option<i32>,
        priority: Option<i32>,
    ) -> (l: Label)
        ensures
            l@ == (LabelView {
                start: self.start,
                end: self.end,
                target: or_keep(opt_str(target), self@.target),
                message: or_keep(opt_str(message), self@.message),
                color: or_keep(color, self.color),
                order: or_keep(order, self.order),
                priority: or_keep(priority, self.priority),
            }),
    {
        let mut l = self;
        match target {
            Some(t) => {
                l.target = Some(t.to_owned());
            },
            None => {},
        }
        match message {
            Some(m) => {
                l.message = Some(m.to_owned());
            },
            None => {},
        }
        match color {
            Some(c) => {
                l.color = Some(c);
            },
            None => {},
        }
        match order {
            Some(o) => {
                l.order = Some(o);
            },
            None => {},
        }
        match priority {
            Some(p) => {
                l.priority = Some(p);
            },
            None => {},
        }
        l
    }

    /// A copy with only the explicitly supplied fields among message,
    /// color, order and priority replaced; all omitted fields, the span
    /// bounds, and in every case the target, are copied unchanged.
    pub fn copy(
        &self,
        message: Option<&str>,
        color: Option<Color>,
        order: Option<i32>,
        priority: Option<i32>,
    ) -> (l: Label)
        ensures
            l@ == (LabelView {
                start: self.start,
                end: self.end,
                target: self@.target,
                message: or_keep(opt_str(message), self@.message),
                color: or_keep(color, self.color),
                order: or_keep(order, self.order),
                priority: or_keep(priority, self.priority),
            }),
    {
        let own = Label {
            start: self.start,
            end: self.end,
            target: clone_opt_string(&self.target),
            message: clone_opt_string(&self.message),
            color: self.color,
            order: self.order,
            priority: self.priority,
        };
        own.set_params(None, message, color, order, priority)
    }

    /// A copy of this label whose target is `target`, whatever it was.
    pub fn replace_target(self, target: &str) -> (l: Label)
        ensures
            l@ == (LabelView { target: Some(target@), ..self@ }),
    {
        let mut l = self;
        l.target = Some(target.to_owned());
        l
    }

    /// The path this label resolves against when bound into a report whose
    /// primary path is `primary`: its own target when set, the primary path
    /// otherwise. Computed fresh per use; the label itself is never mutated
    /// by resolution.
    pub fn resolved_target(&self, primary: &str) -> (t: String)
        ensures
            t@ == (match self@.target {
                Some(tg) => tg,
                None => primary@,
            }),
    {
        match &self.target {
            Some(tg) => tg.clone(),
            None => primary.to_owned(),
        }
    }
}

/// Duplicates an optional owned string, preserving its view.
pub fn clone_opt_string(o: &Option<String>) -> (r: Option<String>)
    ensures
        opt_text(r) == opt_text(*o),
{
    match o {
        Some(s) => Some(s.clone()),
        None => None,
    }
}

} // verus!
