use vstd::prelude::*;

use crate::color::Color;
use crate::color_generator::{nth_color, ColorGenerator};
use crate::config::Config;
use crate::error::{KindError, ReportError};
use crate::label::{clone_opt_string, opt_str, Label, LabelView};
use crate::text::str_eq;

verus! {

/// The severity of a diagnostic: one of the built-in kinds, or a custom
/// kind carrying its own display name and color.
#[derive(Clone, Debug, PartialEq)]
pub enum ReportKind {
    Error,
    Warning,
    Advice,
    Custom(String, Color),
}

/// The built-in severity names, reserved against use as custom kind names;
/// `"warn"` is an accepted alias of `"warning"`.
pub open spec fn is_reserved_name(s: Seq<char>) -> bool {
    s == "error"@ || s == "warning"@ || s == "warn"@ || s == "advice"@
}

impl ReportKind {
    /// The coupling invariant a resolved severity satisfies: a custom kind
    /// never carries an empty or reserved name. It is enforced once, by
    /// `from_params`, and never needs re-validation.
    pub open spec fn wf(&self) -> bool {
        match *self {
            ReportKind::Custom(name, _) => name@.len() > 0 && !is_reserved_name(name@),
            _ => true,
        }
    }

    /// Resolves the `(name, color)` pair supplied for a report's severity.
    /// Exactly one color is required if and only if the kind is custom:
    /// a recognized built-in name (or no name) without a color resolves to
    /// the built-in kind, and every other combination fails with the
    /// matching `InvalidReportKind` reason.
    pub fn from_params(name: Option<&str>, color: Option<Color>) -> (r: Result<
        ReportKind,
        ReportError,
    >)
        ensures
            name is None && color is None ==> r == Ok::<ReportKind, ReportError>(ReportKind::Error),
            (name matches Some(n) && n@ == "error"@ && color is None) ==> r == Ok::<
                ReportKind,
                ReportError,
            >(ReportKind::Error),
            (name matches Some(n) && (n@ == "warning"@ || n@ == "warn"@) && color is None) ==> r
                == Ok::<ReportKind, ReportError>(ReportKind::Warning),
            (name matches Some(n) && n@ == "advice"@ && color is None) ==> r == Ok::<
                ReportKind,
                ReportError,
            >(ReportKind::Advice),
            name is None && color is Some ==> r == Err::<ReportKind, ReportError>(
                ReportError::InvalidReportKind(KindError::ColorWithoutName),
            ),
            (name matches Some(n) && color is Some && n@.len() == 0) ==> r == Err::<
                ReportKind,
                ReportError,
            >(ReportError::InvalidReportKind(KindError::EmptyCustomName)),
            name matches Some(n) ==> (color is Some && n@.len() > 0 && is_reserved_name(n@)) ==> (
            r matches Err(e) && e matches ReportError::InvalidReportKind(re) && re matches
                KindError::ReservedName(m) && m@ == n@),
            name matches Some(n) ==> color matches Some(c) ==> (n@.len() > 0 && !is_reserved_name(
                n@,
            )) ==> (r matches Ok(k) && k matches ReportKind::Custom(m, kc) && m@ == n@ && kc == c),
            (name matches Some(n) && color is None && !is_reserved_name(n@)) ==> r == Err::<
                ReportKind,
                ReportError,
            >(ReportError::InvalidReportKind(KindError::MissingColor)),
            r matches Ok(k) ==> k.wf(),
    {
        proof {
            reveal_strlit("error");
            reveal_strlit("warning");
            reveal_strlit("warn");
            reveal_strlit("advice");
        }
        match (name, color) {
            (None, None) => Ok(ReportKind::Error),
            (Some(n), None) => {
                if str_eq(n, "error") {
                    Ok(ReportKind::Error)
                } else if str_eq(n, "warning") || str_eq(n, "warn") {
                    Ok(ReportKind::Warning)
                } else if str_eq(n, "advice") {
                    Ok(ReportKind::Advice)
                } else {
                    Err(ReportError::InvalidReportKind(KindError::MissingColor))
                }
            },
            (None, Some(_)) => Err(ReportError::InvalidReportKind(KindError::ColorWithoutName)),
            (Some(n), Some(c)) => {
                if n.is_empty() {
                    Err(ReportError::InvalidReportKind(KindError::EmptyCustomName))
                } else if str_eq(n, "error") || str_eq(n, "warning") || str_eq(n, "advice")
                    || str_eq(n, "warn") {
                    Err(ReportError::InvalidReportKind(KindError::ReservedName(n.to_owned())))
                } else {
                    Ok(ReportKind::Custom(n.to_owned(), c))
                }
            },
        }
    }
}

/// A `(path identifier, text)` pair naming one body of source text.
#[derive(Clone, Debug, PartialEq)]
pub struct Source {
    pub path: String,
    pub text: String,
}

impl Source {
    /// Bundles a resolved path and its text.
    pub fn new(path: String, text: String) -> (s: Source)
        ensures
            s.path == path,
            s.text == text,
    {
        Source { path, text }
    }

    /// The `(path, text)` pair handed to the external rendering engine.
    pub fn pair(&self) -> (p: (String, String))
        ensures
            p.0@ == self.path@,
            p.1@ == self.text@,
    {
        (self.path.clone(), self.text.clone())
    }
}

/// The view of a label once bound into a rendering context with primary
/// path `primary`: an unset target resolves to the primary path, a set
/// target stands; nothing else changes.
pub open spec fn resolved_view(lv: LabelView, primary: Seq<char>) -> LabelView {
    LabelView {
        target: Some(
            match lv.target {
                Some(t) => t,
                None => primary,
            },
        ),
        ..lv
    }
}

/// The aggregate root of one diagnostic: a primary source and anchor span,
/// a severity, optional code and message, ordered labels, notes and helps,
/// auxiliary sources, the rendering options, and a private color generator
/// that feeds automatic label coloring.
pub struct Report {
    pub source: Source,
    pub start: usize,
    pub end: usize,
    pub config: Config,
    pub code: Option<String>,
    pub message: Option<String>,
    pub kind: ReportKind,
    pub labels: Vec<Label>,
    pub notes: Vec<String>,
    pub helps: Vec<String>,
    pub files: Vec<Source>,
    pub colors: ColorGenerator,
}

/// The fields of a report that no mutator but `set_params` ever changes.
pub open spec fn same_anchor(a: Report, b: Report) -> bool {
    &&& b.source == a.source
    &&& b.start == a.start
    &&& b.end == a.end
    &&& b.config == a.config
    &&& b.code == a.code
    &&& b.message == a.message
    &&& b.kind == a.kind
}

impl Report {
    /// The anchor span's ordering invariant, established at construction.
    pub open spec fn wf(&self) -> bool {
        self.start <= self.end
    }

    /// Constructs a report around a primary source and raw span bounds.
    /// Exactly the spans with `start <= end` are accepted; anything else
    /// fails with `InvalidSpan` before any aggregate is exposed. A fresh
    /// report has severity `Error`, no code, message, labels, notes, helps
    /// or auxiliary sources, and a fresh color generator.
    pub fn new(source: Source, start: usize, end: usize, config: Config) -> (r: Result<Report, ReportError>)
        ensures
            start <= end ==> (r matches Ok(rep) && rep.source == source && rep.start == start
                && rep.end == end && rep.config == config && rep.code is None
                && rep.message is None && rep.kind == ReportKind::Error && rep.labels@.len() == 0
                && rep.notes@.len() == 0 && rep.helps@.len() == 0 && rep.files@.len() == 0
                && rep.colors.count() == 0),
            start > end ==> (r matches Err(e) && e == (ReportError::InvalidSpan { start, end })),
            r matches Ok(rep) ==> rep.wf(),
    {
        if start > end {
            Err(ReportError::InvalidSpan { start, end })
        } else {
            Ok(
                Report {
                    source,
                    start,
                    end,
                    config,
                    code: None,
                    message: None,
                    kind: ReportKind::Error,
                    labels: Vec::new(),
                    notes: Vec::new(),
                    helps: Vec::new(),
                    files: Vec::new(),
                    colors: ColorGenerator::new(),
                },
            )
        }
    }

    /// Replaces the optional construction-time fields wholesale; the
    /// primary source, span, config and color generator carry over.
    pub fn set_params(
        self,
        code: Option<String>,
        message: Option<String>,
        kind: ReportKind,
        labels: Vec<Label>,
        notes: Vec<String>,
        helps: Vec<String>,
        files: Vec<Source>,
    ) -> (rep: Report)
        ensures
            rep.code == code,
            rep.message == message,
            rep.kind == kind,
            rep.labels == labels,
            rep.notes == notes,
            rep.helps == helps,
            rep.files == files,
            rep.source == self.source,
            rep.start == self.start,
            rep.end == self.end,
            rep.config == self.config,
            rep.colors == self.colors,
    {
        let mut rep = self;
        rep.code = code;
        rep.message = message;
        rep.kind = kind;
        rep.labels = labels;
        rep.notes = notes;
        rep.helps = helps;
        rep.files = files;
        rep
    }

    /// Draws the next color of this report's own palette-consistent
    /// sequence, for callers who want a color without creating a label.
    pub fn color(&mut self) -> (c: Color)
        ensures
            c == nth_color(old(self).colors.count()),
            final(self).colors.count() == old(self).colors.count() + 1,
            same_anchor(*old(self), *final(self)),
            final(self).labels == old(self).labels,
            final(self).notes == old(self).notes,
            final(self).helps == old(self).helps,
            final(self).files == old(self).files,
    {
        self.colors.next()
    }

    /// Appends the label as-is.
    pub fn add_label(&mut self, label: Label)
        ensures
            final(self).labels@ == old(self).labels@.push(label),
            same_anchor(*old(self), *final(self)),
            final(self).colors == old(self).colors,
            final(self).notes == old(self).notes,
            final(self).helps == old(self).helps,
            final(self).files == old(self).files,
    {
        self.labels.push(label);
    }

    /// Appends a note to the report's ordered trailing notes.
    pub fn add_note(&mut self, note: String)
        ensures
            final(self).notes@ == old(self).notes@.push(note),
            same_anchor(*old(self), *final(self)),
            final(self).colors == old(self).colors,
            final(self).labels == old(self).labels,
            final(self).helps == old(self).helps,
            final(self).files == old(self).files,
    {
        self.notes.push(note);
    }

    /// Appends a help entry to the report's ordered trailing helps.
    pub fn add_help(&mut self, help: String)
        ensures
            final(self).helps@ == old(self).helps@.push(help),
            same_anchor(*old(self), *final(self)),
            final(self).colors == old(self).colors,
            final(self).labels == old(self).labels,
            final(self).notes == old(self).notes,
            final(self).files == old(self).files,
    {
        self.helps.push(help);
    }

    /// Builds a label from raw bounds, appends it, and returns it to the
    /// caller. When no color is supplied the report's own generator is
    /// drawn from first — before the bounds are checked — so auto-colored
    /// labels within one report stay mutually distinguishable; bounds out
    /// of order then fail with `InvalidSpan` and append nothing.
    pub fn label(
        &mut self,
        start: usize,
        end: usize,
        path: Option<&str>,
        message: Option<&str>,
        color: Option<Color>,
        order: Option<i32>,
        priority: Option<i32>,
    ) -> (r: Result<Label, ReportError>)
        ensures
            same_anchor(*old(self), *final(self)),
            final(self).notes == old(self).notes,
            final(self).helps == old(self).helps,
            final(self).files == old(self).files,
            color is Some ==> final(self).colors.count() == old(self).colors.count(),
            color is None ==> final(self).colors.count() == old(self).colors.count() + 1,
            start > end ==> r == Err::<Label, ReportError>(ReportError::InvalidSpan { start, end })
                && final(self).labels == old(self).labels,
            start <= end ==> (r matches Ok(l) && l@ == (LabelView {
                start,
                end,
                target: opt_str(path),
                message: opt_str(message),
                color: Some(
                    match color {
                        Some(c) => c,
                        None => nth_color(old(self).colors.count()),
                    },
                ),
                order,
                priority,
            }) && final(self).labels@.len() == old(self).labels@.len() + 1
                && final(self).labels@[old(self).labels@.len() as int]@ == l@
                && (forall|i: int|
                    0 <= i < old(self).labels@.len()
                        ==> final(self).labels@[i] == old(self).labels@[i])),
    {
        let eff: Option<Color> = match color {
            Some(c) => Some(c),
            None => Some(self.colors.next()),
        };
        let bare = match Label::new(start, end) {
            Ok(b) => b,
            Err(e) => {
                return Err(e);
            },
        };
        let built = bare.set_params(path, message, eff, order, priority);
        let kept = built.copy(None, None, None, None);
        self.labels.push(kept);
        Ok(built)
    }

    /// The ordered source list handed to the external rendering engine:
    /// the primary source first, then every auxiliary source in attachment
    /// order, as `(path, text)` pairs — duplicates preserved, never merged.
    pub fn prepare_files(&self) -> (fs: Vec<(String, String)>)
        ensures
            fs@.len() == 1 + self.files@.len(),
            fs@[0].0@ == self.source.path@,
            fs@[0].1@ == self.source.text@,
            forall|i: int|
                0 <= i < self.files@.len() ==> fs@[i + 1].0@ == self.files@[i].path@ && fs@[i
                    + 1].1@ == self.files@[i].text@,
    {
        let mut fs: Vec<(String, String)> = Vec::new();
        fs.push(self.source.pair());
        let mut i: usize = 0;
        while i < self.files.len()
            invariant
                i <= self.files@.len(),
                fs@.len() == 1 + i,
                fs@[0].0@ == self.source.path@,
                fs@[0].1@ == self.source.text@,
                forall|j: int|
                    0 <= j < i ==> fs@[j + 1].0@ == self.files@[j].path@ && fs@[j + 1].1@
                        == self.files@[j].text@,
            decreases self.files@.len() - i,
        {
            fs.push(self.files[i].pair());
            i += 1;
        }
        fs
    }

    /// The labels as the rendering engine receives them: each label whose
    /// target is unset resolves to the primary source path, computed fresh
    /// here without mutating the stored labels.
    pub fn resolved_labels(&self) -> (ls: Vec<Label>)
        ensures
            ls@.len() == self.labels@.len(),
            forall|i: int|
                0 <= i < ls@.len() ==> ls@[i]@ == resolved_view(
                    self.labels@[i]@,
                    self.source.path@,
                ),
    {
        let mut ls: Vec<Label> = Vec::new();
        let mut i: usize = 0;
        while i < self.labels.len()
            invariant
                i <= self.labels@.len(),
                ls@.len() == i,
                forall|j: int|
                    0 <= j < i ==> ls@[j]@ == resolved_view(self.labels@[j]@, self.source.path@),
            decreases self.labels@.len() - i,
        {
            let l = &self.labels[i];
            let resolved = Label {
                start: l.start,
                end: l.end,
                target: Some(l.resolved_target(self.source.path.as_str())),
                message: clone_opt_string(&l.message),
                color: l.color,
                order: l.order,
                priority: l.priority,
            };
            ls.push(resolved);
            i += 1;
        }
        ls
    }
}

} // verus!
