use std::ops::Range;

use theseus::color::Color;
use theseus::color_generator::ColorGenerator;
use theseus::config::Config;
use theseus::error::ReportError;
use theseus::label::Label;
use theseus::report::{Report, ReportKind, Source};

fn color_to_ariadne(c: Color) -> ariadne::Color {
    match c {
        Color::Primary => ariadne::Color::Primary,
        Color::Fixed(i) => ariadne::Color::Fixed(i),
        Color::Rgb(r, g, b) => ariadne::Color::Rgb(r, g, b),
        Color::Black => ariadne::Color::Black,
        Color::Red => ariadne::Color::Red,
        Color::Green => ariadne::Color::Green,
        Color::Yellow => ariadne::Color::Yellow,
        Color::Blue => ariadne::Color::Blue,
        Color::Magenta => ariadne::Color::Magenta,
        Color::Cyan => ariadne::Color::Cyan,
        Color::White => ariadne::Color::White,
        Color::BrightBlack => ariadne::Color::BrightBlack,
        Color::BrightRed => ariadne::Color::BrightRed,
        Color::BrightGreen => ariadne::Color::BrightGreen,
        Color::BrightYellow => ariadne::Color::BrightYellow,
        Color::BrightBlue => ariadne::Color::BrightBlue,
        Color::BrightMagenta => ariadne::Color::BrightMagenta,
        Color::BrightCyan => ariadne::Color::BrightCyan,
        Color::BrightWhite => ariadne::Color::BrightWhite,
    }
}

fn label_to_ariadne(l: &Label) -> ariadne::Label<(String, Range<usize>)> {
    let target = l.target.clone().expect("resolved labels always carry a target");
    let mut al = ariadne::Label::new((target, l.start..l.end));
    if let Some(m) = &l.message {
        al = al.with_message(m);
    }
    if let Some(c) = l.color {
        al = al.with_color(color_to_ariadne(c));
    }
    if let Some(o) = l.order {
        al = al.with_order(o);
    }
    if let Some(p) = l.priority {
        al = al.with_priority(p);
    }
    al
}

fn render_to_string(rep: &Report) -> String {
    let kind = match &rep.kind {
        ReportKind::Error => ariadne::ReportKind::Error,
        ReportKind::Warning => ariadne::ReportKind::Warning,
        ReportKind::Advice => ariadne::ReportKind::Advice,
        ReportKind::Custom(name, color) => {
            ariadne::ReportKind::Custom(name.as_str(), color_to_ariadne(*color))
        }
    };
    let mut builder =
        ariadne::Report::build(kind, (rep.source.path.clone(), rep.start..rep.end));
    if let Some(code) = &rep.code {
        builder = builder.with_code(code);
    }
    if let Some(msg) = &rep.message {
        builder = builder.with_message(msg);
    }
    builder.with_notes(rep.notes.clone());
    builder.with_helps(rep.helps.clone());
    for l in rep.resolved_labels() {
        builder = builder.with_label(label_to_ariadne(&l));
    }
    let finished = builder.finish();
    let cache = ariadne::sources(rep.prepare_files());
    let mut out: Vec<u8> = Vec::new();
    finished.write(cache, &mut out).expect("rendering must not fail");
    String::from_utf8_lossy(&out).into_owned()
}

fn plain_config() -> Config {
    let mut c = Config::default();
    c.color = false;
    c
}

#[test]
fn report_accepts_ordered_bounds() {
    let src = Source::new("main.rs".to_string(), "abc".to_string());
    let rep = Report::new(src, 0, 2, Config::default()).unwrap();
    assert_eq!(rep.start, 0);
    assert_eq!(rep.end, 2);
    assert_eq!(rep.kind, ReportKind::Error);
    assert!(rep.labels.is_empty());
    assert!(rep.notes.is_empty());
    assert!(rep.helps.is_empty());
    assert!(rep.files.is_empty());
}

#[test]
fn report_accepts_equal_bounds() {
    let src = Source::new("main.rs".to_string(), "abc".to_string());
    let rep = Report::new(src, 2, 2, Config::default()).unwrap();
    assert_eq!(rep.start, 2);
    assert_eq!(rep.end, 2);
}

#[test]
fn report_rejects_reversed_bounds() {
    let src = Source::new("main.rs".to_string(), "abc".to_string());
    let r = Report::new(src, 3, 1, Config::default());
    match r {
        Err(ReportError::InvalidSpan { start, end }) => {
            assert_eq!(start, 3);
            assert_eq!(end, 1);
        }
        _ => panic!("expected an InvalidSpan failure"),
    }
}

#[test]
fn label_method_rejects_reversed_bounds_without_appending() {
    let src = Source::new("main.rs".to_string(), "abc".to_string());
    let mut rep = Report::new(src, 0, 1, Config::default()).unwrap();
    let r = rep.label(5, 2, None, None, Some(Color::Red), None, None);
    assert_eq!(r, Err(ReportError::InvalidSpan { start: 5, end: 2 }));
    assert!(rep.labels.is_empty());
}

#[test]
fn auto_colored_labels_draw_the_report_palette() {
    let src = Source::new("main.rs".to_string(), "abcdef".to_string());
    let mut rep = Report::new(src, 0, 1, Config::default()).unwrap();
    let mut fresh = ColorGenerator::new();
    let l1 = rep.label(0, 1, None, Some("one"), None, None, None).unwrap();
    let l2 = rep.label(1, 2, None, Some("two"), None, None, None).unwrap();
    assert_eq!(l1.color, Some(fresh.next()));
    assert_eq!(l2.color, Some(fresh.next()));
    assert_eq!(rep.labels.len(), 2);
    assert_eq!(rep.labels[0], l1);
    assert_eq!(rep.labels[1], l2);
}

#[test]
fn explicit_label_color_skips_the_generator() {
    let src = Source::new("main.rs".to_string(), "abcdef".to_string());
    let mut rep = Report::new(src, 0, 1, Config::default()).unwrap();
    let l1 = rep.label(0, 1, None, None, Some(Color::Red), None, None).unwrap();
    assert_eq!(l1.color, Some(Color::Red));
    // the generator was not advanced, so the next draw is still the first color
    let mut fresh = ColorGenerator::new();
    assert_eq!(rep.color(), fresh.next());
}

#[test]
fn add_label_add_note_add_help_keep_order() {
    let src = Source::new("main.rs".to_string(), "abc".to_string());
    let mut rep = Report::new(src, 0, 1, Config::default()).unwrap();
    let l = Label::new(0, 1).unwrap();
    rep.add_label(l.clone());
    assert_eq!(rep.labels, vec![l]);
    rep.add_note("first note".to_string());
    rep.add_note("second note".to_string());
    rep.add_help("only help".to_string());
    assert_eq!(rep.notes, vec!["first note".to_string(), "second note".to_string()]);
    assert_eq!(rep.helps, vec!["only help".to_string()]);
}

#[test]
fn set_params_replaces_wholesale() {
    let src = Source::new("main.rs".to_string(), "abc".to_string());
    let rep = Report::new(src, 0, 1, Config::default()).unwrap();
    let labels = vec![Label::new(0, 1).unwrap()];
    let files = vec![Source::new("aux.rs".to_string(), "xyz".to_string())];
    let rep = rep.set_params(
        Some("E001".to_string()),
        Some("bad things".to_string()),
        ReportKind::Warning,
        labels.clone(),
        vec!["n".to_string()],
        vec!["h".to_string()],
        files.clone(),
    );
    assert_eq!(rep.code.as_deref(), Some("E001"));
    assert_eq!(rep.message.as_deref(), Some("bad things"));
    assert_eq!(rep.kind, ReportKind::Warning);
    assert_eq!(rep.labels, labels);
    assert_eq!(rep.files, files);
    assert_eq!(rep.source.path, "main.rs");
}

#[test]
fn prepare_files_lists_primary_then_auxiliary_in_order() {
    let src = Source::new("p".to_string(), "primary text".to_string());
    let rep = Report::new(src, 0, 1, Config::default()).unwrap();
    let rep = rep.set_params(
        None,
        None,
        ReportKind::Error,
        vec![],
        vec![],
        vec![],
        vec![
            Source::new("a".to_string(), "alpha".to_string()),
            Source::new("b".to_string(), "beta".to_string()),
        ],
    );
    let fs = rep.prepare_files();
    assert_eq!(
        fs,
        vec![
            ("p".to_string(), "primary text".to_string()),
            ("a".to_string(), "alpha".to_string()),
            ("b".to_string(), "beta".to_string()),
        ]
    );
}

#[test]
fn prepare_files_preserves_duplicate_paths() {
    let src = Source::new("same".to_string(), "one".to_string());
    let rep = Report::new(src, 0, 1, Config::default()).unwrap();
    let rep = rep.set_params(
        None,
        None,
        ReportKind::Error,
        vec![],
        vec![],
        vec![],
        vec![
            Source::new("same".to_string(), "two".to_string()),
            Source::new("same".to_string(), "three".to_string()),
        ],
    );
    let fs = rep.prepare_files();
    assert_eq!(fs.len(), 3);
    assert_eq!(fs[0], ("same".to_string(), "one".to_string()));
    assert_eq!(fs[1], ("same".to_string(), "two".to_string()));
    assert_eq!(fs[2], ("same".to_string(), "three".to_string()));
}

#[test]
fn resolution_targets_primary_and_explicit_sources() {
    let src = Source::new("main.txt".to_string(), "line one\nline two".to_string());
    let mut rep = Report::new(src, 0, 4, plain_config()).unwrap();
    rep.add_label(Label::new(0, 4).unwrap().set_params(None, Some("here"), None, None, None));
    rep.add_label(Label::new(0, 3).unwrap().set_params(
        Some("other.txt"),
        Some("there"),
        None,
        None,
        None,
    ));
    let rep = {
        let mut r = rep;
        r.files.push(Source::new("other.txt".to_string(), "beta text".to_string()));
        r
    };
    let resolved = rep.resolved_labels();
    assert_eq!(resolved.len(), 2);
    assert_eq!(resolved[0].target.as_deref(), Some("main.txt"));
    assert_eq!(resolved[1].target.as_deref(), Some("other.txt"));
    // the stored labels are not mutated by resolution
    assert_eq!(rep.labels[0].target, None);
    // and the whole report renders against both sources
    let out = render_to_string(&rep);
    assert!(out.contains("here"));
    assert!(out.contains("there"));
    assert!(out.contains("other.txt"));
}

#[test]
fn end_to_end_render_contains_label_message() {
    let src = Source::new("<string>".to_string(), "abc".to_string());
    let mut rep = Report::new(src, 0, 1, plain_config()).unwrap();
    rep.label(0, 1, None, Some("m"), None, None, None).unwrap();
    let out = render_to_string(&rep);
    assert!(out.contains("m"));
}
