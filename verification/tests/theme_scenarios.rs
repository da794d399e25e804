use concord::theme::{
    parse_theme_options, BorderShape, BorderSurface, HighlightGroup, HighlightLinkOptions,
};

#[test]
fn theme_file_sets_highlights_and_borders() {
    let (options, warnings) = parse_theme_options(
        r#"
[highlight.Normal]
foreground = "white"
bold = true

[highlight.Error]
link = "Warning"

[highlight.Title]
link = "none"
italic = false

[ui.border]
default = "rounded"
composer = "double"
"#,
    )
    .expect("theme is valid TOML");

    assert!(warnings.is_empty(), "unexpected warnings: {warnings:?}");
    let normal = HighlightGroup::from_name("Normal").expect("Normal is a group");
    let error = HighlightGroup::from_name("Error").expect("Error is a group");
    let warning = HighlightGroup::from_name("Warning").expect("Warning is a group");
    let title = HighlightGroup::from_name("Title").expect("Title is a group");
    assert_eq!(normal.index, 0);
    let normal_def = options.highlights().get(normal.index as u64).expect("Normal is set");
    assert_eq!(normal_def.foreground.as_deref(), Some("white"));
    assert_eq!(normal_def.bold, Some(true));
    assert_eq!(normal_def.italic, None);
    let error_def = options.highlights().get(error.index as u64).expect("Error is set");
    assert_eq!(error_def.link, Some(HighlightLinkOptions::Inherit(warning)));
    let title_def = options.highlights().get(title.index as u64).expect("Title is set");
    assert_eq!(title_def.link, Some(HighlightLinkOptions::Detached));
    assert_eq!(title_def.italic, Some(false));
    assert_eq!(options.border_shapes().default, Some(BorderShape::Rounded));
    assert_eq!(options.border_shapes().get(BorderSurface::Composer), Some(BorderShape::Double));
    assert_eq!(options.border_shapes().get(BorderSurface::Pane), None);
}

#[test]
fn theme_file_skips_bad_entries_with_warnings() {
    let (options, warnings) = parse_theme_options(
        r#"
colors = 3

[highlight]
NoSuchGroup = { bold = true }
Normal = "red"

[highlight.Muted]
bold = "yes"
sparkle = true
link = "Nowhere"

[ui]
width = 3

[ui.border]
pane = "zigzag"
nowhere = "plain"
modal = 4
"#,
    )
    .expect("theme is valid TOML");

    assert_eq!(
        warnings,
        vec![
            "[colors] is unknown and was ignored".to_owned(),
            "[highlight.Muted] bold must be a boolean and was ignored".to_owned(),
            "[highlight.Muted] link references unknown group Nowhere and was ignored".to_owned(),
            "[highlight.Muted] sparkle is unknown and was ignored".to_owned(),
            "[highlight] NoSuchGroup is unknown and was ignored".to_owned(),
            "[highlight.Normal] must be a table and was ignored".to_owned(),
            "[ui.border] modal must be a string and was ignored".to_owned(),
            "[ui.border] nowhere is unknown and was ignored".to_owned(),
            "[ui.border] pane = \"zigzag\" is not a supported border shape and was ignored".to_owned(),
            "[ui] width is unknown and was ignored".to_owned(),
        ]
    );
    assert!(options.highlights().is_empty());
    assert_eq!(options.border_shapes().default, None);
}

#[test]
fn theme_file_that_is_not_toml_is_an_error() {
    assert!(parse_theme_options("[highlight\nbold = ").is_err());
}

#[test]
fn border_surfaces_and_shapes_have_names() {
    assert_eq!(BorderSurface::from_name("forum"), Some(BorderSurface::Forum));
    assert_eq!(BorderSurface::from_name("Forum"), None);
    assert!(BorderSurface::Message.rounded_by_default());
    assert!(!BorderSurface::Pane.rounded_by_default());
    assert_eq!(BorderShape::from_name("quadrant_outside"), Some(BorderShape::QuadrantOutside));
    assert_eq!(BorderShape::from_name("square"), None);
    let info = HighlightGroup::from_name("Info").expect("Info is a group");
    assert_eq!(info.name(), "Info");
    assert!(HighlightGroup::from_name("info").is_none());
}
