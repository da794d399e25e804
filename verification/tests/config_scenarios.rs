use concord::config_load::{
    filter_keymap, filter_section, keymap_action_map, lookup_section, not_applied, table_get,
    KeymapEntry, KeymapProbe, SectionLookup,
};
use concord::toml_doc::{parse_toml_document, TomlValue};

fn root(text: &str) -> Vec<(String, TomlValue)> {
    match parse_toml_document(text) {
        Ok(TomlValue::Table(entries)) => entries,
        other => panic!("not a table: {other:?}"),
    }
}

#[test]
fn missing_section_is_silent() {
    let doc = root("[display]\nshow_avatars = false\n");
    assert!(matches!(lookup_section(&doc, "voice"), SectionLookup::Missing));
}

#[test]
fn section_that_is_not_a_table_warns_and_uses_defaults() {
    let doc = root("display = 3\n");
    match lookup_section(&doc, "display") {
        SectionLookup::NotTable { warning } => {
            assert_eq!(warning, "[display] must be a table, using defaults");
        }
        _ => panic!("expected a warning"),
    }
}

#[test]
fn section_entries_come_back_in_document_order() {
    let doc = root("[display]\nshow_avatars = false\nmedia_playback = true\n");
    match lookup_section(&doc, "display") {
        SectionLookup::Entries(entries) => {
            let keys: Vec<&str> = entries.iter().map(|(k, _)| k.as_str()).collect();
            assert_eq!(keys, vec!["media_playback", "show_avatars"]);
        }
        _ => panic!("expected entries"),
    }
}

#[test]
fn table_get_finds_a_key() {
    let doc = root("a = 1\nb = \"two\"\n");
    assert!(matches!(table_get(&doc, "b"), Some(TomlValue::Str(s)) if s == "two"));
    assert!(table_get(&doc, "c").is_none());
}

#[test]
fn invalid_fields_are_dropped_one_at_a_time() {
    let doc = root("[display]\nmedia_playback = true\nshow_avatars = \"yes\"\nshow_images = false\n");
    let SectionLookup::Entries(entries) = lookup_section(&doc, "display") else {
        panic!("expected entries");
    };
    let errors = vec![
        None,
        Some("invalid type: string \"yes\", expected a boolean".to_owned()),
        None,
    ];
    let filtered = filter_section("display", entries, &errors);
    assert_eq!(filtered.kept, vec![0, 2]);
    assert_eq!(
        filtered.warnings,
        vec![
            "[display] show_avatars is invalid and was ignored: invalid type: string \"yes\", expected a boolean"
                .to_owned()
        ]
    );
}

#[test]
fn every_entry_is_kept_or_warned() {
    let doc = root("[voice]\na = 1\nb = 2\nc = 3\nd = 4\n");
    let SectionLookup::Entries(entries) = lookup_section(&doc, "voice") else {
        panic!("expected entries");
    };
    let errors = vec![Some("x".to_owned()), None, Some("y".to_owned()), None];
    let filtered = filter_section("voice", entries, &errors);
    assert_eq!(filtered.kept.len() + filtered.warnings.len(), entries.len());
    assert_eq!(filtered.kept, vec![1, 3]);
}

#[test]
fn not_applied_names_section_and_error() {
    assert_eq!(
        not_applied("keymap", "bad"),
        "[keymap] could not be applied, using defaults: bad"
    );
}

#[test]
fn keymap_action_maps_are_the_seven_named_tables() {
    for key in [
        "groups",
        "guild_actions",
        "channel_actions",
        "message_actions",
        "member_actions",
        "thread_actions",
        "composer",
    ] {
        assert!(keymap_action_map(key), "{key}");
    }
    assert!(!keymap_action_map("leader"));
    assert!(!keymap_action_map("quit"));
}

#[test]
fn keymap_drops_bad_bindings_one_at_a_time() {
    let doc = root(
        "[keymap]\nguild_actions = { open = \"o\", bad = true }\nmessage_actions = 5\nquit = \"q\"\nzap = 7\n",
    );
    let SectionLookup::Entries(table) = lookup_section(&doc, "keymap") else {
        panic!("expected entries");
    };
    let keys: Vec<&str> = table.iter().map(|(k, _)| k.as_str()).collect();
    assert_eq!(keys, vec!["guild_actions", "message_actions", "quit", "zap"]);
    let probes = vec![
        KeymapProbe::Bindings(vec![false, true]),
        KeymapProbe::Binding(false),
        KeymapProbe::Binding(true),
        KeymapProbe::Binding(false),
    ];
    let filtered = filter_keymap(table, &probes);
    assert_eq!(filtered.entries.len(), 2);
    assert!(matches!(
        &filtered.entries[0],
        KeymapEntry::ActionMap { entry: 0, bindings } if bindings == &vec![1]
    ));
    assert!(matches!(filtered.entries[1], KeymapEntry::Binding(2)));
    assert_eq!(
        filtered.warnings,
        vec![
            "[keymap.guild_actions] bad is invalid and was ignored".to_owned(),
            "[keymap.message_actions] must be a table, using defaults".to_owned(),
            "[keymap] zap is invalid and was ignored".to_owned(),
        ]
    );
}
