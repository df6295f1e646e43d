use symbol_lookup::{
    add_entry, console_from, console_query, extract_command, no_results_reply, no_results_text,
    prelude_hit, reply_from, LookupError, PreludeError,
    prelude_paths, reply_target, Definition, PreludeTable, SourceSpan, SymbolKind,
};

fn def(qualname: &str) -> Definition {
    Definition {
        kind: SymbolKind::Trait,
        name: qualname.rsplit("::").next().unwrap_or("").to_string(),
        qualname: qualname.to_string(),
        docs: String::new(),
        span: SourceSpan { file: "ops.rs".to_string(), row_start: 0, row_end: 0, col_start: 0, col_end: 0 },
        parent: None,
    }
}

#[test]
fn channel_command_after_name_and_colon() {
    assert_eq!(extract_command("bot: Vec", "#rust", "bot"), Some("Vec"));
    assert_eq!(extract_command("  bot,  Option::Some  ", "#rust", "bot"), Some("Option::Some"));
}

#[test]
fn channel_message_without_separator_is_ignored() {
    assert_eq!(extract_command("botVec", "#rust", "bot"), None);
    assert_eq!(extract_command("hello bot: Vec", "#rust", "bot"), None);
    assert_eq!(extract_command("bot:   ", "#rust", "bot"), None);
    assert_eq!(extract_command("bot", "#rust", "bot"), None);
}

#[test]
fn direct_message_is_the_command() {
    assert_eq!(extract_command("  Vec ", "bot", "bot"), Some("Vec"));
    assert_eq!(extract_command("   ", "bot", "bot"), None);
}

#[test]
fn replies_go_to_sender_or_channel() {
    assert_eq!(reply_target("bot", "alice", "bot"), "alice");
    assert_eq!(reply_target("#rust", "alice", "bot"), "#rust");
}

#[test]
fn console_empty_line_ends_session() {
    assert_eq!(console_query(""), None);
    assert_eq!(console_query(" \t "), None);
    assert_eq!(console_query("  Vec\n"), Some("Vec"));
}

#[test]
fn no_results_messages() {
    assert_eq!(no_results_reply("  Foo "), "No results for \"Foo\".");
    assert_eq!(no_results_text(" Foo"), "No results for \"Foo\"");
}

#[test]
fn prelude_table_is_keyed_by_exact_text() {
    let mut t = PreludeTable::new();
    t.insert("Drop", def("ops::Drop"));
    t.insert("Vec", def("vec::Vec"));
    assert_eq!(t.get("Drop").map(|d| d.qualname.as_str()), Some("ops::Drop"));
    assert!(t.get("ops::Drop").is_none());
    assert!(t.get("drop").is_none());
    assert_eq!(prelude_hit(&t, "  Drop \n").map(|d| d.qualname.as_str()), Some("ops::Drop"));
    assert!(prelude_hit(&t, "ops::Drop").is_none());
}

#[test]
fn prelude_table_later_entry_wins() {
    let mut t = PreludeTable::new();
    t.insert("Some", def("option::Some"));
    t.insert("Some", def("option::Option::Some"));
    assert_eq!(t.get("Some").map(|d| d.qualname.as_str()), Some("option::Option::Some"));
    assert!(PreludeTable::new().get("Some").is_none());
}

#[test]
fn prelude_paths_list() {
    let p = prelude_paths();
    assert_eq!(p.len(), 36);
    assert_eq!(p[0], "marker::Copy");
    assert!(p.contains(&"ops::Drop"));
    assert!(p.contains(&"mem::drop"));
    assert_eq!(p[35], "vec::Vec");
}

#[test]
fn add_entry_stores_or_reports() {
    let mut t = PreludeTable::new();
    assert!(add_entry(&mut t, "ops::Drop", Ok(Some(def("ops::Drop")))).is_ok());
    assert_eq!(t.get("Drop").map(|d| d.qualname.as_str()), Some("ops::Drop"));
    assert!(add_entry(&mut t, "mem::drop", Ok(Some(def("mem::drop")))).is_ok());
    assert_eq!(t.get("drop").map(|d| d.qualname.as_str()), Some("mem::drop"));
    match add_entry(&mut t, "vec::Vec", Ok(None)) {
        Err(PreludeError::Missing(p)) => assert_eq!(p, "vec::Vec"),
        _ => panic!("expected a missing item"),
    }
    match add_entry(&mut t, "vec::Vec", Err(LookupError::SearchFailed)) {
        Err(PreludeError::SearchFailed(p)) => assert_eq!(p, "vec::Vec"),
        _ => panic!("expected a failed search"),
    }
    assert!(t.get("Vec").is_none());
}

#[test]
fn replies_from_lookup_outcomes() {
    let found = Ok(Some(def("ops::Drop")));
    assert_eq!(reply_from("Drop", &found, Some("u")), "Trait ops::Drop: (no docs available) - u");
    assert_eq!(console_from("Drop", &found, Some("u")), "Trait ops::Drop\n    u");
    assert_eq!(reply_from(" Drop", &Ok(None), None), "No results for \"Drop\".");
    assert_eq!(reply_from("Drop", &Err(LookupError::SearchFailed), None), "No results for \"Drop\".");
    assert_eq!(console_from("Drop ", &Ok(None), None), "No results for \"Drop\"");
}
