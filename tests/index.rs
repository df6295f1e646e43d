use rls_analysis::{AnalysisHost, Target};
use symbol_lookup::{
    answer_query, build_prelude, build_table, dispatch, find_def, format_def, reply_to_command,
    resolve_candidates, AnalysisIndex, Definition, LookupError, PreludeError, PreludeTable,
    SourceSpan, SymbolKind,
};

/// An index whose host never loaded any data: every question to it fails.
fn unloaded() -> AnalysisIndex {
    AnalysisIndex { host: AnalysisHost::new(Target::Debug) }
}

fn vec_def() -> Definition {
    Definition {
        kind: SymbolKind::Struct,
        name: "Vec".to_string(),
        qualname: "vec::Vec".to_string(),
        docs: "A contiguous growable array type.\n\nExamples\n...".to_string(),
        span: SourceSpan { file: "vec.rs".to_string(), row_start: 1, row_end: 1, col_start: 0, col_end: 3 },
        parent: None,
    }
}

#[test]
fn empty_query_asks_nothing_of_the_index() {
    let index = unloaded();
    assert!(matches!(find_def("   ", &index), Ok(None)));
    assert!(matches!(resolve_candidates("", &index), Ok(ref v) if v.is_empty()));
}

#[test]
fn failed_search_is_an_error() {
    let index = unloaded();
    assert!(matches!(find_def("Vec", &index), Err(LookupError::SearchFailed)));
    assert!(matches!(find_def("Option::Some", &index), Err(LookupError::SearchFailed)));
    assert!(resolve_candidates("Vec", &index).is_err());
}

#[test]
fn table_of_no_paths_is_empty() {
    let index = unloaded();
    let table = build_table(&Vec::new(), &index).ok().unwrap();
    assert!(table.get("Vec").is_none());
}

#[test]
fn table_build_stops_at_failed_path() {
    let index = unloaded();
    match build_table(&vec!["vec::Vec", "ops::Drop"], &index) {
        Err(PreludeError::SearchFailed(p)) => assert_eq!(p, "vec::Vec"),
        _ => panic!("expected a failed search"),
    }
    match build_prelude(&index) {
        Err(PreludeError::SearchFailed(p)) => assert_eq!(p, "marker::Copy"),
        _ => panic!("expected a failed search"),
    }
}

#[test]
fn dispatch_prefers_prelude_and_falls_through() {
    let index = unloaded();
    let mut table = PreludeTable::new();
    table.insert("Vec", vec_def());
    match dispatch(&table, &index, "  Vec ") {
        Ok(Some(d)) => assert_eq!(d.qualname, "vec::Vec"),
        _ => panic!("expected the prelude entry"),
    }
    assert!(matches!(dispatch(&table, &index, "vec::Vec"), Err(LookupError::SearchFailed)));
    assert!(matches!(dispatch(&table, &index, " "), Ok(None)));
}

#[test]
fn replies_through_an_index_without_urls() {
    let index = unloaded();
    let mut table = PreludeTable::new();
    table.insert("Vec", vec_def());
    assert_eq!(
        reply_to_command(&table, &index, "Vec"),
        "Struct vec::Vec: A contiguous growable array type."
    );
    assert_eq!(reply_to_command(&table, &index, " Nope "), "No results for \"Nope\".");
    assert_eq!(answer_query(&table, &index, "Vec"), "Struct vec::Vec: A contiguous growable array type.");
    assert_eq!(answer_query(&table, &index, "Nope"), "No results for \"Nope\"");
    assert_eq!(format_def(&vec_def(), &index), "Struct vec::Vec: A contiguous growable array type.");
}
