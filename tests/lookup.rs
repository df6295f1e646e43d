use rls_analysis::Id;
use symbol_lookup::{
    accepts, conclude_lookup, parse_query, pick_candidate, select_candidate, Candidate,
    Definition, LookupError, ParentLink, SourceSpan,
    SymbolKind,
};

fn def(kind: SymbolKind, qualname: &str, docs: &str, parent: Option<Id>) -> Definition {
    let name = qualname.rsplit("::").next().unwrap_or("").to_string();
    Definition {
        kind,
        name,
        qualname: qualname.to_string(),
        docs: docs.to_string(),
        span: SourceSpan { file: "lib.rs".to_string(), row_start: 0, row_end: 0, col_start: 0, col_end: 3 },
        parent,
    }
}

fn resolved(qualname: &str, link: ParentLink) -> Candidate {
    let parent = match link {
        ParentLink::Absent => None,
        _ => Some(Id::new(7)),
    };
    Candidate::Resolved(def(SymbolKind::Struct, qualname, "", parent), link)
}

fn named(n: &str) -> ParentLink {
    ParentLink::Named(n.to_string())
}

#[test]
fn single_segment_takes_first_resolved() {
    let cs = vec![
        Candidate::Unresolved,
        resolved("a::Vec", ParentLink::Absent),
        resolved("b::Vec", ParentLink::Absent),
    ];
    assert_eq!(select_candidate("Vec", &cs), Some(1));
}

#[test]
fn single_segment_follows_given_order() {
    let cs = vec![resolved("b::Vec", ParentLink::Absent), resolved("a::Vec", ParentLink::Absent)];
    assert_eq!(select_candidate("  Vec  ", &cs), Some(0));
}

#[test]
fn single_segment_ignores_parent_link() {
    let cs = vec![Candidate::Unresolved, resolved("x::Vec", ParentLink::Unresolved)];
    assert_eq!(select_candidate("Vec", &cs), Some(1));
}

#[test]
fn single_segment_all_unresolved() {
    let cs = vec![Candidate::Unresolved, Candidate::Unresolved];
    assert_eq!(select_candidate("Vec", &cs), None);
}

#[test]
fn qualified_query_picks_exact_parent_either_order() {
    let some_of_result = || resolved("result::Some", named("Result"));
    let some_of_option = || resolved("option::Option::Some", named("Option"));
    let first = vec![some_of_result(), some_of_option()];
    assert_eq!(select_candidate("Option::Some", &first), Some(1));
    let second = vec![some_of_option(), some_of_result()];
    assert_eq!(select_candidate("Option::Some", &second), Some(0));
}

#[test]
fn qualified_query_parent_name_must_be_exact() {
    let cs = vec![resolved("x::Some", named("Optional")), resolved("y::Some", named("option"))];
    assert_eq!(select_candidate("Option::Some", &cs), None);
}

#[test]
fn qualified_query_substring_fallback_without_parent() {
    let cs = vec![
        resolved("core::ops::Iterator", ParentLink::Absent),
        resolved("core::iter::Iterator", ParentLink::Absent),
    ];
    assert_eq!(select_candidate("iter::Iterator", &cs), Some(1));
    let loose = vec![resolved("core::iterator::Iterator", ParentLink::Absent)];
    assert_eq!(select_candidate("iter::Iterator", &loose), Some(0));
}

#[test]
fn qualified_query_skips_unresolved_parent_and_candidate() {
    let cs = vec![
        Candidate::Unresolved,
        resolved("ops::Drop", ParentLink::Unresolved),
        resolved("ops::Drop", named("ops")),
    ];
    assert_eq!(select_candidate("ops::Drop", &cs), Some(2));
}

#[test]
fn qualified_query_uses_segment_before_leaf() {
    let cs = vec![resolved("std::vec::Vec", named("std")), resolved("std::vec::Vec", named("vec"))];
    assert_eq!(select_candidate("std::vec::Vec", &cs), Some(1));
}

#[test]
fn empty_query_selects_nothing() {
    let cs = vec![resolved("a::Vec", ParentLink::Absent)];
    assert_eq!(select_candidate("", &cs), None);
    assert_eq!(select_candidate(" \t\n", &cs), None);
    assert!(parse_query("   ").is_none());
}

#[test]
fn parse_query_splits_segments() {
    let p = parse_query("  std::vec::Vec ").unwrap();
    assert_eq!(p.leaf, "Vec");
    assert_eq!(p.parent, Some("vec"));
    let single = parse_query("Vec").unwrap();
    assert_eq!(single.leaf, "Vec");
    assert_eq!(single.parent, None);
    let trailing = parse_query("Vec::").unwrap();
    assert_eq!(trailing.leaf, "");
    assert_eq!(trailing.parent, Some("Vec"));
}

#[test]
fn accepts_follows_the_acceptance_rule() {
    assert!(!accepts(None, &Candidate::Unresolved));
    assert!(accepts(None, &resolved("a::B", ParentLink::Unresolved)));
    assert!(accepts(Some("a"), &resolved("x::a::B", ParentLink::Absent)));
    assert!(!accepts(Some("a"), &resolved("x::y::B", ParentLink::Absent)));
    assert!(!accepts(Some("a"), &resolved("a::B", ParentLink::Unresolved)));
    assert!(accepts(Some("a"), &resolved("z::B", named("a"))));
    assert!(!accepts(Some("a"), &resolved("a::B", named("ab"))));
}

#[test]
fn vec_scenario_picks_the_single_candidate() {
    let d = def(
        SymbolKind::Struct,
        "vec::Vec",
        "A contiguous growable array type.\n\nExamples\n...",
        None,
    );
    let found = conclude_lookup(" Vec", Ok(vec![Candidate::Resolved(d, ParentLink::Absent)]));
    match found {
        Ok(Some(d)) => {
            assert_eq!(d.qualname, "vec::Vec");
            assert_eq!(d.docs, "A contiguous growable array type.\n\nExamples\n...");
        }
        _ => panic!("expected the Vec definition"),
    }
}

#[test]
fn option_some_scenario_in_either_order() {
    let of_option = || resolved("option::Option::Some", named("Option"));
    let of_result = || resolved("result::Result::Some", named("Result"));
    for cs in [vec![of_option(), of_result()], vec![of_result(), of_option()]] {
        match conclude_lookup("Option::Some", Ok(cs)) {
            Ok(Some(d)) => assert_eq!(d.qualname, "option::Option::Some"),
            _ => panic!("expected the candidate whose parent is Option"),
        }
    }
}

#[test]
fn single_word_lookup_takes_first_resolved_in_order() {
    let cs = vec![
        Candidate::Unresolved,
        resolved("b::Vec", ParentLink::NotLooked),
        resolved("a::Vec", ParentLink::Absent),
    ];
    match pick_candidate("Vec", cs) {
        Some(d) => assert_eq!(d.qualname, "b::Vec"),
        None => panic!("expected a definition"),
    }
    assert!(pick_candidate("Vec", vec![Candidate::Unresolved]).is_none());
    assert!(pick_candidate("Vec", Vec::new()).is_none());
}

#[test]
fn qualified_lookup_without_accepted_candidate_is_none() {
    let cs = vec![resolved("x::Some", ParentLink::NotLooked), resolved("y::Some", named("Result"))];
    assert!(matches!(conclude_lookup("Option::Some", Ok(cs)), Ok(None)));
}

#[test]
fn failed_search_outcome_is_kept() {
    assert!(matches!(conclude_lookup("Vec", Err(LookupError::SearchFailed)), Err(LookupError::SearchFailed)));
}
