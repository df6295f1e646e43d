use vstd::prelude::*;
use crate::definition::Definition;
use crate::lookup::{
    find_def, is_lookup_outcome, leaf_name, parse_query, path_sep, segments, LookupError,
};
use crate::provider::AnalysisIndex;
use crate::text::{
    lemma_many_pieces_hold_sep, lemma_pieces_lack_sep, lemma_split_nonempty, occurs_in, same_text, split_all, trim,
    trimmed, views,
};

verus! {

/// The map that a list of entries describes, a later entry replacing an
/// earlier one of the same key.
pub open spec fn entries_map(es: Seq<(String, Definition)>) -> Map<Seq<char>, Definition>
    decreases es.len(),
{
    if es.len() == 0 {
        Map::empty()
    } else {
        entries_map(es.drop_last()).insert(es.last().0@, es.last().1)
    }
}

/// Definitions keyed by short name, consulted before the general lookup.
pub struct PreludeTable {
    entries: Vec<(String, Definition)>,
}

impl View for PreludeTable {
    type V = Map<Seq<char>, Definition>;

    closed spec fn view(&self) -> Map<Seq<char>, Definition> {
        entries_map(self.entries@)
    }
}

/// The fully qualified paths of the well-known items.
pub open spec fn prelude_path_list() -> Seq<Seq<char>> {
    seq![
        "marker::Copy"@, "marker::Sized"@, "marker::Send"@, "marker::Sync"@, "ops::Drop"@,
        "ops::Fn"@, "ops::FnMut"@, "ops::FnOnce"@, "mem::drop"@, "boxed::Box"@,
        "borrow::ToOwned"@, "clone::Clone"@, "cmp::PartialEq"@, "cmp::PartialOrd"@,
        "cmp::Eq"@, "cmp::Ord"@, "convert::AsRef"@, "convert::AsMut"@, "convert::Into"@,
        "convert::From"@, "default::Default"@, "iter::Iterator"@, "iter::Extend"@,
        "iter::IntoIterator"@, "iter::DoubleEndedIterator"@, "iter::ExactSizeIterator"@,
        "option::Option"@, "Option::Some"@, "Option::None"@, "result::Result"@,
        "Result::Ok"@, "Result::Err"@, "slice::SliceConcatExt"@, "string::String"@,
        "string::ToString"@, "vec::Vec"@,
    ]
}

/// The fully qualified paths of the well-known items that the table holds.
pub fn prelude_paths() -> (r: Vec<&'static str>)
    ensures
        views(r@) == prelude_path_list(),
{
    let r = vec![
        "marker::Copy", "marker::Sized", "marker::Send", "marker::Sync", "ops::Drop",
        "ops::Fn", "ops::FnMut", "ops::FnOnce", "mem::drop", "boxed::Box",
        "borrow::ToOwned", "clone::Clone", "cmp::PartialEq", "cmp::PartialOrd",
        "cmp::Eq", "cmp::Ord", "convert::AsRef", "convert::AsMut", "convert::Into",
        "convert::From", "default::Default", "iter::Iterator", "iter::Extend",
        "iter::IntoIterator", "iter::DoubleEndedIterator", "iter::ExactSizeIterator",
        "option::Option", "Option::Some", "Option::None", "result::Result",
        "Result::Ok", "Result::Err", "slice::SliceConcatExt", "string::String",
        "string::ToString", "vec::Vec",
    ];
    assert(views(r@) =~= prelude_path_list());
    r
}

impl PreludeTable {
    /// An empty table.
    pub fn new() -> (r: PreludeTable)
        ensures
            r@ == Map::<Seq<char>, Definition>::empty(),
    {
        PreludeTable { entries: Vec::new() }
    }

    /// Stores `def` under `key`, replacing what was stored there.
    pub fn insert(&mut self, key: &str, def: Definition)
        ensures
            final(self)@ == old(self)@.insert(key@, def),
    {
        let ghost before = self.entries@;
        self.entries.push((String::from_str(key), def));
        proof {
            assert(self.entries@.drop_last() =~= before);
        }
    }

    /// The definition stored under exactly `key`.
    pub fn get(&self, key: &str) -> (r: Option<&Definition>)
        ensures
            r is None <==> !self@.contains_key(key@),
            r matches Some(d) ==> *d == self@[key@],
    {
        let ghost es = self.entries@;
        let mut i: usize = self.entries.len();
        proof {
            assert(es.subrange(0, i as int) =~= es);
        }
        while i > 0
            invariant
                es == self.entries@,
                i <= es.len(),
                entries_map(es).contains_key(key@) == entries_map(es.subrange(0, i as int)).contains_key(key@),
                entries_map(es).contains_key(key@) ==> entries_map(es)[key@] == entries_map(
                    es.subrange(0, i as int),
                )[key@],
            decreases i,
        {
            let ghost sub = es.subrange(0, i as int);
            proof {
                assert(sub.drop_last() =~= es.subrange(0, i - 1));
            }
            if same_text(self.entries[i - 1].0.as_str(), key) {
                return Some(&self.entries[i - 1].1);
            }
            i = i - 1;
        }
        None
    }
}

/// Why the prelude table could not be built.
pub enum PreludeError {
    /// The index could not enumerate candidates for this path.
    SearchFailed(String),
    /// No candidate for this path passed the acceptance test.
    Missing(String),
}

/// The set of leaf names of the first `n` paths.
pub open spec fn leaves_of(paths: Seq<Seq<char>>, n: int) -> Set<Seq<char>> {
    Set::new(|k: Seq<char>| exists|j: int| 0 <= j < n && #[trigger] leaf_name(paths[j]) == k)
}

/// No path after the `j`-th, among the first `n`, has the same leaf name.
pub open spec fn last_with_leaf(paths: Seq<Seq<char>>, j: int, n: int) -> bool {
    forall|m: int| j < m < n ==> leaf_name(#[trigger] paths[m]) != leaf_name(paths[j])
}

/// Stores what the lookup of `path` found under the path's leaf name; a
/// lookup that found nothing, or failed, is reported with the path instead.
pub fn add_entry(table: &mut PreludeTable, path: &str, found: Result<Option<Definition>, LookupError>) -> (r: Result<(), PreludeError>)
    ensures
        r is Ok ==> (found matches Ok(Some(d)) && segments(path@).len() != 0 && final(table)@
            == old(table)@.insert(leaf_name(path@), d)),
        found is Ok && found->Ok_0 is Some && segments(path@).len() != 0 ==> r is Ok,
        found matches Ok(None) ==> (r matches Err(PreludeError::Missing(p)) && p@ == path@),
        found is Err ==> (r matches Err(PreludeError::SearchFailed(p)) && p@ == path@),
        r is Err ==> final(table)@ == old(table)@,
{
    match found {
        Err(_) => Err(PreludeError::SearchFailed(String::from_str(path))),
        Ok(None) => Err(PreludeError::Missing(String::from_str(path))),
        Ok(Some(def)) => match parse_query(path) {
            None => Err(PreludeError::Missing(String::from_str(path))),
            Some(parts) => {
                table.insert(parts.leaf, def);
                Ok(())
            },
        },
    }
}

/// Looks up each path and stores what it resolves to under the path's leaf
/// name (`add_entry`), a later path replacing an earlier one of the same
/// leaf. Fails on the first path that does not resolve.
pub fn build_table(paths: &Vec<&str>, index: &AnalysisIndex) -> (r: Result<PreludeTable, PreludeError>)
    ensures
        r matches Ok(t) ==> t@.dom() == leaves_of(views(paths@), paths@.len() as int) && forall|j: int|
            0 <= j < paths@.len() ==> #[trigger] segments(paths@[j]@).len() != 0,
        r matches Ok(t) ==> forall|j: int|
            0 <= j < paths@.len() && #[trigger] last_with_leaf(views(paths@), j, paths@.len() as int)
                ==> is_lookup_outcome(paths@[j]@, Ok(Some(t@[leaf_name(paths@[j]@)]))),
        r matches Err(PreludeError::Missing(p)) ==> exists|j: int|
            0 <= j < paths@.len() && #[trigger] paths@[j]@ == p@,
        r matches Err(PreludeError::SearchFailed(p)) ==> exists|j: int|
            0 <= j < paths@.len() && #[trigger] paths@[j]@ == p@,
{
    let ghost ps = views(paths@);
    let mut table = PreludeTable::new();
    let mut i: usize = 0;
    proof {
        assert(table@.dom() =~= leaves_of(ps, 0));
    }
    while i < paths.len()
        invariant
            ps == views(paths@),
            i <= paths@.len(),
            table@.dom() == leaves_of(ps, i as int),
            forall|j: int| 0 <= j < i ==> #[trigger] segments(paths@[j]@).len() != 0,
            forall|j: int|
                0 <= j < i && #[trigger] last_with_leaf(ps, j, i as int) ==> is_lookup_outcome(
                    ps[j],
                    Ok(Some(table@[leaf_name(ps[j])])),
                ),
        decreases paths@.len() - i,
    {
        let path = paths[i];
        let found = find_def(path, index);
        let ghost gf = found;
        let ghost before = table@;
        match add_entry(&mut table, path, found) {
            Err(e) => {
                return Err(e);
            },
            Ok(()) => {},
        }
        proof {
            assert(ps[i as int] == path@);
            let d = gf->Ok_0->Some_0;
            assert(table@ == before.insert(leaf_name(path@), d));
            assert(table@.dom() =~= leaves_of(ps, i + 1)) by {
                assert forall|k: Seq<char>| leaves_of(ps, i + 1).contains(k) implies #[trigger] table@.dom().contains(k) by {
                    let j = choose|j: int| 0 <= j < i + 1 && #[trigger] leaf_name(ps[j]) == k;
                    if j < i {
                        assert(before.dom().contains(k));
                    }
                }
            }
            assert forall|j: int|
                0 <= j < i + 1 && #[trigger] last_with_leaf(ps, j, i + 1) implies is_lookup_outcome(
                ps[j],
                Ok(Some(table@[leaf_name(ps[j])])),
            ) by {
                if j < i {
                    assert(last_with_leaf(ps, j, i as int));
                    assert(leaf_name(ps[i as int]) != leaf_name(ps[j]));
                }
            }
        }
        i = i + 1;
    }
    Ok(table)
}

/// The table of the well-known items, keyed by their leaf names.
pub fn build_prelude(index: &AnalysisIndex) -> (r: Result<PreludeTable, PreludeError>)
    ensures
        r matches Ok(t) ==> t@.dom() == leaves_of(prelude_path_list(), 36) && forall|j: int|
            0 <= j < 36 ==> #[trigger] segments(prelude_path_list()[j]).len() != 0,
        r matches Ok(t) ==> forall|j: int|
            0 <= j < 36 && #[trigger] last_with_leaf(prelude_path_list(), j, 36) ==> is_lookup_outcome(
                prelude_path_list()[j],
                Ok(Some(t@[leaf_name(prelude_path_list()[j])])),
            ),
        r matches Err(PreludeError::Missing(p)) ==> prelude_path_list().contains(p@),
        r matches Err(PreludeError::SearchFailed(p)) ==> prelude_path_list().contains(p@),
{
    let paths = prelude_paths();
    let r = build_table(&paths, index);
    proof {
        assert(views(paths@).len() == 36);
        match r {
            Err(PreludeError::Missing(ref p)) => {
                let j = choose|j: int| 0 <= j < paths@.len() && #[trigger] paths@[j]@ == p@;
                assert(prelude_path_list()[j] == p@);
            },
            Err(PreludeError::SearchFailed(ref p)) => {
                let j = choose|j: int| 0 <= j < paths@.len() && #[trigger] paths@[j]@ == p@;
                assert(prelude_path_list()[j] == p@);
            },
            Ok(ref t) => {
                assert forall|j: int|
                    0 <= j < 36 && #[trigger] last_with_leaf(prelude_path_list(), j, 36) implies is_lookup_outcome(
                    prelude_path_list()[j],
                    Ok(Some(t@[leaf_name(prelude_path_list()[j])])),
                ) by {
                    assert(views(paths@)[j] == paths@[j]@);
                }
                assert forall|j: int| 0 <= j < 36 implies #[trigger] segments(
                    prelude_path_list()[j],
                ).len() != 0 by {
                    assert(views(paths@)[j] == paths@[j]@);
                }
            },
        }
    }
    r
}

/// A query of two or more segments is none of the leaf names of a list of
/// paths, so a table keyed by those leaf names never answers it: the general
/// lookup does.
pub proof fn law_qualified_query_bypasses_prelude(paths: Seq<Seq<char>>, q: Seq<char>)
    requires
        forall|j: int| 0 <= j < paths.len() ==> #[trigger] segments(paths[j]).len() != 0,
        segments(q).len() >= 2,
    ensures
        !leaves_of(paths, paths.len() as int).contains(trimmed(q)),
{
    lemma_many_pieces_hold_sep(trimmed(q), path_sep(), 0);
    assert forall|j: int| 0 <= j < paths.len() implies #[trigger] leaf_name(paths[j]) != trimmed(
        q,
    ) by {
        let t = trimmed(paths[j]);
        lemma_pieces_lack_sep(t, path_sep(), 0);
        lemma_split_nonempty(t, path_sep(), 0);
        let ps = split_all(t, path_sep());
        assert(!occurs_in(ps[ps.len() - 1], path_sep()));
    }
}

/// The definition that the table holds for the whole trimmed query, if any.
pub fn prelude_hit<'a>(table: &'a PreludeTable, query: &str) -> (r: Option<&'a Definition>)
    ensures
        r is None <==> !table@.contains_key(trimmed(query@)),
        r matches Some(d) ==> *d == table@[trimmed(query@)],
{
    table.get(trim(query))
}

/// `r` is what `dispatch` may answer for query `q` with a table `t`.
pub open spec fn dispatched(t: Map<Seq<char>, Definition>, q: Seq<char>, r: Result<Option<Definition>, LookupError>) -> bool {
    if segments(q).len() == 0 {
        r == Ok::<Option<Definition>, LookupError>(None)
    } else if t.contains_key(trimmed(q)) {
        r == Ok::<Option<Definition>, LookupError>(Some(t[trimmed(q)]))
    } else {
        is_lookup_outcome(q, r)
    }
}

/// Answers a query: nothing for an empty one; the table's definition where
/// the whole trimmed query is one of its keys; the general lookup otherwise.
pub fn dispatch(table: &PreludeTable, index: &AnalysisIndex, query: &str) -> (r: Result<
    Option<Definition>,
    LookupError,
>)
    ensures
        segments(query@).len() == 0 ==> r matches Ok(None),
        segments(query@).len() != 0 && table@.contains_key(trimmed(query@)) ==> r == Ok::<
            Option<Definition>,
            LookupError,
        >(Some(table@[trimmed(query@)])),
        segments(query@).len() != 0 && !table@.contains_key(trimmed(query@)) ==> is_lookup_outcome(
            query@,
            r,
        ),
        dispatched(table@, query@, r),
{
    if parse_query(query).is_none() {
        return Ok(None);
    }
    match prelude_hit(table, query) {
        Some(d) => Ok(Some(d.duplicate())),
        None => find_def(query, index),
    }
}

} // verus!
