use vstd::prelude::*;
use crate::definition::Definition;
use crate::provider::{fetch_def, search_ids, AnalysisIndex};
use crate::text::{contains, lemma_split_nonempty, occurs_in, same_text, split_all, split_on, trim, trimmed, views};

verus! {

/// The namespace separator of a query.
pub open spec fn path_sep() -> Seq<char> {
    seq![':', ':']
}

/// The segments of a query: its trimmed text split at each `::`; none when
/// the trimmed text is empty.
pub open spec fn segments(q: Seq<char>) -> Seq<Seq<char>> {
    if trimmed(q).len() == 0 {
        Seq::empty()
    } else {
        split_all(trimmed(q), path_sep())
    }
}

/// The last segment of a query.
pub open spec fn leaf_name(q: Seq<char>) -> Seq<char> {
    segments(q).last()
}

/// The segment before the leaf, for a query of two or more segments.
pub open spec fn expected_parent(q: Seq<char>) -> Option<Seq<char>> {
    let s = segments(q);
    if s.len() >= 2 {
        Some(s[s.len() - 2])
    } else {
        None
    }
}

/// What is known of a candidate definition's parent.
pub enum ParentLink {
    /// The definition records no parent.
    Absent,
    /// It records one, which could not be resolved.
    Unresolved,
    /// It records one, resolved to a definition of this short name.
    Named(String),
    /// It records one, which was not looked up: a query of one segment
    /// needs no parent.
    NotLooked,
}

/// A candidate identifier after the attempt to resolve it.
pub enum Candidate {
    Unresolved,
    Resolved(Definition, ParentLink),
}

/// The link fits the definition: absent exactly when it records no parent.
pub open spec fn link_fits(d: Definition, link: ParentLink) -> bool {
    (link is Absent) == (d.parent is None)
}

/// The acceptance test of a candidate. With no expected parent (a single
/// segment) any resolved candidate is accepted; otherwise its parent's name
/// must equal the expected one, or, where it has no parent, the expected name
/// must occur in its qualified name.
pub open spec fn accepted(expected: Option<Seq<char>>, c: Candidate) -> bool {
    match c {
        Candidate::Unresolved => false,
        Candidate::Resolved(d, link) => match expected {
            None => true,
            Some(p) => match link {
                ParentLink::Absent => occurs_in(d.qualname@, p),
                ParentLink::Unresolved => false,
                ParentLink::Named(n) => n@ == p,
                ParentLink::NotLooked => false,
            },
        },
    }
}

/// The index of the first accepted candidate at or after `i`.
pub open spec fn first_accepted(expected: Option<Seq<char>>, cs: Seq<Candidate>, i: int) -> Option<int>
    decreases cs.len() - i,
{
    if i < 0 || i >= cs.len() {
        None
    } else if accepted(expected, cs[i]) {
        Some(i)
    } else {
        first_accepted(expected, cs, i + 1)
    }
}

/// The candidate that query `q` selects: the first accepted one; none for an
/// empty query.
pub open spec fn selection(q: Seq<char>, cs: Seq<Candidate>) -> Option<int> {
    if segments(q).len() == 0 {
        None
    } else {
        first_accepted(expected_parent(q), cs, 0)
    }
}

proof fn lemma_first_accepted(e: Option<Seq<char>>, cs: Seq<Candidate>, i: int)
    requires
        0 <= i,
    ensures
        first_accepted(e, cs, i) matches Some(m) ==> i <= m < cs.len() && accepted(e, cs[m])
            && forall|j: int| i <= j < m ==> !#[trigger] accepted(e, cs[j]),
        first_accepted(e, cs, i) is None ==> forall|j: int|
            i <= j < cs.len() ==> !#[trigger] accepted(e, cs[j]),
    decreases cs.len() - i,
{
    if i < cs.len() && !accepted(e, cs[i]) {
        lemma_first_accepted(e, cs, i + 1);
    }
}

/// For a query of one segment, among candidates of which at least one
/// resolved, the selection is the first candidate that resolved, in the
/// order given.
pub proof fn law_single_segment_takes_first_resolved(q: Seq<char>, cs: Seq<Candidate>)
    requires
        segments(q).len() == 1,
        exists|k: int| 0 <= k < cs.len() && #[trigger] cs[k] is Resolved,
    ensures
        selection(q, cs) matches Some(i) && 0 <= i < cs.len() && cs[i] is Resolved && forall|
            j: int,
        | 0 <= j < i ==> #[trigger] cs[j] is Unresolved,
{
    let k = choose|k: int| 0 <= k < cs.len() && #[trigger] cs[k] is Resolved;
    lemma_first_accepted(None, cs, 0);
    assert(accepted(None, cs[k]));
    let r = first_accepted(None, cs, 0);
    if r is Some {
        let i = r.unwrap();
        assert forall|j: int| 0 <= j < i implies #[trigger] cs[j] is Unresolved by {
            assert(!accepted(None, cs[j]));
        }
    }
}

/// For a query of two or more segments, a selected candidate resolved, and
/// either its parent resolved to a definition named exactly as the segment
/// before the leaf, or it has no parent and that segment occurs in its
/// qualified name. Every candidate before it fails that test.
pub proof fn law_qualified_query_acceptance(q: Seq<char>, cs: Seq<Candidate>)
    requires
        segments(q).len() >= 2,
    ensures
        selection(q, cs) matches Some(i) ==> 0 <= i < cs.len() && (cs[i] matches Candidate::Resolved(
            d,
            link,
        ) && ((link matches ParentLink::Named(n) && n@ == segments(q)[segments(q).len() - 2]) || (
        link is Absent && occurs_in(d.qualname@, segments(q)[segments(q).len() - 2])))) && forall|
            j: int,
        | 0 <= j < i ==> !#[trigger] accepted(expected_parent(q), cs[j]),
{
    lemma_first_accepted(expected_parent(q), cs, 0);
}

/// Why a lookup could not proceed.
#[derive(Clone, Copy, Debug, PartialEq, Eq, Structural)]
pub enum LookupError {
    /// The index could not enumerate the candidates for the leaf name.
    SearchFailed,
}

/// The parsed form of a query: its leaf name and the expected parent.
pub struct QueryParts<'a> {
    pub leaf: &'a str,
    pub parent: Option<&'a str>,
}

/// Splits a query into its leaf name and expected parent; `None` when the
/// trimmed query is empty.
pub fn parse_query<'a>(query: &'a str) -> (r: Option<QueryParts<'a>>)
    ensures
        r is None <==> segments(query@).len() == 0,
        r matches Some(p) ==> p.leaf@ == leaf_name(query@) && match p.parent {
            None => expected_parent(query@) is None,
            Some(e) => expected_parent(query@) == Some(e@),
        },
{
    let t = trim(query);
    if t.unicode_len() == 0 {
        return None;
    }
    let sep = "::";
    proof {
        reveal_strlit("::");
        assert(sep@ =~= path_sep());
    }
    let segs = split_on(t, sep);
    proof {
        lemma_split_nonempty(t@, sep@, 0);
        assert(views(segs@).len() == segs@.len());
    }
    let n = segs.len();
    let leaf = segs[n - 1];
    let parent = if n >= 2 {
        Some(segs[n - 2])
    } else {
        None
    };
    Some(QueryParts { leaf, parent })
}

/// The acceptance test on a candidate, with the expected parent name.
pub fn accepts(expected: Option<&str>, c: &Candidate) -> (r: bool)
    ensures
        r == accepted(
            match expected {
                None => None,
                Some(e) => Some(e@),
            },
            *c,
        ),
{
    match c {
        Candidate::Unresolved => false,
        Candidate::Resolved(d, link) => match expected {
            None => true,
            Some(p) => match link {
                ParentLink::Absent => contains(d.qualname.as_str(), p),
                ParentLink::Unresolved => false,
                ParentLink::Named(n) => same_text(n.as_str(), p),
                ParentLink::NotLooked => false,
            },
        },
    }
}

/// The index of the candidate that `query` selects among `candidates`
/// (resolved in the index's order for the query's leaf name).
pub fn select_candidate(query: &str, candidates: &Vec<Candidate>) -> (r: Option<usize>)
    ensures
        r is None <==> selection(query@, candidates@) is None,
        r matches Some(i) ==> selection(query@, candidates@) == Some(i as int),
{
    let parts = parse_query(query);
    match parts {
        None => None,
        Some(p) => {
            let ghost e = expected_parent(query@);
            let mut i: usize = 0;
            while i < candidates.len()
                invariant
                    i <= candidates@.len(),
                    e == expected_parent(query@),
                    e == match p.parent {
                        None => None,
                        Some(x) => Some(x@),
                    },
                    segments(query@).len() != 0,
                    first_accepted(e, candidates@, i as int) == first_accepted(e, candidates@, 0),
                decreases candidates@.len() - i,
            {
                if accepts(p.parent, &candidates[i]) {
                    assert(first_accepted(e, candidates@, i as int) == Some(i as int));
                    return Some(i);
                }
                i = i + 1;
            }
            None
        },
    }
}

/// The definition a query picks out of resolved candidates: that of the
/// selected candidate, or none where no candidate is accepted.
pub open spec fn picked(q: Seq<char>, cs: Seq<Candidate>) -> Option<Definition> {
    match selection(q, cs) {
        Some(i) => match cs[i] {
            Candidate::Resolved(d, _) => Some(d),
            Candidate::Unresolved => None,
        },
        None => None,
    }
}

/// The outcome of a lookup, given what the index answered: its error where
/// the candidates could not be enumerated, the picked definition otherwise.
pub open spec fn outcome(q: Seq<char>, found: Result<Seq<Candidate>, LookupError>) -> Result<
    Option<Definition>,
    LookupError,
> {
    match found {
        Err(e) => Err(e),
        Ok(cs) => Ok(picked(q, cs)),
    }
}

/// Every resolved candidate carries the link that fits its definition.
pub open spec fn links_fit(cs: Seq<Candidate>) -> bool {
    forall|i: int|
        0 <= i < cs.len() ==> (#[trigger] cs[i] matches Candidate::Resolved(d, link) ==> link_fits(
            d,
            link,
        ))
}

/// `r` is the outcome of a lookup of `q` for some answer of the index, in
/// which every resolved candidate carries the link that fits it.
pub open spec fn is_lookup_outcome(q: Seq<char>, r: Result<Option<Definition>, LookupError>) -> bool {
    exists|found: Result<Seq<Candidate>, LookupError>|
        (found matches Ok(cs) ==> links_fit(cs)) && r == #[trigger] outcome(q, found)
}

/// The definition of the candidate that `query` selects.
pub fn pick_candidate(query: &str, candidates: Vec<Candidate>) -> (r: Option<Definition>)
    ensures
        r == picked(query@, candidates@),
{
    match select_candidate(query, &candidates) {
        None => None,
        Some(i) => {
            proof {
                lemma_first_accepted(expected_parent(query@), candidates@, 0);
            }
            let mut cs = candidates;
            let c = cs.remove(i);
            match c {
                Candidate::Resolved(d, _) => Some(d),
                Candidate::Unresolved => None,
            }
        },
    }
}

/// Finishes a lookup from what the index answered for the query's leaf name:
/// the candidates, resolved in the index's order, or the search's error.
pub fn conclude_lookup(query: &str, found: Result<Vec<Candidate>, LookupError>) -> (r: Result<
    Option<Definition>,
    LookupError,
>)
    ensures
        r == outcome(
            query@,
            match found {
                Ok(v) => Ok(v@),
                Err(e) => Err(e),
            },
        ),
{
    match found {
        Err(e) => Err(e),
        Ok(cs) => Ok(pick_candidate(query, cs)),
    }
}

/// The link to `d`'s parent, resolving the parent through the index.
fn resolve_parent(index: &AnalysisIndex, d: &Definition) -> (r: ParentLink)
    ensures
        link_fits(*d, r),
{
    match d.parent {
        None => ParentLink::Absent,
        Some(pid) => match fetch_def(index, pid) {
            Ok(p) => ParentLink::Named(p.name),
            Err(_) => ParentLink::Unresolved,
        },
    }
}

/// Resolves one candidate; its parent too where `with_parent` holds.
fn resolve_candidate(index: &AnalysisIndex, id: rls_analysis::Id, with_parent: bool) -> (r: Candidate)
    ensures
        r matches Candidate::Resolved(d, link) ==> link_fits(d, link) && (!with_parent ==> (
        link is Absent || link is NotLooked)),
{
    match fetch_def(index, id) {
        Err(_) => Candidate::Unresolved,
        Ok(d) => {
            let link = if with_parent {
                resolve_parent(index, &d)
            } else {
                match d.parent {
                    None => ParentLink::Absent,
                    Some(_) => ParentLink::NotLooked,
                }
            };
            Candidate::Resolved(d, link)
        },
    }
}

/// Searches the index for the query's leaf name and resolves each candidate,
/// in the index's order; a candidate's parent is looked up only for a query
/// of two or more segments. An empty query asks the index nothing.
pub fn resolve_candidates(query: &str, index: &AnalysisIndex) -> (r: Result<Vec<Candidate>, LookupError>)
    ensures
        segments(query@).len() == 0 ==> (r matches Ok(v) && v@.len() == 0),
        r matches Ok(v) ==> links_fit(v@),
{
    let parts = match parse_query(query) {
        None => return Ok(Vec::new()),
        Some(p) => p,
    };
    let ids = match search_ids(index, parts.leaf) {
        Ok(v) => v,
        Err(_) => return Err(LookupError::SearchFailed),
    };
    let with_parent = parts.parent.is_some();
    let mut cs: Vec<Candidate> = Vec::new();
    let mut i: usize = 0;
    while i < ids.len()
        invariant
            i <= ids@.len(),
            links_fit(cs@),
        decreases ids@.len() - i,
    {
        let c = resolve_candidate(index, ids[i], with_parent);
        cs.push(c);
        i = i + 1;
    }
    Ok(cs)
}

/// Looks `query` up in the index: the candidates for its leaf name are
/// resolved in the index's order and the first that passes the acceptance
/// test is returned (`conclude_lookup`). An empty query asks the index
/// nothing. What the index answers is not known in advance, so what is stated
/// is the outcome for the answer it gave, whatever that was.
pub fn find_def(query: &str, index: &AnalysisIndex) -> (r: Result<Option<Definition>, LookupError>)
    ensures
        segments(query@).len() == 0 ==> r == Ok::<Option<Definition>, LookupError>(None),
        is_lookup_outcome(query@, r),
{
    let found = resolve_candidates(query, index);
    let ghost g = match found {
        Ok(ref v) => Ok(v@),
        Err(e) => Err(e),
    };
    let r = conclude_lookup(query, found);
    assert((g matches Ok(cs) ==> links_fit(cs)) && r == outcome(query@, g));
    r
}

} // verus!
