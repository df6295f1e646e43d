use vstd::prelude::*;
use crate::definition::{kind_label, Definition};
use crate::provider::{doc_url, AnalysisIndex};
use crate::text::{lemma_split_nonempty, split_all, split_on, trim, trimmed, views};

verus! {

/// The lines of a documentation text.
pub open spec fn doc_lines(docs: Seq<char>) -> Seq<Seq<char>> {
    split_all(docs, seq!['\n'])
}

/// A line that holds nothing but whitespace.
pub open spec fn is_blank(line: Seq<char>) -> bool {
    trimmed(line).len() == 0
}

/// Index of the first non-blank line at or after `i` (or the count).
pub open spec fn first_solid_line(ls: Seq<Seq<char>>, i: int) -> int
    decreases ls.len() - i,
{
    if i < 0 || i >= ls.len() {
        ls.len() as int
    } else if !is_blank(ls[i]) {
        i
    } else {
        first_solid_line(ls, i + 1)
    }
}

/// Index of the first blank line at or after `i` (or the count).
pub open spec fn run_end(ls: Seq<Seq<char>>, i: int) -> int
    decreases ls.len() - i,
{
    if i < 0 || i >= ls.len() {
        ls.len() as int
    } else if is_blank(ls[i]) {
        i
    } else {
        run_end(ls, i + 1)
    }
}

/// The lines, each trimmed, joined with single spaces.
pub open spec fn join_trimmed(ls: Seq<Seq<char>>) -> Seq<char>
    decreases ls.len(),
{
    if ls.len() == 0 {
        Seq::empty()
    } else if ls.len() == 1 {
        trimmed(ls[0])
    } else {
        join_trimmed(ls.drop_last()) + seq![' '] + trimmed(ls.last())
    }
}

/// The first paragraph of a documentation text: its first run of non-blank
/// lines, each trimmed, joined with single spaces.
pub open spec fn doc_summary(docs: Seq<char>) -> Seq<char> {
    let ls = doc_lines(docs);
    let a = first_solid_line(ls, 0);
    join_trimmed(ls.subrange(a, run_end(ls, a)))
}

/// The text shown where a definition has no documentation.
pub open spec fn no_docs_text() -> Seq<char> {
    "(no docs available)"@
}

/// The one-line reply for a definition: kind, qualified name, the first
/// paragraph of its docs (or a placeholder), and the URL after " - ".
pub open spec fn reply_line(d: Definition, url: Option<Seq<char>>) -> Seq<char> {
    let s = doc_summary(d.docs@);
    kind_label(d.kind) + " "@ + d.qualname@ + ": "@ + (if s.len() > 0 {
        s
    } else {
        no_docs_text()
    }) + match url {
        None => Seq::empty(),
        Some(u) => " - "@ + u,
    }
}

/// The console form: kind and qualified name, the first paragraph after ": "
/// where there is one, and the URL on an indented second line.
pub open spec fn console_text(d: Definition, url: Option<Seq<char>>) -> Seq<char> {
    let s = doc_summary(d.docs@);
    kind_label(d.kind) + " "@ + d.qualname@ + (if s.len() > 0 {
        ": "@ + s
    } else {
        Seq::empty()
    }) + match url {
        None => Seq::empty(),
        Some(u) => "\n    "@ + u,
    }
}

proof fn lemma_run_to_end(ls: Seq<Seq<char>>, i: int)
    requires
        0 <= i <= ls.len(),
        forall|j: int| 0 <= j < ls.len() ==> !is_blank(#[trigger] ls[j]),
    ensures
        run_end(ls, i) == ls.len(),
    decreases ls.len() - i,
{
    if i < ls.len() {
        lemma_run_to_end(ls, i + 1);
    }
}

/// Documentation of a single paragraph, no line of it blank, is summarised
/// as all its lines trimmed and joined with single spaces. The reply line
/// of a definition with such docs and a URL is then
/// `<Kind> <qualified name>: <paragraph> - <url>`, and the console text puts
/// the URL on a second, indented line.
pub proof fn law_single_paragraph_reply(d: Definition, url: Seq<char>)
    requires
        forall|j: int|
            0 <= j < doc_lines(d.docs@).len() ==> !is_blank(#[trigger] doc_lines(d.docs@)[j]),
    ensures
        doc_summary(d.docs@) == join_trimmed(doc_lines(d.docs@)),
        doc_summary(d.docs@).len() > 0,
        reply_line(d, Some(url)) == kind_label(d.kind) + " "@ + d.qualname@ + ": "@
            + join_trimmed(doc_lines(d.docs@)) + " - "@ + url,
        console_text(d, Some(url)) == kind_label(d.kind) + " "@ + d.qualname@ + ": "@
            + join_trimmed(doc_lines(d.docs@)) + "\n    "@ + url,
{
    let ls = doc_lines(d.docs@);
    lemma_split_nonempty(d.docs@, seq!['\n'], 0);
    lemma_run_to_end(ls, 0);
    assert(first_solid_line(ls, 0) == 0);
    assert(ls.subrange(0, ls.len() as int) =~= ls);
    lemma_join_nonempty(ls);
}

proof fn lemma_join_nonempty(ls: Seq<Seq<char>>)
    requires
        ls.len() > 0,
        !is_blank(ls.last()),
    ensures
        join_trimmed(ls).len() > 0,
{
}

/// The first paragraph of `docs`.
pub fn summarize_docs(docs: &str) -> (r: String)
    ensures
        r@ == doc_summary(docs@),
{
    let nl = "\n";
    proof {
        reveal_strlit("\n");
        assert(nl@ =~= seq!['\n']);
    }
    let lines = split_on(docs, nl);
    let ghost ls = views(lines@);
    let n = lines.len();
    let mut a: usize = 0;
    while a < n && trim(lines[a]).unicode_len() == 0
        invariant
            ls == views(lines@),
            ls == doc_lines(docs@),
            n == lines@.len(),
            a <= n,
            first_solid_line(ls, a as int) == first_solid_line(ls, 0),
        decreases n - a,
    {
        a = a + 1;
    }
    let mut out = String::new();
    let mut b: usize = a;
    proof {
        assert(ls.subrange(a as int, b as int) =~= Seq::<Seq<char>>::empty());
    }
    while b < n && trim(lines[b]).unicode_len() != 0
        invariant
            ls == views(lines@),
            ls == doc_lines(docs@),
            n == lines@.len(),
            a <= b <= n,
            first_solid_line(ls, 0) == a,
            run_end(ls, b as int) == run_end(ls, a as int),
            out@ == join_trimmed(ls.subrange(a as int, b as int)),
        decreases n - b,
    {
        let t = trim(lines[b]);
        if b > a {
            out.append(" ");
        }
        out.append(t);
        proof {
            reveal_strlit(" ");
            let sub = ls.subrange(a as int, b + 1);
            assert(sub.drop_last() =~= ls.subrange(a as int, b as int));
            assert(sub.last() == ls[b as int]);
        }
        b = b + 1;
    }
    out
}

/// The reply line for `d`, with the documentation URL where there is one.
pub fn format_reply(d: &Definition, url: Option<&str>) -> (r: String)
    ensures
        r@ == reply_line(
            *d,
            match url {
                None => None,
                Some(u) => Some(u@),
            },
        ),
{
    let s = summarize_docs(d.docs.as_str());
    let mut out = String::from_str(d.kind.label());
    out.append(" ");
    out.append(d.qualname.as_str());
    out.append(": ");
    if s.as_str().unicode_len() > 0 {
        out.append(s.as_str());
    } else {
        out.append("(no docs available)");
    }
    match url {
        None => {},
        Some(u) => {
            out.append(" - ");
            out.append(u);
        },
    }
    out
}

/// The console text for `d`, with the documentation URL where there is one.
pub fn format_console(d: &Definition, url: Option<&str>) -> (r: String)
    ensures
        r@ == console_text(
            *d,
            match url {
                None => None,
                Some(u) => Some(u@),
            },
        ),
{
    let s = summarize_docs(d.docs.as_str());
    let mut out = String::from_str(d.kind.label());
    out.append(" ");
    out.append(d.qualname.as_str());
    if s.as_str().unicode_len() > 0 {
        out.append(": ");
        out.append(s.as_str());
    }
    match url {
        None => {},
        Some(u) => {
            out.append("\n    ");
            out.append(u);
        },
    }
    out
}

/// The reply line for `d`, asking the index for its documentation URL. The
/// URL is the index's to derive, so the line is one of two forms.
pub fn format_def(d: &Definition, index: &AnalysisIndex) -> (r: String)
    ensures
        r@ == reply_line(*d, None) || exists|u: Seq<char>| r@ == reply_line(*d, Some(u)),
{
    match doc_url(index, &d.span) {
        Ok(u) => format_reply(d, Some(u.as_str())),
        Err(_) => format_reply(d, None),
    }
}

} // verus!
