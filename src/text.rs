use vstd::prelude::*;

verus! {

/// The Unicode `White_Space` property, the set `char::is_whitespace` tests.
pub open spec fn is_space(c: char) -> bool {
    ('\u{9}' <= c && c <= '\u{d}') || c == ' ' || c == '\u{85}' || c == '\u{a0}' || c
        == '\u{1680}' || ('\u{2000}' <= c && c <= '\u{200a}') || c == '\u{2028}' || c
        == '\u{2029}' || c == '\u{202f}' || c == '\u{205f}' || c == '\u{3000}'
}

/// Index of the first non-whitespace character at or after `i` (or the length).
pub open spec fn solid_start(s: Seq<char>, i: int) -> int
    decreases s.len() - i,
{
    if i >= s.len() {
        s.len() as int
    } else if !is_space(s[i]) {
        i
    } else {
        solid_start(s, i + 1)
    }
}

/// One past the last non-whitespace character at or before `j - 1` (or 0).
pub open spec fn solid_end(s: Seq<char>, j: int) -> int
    decreases j,
{
    if j <= 0 {
        0
    } else if !is_space(s[j - 1]) {
        j
    } else {
        solid_end(s, j - 1)
    }
}

/// `s` without its leading and trailing whitespace.
pub open spec fn trimmed(s: Seq<char>) -> Seq<char> {
    let lo = solid_start(s, 0);
    let hi = solid_end(s, s.len() as int);
    if lo < hi {
        s.subrange(lo, hi)
    } else {
        Seq::empty()
    }
}

/// `needle` occurs in `hay` as a contiguous run.
pub open spec fn occurs_in(hay: Seq<char>, needle: Seq<char>) -> bool {
    exists|i: int| 0 <= i <= hay.len() - needle.len() && #[trigger] hay.subrange(i, i + needle.len()) == needle
}

/// `sep` occurs in `s` at position `i`.
pub open spec fn sep_at(s: Seq<char>, sep: Seq<char>, i: int) -> bool {
    0 <= i && i + sep.len() <= s.len() && s.subrange(i, i + sep.len()) == sep
}

/// The pieces of `s` from position `i` on, split at each non-overlapping
/// occurrence of `sep`, searching left to right (as `str::split` does).
pub open spec fn split_from(s: Seq<char>, sep: Seq<char>, i: int) -> Seq<Seq<char>>
    decreases s.len() - i,
{
    if sep.len() == 0 || i < 0 || i + sep.len() > s.len() {
        seq![s.subrange(i, s.len() as int)]
    } else if sep_at(s, sep, i) {
        seq![Seq::<char>::empty()] + split_from(s, sep, i + sep.len())
    } else {
        let rest = split_from(s, sep, i + 1);
        rest.update(0, seq![s[i]] + rest[0])
    }
}

/// The pieces of `s` split at `sep`.
pub open spec fn split_all(s: Seq<char>, sep: Seq<char>) -> Seq<Seq<char>> {
    split_from(s, sep, 0)
}

pub open spec fn views(v: Seq<&str>) -> Seq<Seq<char>> {
    v.map_values(|x: &str| x@)
}

pub proof fn lemma_split_nonempty(s: Seq<char>, sep: Seq<char>, i: int)
    ensures
        split_from(s, sep, i).len() >= 1,
    decreases s.len() - i,
{
    if sep.len() == 0 || i < 0 || i + sep.len() > s.len() {
    } else if sep_at(s, sep, i) {
        lemma_split_nonempty(s, sep, i + sep.len());
    } else {
        lemma_split_nonempty(s, sep, i + 1);
    }
}

proof fn lemma_first_piece(s: Seq<char>, sep: Seq<char>, i: int)
    requires
        sep.len() > 0,
        0 <= i <= s.len(),
    ensures
        i + split_from(s, sep, i)[0].len() <= s.len(),
        split_from(s, sep, i)[0] == s.subrange(i, i + split_from(s, sep, i)[0].len()),
        forall|k: int|
            i <= k && k + sep.len() <= i + split_from(s, sep, i)[0].len() ==> !#[trigger] sep_at(
                s,
                sep,
                k,
            ),
    decreases s.len() - i,
{
    lemma_split_nonempty(s, sep, i);
    if i + sep.len() > s.len() {
    } else if sep_at(s, sep, i) {
    } else {
        lemma_first_piece(s, sep, i + 1);
        lemma_split_nonempty(s, sep, i + 1);
        let r0 = split_from(s, sep, i + 1)[0];
        let p = split_from(s, sep, i)[0];
        assert(p == seq![s[i]] + r0);
        assert(p =~= s.subrange(i, i + p.len()));
    }
}

/// No piece of a split holds the separator.
pub proof fn lemma_pieces_lack_sep(s: Seq<char>, sep: Seq<char>, i: int)
    requires
        sep.len() > 0,
        0 <= i <= s.len(),
    ensures
        forall|j: int|
            0 <= j < split_from(s, sep, i).len() ==> !occurs_in(
                #[trigger] split_from(s, sep, i)[j],
                sep,
            ),
    decreases s.len() - i,
{
    lemma_split_nonempty(s, sep, i);
    let ps = split_from(s, sep, i);
    if i + sep.len() > s.len() {
        assert forall|j: int| 0 <= j < ps.len() implies !occurs_in(#[trigger] ps[j], sep) by {
            assert(ps[j].len() < sep.len());
        }
    } else if sep_at(s, sep, i) {
        lemma_pieces_lack_sep(s, sep, i + sep.len());
        let rest = split_from(s, sep, i + sep.len());
        assert forall|j: int| 0 <= j < ps.len() implies !occurs_in(#[trigger] ps[j], sep) by {
            if j > 0 {
                assert(ps[j] == rest[j - 1]);
            } else {
                assert(ps[0].len() == 0);
            }
        }
    } else {
        lemma_pieces_lack_sep(s, sep, i + 1);
        lemma_first_piece(s, sep, i);
        lemma_split_nonempty(s, sep, i + 1);
        let rest = split_from(s, sep, i + 1);
        let p = ps[0];
        assert forall|j: int| 0 <= j < ps.len() implies !occurs_in(#[trigger] ps[j], sep) by {
            if j > 0 {
                assert(ps[j] == rest[j]);
            } else {
                if occurs_in(p, sep) {
                    let k = choose|k: int|
                        0 <= k <= p.len() - sep.len() && #[trigger] p.subrange(k, k + sep.len())
                            == sep;
                    assert(s.subrange(i + k, i + k + sep.len()) =~= p.subrange(k, k + sep.len()));
                    assert(sep_at(s, sep, i + k));
                }
            }
        }
    }
}

/// Two or more pieces mean the separator occurs.
pub proof fn lemma_many_pieces_hold_sep(s: Seq<char>, sep: Seq<char>, i: int)
    requires
        sep.len() > 0,
        0 <= i <= s.len(),
        split_from(s, sep, i).len() >= 2,
    ensures
        occurs_in(s, sep),
    decreases s.len() - i,
{
    if i + sep.len() > s.len() {
    } else if sep_at(s, sep, i) {
        assert(s.subrange(i, i + sep.len()) == sep);
    } else {
        lemma_split_nonempty(s, sep, i + 1);
        lemma_many_pieces_hold_sep(s, sep, i + 1);
    }
}

/// Whether `c` is whitespace in Unicode's sense (as `char::is_whitespace`).
pub fn is_whitespace(c: char) -> (r: bool)
    ensures
        r == is_space(c),
{
    ('\u{9}' <= c && c <= '\u{d}') || c == ' ' || c == '\u{85}' || c == '\u{a0}' || c
        == '\u{1680}' || ('\u{2000}' <= c && c <= '\u{200a}') || c == '\u{2028}' || c
        == '\u{2029}' || c == '\u{202f}' || c == '\u{205f}' || c == '\u{3000}'
}

/// `s` without leading and trailing whitespace.
pub fn trim(s: &str) -> (r: &str)
    ensures
        r@ == trimmed(s@),
{
    let n = s.unicode_len();
    let mut lo: usize = 0;
    while lo < n && is_whitespace(s.get_char(lo))
        invariant
            n == s@.len(),
            lo <= n,
            solid_start(s@, lo as int) == solid_start(s@, 0),
        decreases n - lo,
    {
        lo = lo + 1;
    }
    let mut hi: usize = n;
    while hi > 0 && is_whitespace(s.get_char(hi - 1))
        invariant
            n == s@.len(),
            hi <= n,
            solid_end(s@, hi as int) == solid_end(s@, n as int),
        decreases hi,
    {
        hi = hi - 1;
    }
    if lo < hi {
        s.substring_char(lo, hi)
    } else {
        proof {
            assert(s@.subrange(0, 0) =~= Seq::<char>::empty());
        }
        s.substring_char(0, 0)
    }
}

/// Whether `sep` occurs in `s` at character position `i`.
fn matches_at(s: &str, n: usize, sep: &str, m: usize, i: usize) -> (r: bool)
    requires
        n == s@.len(),
        m == sep@.len(),
        i + m <= n,
    ensures
        r == sep_at(s@, sep@, i as int),
{
    let mut k: usize = 0;
    while k < m
        invariant
            n == s@.len(),
            m == sep@.len(),
            i + m <= n,
            k <= m,
            forall|j: int| 0 <= j < k ==> s@[i + j] == sep@[j],
        decreases m - k,
    {
        if s.get_char(i + k) != sep.get_char(k) {
            assert(s@.subrange(i as int, i + m)[k as int] != sep@[k as int]);
            return false;
        }
        k = k + 1;
    }
    assert(s@.subrange(i as int, i + m) =~= sep@);
    true
}

/// Whether two strings hold the same characters.
pub fn same_text(a: &str, b: &str) -> (r: bool)
    ensures
        r == (a@ == b@),
{
    let n = a.unicode_len();
    let m = b.unicode_len();
    if n != m {
        return false;
    }
    let r = matches_at(a, n, b, m, 0);
    assert(a@.subrange(0, n as int) =~= a@);
    r
}

/// Whether `needle` occurs in `hay` (as `str::contains` with a string pattern).
pub fn contains(hay: &str, needle: &str) -> (r: bool)
    ensures
        r == occurs_in(hay@, needle@),
{
    let n = hay.unicode_len();
    let m = needle.unicode_len();
    if m > n {
        return false;
    }
    if m == 0 {
        assert(hay@.subrange(0, 0 + needle@.len() as int) =~= needle@);
        return true;
    }
    let mut i: usize = 0;
    while i <= n - m
        invariant
            n == hay@.len(),
            m == needle@.len(),
            0 < m <= n,
            i <= n - m + 1,
            forall|j: int| 0 <= j < i ==> #[trigger] hay@.subrange(j, j + m) != needle@,
        decreases n - i,
    {
        if matches_at(hay, n, needle, m, i) {
            return true;
        }
        i = i + 1;
    }
    false
}

/// The pieces of `s` between non-overlapping occurrences of a non-empty
/// `sep`, left to right; there is always at least one piece.
pub fn split_on<'a>(s: &'a str, sep: &str) -> (r: Vec<&'a str>)
    requires
        sep@.len() > 0,
    ensures
        views(r@) == split_all(s@, sep@),
{
    let n = s.unicode_len();
    let m = sep.unicode_len();
    let mut done: Vec<&'a str> = Vec::new();
    let mut start: usize = 0;
    let mut i: usize = 0;
    proof {
        lemma_split_nonempty(s@, sep@, 0);
        assert(views(done@) =~= Seq::<Seq<char>>::empty());
        assert(s@.subrange(0, 0) + split_from(s@, sep@, 0)[0] =~= split_from(s@, sep@, 0)[0]);
        assert(split_from(s@, sep@, 0) =~= views(done@).push(
            s@.subrange(0, 0) + split_from(s@, sep@, 0)[0],
        ) + split_from(s@, sep@, 0).skip(1));
    }
    while m <= n && i <= n - m
        invariant
            n == s@.len(),
            m == sep@.len(),
            m > 0,
            start <= i <= n,
            split_from(s@, sep@, i as int).len() >= 1,
            split_all(s@, sep@) == views(done@).push(
                s@.subrange(start as int, i as int) + split_from(s@, sep@, i as int)[0],
            ) + split_from(s@, sep@, i as int).skip(1),
        decreases n - i,
    {
        let ghost old_done = views(done@);
        let ghost cur = s@.subrange(start as int, i as int);
        if matches_at(s, n, sep, m, i) {
            let piece = s.substring_char(start, i);
            done.push(piece);
            start = i + m;
            i = i + m;
            proof {
                let rest = split_from(s@, sep@, i as int);
                lemma_split_nonempty(s@, sep@, i as int);
                assert(views(done@) =~= old_done.push(cur));
                assert(s@.subrange(start as int, i as int) =~= Seq::<char>::empty());
                assert(s@.subrange(start as int, i as int) + rest[0] =~= rest[0]);
                let whole = split_from(s@, sep@, (i - m) as int);
                assert(whole =~= seq![Seq::<char>::empty()] + rest);
                assert(cur + whole[0] =~= cur);
                assert(whole.skip(1) =~= rest);
                assert(old_done.push(cur) + rest =~= views(done@).push(rest[0]) + rest.skip(1));
            }
        } else {
            i = i + 1;
            proof {
                let rest = split_from(s@, sep@, i as int);
                lemma_split_nonempty(s@, sep@, i as int);
                let whole = split_from(s@, sep@, (i - 1) as int);
                assert(whole == rest.update(0, seq![s@[i - 1]] + rest[0]));
                assert(cur + whole[0] =~= s@.subrange(start as int, i as int) + rest[0]);
                assert(whole.skip(1) =~= rest.skip(1));
            }
        }
    }
    let last = s.substring_char(start, n);
    let ghost before = views(done@);
    done.push(last);
    proof {
        let rest = split_from(s@, sep@, i as int);
        assert(rest == seq![s@.subrange(i as int, n as int)]);
        assert(s@.subrange(start as int, i as int) + rest[0] =~= s@.subrange(start as int, n as int));
        assert(rest.skip(1) =~= Seq::<Seq<char>>::empty());
        assert(views(done@) =~= before.push(s@.subrange(start as int, n as int)));
    }
    done
}

} // verus!
