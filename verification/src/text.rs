//! Text helpers over character sequences.
//!
//! Strings are read into `Vec<char>` and every operation is specified over
//! `Seq<char>`, the view Verus gives to `str` and `String`.
use vstd::prelude::*;

verus! {

// ---------------------------------------------------------------------------
// Trusted items over std
// ---------------------------------------------------------------------------

/// What `str::to_lowercase` returns for a string with the given characters.
pub uninterp spec fn lowercase_of(s: Seq<char>) -> Seq<char>;

/// What `char::is_whitespace` returns: whether the character has the
/// Unicode `White_Space` property.
pub uninterp spec fn white_space(c: char) -> bool;

/// Calls `str::to_lowercase`. The Unicode mapping is not restated here; the
/// contract ties the result to `lowercase_of` of the argument's characters.
#[verifier::external_body]
pub(crate) fn to_lower(s: &str) -> (res: String)
    ensures
        res@ == lowercase_of(s@),
{
    s.to_lowercase()
}

/// Calls `char::is_whitespace`; the result is `white_space(c)`.
#[verifier::external_body]
pub(crate) fn is_ws(c: char) -> (res: bool)
    ensures
        res == white_space(c),
{
    c.is_whitespace()
}

/// Collects characters into a `String` (`FromIterator<char>` for `String`),
/// which keeps the characters in order.
#[verifier::external_body]
pub(crate) fn string_from_chars(v: &[char]) -> (res: String)
    ensures
        res@ == v@,
{
    v.iter().collect()
}

// ---------------------------------------------------------------------------
// Reading strings
// ---------------------------------------------------------------------------

/// The characters of `s`, in order.
pub fn chars_of(s: &str) -> (res: Vec<char>)
    ensures
        res@ == s@,
{
    let mut res: Vec<char> = Vec::new();
    for c in it: s.chars()
        invariant
            res@ == it.seq().take(it.index() as int),
            it.seq() == s@,
    {
        res.push(c);
    }
    res
}


/// A copy of `s[lo..hi]`.
pub fn slice_chars(s: &Vec<char>, lo: usize, hi: usize) -> (res: Vec<char>)
    requires
        lo <= hi <= s@.len(),
    ensures
        res@ == s@.subrange(lo as int, hi as int),
{
    let mut res: Vec<char> = Vec::new();
    let mut i = lo;
    while i < hi
        invariant
            lo <= i <= hi <= s@.len(),
            res@ == s@.subrange(lo as int, i as int),
        decreases hi - i,
    {
        res.push(s[i]);
        i = i + 1;
        assert(res@ =~= s@.subrange(lo as int, i as int));
    }
    res
}

/// Whether two character sequences are equal.
pub fn chars_eq(a: &Vec<char>, b: &Vec<char>) -> (res: bool)
    ensures
        res == (a@ == b@),
{
    if a.len() != b.len() {
        return false;
    }
    let mut i: usize = 0;
    while i < a.len()
        invariant
            a@.len() == b@.len(),
            i <= a@.len(),
            forall|k: int| 0 <= k < i ==> a@[k] == b@[k],
        decreases a@.len() - i,
    {
        if a[i] != b[i] {
            return false;
        }
        i = i + 1;
    }
    assert(a@ =~= b@);
    true
}

// ---------------------------------------------------------------------------
// Substrings
// ---------------------------------------------------------------------------

/// `needle` occurs in `hay` at position `i`.
pub open spec fn occurs_at(hay: Seq<char>, needle: Seq<char>, i: int) -> bool {
    0 <= i && i + needle.len() <= hay.len() && hay.subrange(i, i + needle.len()) == needle
}

/// `needle` occurs somewhere in `hay` (`str::contains`); the empty needle
/// occurs in every string.
pub open spec fn has_substring(hay: Seq<char>, needle: Seq<char>) -> bool {
    exists|i: int| #[trigger] occurs_at(hay, needle, i)
}

/// `s` begins with `p`.
pub open spec fn has_prefix(s: Seq<char>, p: Seq<char>) -> bool {
    p.len() <= s.len() && s.subrange(0, p.len() as int) == p
}

/// `s` ends with `p`.
pub open spec fn has_suffix(s: Seq<char>, p: Seq<char>) -> bool {
    p.len() <= s.len() && s.subrange(s.len() - p.len(), s.len() as int) == p
}

/// Whether `needle` occurs in `hay` at position `i`.
pub fn occurs_at_exec(hay: &Vec<char>, needle: &Vec<char>, i: usize) -> (res: bool)
    ensures
        res == occurs_at(hay@, needle@, i as int),
{
    if i > hay.len() || needle.len() > hay.len() - i {
        return false;
    }
    let mut k: usize = 0;
    while k < needle.len()
        invariant
            i + needle.len() <= hay.len(),
            k <= needle@.len(),
            forall|j: int| 0 <= j < k ==> hay@[i + j] == needle@[j],
        decreases needle@.len() - k,
    {
        if hay[i + k] != needle[k] {
            assert(hay@.subrange(i as int, i + needle@.len())[k as int] != needle@[k as int]);
            return false;
        }
        k = k + 1;
    }
    assert(hay@.subrange(i as int, i + needle@.len()) =~= needle@);
    true
}

/// `str::contains` over characters.
pub fn contains_chars(hay: &Vec<char>, needle: &Vec<char>) -> (res: bool)
    ensures
        res == has_substring(hay@, needle@),
{
    if needle.len() > hay.len() {
        assert forall|i: int| !occurs_at(hay@, needle@, i) by {}
        return false;
    }
    let last = hay.len() - needle.len();
    let mut i: usize = 0;
    while i < last
        invariant
            last == hay@.len() - needle@.len(),
            i <= last,
            forall|j: int| 0 <= j < i ==> !occurs_at(hay@, needle@, j),
        decreases last - i,
    {
        if occurs_at_exec(hay, needle, i) {
            return true;
        }
        i = i + 1;
    }
    if occurs_at_exec(hay, needle, last) {
        return true;
    }
    assert forall|j: int| !occurs_at(hay@, needle@, j) by {}
    false
}

/// `str::starts_with` over characters.
pub fn starts_with_chars(s: &Vec<char>, p: &Vec<char>) -> (res: bool)
    ensures
        res == has_prefix(s@, p@),
{
    let r = occurs_at_exec(s, p, 0);
    assert(r == has_prefix(s@, p@));
    r
}

/// `str::ends_with` over characters.
pub fn ends_with_chars(s: &Vec<char>, p: &Vec<char>) -> (res: bool)
    ensures
        res == has_suffix(s@, p@),
{
    if p.len() > s.len() {
        return false;
    }
    occurs_at_exec(s, p, s.len() - p.len())
}

// ---------------------------------------------------------------------------
// Trimming
// ---------------------------------------------------------------------------

/// `s` without its leading whitespace.
pub open spec fn trim_start(s: Seq<char>) -> Seq<char>
    decreases s.len(),
{
    if s.len() > 0 && white_space(s[0]) {
        trim_start(s.drop_first())
    } else {
        s
    }
}

/// `s` without its trailing whitespace.
pub open spec fn trim_end(s: Seq<char>) -> Seq<char>
    decreases s.len(),
{
    if s.len() > 0 && white_space(s.last()) {
        trim_end(s.drop_last())
    } else {
        s
    }
}

/// `str::trim`: `s` without leading and trailing whitespace.
pub open spec fn trim(s: Seq<char>) -> Seq<char> {
    trim_end(trim_start(s))
}

/// `str::trim` over characters.
pub fn trim_chars(s: &Vec<char>) -> (res: Vec<char>)
    ensures
        res@ == trim(s@),
{
    let mut i: usize = 0;
    assert(s@.skip(0) =~= s@);
    while i < s.len() && is_ws(s[i])
        invariant
            i <= s@.len(),
            trim_start(s@) == trim_start(s@.skip(i as int)),
        decreases s@.len() - i,
    {
        assert(s@.skip(i as int).drop_first() =~= s@.skip(i + 1));
        i = i + 1;
    }
    assert(trim_start(s@) == s@.skip(i as int)) by {
        if i == s@.len() {
            assert(s@.skip(i as int) =~= Seq::<char>::empty());
        }
    }
    let mut j: usize = s.len();
    while j > i && is_ws(s[j - 1])
        invariant
            i <= j <= s@.len(),
            trim(s@) == trim_end(s@.subrange(i as int, j as int)),
            trim_start(s@) == s@.skip(i as int),
        decreases j,
    {
        assert(s@.subrange(i as int, j as int).drop_last() =~= s@.subrange(i as int, j - 1));
        j = j - 1;
    }
    slice_chars(s, i, j)
}

/// Removes every leading occurrence of `c` (`str::trim_start_matches` with a
/// character pattern).
pub open spec fn strip_leading(s: Seq<char>, c: char) -> Seq<char>
    decreases s.len(),
{
    if s.len() > 0 && s[0] == c {
        strip_leading(s.drop_first(), c)
    } else {
        s
    }
}

/// `str::trim_start_matches` with a character pattern.
pub fn strip_leading_chars(s: &Vec<char>, c: char) -> (res: Vec<char>)
    ensures
        res@ == strip_leading(s@, c),
{
    let mut i: usize = 0;
    assert(s@.skip(0) =~= s@);
    while i < s.len() && s[i] == c
        invariant
            i <= s@.len(),
            strip_leading(s@, c) == strip_leading(s@.skip(i as int), c),
        decreases s@.len() - i,
    {
        assert(s@.skip(i as int).drop_first() =~= s@.skip(i + 1));
        i = i + 1;
    }
    if i == s.len() {
        assert(s@.skip(i as int) =~= Seq::<char>::empty());
    }
    slice_chars(s, i, s.len())
}

/// Removes every leading occurrence of the non-empty string `p`
/// (`str::trim_start_matches` with a string pattern).
pub open spec fn strip_leading_seq(s: Seq<char>, p: Seq<char>) -> Seq<char>
    recommends
        p.len() > 0,
    decreases s.len(),
{
    if p.len() > 0 && has_prefix(s, p) {
        strip_leading_seq(s.skip(p.len() as int), p)
    } else {
        s
    }
}

/// `str::trim_start_matches` with a non-empty string pattern.
pub fn strip_leading_seq_chars(s: &Vec<char>, p: &Vec<char>) -> (res: Vec<char>)
    requires
        p@.len() > 0,
    ensures
        res@ == strip_leading_seq(s@, p@),
{
    let mut i: usize = 0;
    assert(s@.skip(0) =~= s@);
    while i <= s.len() && occurs_at_exec(s, p, i)
        invariant
            i <= s@.len(),
            p@.len() > 0,
            strip_leading_seq(s@, p@) == strip_leading_seq(s@.skip(i as int), p@),
        decreases s@.len() - i,
    {
        assert(s@.skip(i as int).subrange(0, p@.len() as int) =~= s@.subrange(
            i as int,
            i + p@.len(),
        ));
        assert(s@.skip(i as int).skip(p@.len() as int) =~= s@.skip(i + p@.len()));
        i = i + p.len();
    }
    assert(!has_prefix(s@.skip(i as int), p@)) by {
        if has_prefix(s@.skip(i as int), p@) {
            assert(s@.skip(i as int).subrange(0, p@.len() as int) =~= s@.subrange(
                i as int,
                i + p@.len(),
            ));
        }
    }
    slice_chars(s, i, s.len())
}


// ---------------------------------------------------------------------------
// Splitting
// ---------------------------------------------------------------------------

/// The views of a sequence of character vectors.
pub open spec fn views(v: Seq<Vec<char>>) -> Seq<Seq<char>> {
    v.map_values(|x: Vec<char>| x@)
}

/// `str::split` with a character pattern: the pieces of `s` between the
/// occurrences of `c`; there is always at least one piece.
pub open spec fn split_char(s: Seq<char>, c: char) -> Seq<Seq<char>>
    decreases s.len(),
{
    if s.len() == 0 {
        seq![Seq::<char>::empty()]
    } else {
        let p = split_char(s.drop_last(), c);
        if s.last() == c {
            p.push(Seq::<char>::empty())
        } else {
            p.update(p.len() - 1, p.last().push(s.last()))
        }
    }
}

/// `split_char` always yields at least one piece.
pub proof fn lemma_split_char_len(s: Seq<char>, c: char)
    ensures
        split_char(s, c).len() >= 1,
    decreases s.len(),
{
    if s.len() > 0 {
        lemma_split_char_len(s.drop_last(), c);
    }
}

/// `str::split` with a character pattern, over characters.
pub fn split_on_char(s: &Vec<char>, c: char) -> (res: Vec<Vec<char>>)
    ensures
        views(res@) == split_char(s@, c),
        res@.len() >= 1,
{
    let mut pieces: Vec<Vec<char>> = Vec::new();
    let mut cur: Vec<char> = Vec::new();
    assert(s@.take(0) =~= Seq::<char>::empty());
    assert(views(pieces@).push(cur@) =~= split_char(s@.take(0), c));
    let mut i: usize = 0;
    while i < s.len()
        invariant
            i <= s@.len(),
            views(pieces@).push(cur@) == split_char(s@.take(i as int), c),
        decreases s@.len() - i,
    {
        let x = s[i];
        assert(s@.take(i + 1).drop_last() =~= s@.take(i as int));
        assert(s@.take(i + 1).last() == x);
        proof {
            lemma_split_char_len(s@.take(i as int), c);
        }
        if x == c {
            pieces.push(cur);
            cur = Vec::new();
            assert(views(pieces@).push(cur@) =~= split_char(s@.take(i + 1), c));
        } else {
            cur.push(x);
            assert(views(pieces@).push(cur@) =~= split_char(s@.take(i + 1), c));
        }
        i = i + 1;
    }
    assert(s@.take(s@.len() as int) =~= s@);
    pieces.push(cur);
    assert(views(pieces@) =~= split_char(s@, c));
    pieces
}

/// Prepends `a` to the first piece of `r`.
pub open spec fn glue(a: Seq<char>, r: Seq<Seq<char>>) -> Seq<Seq<char>> {
    r.update(0, a + r[0])
}

/// `str::split` with a non-empty string pattern: matches are taken from the
/// left and do not overlap; there is always at least one piece.
pub open spec fn split_seq(s: Seq<char>, sep: Seq<char>) -> Seq<Seq<char>>
    decreases s.len(),
{
    if sep.len() == 0 || s.len() < sep.len() {
        seq![s]
    } else if s.subrange(0, sep.len() as int) == sep {
        seq![Seq::<char>::empty()] + split_seq(s.skip(sep.len() as int), sep)
    } else {
        glue(seq![s[0]], split_seq(s.drop_first(), sep))
    }
}

/// `split_seq` always yields at least one piece.
pub proof fn lemma_split_seq_len(s: Seq<char>, sep: Seq<char>)
    ensures
        split_seq(s, sep).len() >= 1,
    decreases s.len(),
{
    if sep.len() == 0 || s.len() < sep.len() {
    } else if s.subrange(0, sep.len() as int) == sep {
        lemma_split_seq_len(s.skip(sep.len() as int), sep);
    } else {
        lemma_split_seq_len(s.drop_first(), sep);
    }
}

/// `str::split` with a non-empty string pattern, over characters.
pub fn split_on_seq(s: &Vec<char>, sep: &Vec<char>) -> (res: Vec<Vec<char>>)
    requires
        sep@.len() > 0,
    ensures
        views(res@) == split_seq(s@, sep@),
        res@.len() >= 1,
{
    let mut pieces: Vec<Vec<char>> = Vec::new();
    let mut cur: Vec<char> = Vec::new();
    let mut i: usize = 0;
    assert(s@.skip(0) =~= s@);
    proof {
        lemma_split_seq_len(s@, sep@);
    }
    assert(views(pieces@) + glue(cur@, split_seq(s@.skip(0), sep@)) =~= split_seq(s@, sep@));
    while i <= s.len() && sep.len() <= s.len() - i
        invariant
            i <= s@.len(),
            sep@.len() > 0,
            split_seq(s@, sep@) == views(pieces@) + glue(cur@, split_seq(s@.skip(i as int), sep@)),
        decreases s@.len() - i,
    {
        let ghost rest = s@.skip(i as int);
        assert(rest.subrange(0, sep@.len() as int) =~= s@.subrange(i as int, i + sep@.len()));
        if occurs_at_exec(s, sep, i) {
            assert(rest.skip(sep@.len() as int) =~= s@.skip(i + sep@.len()));
            proof {
                lemma_split_seq_len(rest.skip(sep@.len() as int), sep@);
            }
            let ghost tail = split_seq(rest.skip(sep@.len() as int), sep@);
            pieces.push(cur);
            cur = Vec::new();
            i = i + sep.len();
            assert(glue(cur@, tail) =~= tail);
            assert(views(pieces@) + glue(cur@, tail) =~= split_seq(s@, sep@));
        } else {
            assert(rest.drop_first() =~= s@.skip(i + 1));
            proof {
                lemma_split_seq_len(rest.drop_first(), sep@);
            }
            let ghost tail = split_seq(rest.drop_first(), sep@);
            let ghost old_cur = cur@;
            assert(rest[0] == s@[i as int]);
            assert(old_cur + (seq![rest[0]] + tail[0]) =~= old_cur.push(rest[0]) + tail[0]);
            cur.push(s[i]);
            i = i + 1;
            assert(glue(old_cur, glue(seq![rest[0]], tail)) =~= glue(cur@, tail));
        }
    }
    let ghost rest = s@.skip(i as int);
    let tail_chars = slice_chars(s, i, s.len());
    assert(tail_chars@ =~= rest);
    let mut last = cur;
    let mut k: usize = 0;
    let ghost base = last@;
    while k < tail_chars.len()
        invariant
            k <= tail_chars@.len(),
            last@ == base + tail_chars@.take(k as int),
        decreases tail_chars@.len() - k,
    {
        last.push(tail_chars[k]);
        k = k + 1;
        assert(last@ =~= base + tail_chars@.take(k as int));
    }
    assert(tail_chars@.take(tail_chars@.len() as int) =~= tail_chars@);
    pieces.push(last);
    assert(views(pieces@) =~= split_seq(s@, sep@));
    pieces
}

/// The first line of `s` (`str::lines().next()`): the text before the first
/// line feed, without a carriage return that ends it; `None` for the empty
/// string.
pub open spec fn first_line(s: Seq<char>) -> Option<Seq<char>> {
    if s.len() == 0 {
        None
    } else {
        let raw = split_char(s, '\n')[0];
        if raw.len() < s.len() && raw.len() > 0 && raw.last() == '\r' {
            Some(raw.drop_last())
        } else {
            Some(raw)
        }
    }
}

/// Without the separator, `split_char` yields the whole string.
pub proof fn lemma_split_char_no_sep(s: Seq<char>, c: char)
    requires
        forall|k: int| 0 <= k < s.len() ==> s[k] != c,
    ensures
        split_char(s, c) == seq![s],
    decreases s.len(),
{
    if s.len() > 0 {
        lemma_split_char_no_sep(s.drop_last(), c);
        assert(s.drop_last().push(s.last()) =~= s);
        assert(split_char(s, c) =~= seq![s]);
    } else {
        assert(s =~= Seq::<char>::empty());
    }
}

/// Once `c` occurs, there are at least two pieces.
pub proof fn lemma_split_char_pieces_two(s: Seq<char>, c: char, i: int)
    requires
        0 <= i < s.len(),
        s[i] == c,
    ensures
        split_char(s, c).len() >= 2,
    decreases s.len(),
{
    lemma_split_char_len(s.drop_last(), c);
    if i < s.len() - 1 {
        lemma_split_char_pieces_two(s.drop_last(), c, i);
    }
}

/// The first piece of `split_char` is the text before the first occurrence.
pub proof fn lemma_split_char_first(s: Seq<char>, c: char, i: int)
    requires
        0 <= i <= s.len(),
        forall|k: int| 0 <= k < i ==> s[k] != c,
        i == s.len() || s[i] == c,
    ensures
        split_char(s, c)[0] == s.take(i),
    decreases s.len(),
{
    if i == s.len() {
        lemma_split_char_no_sep(s, c);
        assert(s.take(i) =~= s);
    } else {
        let d = s.drop_last();
        lemma_split_char_len(d, c);
        if i == s.len() - 1 {
            lemma_split_char_no_sep(d, c);
            assert(d =~= s.take(i));
        } else {
            lemma_split_char_first(d, c, i);
            assert(d.take(i) =~= s.take(i));
            if s.last() != c {
                lemma_split_char_pieces_two(d, c, i);
            }
        }
    }
}


/// `str::lines().next()` over characters.
pub fn first_line_chars(s: &Vec<char>) -> (res: Option<Vec<char>>)
    ensures
        match res {
            Some(v) => first_line(s@) == Some(v@),
            None => first_line(s@) is None,
        },
{
    if s.len() == 0 {
        return None;
    }
    let mut i: usize = 0;
    while i < s.len() && s[i] != '\n'
        invariant
            i <= s@.len(),
            forall|k: int| 0 <= k < i ==> s@[k] != '\n',
        decreases s@.len() - i,
    {
        i = i + 1;
    }
    proof {
        lemma_split_char_first(s@, '\n', i as int);
    }
    if i < s.len() && i > 0 && s[i - 1] == '\r' {
        Some(slice_chars(s, 0, i - 1))
    } else {
        Some(slice_chars(s, 0, i))
    }
}

/// `s` split at every whitespace character (empty pieces kept).
pub open spec fn split_ws_raw(s: Seq<char>) -> Seq<Seq<char>>
    decreases s.len(),
{
    if s.len() == 0 {
        seq![Seq::<char>::empty()]
    } else {
        let p = split_ws_raw(s.drop_last());
        if white_space(s.last()) {
            p.push(Seq::<char>::empty())
        } else {
            p.update(p.len() - 1, p.last().push(s.last()))
        }
    }
}

/// The piece is not empty.
pub open spec fn non_empty(p: Seq<char>) -> bool {
    p.len() > 0
}

/// `str::split_whitespace`: the non-empty runs of non-whitespace characters.
pub open spec fn words(s: Seq<char>) -> Seq<Seq<char>> {
    split_ws_raw(s).filter(|p: Seq<char>| non_empty(p))
}

/// `split_ws_raw` always yields at least one piece.
pub proof fn lemma_split_ws_raw_len(s: Seq<char>)
    ensures
        split_ws_raw(s).len() >= 1,
    decreases s.len(),
{
    if s.len() > 0 {
        lemma_split_ws_raw_len(s.drop_last());
    }
}

/// `str::split_whitespace` over characters.
pub fn words_chars(s: &Vec<char>) -> (res: Vec<Vec<char>>)
    ensures
        views(res@) == words(s@),
{
    let ghost f = |p: Seq<char>| non_empty(p);
    let mut done: Vec<Vec<char>> = Vec::new();
    let mut cur: Vec<char> = Vec::new();
    let ghost mut pieces: Seq<Seq<char>> = Seq::empty();
    assert(s@.take(0) =~= Seq::<char>::empty());
    assert(pieces.push(cur@) =~= split_ws_raw(s@.take(0)));
    let mut i: usize = 0;
    while i < s.len()
        invariant
            i <= s@.len(),
            pieces.push(cur@) == split_ws_raw(s@.take(i as int)),
            views(done@) == pieces.filter(f),
            f == (|p: Seq<char>| non_empty(p)),
        decreases s@.len() - i,
    {
        let x = s[i];
        assert(s@.take(i + 1).drop_last() =~= s@.take(i as int));
        assert(s@.take(i + 1).last() == x);
        proof {
            lemma_split_ws_raw_len(s@.take(i as int));
        }
        if is_ws(x) {
            proof {
                pieces.lemma_filter_push(cur@, f);
            }
            let ghost old_cur = cur@;
            if cur.len() > 0 {
                done.push(cur);
            }
            cur = Vec::new();
            proof {
                pieces = pieces.push(old_cur);
            }
            assert(views(done@) =~= pieces.filter(f));
            assert(pieces.push(cur@) =~= split_ws_raw(s@.take(i + 1)));
        } else {
            cur.push(x);
            assert(pieces.push(cur@) =~= split_ws_raw(s@.take(i + 1)));
        }
        i = i + 1;
    }
    assert(s@.take(s@.len() as int) =~= s@);
    proof {
        pieces.lemma_filter_push(cur@, f);
    }
    if cur.len() > 0 {
        done.push(cur);
    }
    assert(views(done@) =~= words(s@));
    done
}

/// `lowercase_of` over a character vector.
pub fn lower_chars(v: &Vec<char>) -> (res: Vec<char>)
    ensures
        res@ == lowercase_of(v@),
{
    let s = string_from_chars(v.as_slice());
    let l = to_lower(s.as_str());
    chars_of(l.as_str())
}

// ---------------------------------------------------------------------------
// Numbers
// ---------------------------------------------------------------------------

/// The decimal digit character for `d < 10`.
pub open spec fn digit_char(d: nat) -> char {
    (48 + d) as char
}

/// The decimal representation of `n` (as `Display` writes it).
pub open spec fn decimal(n: nat) -> Seq<char>
    decreases n,
{
    if n < 10 {
        seq![digit_char(n)]
    } else {
        decimal(n / 10).push(digit_char(n % 10))
    }
}

/// The decimal representation of `n`.
pub fn decimal_chars(n: u64) -> (res: Vec<char>)
    ensures
        res@ == decimal(n as nat),
    decreases n,
{
    let d: u8 = (n % 10) as u8;
    let c: char = (48u8 + d) as char;
    if n < 10 {
        let mut v: Vec<char> = Vec::new();
        v.push(c);
        assert(v@ =~= decimal(n as nat));
        v
    } else {
        let mut v = decimal_chars(n / 10);
        v.push(c);
        v
    }
}

/// The decimal representation of `n` as a `String`.
pub fn decimal_string(n: u64) -> (res: String)
    ensures
        res@ == decimal(n as nat),
{
    let v = decimal_chars(n);
    string_from_chars(v.as_slice())
}

/// `c` is an ASCII decimal digit.
pub open spec fn is_digit(c: char) -> bool {
    '0' <= c && c <= '9'
}

/// The value of a string of decimal digits.
pub open spec fn digits_value(s: Seq<char>) -> int
    decreases s.len(),
{
    if s.len() == 0 {
        0
    } else {
        digits_value(s.drop_last()) * 10 + (s.last() as int - 48)
    }
}

/// The digits part of an unsigned number: `s` without one leading `+`.
pub open spec fn unsigned_digits(s: Seq<char>) -> Seq<char> {
    if s.len() > 0 && s[0] == '+' {
        s.drop_first()
    } else {
        s
    }
}

/// Every character of `d` is a decimal digit.
pub open spec fn all_digits(d: Seq<char>) -> bool {
    forall|k: int| 0 <= k < d.len() ==> is_digit(#[trigger] d[k])
}

/// What `str::parse::<u16>` returns: an optional `+` followed by one or
/// more decimal digits whose value is at most `u16::MAX`.
pub open spec fn parse_u16(s: Seq<char>) -> Option<u16> {
    let d = unsigned_digits(s);
    if d.len() > 0 && all_digits(d) && digits_value(d) <= 65535 {
        Some(digits_value(d) as u16)
    } else {
        None
    }
}

/// The value of a digit prefix never decreases as digits are added.
pub proof fn lemma_digits_value_monotone(s: Seq<char>, i: int, j: int)
    requires
        0 <= i <= j <= s.len(),
        forall|k: int| 0 <= k < s.len() ==> is_digit(#[trigger] s[k]),
    ensures
        0 <= digits_value(s.take(i)) <= digits_value(s.take(j)),
    decreases j - i,
{
    if i < j {
        lemma_digits_value_monotone(s, i, j - 1);
        assert(s.take(j).drop_last() =~= s.take(j - 1));
    } else {
        lemma_digits_value_nonneg(s.take(i));
    }
}

/// Digit strings have non-negative values.
pub proof fn lemma_digits_value_nonneg(s: Seq<char>)
    requires
        forall|k: int| 0 <= k < s.len() ==> is_digit(#[trigger] s[k]),
    ensures
        digits_value(s) >= 0,
    decreases s.len(),
{
    if s.len() > 0 {
        lemma_digits_value_nonneg(s.drop_last());
    }
}

/// `str::parse::<u16>` over characters.
pub fn parse_u16_chars(s: &Vec<char>) -> (res: Option<u16>)
    ensures
        res == parse_u16(s@),
{
    let start: usize = if s.len() > 0 && s[0] == '+' { 1 } else { 0 };
    let d = slice_chars(s, start, s.len());
    assert(d@ =~= unsigned_digits(s@));
    if d.len() == 0 {
        return None;
    }
    let mut i: usize = 0;
    while i < d.len()
        invariant
            i <= d@.len(),
            d@ == unsigned_digits(s@),
            forall|k: int| 0 <= k < i ==> is_digit(#[trigger] d@[k]),
        decreases d@.len() - i,
    {
        if !('0' <= d[i] && d[i] <= '9') {
            assert(!is_digit(d@[i as int]));
            return None;
        }
        i = i + 1;
    }
    let mut acc: u32 = 0;
    let mut j: usize = 0;
    assert(d@.take(0) =~= Seq::<char>::empty());
    while j < d.len()
        invariant
            j <= d@.len(),
            d@ == unsigned_digits(s@),
            forall|k: int| 0 <= k < d@.len() ==> is_digit(#[trigger] d@[k]),
            acc as int == digits_value(d@.take(j as int)),
            acc <= 65535,
        decreases d@.len() - j,
    {
        assert(d@.take(j + 1).drop_last() =~= d@.take(j as int));
        let dv: u32 = (d[j] as u32) - 48;
        let next: u32 = acc * 10 + dv;
        j = j + 1;
        assert(next as int == digits_value(d@.take(j as int)));
        if next > 65535 {
            proof {
                lemma_digits_value_monotone(d@, j as int, d@.len() as int);
                assert(d@.take(d@.len() as int) =~= d@);
            }
            return None;
        }
        acc = next;
    }
    assert(d@.take(d@.len() as int) =~= d@);
    Some(acc as u16)
}

// ---------------------------------------------------------------------------
// Building strings
// ---------------------------------------------------------------------------

/// `a` followed by `b`.
pub fn concat_chars(a: &Vec<char>, b: &Vec<char>) -> (res: Vec<char>)
    ensures
        res@ == a@ + b@,
{
    let mut res: Vec<char> = Vec::new();
    let mut i: usize = 0;
    while i < a.len()
        invariant
            i <= a@.len(),
            res@ == a@.take(i as int),
        decreases a@.len() - i,
    {
        res.push(a[i]);
        i = i + 1;
        assert(res@ =~= a@.take(i as int));
    }
    let mut j: usize = 0;
    assert(a@.take(a@.len() as int) =~= a@);
    while j < b.len()
        invariant
            j <= b@.len(),
            res@ == a@ + b@.take(j as int),
        decreases b@.len() - j,
    {
        res.push(b[j]);
        j = j + 1;
        assert(res@ =~= a@ + b@.take(j as int));
    }
    assert(b@.take(b@.len() as int) =~= b@);
    res
}

/// The concatenation of the literal `a` and the characters `b`.
pub fn lit_then(a: &str, b: &Vec<char>) -> (res: Vec<char>)
    ensures
        res@ == a@ + b@,
{
    let av = chars_of(a);
    concat_chars(&av, b)
}

/// A `String` holding the characters of `v`.
pub fn string_of(v: &Vec<char>) -> (res: String)
    ensures
        res@ == v@,
{
    string_from_chars(v.as_slice())
}

/// Whether `v` equals one of the literals `lits`.
pub fn equals_any(v: &Vec<char>, lits: &Vec<&str>) -> (res: bool)
    ensures
        res == lits@.map_values(|x: &str| x@).contains(v@),
{
    let ghost vs = lits@.map_values(|x: &str| x@);
    let mut k: usize = 0;
    while k < lits.len()
        invariant
            k <= lits@.len(),
            vs == lits@.map_values(|x: &str| x@),
            forall|j: int| 0 <= j < k ==> vs[j] != v@,
        decreases lits@.len() - k,
    {
        let l = chars_of(lits[k]);
        if chars_eq(v, &l) {
            assert(vs[k as int] == v@);
            return true;
        }
        k = k + 1;
    }
    false
}

/// The number of bytes that `c` takes in UTF-8.
pub open spec fn utf8_width(c: char) -> nat {
    if (c as u32) < 0x80 {
        1
    } else if (c as u32) < 0x800 {
        2
    } else if (c as u32) < 0x10000 {
        3
    } else {
        4
    }
}

/// The length in bytes of the UTF-8 encoding of `s` (`str::len`).
pub open spec fn utf8_len(s: Seq<char>) -> nat
    decreases s.len(),
{
    if s.len() == 0 {
        0
    } else {
        utf8_len(s.drop_last()) + utf8_width(s.last())
    }
}

/// `str::len` over characters; the count saturates at `usize::MAX`.
pub fn utf8_len_chars(s: &Vec<char>) -> (res: usize)
    ensures
        res == if utf8_len(s@) <= usize::MAX { utf8_len(s@) } else { usize::MAX as nat },
{
    let mut total: usize = 0;
    let mut i: usize = 0;
    let mut saturated = false;
    assert(s@.take(0) =~= Seq::<char>::empty());
    while i < s.len()
        invariant
            i <= s@.len(),
            !saturated ==> total == utf8_len(s@.take(i as int)),
            saturated ==> total == usize::MAX && utf8_len(s@.take(i as int)) > usize::MAX,
        decreases s@.len() - i,
    {
        let c = s[i];
        let w: usize = if (c as u32) < 0x80 {
            1
        } else if (c as u32) < 0x800 {
            2
        } else if (c as u32) < 0x10000 {
            3
        } else {
            4
        };
        assert(s@.take(i + 1).drop_last() =~= s@.take(i as int));
        assert(w == utf8_width(s@.take(i + 1).last()));
        if saturated || total > usize::MAX - w {
            saturated = true;
            total = usize::MAX;
        } else {
            total = total + w;
        }
        i = i + 1;
    }
    assert(s@.take(s@.len() as int) =~= s@);
    total
}

} // verus!
