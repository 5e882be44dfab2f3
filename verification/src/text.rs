//! Text primitives over character sequences, each with the meaning that
//! Rust's `str` methods of the same name give it.
use vstd::prelude::*;

verus! {

// ───────────────────────────── character classes ─────────────────────────────

/// Unicode `White_Space`, the property that `char::is_whitespace` tests.
pub open spec fn is_ws(c: char) -> bool {
    let n = c as u32;
    ||| 0x9 <= n <= 0xd
    ||| n == 0x20
    ||| n == 0x85
    ||| n == 0xa0
    ||| n == 0x1680
    ||| 0x2000 <= n <= 0x200a
    ||| n == 0x2028
    ||| n == 0x2029
    ||| n == 0x202f
    ||| n == 0x205f
    ||| n == 0x3000
}

/// A set of characters that a trim removes.
pub enum CharClass {
    Space,
    Only(char),
}

pub open spec fn in_class(k: CharClass, c: char) -> bool {
    match k {
        CharClass::Space => is_ws(c),
        CharClass::Only(x) => c == x,
    }
}

pub fn is_whitespace(c: char) -> (b: bool)
    ensures
        b == is_ws(c),
{
    let n = c as u32;
    (0x9 <= n && n <= 0xd) || n == 0x20 || n == 0x85 || n == 0xa0 || n == 0x1680 || (0x2000 <= n
        && n <= 0x200a) || n == 0x2028 || n == 0x2029 || n == 0x202f || n == 0x205f || n == 0x3000
}

pub fn class_has(k: &CharClass, c: char) -> (b: bool)
    ensures
        b == in_class(*k, c),
{
    match k {
        CharClass::Space => is_whitespace(c),
        CharClass::Only(x) => c == *x,
    }
}

// ───────────────────────────── trimming ─────────────────────────────

/// Drops the leading characters of class `k`.
pub open spec fn strip_lead(s: Seq<char>, k: CharClass) -> Seq<char>
    decreases s.len(),
{
    if s.len() > 0 && in_class(k, s[0]) {
        strip_lead(s.drop_first(), k)
    } else {
        s
    }
}

/// Drops the trailing characters of class `k`.
pub open spec fn strip_trail(s: Seq<char>, k: CharClass) -> Seq<char>
    decreases s.len(),
{
    if s.len() > 0 && in_class(k, s.last()) {
        strip_trail(s.drop_last(), k)
    } else {
        s
    }
}

/// `str::trim`.
pub open spec fn trim(s: Seq<char>) -> Seq<char> {
    strip_trail(strip_lead(s, CharClass::Space), CharClass::Space)
}

/// `str::trim_matches` with one character.
pub open spec fn trim_char(s: Seq<char>, c: char) -> Seq<char> {
    strip_trail(strip_lead(s, CharClass::Only(c)), CharClass::Only(c))
}

pub proof fn lemma_strip_lead(s: Seq<char>, k: CharClass, a: int)
    requires
        0 <= a <= s.len(),
        forall|i: int| 0 <= i < a ==> in_class(k, #[trigger] s[i]),
        a == s.len() || !in_class(k, s[a]),
    ensures
        strip_lead(s, k) == s.skip(a),
    decreases a,
{
    if a == 0 {
        assert(s.skip(0) =~= s);
    } else {
        lemma_strip_lead(s.drop_first(), k, a - 1);
        assert(s.drop_first().skip(a - 1) =~= s.skip(a));
    }
}

pub proof fn lemma_strip_trail(s: Seq<char>, k: CharClass, b: int)
    requires
        0 <= b <= s.len(),
        forall|i: int| b <= i < s.len() ==> in_class(k, #[trigger] s[i]),
        b == 0 || !in_class(k, s[b - 1]),
    ensures
        strip_trail(s, k) == s.take(b),
    decreases s.len() - b,
{
    if b == s.len() {
        assert(s.take(b) =~= s);
    } else {
        lemma_strip_trail(s.drop_last(), k, b);
        assert(s.drop_last().take(b) =~= s.take(b));
    }
}

/// The bounds, inside `s[lo..hi]`, of what remains after stripping class `k`
/// on both ends.
pub fn strip_bounds(s: &Vec<char>, lo: usize, hi: usize, k: &CharClass) -> (r: (usize, usize))
    requires
        lo <= hi <= s.len(),
    ensures
        lo <= r.0 <= r.1 <= hi,
        s@.subrange(r.0 as int, r.1 as int) == strip_trail(
            strip_lead(s@.subrange(lo as int, hi as int), *k),
            *k,
        ),
{
    let ghost t = s@.subrange(lo as int, hi as int);
    let mut a = lo;
    while a < hi && class_has(k, s[a])
        invariant
            lo <= a <= hi <= s.len(),
            t == s@.subrange(lo as int, hi as int),
            forall|i: int| lo <= i < a ==> in_class(*k, #[trigger] s@[i]),
        decreases hi - a,
    {
        a = a + 1;
    }
    proof {
        assert forall|i: int| 0 <= i < a - lo implies in_class(*k, #[trigger] t[i]) by {
            assert(t[i] == s@[lo + i]);
        }
        lemma_strip_lead(t, *k, a - lo);
        assert(t.skip(a - lo) =~= s@.subrange(a as int, hi as int));
    }
    let ghost u = s@.subrange(a as int, hi as int);
    let mut b = hi;
    while b > a && class_has(k, s[b - 1])
        invariant
            lo <= a <= b <= hi <= s.len(),
            u == s@.subrange(a as int, hi as int),
            forall|i: int| b <= i < hi ==> in_class(*k, #[trigger] s@[i]),
        decreases b - a,
    {
        b = b - 1;
    }
    proof {
        assert forall|i: int| b - a <= i < u.len() implies in_class(*k, #[trigger] u[i]) by {
            assert(u[i] == s@[a + i]);
        }
        lemma_strip_trail(u, *k, b - a);
        assert(u.take(b - a) =~= s@.subrange(a as int, b as int));
    }
    (a, b)
}

/// The end, inside `s[lo..hi]`, of what remains after stripping class `k`
/// at the end only.
pub fn trail_bound(s: &Vec<char>, lo: usize, hi: usize, k: &CharClass) -> (b: usize)
    requires
        lo <= hi <= s.len(),
    ensures
        lo <= b <= hi,
        s@.subrange(lo as int, b as int) == strip_trail(s@.subrange(lo as int, hi as int), *k),
{
    let ghost u = s@.subrange(lo as int, hi as int);
    let mut b = hi;
    while b > lo && class_has(k, s[b - 1])
        invariant
            lo <= b <= hi <= s.len(),
            u == s@.subrange(lo as int, hi as int),
            forall|i: int| b <= i < hi ==> in_class(*k, #[trigger] s@[i]),
        decreases b - lo,
    {
        b = b - 1;
    }
    proof {
        assert forall|i: int| b - lo <= i < u.len() implies in_class(*k, #[trigger] u[i]) by {
            assert(u[i] == s@[lo + i]);
        }
        lemma_strip_trail(u, *k, b - lo);
        assert(u.take(b - lo) =~= s@.subrange(lo as int, b as int));
    }
    b
}

// ───────────────────────────── prefixes and matches ─────────────────────────────

/// `p` occurs in `s` at position `i`.
pub open spec fn match_at(s: Seq<char>, i: int, p: Seq<char>) -> bool {
    0 <= i && i + p.len() <= s.len() && s.subrange(i, i + p.len()) == p
}

/// `str::starts_with`.
pub open spec fn starts_with(s: Seq<char>, p: Seq<char>) -> bool {
    match_at(s, 0, p)
}

/// `str::ends_with`.
pub open spec fn ends_with(s: Seq<char>, p: Seq<char>) -> bool {
    match_at(s, s.len() - p.len(), p)
}

/// `str::contains` with a string pattern.
pub open spec fn contains(s: Seq<char>, p: Seq<char>) -> bool {
    exists|i: int| match_at(s, i, p)
}

/// `str::strip_prefix`.
pub open spec fn strip_prefix(s: Seq<char>, p: Seq<char>) -> Option<Seq<char>> {
    if starts_with(s, p) {
        Some(s.skip(p.len() as int))
    } else {
        None
    }
}

pub fn matches_at(s: &Vec<char>, i: usize, p: &Vec<char>) -> (b: bool)
    ensures
        b == match_at(s@, i as int, p@),
{
    if i > s.len() || p.len() > s.len() - i {
        return false;
    }
    let mut j: usize = 0;
    while j < p.len()
        invariant
            i + p.len() <= s.len(),
            j <= p.len(),
            forall|k: int| 0 <= k < j ==> s@[i + k] == p@[k],
        decreases p.len() - j,
    {
        if s[i + j] != p[j] {
            proof {
                assert(s@.subrange(i as int, i + p.len())[j as int] != p@[j as int]);
            }
            return false;
        }
        j = j + 1;
    }
    assert(s@.subrange(i as int, i + p.len()) =~= p@);
    true
}

pub fn has_prefix(s: &Vec<char>, p: &Vec<char>) -> (b: bool)
    ensures
        b == starts_with(s@, p@),
{
    matches_at(s, 0, p)
}

pub fn has_suffix(s: &Vec<char>, p: &Vec<char>) -> (b: bool)
    ensures
        b == ends_with(s@, p@),
{
    if p.len() > s.len() {
        return false;
    }
    matches_at(s, s.len() - p.len(), p)
}

pub fn has_substring(s: &Vec<char>, p: &Vec<char>) -> (b: bool)
    ensures
        b == contains(s@, p@),
{
    if p.len() > s.len() {
        return false;
    }
    let last = s.len() - p.len();
    let mut i: usize = 0;
    while i < last
        invariant
            last == s.len() - p.len(),
            i <= last,
            forall|k: int| 0 <= k < i ==> !match_at(s@, k, p@),
        decreases last - i,
    {
        if matches_at(s, i, p) {
            return true;
        }
        i = i + 1;
    }
    if matches_at(s, last, p) {
        return true;
    }
    assert forall|k: int| !match_at(s@, k, p@) by {
        if 0 <= k && k <= last {
            assert(k < i || k == last);
        }
    }
    false
}

// ───────────────────────────── splitting ─────────────────────────────

/// `str::split` with a non-empty string pattern: the pieces between the
/// leftmost non-overlapping occurrences of `p`.
pub open spec fn split(s: Seq<char>, p: Seq<char>) -> Seq<Seq<char>>
    decreases s.len(),
{
    if p.len() == 0 || s.len() < p.len() {
        seq![s]
    } else if s.take(p.len() as int) == p {
        seq![Seq::<char>::empty()] + split(s.skip(p.len() as int), p)
    } else {
        let r = split(s.drop_first(), p);
        r.update(0, seq![s[0]] + r[0])
    }
}

pub proof fn lemma_split_nonempty(s: Seq<char>, p: Seq<char>)
    ensures
        split(s, p).len() >= 1,
    decreases s.len(),
{
    if p.len() == 0 || s.len() < p.len() {
    } else if s.take(p.len() as int) == p {
        lemma_split_nonempty(s.skip(p.len() as int), p);
    } else {
        lemma_split_nonempty(s.drop_first(), p);
    }
}

/// One step of `split` that does not start at an occurrence of the pattern.
pub proof fn lemma_split_step(s: Seq<char>, p: Seq<char>)
    requires
        p.len() > 0,
        s.len() > 0,
        !match_at(s, 0, p),
    ensures
        split(s, p) == split(s.drop_first(), p).update(
            0,
            seq![s[0]] + split(s.drop_first(), p)[0],
        ),
{
    lemma_split_nonempty(s.drop_first(), p);
    if s.len() < p.len() {
        assert(s.drop_first().len() < p.len());
        assert(seq![s[0]] + s.drop_first() =~= s);
        assert(split(s.drop_first(), p).update(0, seq![s[0]] + split(s.drop_first(), p)[0])
            =~= seq![s]);
    } else {
        assert(s.subrange(0, p.len() as int) =~= s.take(p.len() as int));
    }
}

/// A step of `split` at an occurrence of the pattern.
pub proof fn lemma_split_match(s: Seq<char>, p: Seq<char>)
    requires
        p.len() > 0,
        match_at(s, 0, p),
    ensures
        split(s, p) == seq![Seq::<char>::empty()] + split(s.skip(p.len() as int), p),
{
    assert(s.subrange(0, p.len() as int) =~= s.take(p.len() as int));
}

pub open spec fn views(v: Seq<Vec<char>>) -> Seq<Seq<char>> {
    v.map_values(|x: Vec<char>| x@)
}

pub fn slice_of(s: &Vec<char>, a: usize, b: usize) -> (r: Vec<char>)
    requires
        a <= b <= s.len(),
    ensures
        r@ == s@.subrange(a as int, b as int),
{
    let mut r: Vec<char> = Vec::new();
    let mut i = a;
    while i < b
        invariant
            a <= i <= b <= s.len(),
            r@ == s@.subrange(a as int, i as int),
        decreases b - i,
    {
        r.push(s[i]);
        i = i + 1;
        assert(r@ =~= s@.subrange(a as int, i as int));
    }
    r
}

/// Splits `s` at the occurrences of a non-empty pattern `p`.
pub fn split_chars(s: &Vec<char>, p: &Vec<char>) -> (r: Vec<Vec<char>>)
    requires
        p.len() > 0,
    ensures
        views(r@) == split(s@, p@),
{
    let mut pieces: Vec<Vec<char>> = Vec::new();
    let mut st: usize = 0;
    let mut i: usize = 0;
    proof {
        lemma_split_nonempty(s@, p@);
        assert(s@.skip(0) =~= s@);
        let r = split(s@, p@);
        assert(r.update(0, s@.subrange(0, 0) + r[0]) =~= r);
    }
    while i < s.len()
        invariant
            p.len() > 0,
            st <= i <= s.len(),
            split(s@, p@) == views(pieces@) + {
                let r = split(s@.skip(i as int), p@);
                r.update(0, s@.subrange(st as int, i as int) + r[0])
            },
        decreases s.len() - i,
    {
        let ghost old_pieces = views(pieces@);
        let ghost t = s@.skip(i as int);
        if matches_at(s, i, p) {
            proof {
                assert(t.subrange(0, p.len() as int) =~= s@.subrange(i as int, i + p.len()));
                lemma_split_match(t, p@);
                assert(t.skip(p.len() as int) =~= s@.skip(i + p.len()));
            }
            let piece = slice_of(s, st, i);
            pieces.push(piece);
            i = i + p.len();
            st = i;
            proof {
                let r = split(s@.skip(i as int), p@);
                lemma_split_nonempty(s@.skip(i as int), p@);
                assert(views(pieces@) =~= old_pieces.push(piece@));
                assert(s@.subrange(st as int, i as int) =~= Seq::<char>::empty());
                assert(r.update(0, s@.subrange(st as int, i as int) + r[0]) =~= r);
                let prev = split(t, p@);
                assert(prev =~= seq![Seq::<char>::empty()] + r);
                assert(prev.update(0, piece@ + prev[0]) =~= seq![piece@] + r);
                assert(old_pieces + (seq![piece@] + r) =~= views(pieces@) + r);
            }
        } else {
            proof {
                assert(!match_at(t, 0, p@)) by {
                    if match_at(t, 0, p@) {
                        assert(t.subrange(0, p.len() as int) =~= s@.subrange(i as int, i + p.len()));
                    }
                }
                lemma_split_step(t, p@);
                assert(t.drop_first() =~= s@.skip(i + 1));
                assert(t[0] == s@[i as int]);
            }
            i = i + 1;
            proof {
                let r = split(s@.skip(i as int), p@);
                lemma_split_nonempty(s@.skip(i as int), p@);
                let prev0 = split(t, p@);
                assert(prev0[0] == seq![s@[i - 1]] + r[0]);
                assert(s@.subrange(st as int, i - 1) + (seq![s@[i - 1]] + r[0])
                    =~= s@.subrange(st as int, i as int) + r[0]);
                let prev = split(t, p@);
                assert(prev.update(0, s@.subrange(st as int, i - 1) + prev[0]) =~= r.update(
                    0,
                    s@.subrange(st as int, i as int) + r[0],
                ));
            }
        }
    }
    let last = slice_of(s, st, i);
    proof {
        assert(s@.skip(i as int) =~= Seq::<char>::empty());
        let r = split(s@.skip(i as int), p@);
        assert(r =~= seq![Seq::<char>::empty()]);
        assert(r.update(0, last@ + r[0]) =~= seq![last@]);
    }
    let ghost before = views(pieces@);
    pieces.push(last);
    assert(views(pieces@) =~= before.push(last@));
    pieces
}

/// `str::trim`, as an owned string.
pub fn trimmed(s: &str) -> (r: String)
    ensures
        r@ == trim(s@),
{
    let v = chars_of(s);
    let (a, b) = strip_bounds(&v, 0, v.len(), &CharClass::Space);
    assert(v@.subrange(0, v.len() as int) =~= v@);
    string_of(&slice_of(&v, a, b))
}

// ───────────────────────────── lines ─────────────────────────────

/// Drops one trailing carriage return.
pub open spec fn strip_cr(s: Seq<char>) -> Seq<char> {
    if s.len() > 0 && s.last() == '\r' {
        s.drop_last()
    } else {
        s
    }
}

/// `str::lines`: the pieces between newlines; a line ended by `\n` loses a
/// trailing `\r`, and an empty piece after a final newline is no line.
pub open spec fn lines(s: Seq<char>) -> Seq<Seq<char>> {
    let ps = split(s, seq!['\n']);
    let n = ps.len();
    Seq::new((n - 1) as nat, |i: int| strip_cr(ps[i])) + if ps[n - 1].len() > 0 {
        seq![ps[n - 1]]
    } else {
        Seq::<Seq<char>>::empty()
    }
}

pub fn newline() -> (v: Vec<char>)
    ensures
        v@ == seq!['\n'],
{
    let mut v = Vec::new();
    v.push('\n');
    assert(v@ =~= seq!['\n']);
    v
}

pub fn lines_of(s: &Vec<char>) -> (r: Vec<Vec<char>>)
    ensures
        views(r@) == lines(s@),
{
    let nl = newline();
    let ps = split_chars(s, &nl);
    proof {
        lemma_split_nonempty(s@, nl@);
    }
    let n = ps.len();
    let mut out: Vec<Vec<char>> = Vec::new();
    let mut i: usize = 0;
    while i + 1 < n
        invariant
            n == ps.len(),
            n >= 1,
            i <= n - 1,
            views(ps@) == split(s@, seq!['\n']),
            views(out@) == Seq::new(i as nat, |j: int| strip_cr(views(ps@)[j])),
        decreases n - i,
    {
        let piece = &ps[i];
        let line = if piece.len() > 0 && piece[piece.len() - 1] == '\r' {
            slice_of(piece, 0, piece.len() - 1)
        } else {
            slice_of(piece, 0, piece.len())
        };
        proof {
            assert(views(ps@)[i as int] == piece@);
            if piece@.len() > 0 && piece@.last() == '\r' {
                assert(line@ =~= piece@.drop_last());
            } else {
                assert(line@ =~= piece@);
            }
        }
        let ghost before = views(out@);
        out.push(line);
        i = i + 1;
        assert(views(out@) =~= before.push(line@));
        assert(line@ == strip_cr(views(ps@)[i - 1]));
        assert(views(out@) =~= Seq::new(i as nat, |j: int| strip_cr(views(ps@)[j])));
    }
    let last = &ps[n - 1];
    assert(views(ps@)[n - 1] == last@);
    assert(nl@ == seq!['\n']);
    let ghost pre = Seq::new((n - 1) as nat, |j: int| strip_cr(views(ps@)[j]));
    assert(views(out@) == pre);
    if last.len() > 0 {
        let ghost before = views(out@);
        let cp = slice_of(last, 0, last.len());
        assert(cp@ =~= last@);
        out.push(cp);
        assert(views(out@) =~= before.push(cp@));
        assert(lines(s@) == pre + seq![last@]);
        assert(views(out@) =~= lines(s@));
    } else {
        assert(lines(s@) == pre + Seq::<Seq<char>>::empty());
        assert(views(out@) =~= lines(s@));
    }
    out
}

// ───────────────────────────── replacement ─────────────────────────────

/// `str::replace` with a non-empty pattern: each leftmost non-overlapping
/// occurrence of `p` becomes `r`.
pub open spec fn replace_all(s: Seq<char>, p: Seq<char>, r: Seq<char>) -> Seq<char>
    decreases s.len(),
{
    if p.len() == 0 || s.len() < p.len() {
        s
    } else if s.take(p.len() as int) == p {
        r + replace_all(s.skip(p.len() as int), p, r)
    } else {
        seq![s[0]] + replace_all(s.drop_first(), p, r)
    }
}

pub proof fn lemma_replace_step(s: Seq<char>, p: Seq<char>, r: Seq<char>)
    requires
        p.len() > 0,
        s.len() > 0,
        !match_at(s, 0, p),
    ensures
        replace_all(s, p, r) == seq![s[0]] + replace_all(s.drop_first(), p, r),
{
    if s.len() < p.len() {
        assert(s.drop_first().len() < p.len());
        assert(seq![s[0]] + s.drop_first() =~= s);
    } else {
        assert(s.subrange(0, p.len() as int) =~= s.take(p.len() as int));
    }
}

pub fn append_chars(out: &mut Vec<char>, x: &Vec<char>)
    ensures
        final(out)@ == old(out)@ + x@,
{
    let mut i: usize = 0;
    while i < x.len()
        invariant
            i <= x.len(),
            out@ == old(out)@ + x@.take(i as int),
        decreases x.len() - i,
    {
        out.push(x[i]);
        i = i + 1;
        assert(out@ =~= old(out)@ + x@.take(i as int));
    }
    assert(x@.take(x.len() as int) =~= x@);
}

pub fn replace_chars(s: &Vec<char>, p: &Vec<char>, r: &Vec<char>) -> (out: Vec<char>)
    requires
        p.len() > 0,
    ensures
        out@ == replace_all(s@, p@, r@),
{
    let mut out: Vec<char> = Vec::new();
    let mut i: usize = 0;
    assert(s@.skip(0) =~= s@);
    while i < s.len()
        invariant
            p.len() > 0,
            i <= s.len(),
            replace_all(s@, p@, r@) == out@ + replace_all(s@.skip(i as int), p@, r@),
        decreases s.len() - i,
    {
        let ghost t = s@.skip(i as int);
        if matches_at(s, i, p) {
            proof {
                assert(t.subrange(0, p.len() as int) =~= s@.subrange(i as int, i + p.len()));
                assert(t.take(p.len() as int) =~= t.subrange(0, p.len() as int));
                assert(t.skip(p.len() as int) =~= s@.skip(i + p.len()));
            }
            append_chars(&mut out, r);
            i = i + p.len();
        } else {
            proof {
                assert(!match_at(t, 0, p@)) by {
                    if match_at(t, 0, p@) {
                        assert(t.subrange(0, p.len() as int) =~= s@.subrange(i as int, i + p.len()));
                    }
                }
                lemma_replace_step(t, p@, r@);
                assert(t.drop_first() =~= s@.skip(i + 1));
            }
            out.push(s[i]);
            i = i + 1;
        }
    }
    assert(s@.skip(i as int) =~= Seq::<char>::empty());
    assert(out@ + Seq::<char>::empty() =~= out@);
    out
}

// ───────────────────────────── conversion ─────────────────────────────

/// `String::push`: appends one character to a string.
#[verifier::external_body]
pub(crate) fn push_char(s: &mut String, c: char)
    ensures
        final(s)@ == old(s)@.push(c),
{
    s.push(c);
}

/// The characters of a string slice, in order.
pub fn chars_of(s: &str) -> (v: Vec<char>)
    ensures
        v@ == s@,
{
    let mut v: Vec<char> = Vec::new();
    for c in it: s.chars()
        invariant
            v@ == it.seq().take(it.index() as int),
    {
        v.push(c);
    }
    v
}

/// Builds a string from characters.
pub fn string_of(v: &Vec<char>) -> (s: String)
    ensures
        s@ == v@,
{
    let mut s = String::new();
    let mut i: usize = 0;
    while i < v.len()
        invariant
            i <= v.len(),
            s@ == v@.take(i as int),
        decreases v.len() - i,
    {
        push_char(&mut s, v[i]);
        i = i + 1;
        assert(v@.take(i as int) == v@.take(i - 1).push(v@[i - 1]));
    }
    assert(v@.take(v.len() as int) == v@);
    s
}

pub fn same_chars(a: &Vec<char>, b: &Vec<char>) -> (r: bool)
    ensures
        r == (a@ == b@),
{
    if a.len() != b.len() {
        return false;
    }
    let r = matches_at(a, 0, b);
    proof {
        if r {
            assert(a@.subrange(0, b.len() as int) =~= a@);
        } else {
            assert(a@.subrange(0, b.len() as int) =~= a@);
        }
    }
    r
}


// ───────────────────────────── line joining ─────────────────────────────

/// Each line followed by a newline, concatenated.
pub open spec fn join_lines(ls: Seq<Seq<char>>) -> Seq<char>
    decreases ls.len(),
{
    if ls.len() == 0 {
        Seq::<char>::empty()
    } else {
        join_lines(ls.drop_last()) + ls.last() + seq!['\n']
    }
}

pub proof fn lemma_join_lines_push(ls: Seq<Seq<char>>, l: Seq<char>)
    ensures
        join_lines(ls.push(l)) == join_lines(ls) + l + seq!['\n'],
{
    assert(ls.push(l).drop_last() =~= ls);
}

/// Appends `line` and a newline.
pub fn push_line(out: &mut Vec<char>, line: &Vec<char>)
    ensures
        final(out)@ == old(out)@ + line@ + seq!['\n'],
{
    append_chars(out, line);
    out.push('\n');
}

/// Whether `x` is one of the strings of `list`.
pub fn list_contains(list: &Vec<String>, x: &Vec<char>) -> (b: bool)
    ensures
        b == str_views(list@).contains(x@),
{
    let target = string_of(x);
    let mut i: usize = 0;
    while i < list.len()
        invariant
            i <= list.len(),
            target@ == x@,
            forall|k: int| 0 <= k < i ==> list@[k]@ != x@,
        decreases list.len() - i,
    {
        if list[i] == target {
            assert(str_views(list@)[i as int] == x@);
            return true;
        }
        i = i + 1;
    }
    assert forall|k: int| 0 <= k < str_views(list@).len() implies str_views(list@)[k] != x@ by {
        assert(str_views(list@)[k] == list@[k]@);
    }
    false
}

pub open spec fn str_views(v: Seq<String>) -> Seq<Seq<char>> {
    v.map_values(|x: String| x@)
}


// ───────────────────────────── decimal numbers ─────────────────────────────

pub open spec fn digit_char(d: nat) -> char {
    if d == 0 { '0' } else if d == 1 { '1' } else if d == 2 { '2' } else if d == 3 { '3' }
    else if d == 4 { '4' } else if d == 5 { '5' } else if d == 6 { '6' } else if d == 7 { '7' }
    else if d == 8 { '8' } else { '9' }
}

/// The decimal digits of `n`, most significant first, without leading zeros.
pub open spec fn decimal(n: nat) -> Seq<char>
    decreases n,
{
    if n < 10 {
        seq![digit_char(n)]
    } else {
        decimal(n / 10).push(digit_char(n % 10))
    }
}

/// How `Display` writes a signed integer.
pub open spec fn signed_decimal(n: int) -> Seq<char> {
    if n < 0 {
        seq!['-'] + decimal((-n) as nat)
    } else {
        decimal(n as nat)
    }
}

fn digit(d: u64) -> (c: char)
    requires
        d < 10,
    ensures
        c == digit_char(d as nat),
{
    if d == 0 { '0' } else if d == 1 { '1' } else if d == 2 { '2' } else if d == 3 { '3' }
    else if d == 4 { '4' } else if d == 5 { '5' } else if d == 6 { '6' } else if d == 7 { '7' }
    else if d == 8 { '8' } else { '9' }
}

/// Appends the decimal digits of `n`.
pub fn push_decimal(out: &mut Vec<char>, n: u64)
    ensures
        final(out)@ == old(out)@ + decimal(n as nat),
    decreases n,
{
    if n < 10 {
        out.push(digit(n));
        assert(decimal(n as nat) =~= seq![digit_char(n as nat)]);
    } else {
        push_decimal(out, n / 10);
        out.push(digit(n % 10));
        assert(decimal(n as nat) == decimal((n / 10) as nat).push(digit_char((n % 10) as nat)));
    }
}

/// Appends a signed integer as `Display` writes it.
pub fn push_signed(out: &mut Vec<char>, n: i64)
    ensures
        final(out)@ == old(out)@ + signed_decimal(n as int),
{
    if n < 0 {
        out.push('-');
        let m: u64 = (-(n as i128)) as u64;
        push_decimal(out, m);
        assert(final(out)@ =~= old(out)@ + (seq!['-'] + decimal((-n) as nat)));
    } else {
        push_decimal(out, n as u64);
    }
}

/// `usize` as `Display` writes it.
pub fn usize_to_string(n: usize) -> (s: String)
    ensures
        s@ == decimal(n as nat),
{
    let mut v: Vec<char> = Vec::new();
    push_decimal(&mut v, n as u64);
    assert(v@ =~= decimal(n as nat));
    string_of(&v)
}

/// Joins strings with a separator, as `[String]::join` does.
pub open spec fn join_with(parts: Seq<Seq<char>>, sep: Seq<char>) -> Seq<char>
    decreases parts.len(),
{
    if parts.len() == 0 {
        Seq::<char>::empty()
    } else if parts.len() == 1 {
        parts[0]
    } else {
        join_with(parts.drop_last(), sep) + sep + parts.last()
    }
}

pub fn join_strings(parts: &Vec<String>, sep: &str) -> (out: String)
    ensures
        out@ == join_with(str_views(parts@), sep@),
{
    let sepv = chars_of(sep);
    let mut out: Vec<char> = Vec::new();
    let mut i: usize = 0;
    while i < parts.len()
        invariant
            i <= parts.len(),
            sepv@ == sep@,
            out@ == join_with(str_views(parts@).take(i as int), sep@),
        decreases parts.len() - i,
    {
        let ghost before = out@;
        let piece = chars_of(parts[i].as_str());
        if i > 0 {
            append_chars(&mut out, &sepv);
        }
        append_chars(&mut out, &piece);
        proof {
            let t = str_views(parts@).take(i + 1);
            assert(t.drop_last() =~= str_views(parts@).take(i as int));
            assert(t.last() == piece@);
            if i == 0 {
                assert(before =~= Seq::<char>::empty());
                assert(out@ =~= t[0]);
            }
        }
        i = i + 1;
    }
    assert(str_views(parts@).take(parts.len() as int) =~= str_views(parts@));
    string_of(&out)
}

/// Appends the characters of a string slice.
pub fn append_str(out: &mut Vec<char>, s: &str)
    ensures
        final(out)@ == old(out)@ + s@,
{
    let v = chars_of(s);
    append_chars(out, &v);
}


// ───────────────────────────── ordering ─────────────────────────────

/// Lexicographic order by code point: the order of `String`'s `Ord`, whose
/// byte order over UTF-8 agrees with it.
pub open spec fn str_lt(a: Seq<char>, b: Seq<char>) -> bool
    decreases a.len(),
{
    if a.len() == 0 {
        b.len() > 0
    } else if b.len() == 0 {
        false
    } else if a[0] != b[0] {
        (a[0] as int) < (b[0] as int)
    } else {
        str_lt(a.drop_first(), b.drop_first())
    }
}

pub proof fn lemma_str_lt_irreflexive(a: Seq<char>)
    ensures
        !str_lt(a, a),
    decreases a.len(),
{
    if a.len() > 0 {
        lemma_str_lt_irreflexive(a.drop_first());
    }
}

pub proof fn lemma_str_lt_trichotomy(a: Seq<char>, b: Seq<char>)
    ensures
        a == b || str_lt(a, b) || str_lt(b, a),
        !(str_lt(a, b) && str_lt(b, a)),
    decreases a.len(),
{
    if a.len() > 0 && b.len() > 0 {
        if a[0] == b[0] {
            lemma_str_lt_trichotomy(a.drop_first(), b.drop_first());
            if a.drop_first() == b.drop_first() {
                assert(a =~= seq![a[0]] + a.drop_first());
                assert(b =~= seq![b[0]] + b.drop_first());
            }
        } else {
            assert((a[0] as int) != (b[0] as int));
        }
    } else if a.len() == 0 && b.len() == 0 {
        assert(a =~= b);
    }
}

pub proof fn lemma_str_lt_transitive(a: Seq<char>, b: Seq<char>, c: Seq<char>)
    requires
        str_lt(a, b),
        str_lt(b, c),
    ensures
        str_lt(a, c),
    decreases a.len(),
{
    if a.len() > 0 && b.len() > 0 && c.len() > 0 {
        if a[0] == b[0] && b[0] == c[0] {
            lemma_str_lt_transitive(a.drop_first(), b.drop_first(), c.drop_first());
        }
    }
}

/// Whether `a` comes strictly before `b`.
pub fn str_less(a: &Vec<char>, b: &Vec<char>) -> (r: bool)
    ensures
        r == str_lt(a@, b@),
{
    let mut i: usize = 0;
    assert(a@.skip(0) =~= a@);
    assert(b@.skip(0) =~= b@);
    while i < a.len() && i < b.len() && a[i] == b[i]
        invariant
            i <= a.len(),
            i <= b.len(),
            str_lt(a@, b@) == str_lt(a@.skip(i as int), b@.skip(i as int)),
        decreases a.len() - i,
    {
        proof {
            let x = a@.skip(i as int);
            let y = b@.skip(i as int);
            assert(x.drop_first() =~= a@.skip(i + 1));
            assert(y.drop_first() =~= b@.skip(i + 1));
        }
        i = i + 1;
    }
    let ghost x = a@.skip(i as int);
    let ghost y = b@.skip(i as int);
    if i == a.len() {
        assert(x.len() == 0);
        i < b.len()
    } else if i == b.len() {
        false
    } else {
        assert(x[0] == a@[i as int] && y[0] == b@[i as int]);
        a[i] < b[i]
    }
}

/// Strictly increasing: sorted with no repetition.
pub open spec fn strictly_sorted(v: Seq<Seq<char>>) -> bool {
    forall|i: int, j: int| 0 <= i < j < v.len() ==> str_lt(#[trigger] v[i], #[trigger] v[j])
}

fn entry_before(v: &Vec<String>, p: usize, x: &Vec<char>) -> (r: bool)
    requires
        p < v.len(),
    ensures
        r == str_lt(v@[p as int]@, x@),
{
    let cur = chars_of(v[p].as_str());
    str_less(&cur, x)
}

/// Adds `x` to a strictly increasing list, keeping it so; nothing changes if
/// `x` is already there.
pub fn insert_unique_sorted(v: &mut Vec<String>, x: String)
    requires
        strictly_sorted(str_views(old(v)@)),
    ensures
        strictly_sorted(str_views(final(v)@)),
        str_views(final(v)@).to_set() == str_views(old(v)@).to_set().insert(x@),
{
    let xc = chars_of(x.as_str());
    let ghost old_views = str_views(v@);
    let mut p: usize = 0;
    while p < v.len() && entry_before(v, p, &xc)
        invariant
            p <= v.len(),
            xc@ == x@,
            str_views(v@) == old_views,
            forall|k: int| 0 <= k < p ==> str_lt(#[trigger] old_views[k], x@),
        decreases v.len() - p,
    {
        p = p + 1;
    }
    proof {
        assert(forall|k: int| 0 <= k < old_views.len() ==> old_views[k] == v@[k]@);
    }
    if p < v.len() {
        let cur = chars_of(v[p].as_str());
        if same_chars(&cur, &xc) {
            proof {
                assert(old_views[p as int] == x@);
                assert(old_views.to_set().insert(x@) =~= old_views.to_set());
            }
            return;
        }
        proof {
            lemma_str_lt_trichotomy(x@, old_views[p as int]);
        }
    }
    v.insert(p, x);
    proof {
        let nv = str_views(v@);
        assert(nv =~= old_views.insert(p as int, x@));
        assert forall|i: int, j: int| 0 <= i < j < nv.len() implies str_lt(#[trigger] nv[i], #[trigger] nv[j]) by {
            if j < p {
            } else if j == p {
            } else if i < p {
                // nv[i] < x < old[p] <= nv[j]
                assert(str_lt(old_views[i], x@));
                assert(str_lt(x@, old_views[p as int]));
                if j - 1 > p {
                    assert(str_lt(old_views[p as int], old_views[j - 1]));
                    lemma_str_lt_transitive(x@, old_views[p as int], old_views[j - 1]);
                }
                lemma_str_lt_transitive(old_views[i], x@, old_views[j - 1]);
            } else if i == p {
                if j - 1 > p {
                    assert(str_lt(old_views[p as int], old_views[j - 1]));
                    lemma_str_lt_transitive(x@, old_views[p as int], old_views[j - 1]);
                }
            } else {
                assert(str_lt(old_views[i - 1], old_views[j - 1]));
            }
        }
        assert forall|s: Seq<char>| nv.to_set().contains(s) <==> old_views.to_set().insert(x@).contains(s) by {
            if nv.contains(s) {
                let k = choose|k: int| 0 <= k < nv.len() && nv[k] == s;
                if k < p {
                    assert(old_views[k] == s);
                } else if k > p {
                    assert(old_views[k - 1] == s);
                }
            }
            if old_views.contains(s) {
                let k = choose|k: int| 0 <= k < old_views.len() && old_views[k] == s;
                if k < p {
                    assert(nv[k] == s);
                } else {
                    assert(nv[k + 1] == s);
                }
            }
            if s == x@ {
                assert(nv[p as int] == s);
            }
        }
        assert(nv.to_set() =~= old_views.to_set().insert(x@));
    }
}


/// Sorted, repeats allowed.
pub open spec fn sorted(v: Seq<Seq<char>>) -> bool {
    forall|i: int, j: int| 0 <= i < j < v.len() ==> !str_lt(#[trigger] v[j], #[trigger] v[i])
}

fn comes_before(x: &Vec<char>, v: &Vec<String>, p: usize) -> (r: bool)
    requires
        p < v.len(),
    ensures
        r == str_lt(x@, v@[p as int]@),
{
    let cur = chars_of(v[p].as_str());
    str_less(x, &cur)
}

/// The strings in sorted order, as `sort` leaves them.
pub fn sort_strings(v: &Vec<String>) -> (r: Vec<String>)
    ensures
        sorted(str_views(r@)),
        str_views(r@).to_multiset() == str_views(v@).to_multiset(),
{
    broadcast use vstd::seq_lib::group_to_multiset_ensures;
    let mut out: Vec<String> = Vec::new();
    let mut i: usize = 0;
    while i < v.len()
        invariant
            i <= v.len(),
            sorted(str_views(out@)),
            str_views(out@).to_multiset() == str_views(v@).take(i as int).to_multiset(),
        decreases v.len() - i,
    {
        let x = v[i].clone();
        let xc = chars_of(x.as_str());
        let ghost ov = str_views(out@);
        let mut p: usize = 0;
        while p < out.len() && !comes_before(&xc, &out, p)
            invariant
                p <= out.len(),
                xc@ == x@,
                str_views(out@) == ov,
                forall|k: int| 0 <= k < p ==> !str_lt(x@, #[trigger] ov[k]),
            decreases out.len() - p,
        {
            assert(ov[p as int] == out@[p as int]@);
            p = p + 1;
        }
        out.insert(p, x);
        proof {
            let nv = str_views(out@);
            assert(nv =~= ov.insert(p as int, x@));
            assert forall|a: int, b: int| 0 <= a < b < nv.len() implies !str_lt(#[trigger] nv[b], #[trigger] nv[a]) by {
                if b < p {
                } else if b == p {
                    assert(!str_lt(x@, ov[a]));
                } else if a < p {
                    // ov[a] <= x < ov[p] <= ov[b-1]
                    assert(!str_lt(x@, ov[a]));
                    if str_lt(ov[b - 1], ov[a]) {
                        lemma_str_lt_trichotomy(x@, ov[a]);
                        if p < ov.len() {
                            assert(str_lt(x@, ov[p as int]));
                            if b - 1 > p {
                                lemma_str_lt_trichotomy(ov[b - 1], ov[p as int]);
                                if str_lt(ov[b - 1], ov[p as int]) {
                                    assert(false);
                                }
                                if ov[b - 1] == ov[p as int] {
                                    lemma_str_lt_transitive(x@, ov[b - 1], ov[a]);
                                    lemma_str_lt_trichotomy(x@, ov[a]);
                                } else {
                                    lemma_str_lt_transitive(ov[p as int], ov[b - 1], ov[a]);
                                    lemma_str_lt_transitive(x@, ov[p as int], ov[a]);
                                }
                            } else {
                                lemma_str_lt_transitive(x@, ov[p as int], ov[a]);
                            }
                        }
                    }
                } else if a == p {
                    if p < ov.len() {
                        assert(str_lt(x@, ov[p as int]));
                        if b - 1 > p {
                            if str_lt(ov[b - 1], x@) {
                                lemma_str_lt_transitive(ov[b - 1], x@, ov[p as int]);
                            }
                        } else {
                            lemma_str_lt_trichotomy(x@, ov[p as int]);
                        }
                    }
                } else {
                }
            }
            let t = str_views(v@).take(i + 1);
            assert(t =~= str_views(v@).take(i as int).push(x@));
            vstd::seq_lib::to_multiset_insert(ov, p as int, x@);
            vstd::seq_lib::to_multiset_build(str_views(v@).take(i as int), x@);
        }
        i = i + 1;
    }
    assert(str_views(v@).take(v.len() as int) =~= str_views(v@));
    out
}


/// Appends the decimal digits of a wide unsigned integer.
pub fn push_decimal_wide(out: &mut Vec<char>, n: u128)
    ensures
        final(out)@ == old(out)@ + decimal(n as nat),
    decreases n,
{
    if n < 10 {
        out.push(digit(n as u64));
        assert(decimal(n as nat) =~= seq![digit_char(n as nat)]);
    } else {
        push_decimal_wide(out, n / 10);
        out.push(digit((n % 10) as u64));
        assert(decimal(n as nat) == decimal((n / 10) as nat).push(digit_char((n % 10) as nat)));
    }
}

/// Appends a wide signed integer as `Display` writes it.
pub fn push_signed_wide(out: &mut Vec<char>, n: i128)
    requires
        n > i128::MIN,
    ensures
        final(out)@ == old(out)@ + signed_decimal(n as int),
{
    if n < 0 {
        out.push('-');
        push_decimal_wide(out, (-n) as u128);
        assert(final(out)@ =~= old(out)@ + (seq!['-'] + decimal((-n) as nat)));
    } else {
        push_decimal_wide(out, n as u128);
    }
}


/// `str::trim_start_matches` with a string pattern: every leading repetition
/// of `p` removed.
pub open spec fn strip_repeated(s: Seq<char>, p: Seq<char>) -> Seq<char>
    decreases s.len(),
{
    if p.len() > 0 && starts_with(s, p) {
        strip_repeated(s.skip(p.len() as int), p)
    } else {
        s
    }
}

/// The length of the repeated prefix `p` at the start of `s[lo..]`.
pub fn repeated_prefix_end(s: &Vec<char>, p: &Vec<char>) -> (k: usize)
    requires
        p.len() > 0,
    ensures
        k <= s.len(),
        strip_repeated(s@, p@) == s@.skip(k as int),
{
    let mut k: usize = 0;
    assert(s@.skip(0) =~= s@);
    while matches_at(s, k, p)
        invariant
            p.len() > 0,
            k <= s.len(),
            strip_repeated(s@, p@) == strip_repeated(s@.skip(k as int), p@),
        decreases s.len() - k,
    {
        proof {
            let t = s@.skip(k as int);
            assert(t.subrange(0, p.len() as int) =~= s@.subrange(k as int, k + p.len()));
            assert(t.skip(p.len() as int) =~= s@.skip(k + p.len()));
        }
        k = k + p.len();
    }
    proof {
        let t = s@.skip(k as int);
        if starts_with(t, p@) {
            assert(t.subrange(0, p.len() as int) =~= s@.subrange(k as int, k + p.len()));
        }
    }
    k
}


// ───────────────────────────── words ─────────────────────────────

/// The number of leading characters that are not whitespace.
pub open spec fn word_len(s: Seq<char>) -> nat
    decreases s.len(),
{
    if s.len() == 0 || is_ws(s[0]) {
        0
    } else {
        1 + word_len(s.drop_first())
    }
}

pub proof fn lemma_word_len_le(s: Seq<char>)
    ensures
        word_len(s) <= s.len(),
    decreases s.len(),
{
    if s.len() > 0 && !is_ws(s[0]) {
        lemma_word_len_le(s.drop_first());
    }
}

pub proof fn lemma_word_len(s: Seq<char>, k: int)
    requires
        0 <= k <= s.len(),
        forall|i: int| 0 <= i < k ==> !is_ws(#[trigger] s[i]),
        k == s.len() || is_ws(s[k]),
    ensures
        word_len(s) == k,
    decreases k,
{
    if k > 0 {
        lemma_word_len(s.drop_first(), k - 1);
    }
}

/// `str::split_whitespace`: the maximal runs of non-whitespace characters.
pub open spec fn words(s: Seq<char>) -> Seq<Seq<char>>
    decreases s.len(),
{
    let t = strip_lead(s, CharClass::Space);
    if t.len() == 0 {
        Seq::<Seq<char>>::empty()
    } else {
        if word_len(t) > 0 {
            proof {
                lemma_strip_lead_len(s, CharClass::Space);
                lemma_word_len_le(t);
            }
            seq![t.take(word_len(t) as int)] + words(t.skip(word_len(t) as int))
        } else {
            Seq::<Seq<char>>::empty()
        }
    }
}

pub proof fn lemma_strip_lead_len(s: Seq<char>, k: CharClass)
    ensures
        strip_lead(s, k).len() <= s.len(),
        strip_lead(s, k).len() > 0 ==> !in_class(k, strip_lead(s, k)[0]),
        exists|a: int| 0 <= a <= s.len() && strip_lead(s, k) == s.skip(a),
    decreases s.len(),
{
    if s.len() > 0 && in_class(k, s[0]) {
        lemma_strip_lead_len(s.drop_first(), k);
        let a = choose|a: int| 0 <= a <= s.drop_first().len() && strip_lead(s.drop_first(), k) == s.drop_first().skip(a);
        assert(s.drop_first().skip(a) =~= s.skip(a + 1));
    } else {
        assert(s.skip(0) =~= s);
    }
}

/// The whitespace-separated words of `s`.
pub fn words_of(s: &Vec<char>) -> (r: Vec<Vec<char>>)
    ensures
        views(r@) == words(s@),
{
    let mut out: Vec<Vec<char>> = Vec::new();
    let mut i: usize = 0;
    assert(s@.skip(0) =~= s@);
    while i < s.len()
        invariant
            i <= s.len(),
            words(s@) == views(out@) + words(s@.skip(i as int)),
        decreases s.len() - i,
    {
        let ghost rest = s@.skip(i as int);
        let mut a = i;
        while a < s.len() && is_whitespace(s[a])
            invariant
                i <= a <= s.len(),
                forall|k: int| i <= k < a ==> is_ws(#[trigger] s@[k]),
            decreases s.len() - a,
        {
            a = a + 1;
        }
        proof {
            assert forall|k: int| 0 <= k < a - i implies in_class(CharClass::Space, #[trigger] rest[k]) by {
                assert(rest[k] == s@[i + k]);
            }
            lemma_strip_lead(rest, CharClass::Space, a - i);
            assert(rest.skip(a - i) =~= s@.skip(a as int));
        }
        if a == s.len() {
            proof {
                assert(s@.skip(a as int).len() == 0);
                assert(views(out@) + Seq::<Seq<char>>::empty() =~= views(out@));
            }
            i = a;
        } else {
            let mut b = a;
            while b < s.len() && !is_whitespace(s[b])
                invariant
                    a <= b <= s.len(),
                    forall|k: int| a <= k < b ==> !is_ws(#[trigger] s@[k]),
                decreases s.len() - b,
            {
                b = b + 1;
            }
            let ghost t = s@.skip(a as int);
            proof {
                assert forall|k: int| 0 <= k < b - a implies !is_ws(#[trigger] t[k]) by {
                    assert(t[k] == s@[a + k]);
                }
                if b < s.len() {
                    assert(t[b - a] == s@[b as int]);
                }
                lemma_word_len(t, b - a);
                assert(t.skip(b - a) =~= s@.skip(b as int));
                assert(t.take(b - a) =~= s@.subrange(a as int, b as int));
            }
            let w = slice_of(s, a, b);
            let ghost before = views(out@);
            out.push(w);
            proof {
                assert(views(out@) =~= before.push(w@));
                assert(words(rest) == seq![w@] + words(s@.skip(b as int)));
                assert(before + (seq![w@] + words(s@.skip(b as int))) =~= views(out@) + words(s@.skip(b as int)));
            }
            i = b;
        }
    }
    assert(s@.skip(i as int).len() == 0);
    assert(views(out@) + Seq::<Seq<char>>::empty() =~= views(out@));
    out
}

}
