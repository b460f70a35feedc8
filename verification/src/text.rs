//! Character-level utilities shared by the parsers and formatters: searching,
//! counting, splitting, trimming and comparing text.

use vstd::prelude::*;

verus! {

/// Index of the first occurrence of `c` in `s`, or `s.len()` when `s` does
/// not contain `c`.
pub open spec fn spec_find(s: Seq<char>, c: char) -> int
    decreases s.len(),
{
    if s.len() == 0 {
        0
    } else if s[0] == c {
        0
    } else {
        1 + spec_find(s.drop_first(), c)
    }
}

/// How many times `c` occurs in `s`.
pub open spec fn spec_count(s: Seq<char>, c: char) -> nat
    decreases s.len(),
{
    if s.len() == 0 {
        0
    } else {
        (if s[0] == c {
            1nat
        } else {
            0nat
        }) + spec_count(s.drop_first(), c)
    }
}

pub proof fn lemma_find_bounds(s: Seq<char>, c: char)
    ensures
        0 <= spec_find(s, c) <= s.len(),
        spec_find(s, c) < s.len() ==> s[spec_find(s, c)] == c,
        forall|i: int| 0 <= i < spec_find(s, c) ==> s[i] != c,
    decreases s.len(),
{
    if s.len() > 0 && s[0] != c {
        lemma_find_bounds(s.drop_first(), c);
        assert forall|i: int| 0 <= i < spec_find(s, c) implies s[i] != c by {
            if i > 0 {
                assert(s.drop_first()[i - 1] == s[i]);
            }
        }
    }
}

/// `spec_find` lands at the end exactly when `c` does not occur at all.
pub proof fn lemma_find_count(s: Seq<char>, c: char)
    ensures
        (spec_find(s, c) == s.len()) <==> (spec_count(s, c) == 0),
    decreases s.len(),
{
    if s.len() > 0 && s[0] != c {
        lemma_find_count(s.drop_first(), c);
    }
}

/// First index at or after which `c` occurs in `s`, or the length of `s`.
pub fn find_char(s: &str, c: char) -> (r: usize)
    ensures
        r == spec_find(s@, c),
{
    let n = s.unicode_len();
    let mut i: usize = 0;
    proof {
        lemma_find_bounds(s@, c);
    }
    while i < n
        invariant
            0 <= i <= n,
            n == s@.len(),
            spec_find(s@, c) >= i,
        decreases n - i,
    {
        proof {
            lemma_find_bounds(s@, c);
        }
        if s.get_char(i) == c {
            proof {
                lemma_find_bounds(s@, c);
            }
            return i;
        }
        proof {
            lemma_find_suffix_step(s@, c, i as int);
        }
        i += 1;
    }
    proof {
        lemma_find_bounds(s@, c);
    }
    i
}

/// If no occurrence lies at or before `i`, the first occurrence lies past `i`.
proof fn lemma_find_suffix_step(s: Seq<char>, c: char, i: int)
    requires
        0 <= i < s.len(),
        spec_find(s, c) >= i,
        s[i] != c,
    ensures
        spec_find(s, c) >= i + 1,
{
    lemma_find_bounds(s, c);
    if spec_find(s, c) == i {
        assert(s[i] == c);
    }
}

/// How many times `c` occurs in `s`.
pub fn count_char(s: &str, c: char) -> (r: usize)
    ensures
        r == spec_count(s@, c),
{
    let n = s.unicode_len();
    let mut i: usize = 0;
    let mut cnt: usize = 0;
    while i < n
        invariant
            0 <= i <= n,
            n == s@.len(),
            cnt == spec_count(s@.subrange(0, i as int), c),
            cnt <= i,
        decreases n - i,
    {
        proof {
            lemma_count_extend(s@, c, i as int);
        }
        if s.get_char(i) == c {
            cnt += 1;
        }
        i += 1;
    }
    proof {
        assert(s@.subrange(0, s@.len() as int) =~= s@);
    }
    cnt
}

/// Counting one more character extends the count of the prefix.
proof fn lemma_count_extend(s: Seq<char>, c: char, i: int)
    requires
        0 <= i < s.len(),
    ensures
        spec_count(s.subrange(0, i + 1), c) == spec_count(s.subrange(0, i), c) + (if s[i] == c {
            1nat
        } else {
            0nat
        }),
    decreases i,
{
    let p = s.subrange(0, i + 1);
    if i == 0 {
        assert(p.drop_first() =~= s.subrange(0, 0));
    } else {
        lemma_count_push(s.subrange(0, i), s[i], c);
        assert(s.subrange(0, i).push(s[i]) =~= p);
    }
}

/// Appending one character adds its contribution to the count.
proof fn lemma_count_push(s: Seq<char>, x: char, c: char)
    ensures
        spec_count(s.push(x), c) == spec_count(s, c) + (if x == c {
            1nat
        } else {
            0nat
        }),
    decreases s.len(),
{
    assert(s.push(x)[0] == (if s.len() == 0 {
        x
    } else {
        s[0]
    }));
    if s.len() == 0 {
        assert(s.push(x).drop_first() =~= Seq::<char>::empty());
        assert(spec_count(s.push(x), c) == (if x == c {
            1nat
        } else {
            0nat
        }) + spec_count(Seq::<char>::empty(), c));
    } else {
        assert(s.push(x).drop_first() =~= s.drop_first().push(x));
        lemma_count_push(s.drop_first(), x, c);
        assert(spec_count(s.push(x), c) == (if s[0] == c {
            1nat
        } else {
            0nat
        }) + spec_count(s.drop_first().push(x), c));
    }
}

/// Lexicographic order on text, by character code point. This is the order
/// in which `rustc` lists its configuration entries; on UTF-8 encoded text
/// it agrees with byte-wise comparison.
pub open spec fn spec_le(a: Seq<char>, b: Seq<char>) -> bool
    decreases a.len(),
{
    if a.len() == 0 {
        true
    } else if b.len() == 0 {
        false
    } else if a[0] == b[0] {
        spec_le(a.drop_first(), b.drop_first())
    } else {
        (a[0] as u32) < (b[0] as u32)
    }
}

pub proof fn lemma_le_total(a: Seq<char>, b: Seq<char>)
    ensures
        spec_le(a, b) || spec_le(b, a),
        spec_le(a, b) && spec_le(b, a) ==> a == b,
    decreases a.len(),
{
    if a.len() > 0 && b.len() > 0 {
        if a[0] == b[0] {
            lemma_le_total(a.drop_first(), b.drop_first());
            if spec_le(a, b) && spec_le(b, a) {
                assert(a =~= seq![a[0]] + a.drop_first());
                assert(b =~= seq![b[0]] + b.drop_first());
            }
        } else {
            assert((a[0] as u32) != (b[0] as u32)) by {
                vstd::utf8::char_u32_cast(a[0], a[0] as u32);
                vstd::utf8::char_u32_cast(b[0], b[0] as u32);
            }
        }
    }
}

pub proof fn lemma_le_trans(a: Seq<char>, b: Seq<char>, c: Seq<char>)
    requires
        spec_le(a, b),
        spec_le(b, c),
    ensures
        spec_le(a, c),
    decreases a.len(),
{
    if a.len() > 0 && b.len() > 0 && c.len() > 0 && a[0] == b[0] && b[0] == c[0] {
        lemma_le_trans(a.drop_first(), b.drop_first(), c.drop_first());
    }
}

/// Does `a` sort at or before `b`?
pub fn str_le(a: &str, b: &str) -> (r: bool)
    ensures
        r == spec_le(a@, b@),
{
    let an = a.unicode_len();
    let bn = b.unicode_len();
    let mut i: usize = 0;
    proof {
        assert(a@.subrange(0, an as int) =~= a@);
        assert(b@.subrange(0, bn as int) =~= b@);
    }
    while i < an && i < bn
        invariant
            0 <= i <= an,
            0 <= i <= bn,
            an == a@.len(),
            bn == b@.len(),
            forall|j: int| 0 <= j < i ==> a@[j] == b@[j],
            spec_le(a@, b@) == spec_le(a@.subrange(i as int, an as int), b@.subrange(
                i as int,
                bn as int,
            )),
        decreases an - i,
    {
        let ca = a.get_char(i);
        let cb = b.get_char(i);
        if ca != cb {
            return (ca as u32) < (cb as u32);
        }
        proof {
            let sa = a@.subrange(i as int, an as int);
            let sb = b@.subrange(i as int, bn as int);
            assert(sa.drop_first() =~= a@.subrange(i + 1, an as int));
            assert(sb.drop_first() =~= b@.subrange(i + 1, bn as int));
        }
        i += 1;
    }
    proof {
        let sa = a@.subrange(i as int, an as int);
        let sb = b@.subrange(i as int, bn as int);
        if i >= an {
            assert(sa.len() == 0);
        } else {
            assert(sb.len() == 0);
            assert(sa.len() > 0);
        }
    }
    an <= bn
}

/// The characters with the Unicode `White_Space` property, the set that
/// leading-whitespace trimming removes.
pub open spec fn is_space_char(c: char) -> bool {
    c == ' ' || c == '\t' || c == '\n' || c == '\r' || c == '\u{b}' || c == '\u{c}' || c == '\u{85}'
        || c == '\u{a0}' || c == '\u{1680}' || (c as u32 >= 0x2000 && c as u32 <= 0x200a) || c
        == '\u{2028}' || c == '\u{2029}' || c == '\u{202f}' || c == '\u{205f}' || c == '\u{3000}'
}

/// `s` without its leading whitespace.
pub open spec fn spec_trim_start(s: Seq<char>) -> Seq<char>
    decreases s.len(),
{
    if s.len() > 0 && is_space_char(s[0]) {
        spec_trim_start(s.drop_first())
    } else {
        s
    }
}

fn is_space(c: char) -> (r: bool)
    ensures
        r == is_space_char(c),
{
    c == ' ' || c == '\t' || c == '\n' || c == '\r' || c == '\u{b}' || c == '\u{c}' || c == '\u{85}'
        || c == '\u{a0}' || c == '\u{1680}' || (c as u32 >= 0x2000 && c as u32 <= 0x200a) || c
        == '\u{2028}' || c == '\u{2029}' || c == '\u{202f}' || c == '\u{205f}' || c == '\u{3000}'
}

/// `s` without its leading whitespace.
pub fn trim_start(s: &str) -> (r: &str)
    ensures
        r@ == spec_trim_start(s@),
{
    let n = s.unicode_len();
    let mut i: usize = 0;
    proof {
        assert(s@.subrange(0, n as int) =~= s@);
    }
    while i < n && is_space(s.get_char(i))
        invariant
            0 <= i <= n,
            n == s@.len(),
            spec_trim_start(s@) == spec_trim_start(s@.subrange(i as int, n as int)),
        decreases n - i,
    {
        proof {
            assert(s@.subrange(i as int, n as int).drop_first() =~= s@.subrange(i + 1, n as int));
        }
        i += 1;
    }
    s.substring_char(i, n)
}

/// `l` without a single trailing carriage return, if it carries one.
pub open spec fn chop_cr(l: Seq<char>) -> Seq<char> {
    if l.len() > 0 && l.last() == '\r' {
        l.drop_last()
    } else {
        l
    }
}

/// The lines of `s`: pieces separated by newlines, each without a trailing
/// carriage return, with no empty piece after a final newline.
pub open spec fn spec_lines(s: Seq<char>) -> Seq<Seq<char>>
    decreases s.len(),
{
    if s.len() == 0 {
        Seq::empty()
    } else {
        let j = spec_find(s, '\n');
        if 0 <= j && j < s.len() {
            seq![chop_cr(s.subrange(0, j))] + spec_lines(s.subrange(j + 1, s.len() as int))
        } else {
            seq![s]
        }
    }
}

/// Split `s` into its lines.
pub fn split_lines(s: &str) -> (r: Vec<String>)
    ensures
        r.deep_view() == spec_lines(s@),
    decreases s@.len(),
{
    let n = s.unicode_len();
    if n == 0 {
        let v: Vec<String> = Vec::new();
        proof {
            assert(v.deep_view() =~= spec_lines(s@));
        }
        return v;
    }
    let j = find_char(s, '\n');
    proof {
        lemma_find_bounds(s@, '\n');
    }
    if j == n {
        let mut v: Vec<String> = Vec::new();
        v.push(s.to_owned());
        proof {
            assert(v.deep_view() =~= spec_lines(s@));
        }
        v
    } else {
        let line = if j > 0 && s.get_char(j - 1) == '\r' {
            let l = s.substring_char(0, j - 1);
            proof {
                let p = s@.subrange(0, j as int);
                assert(p.last() == s@[j - 1]);
                assert(p.drop_last() =~= s@.subrange(0, j - 1));
                assert(l@ == chop_cr(p));
            }
            l
        } else {
            let l = s.substring_char(0, j);
            proof {
                let p = s@.subrange(0, j as int);
                if p.len() > 0 {
                    assert(p.last() == s@[j - 1]);
                }
                assert(l@ == chop_cr(p));
            }
            l
        };
        let mut rest = split_lines(s.substring_char(j + 1, n));
        let mut v: Vec<String> = Vec::new();
        v.push(line.to_owned());
        let ghost rest_view = rest.deep_view();
        v.append(&mut rest);
        proof {
            assert(v.deep_view() =~= seq![chop_cr(s@.subrange(0, j as int))] + rest_view);
        }
        v
    }
}

/// Index of the first whitespace character in `s`, or `s.len()` when `s`
/// holds none.
pub open spec fn spec_find_space(s: Seq<char>) -> int
    decreases s.len(),
{
    if s.len() == 0 {
        0
    } else if is_space_char(s[0]) {
        0
    } else {
        1 + spec_find_space(s.drop_first())
    }
}

pub proof fn lemma_find_space_bounds(s: Seq<char>)
    ensures
        0 <= spec_find_space(s) <= s.len(),
        spec_find_space(s) < s.len() ==> is_space_char(s[spec_find_space(s)]),
        forall|i: int| 0 <= i < spec_find_space(s) ==> !is_space_char(s[i]),
    decreases s.len(),
{
    if s.len() > 0 && !is_space_char(s[0]) {
        lemma_find_space_bounds(s.drop_first());
        assert forall|i: int| 0 <= i < spec_find_space(s) implies !is_space_char(s[i]) by {
            if i > 0 {
                assert(s.drop_first()[i - 1] == s[i]);
            }
        }
    }
}

/// First index at or after which a whitespace character occurs in `s`, or
/// the length of `s`.
fn find_space(s: &str) -> (r: usize)
    ensures
        r == spec_find_space(s@),
{
    let n = s.unicode_len();
    let mut i: usize = 0;
    proof {
        lemma_find_space_bounds(s@);
    }
    while i < n
        invariant
            0 <= i <= n,
            n == s@.len(),
            spec_find_space(s@) >= i,
        decreases n - i,
    {
        proof {
            lemma_find_space_bounds(s@);
        }
        if is_space(s.get_char(i)) {
            proof {
                lemma_find_space_bounds(s@);
                if spec_find_space(s@) > i {
                    assert(!is_space_char(s@[i as int]));
                }
            }
            return i;
        }
        proof {
            lemma_find_space_bounds(s@);
            if spec_find_space(s@) == i {
                assert(is_space_char(s@[i as int]));
            }
        }
        i += 1;
    }
    proof {
        lemma_find_space_bounds(s@);
    }
    i
}

/// The whitespace-separated tokens of `s`, in order: the maximal nonempty
/// runs of non-whitespace characters. Text of nothing but whitespace has
/// no tokens.
pub open spec fn spec_tokens(s: Seq<char>) -> Seq<Seq<char>>
    decreases s.len(),
{
    if s.len() == 0 {
        Seq::empty()
    } else if is_space_char(s[0]) {
        spec_tokens(s.drop_first())
    } else {
        let j = spec_find_space(s);
        if 1 <= j && j <= s.len() {
            seq![s.subrange(0, j)] + spec_tokens(s.subrange(j, s.len() as int))
        } else {
            seq![s]
        }
    }
}

/// Split `s` into its whitespace-separated tokens.
pub fn split_tokens(s: &str) -> (r: Vec<String>)
    ensures
        r.deep_view() == spec_tokens(s@),
    decreases s@.len(),
{
    let n = s.unicode_len();
    if n == 0 {
        let v: Vec<String> = Vec::new();
        proof {
            assert(v.deep_view() =~= spec_tokens(s@));
        }
        return v;
    }
    if is_space(s.get_char(0)) {
        proof {
            assert(s@.subrange(1, n as int) =~= s@.drop_first());
        }
        return split_tokens(s.substring_char(1, n));
    }
    let j = find_space(s);
    proof {
        lemma_find_space_bounds(s@);
        assert(j >= 1);
    }
    let piece = s.substring_char(0, j);
    let mut rest = split_tokens(s.substring_char(j, n));
    let mut v: Vec<String> = Vec::new();
    v.push(piece.to_owned());
    let ghost rest_view = rest.deep_view();
    v.append(&mut rest);
    proof {
        assert(v.deep_view() =~= seq![s@.subrange(0, j as int)] + rest_view);
    }
    v
}

/// An element-wise copy of a vector of strings.
pub fn clone_string_vec(v: &Vec<String>) -> (r: Vec<String>)
    ensures
        r.deep_view() == v.deep_view(),
{
    let mut r: Vec<String> = Vec::new();
    let mut i: usize = 0;
    proof {
        assert(r.deep_view() =~= v.deep_view().take(0));
    }
    while i < v.len()
        invariant
            0 <= i <= v@.len(),
            r.deep_view() == v.deep_view().take(i as int),
        decreases v@.len() - i,
    {
        let ghost prev = r.deep_view();
        r.push(v[i].clone());
        proof {
            assert(r.deep_view() =~= prev.push(v.deep_view()[i as int]));
            assert(prev.push(v.deep_view()[i as int]) =~= v.deep_view().take(i + 1));
        }
        i += 1;
    }
    proof {
        assert(v.deep_view().take(v@.len() as int) =~= v.deep_view());
    }
    r
}

/// Do two pieces of text hold the same characters?
pub fn str_eq(a: &str, b: &str) -> (r: bool)
    ensures
        r == (a@ == b@),
{
    let n = a.unicode_len();
    if n != b.unicode_len() {
        return false;
    }
    let mut i: usize = 0;
    while i < n
        invariant
            0 <= i <= n,
            n == a@.len(),
            n == b@.len(),
            forall|j: int| 0 <= j < i ==> a@[j] == b@[j],
        decreases n - i,
    {
        if a.get_char(i) != b.get_char(i) {
            return false;
        }
        i += 1;
    }
    proof {
        assert(a@ =~= b@);
    }
    true
}

} // verus!
