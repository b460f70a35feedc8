//! Parsing of the target-option dump written by `gccrs -frust-dump-target_options`
//! and re-rendering of it in the textual configuration-query format `rustc`
//! prints: target-specific `key=value` entries first, in lexicographic order,
//! then bare platform entries, concatenated without separators.

use vstd::prelude::*;

use crate::error::Error;
use crate::text::{
    count_char, find_char, lemma_find_bounds, lemma_find_count, lemma_le_total, lemma_le_trans,
    spec_count, spec_find, spec_le, spec_lines, spec_trim_start, split_lines, str_eq, str_le,
    trim_start,
};

verus! {

/// Spec-level shape of a [`DumpedOption`], with text as character sequences.
pub enum DumpedOptionSpec {
    TargetSpecific(Seq<char>, Seq<char>),
    OsInfo(Seq<char>),
}

/// One entry of the target-option dump.
#[derive(Debug, PartialEq, Eq, PartialOrd, Ord, Clone)]
pub enum DumpedOption {
    /// An option dumped as `key: value`, with exactly one colon in the line.
    TargetSpecific(String, String),
    /// An option dumped as a bare value, with no colon in the line.
    OsInfo(String),
}

impl View for DumpedOption {
    type V = DumpedOptionSpec;

    open spec fn view(&self) -> DumpedOptionSpec {
        match self {
            DumpedOption::TargetSpecific(k, v) => DumpedOptionSpec::TargetSpecific(k@, v@),
            DumpedOption::OsInfo(s) => DumpedOptionSpec::OsInfo(s@),
        }
    }
}

/// What one dump line parses to: a line with no colon is an [`DumpedOptionSpec::OsInfo`]
/// entry, a line with exactly one colon is a [`DumpedOptionSpec::TargetSpecific`]
/// entry whose value loses its leading whitespace, and a line with two or
/// more colons does not parse.
pub open spec fn spec_parse_line(l: Seq<char>) -> Option<DumpedOptionSpec> {
    if spec_count(l, ':') == 0 {
        Some(DumpedOptionSpec::OsInfo(l))
    } else if spec_count(l, ':') == 1 {
        let j = spec_find(l, ':');
        Some(
            DumpedOptionSpec::TargetSpecific(
                l.subrange(0, j),
                spec_trim_start(l.subrange(j + 1, l.len() as int)),
            ),
        )
    } else {
        None
    }
}

impl DumpedOption {
    /// Parse one line of the `gccrs` target-option dump.
    pub fn from_str(input: &str) -> (r: Result<DumpedOption, Error>)
        ensures
            match r {
                Ok(o) => spec_parse_line(input@) == Some(o@),
                Err(e) => spec_parse_line(input@) is None && e is InvalidCfgDump,
            },
    {
        let n = input.unicode_len();
        let cnt = count_char(input, ':');
        if cnt == 0 {
            Ok(DumpedOption::OsInfo(input.to_owned()))
        } else if cnt == 1 {
            let j = find_char(input, ':');
            proof {
                lemma_find_bounds(input@, ':');
                lemma_find_count(input@, ':');
            }
            let key = input.substring_char(0, j).to_owned();
            let value = trim_start(input.substring_char(j + 1, n)).to_owned();
            Ok(DumpedOption::TargetSpecific(key, value))
        } else {
            Err(Error::InvalidCfgDump)
        }
    }

    /// Render one entry the way `rustc` prints it: `value` for platform
    /// entries, `key=value` for target-specific entries.
    pub fn display(&self) -> (r: String)
        ensures
            r@ == spec_render_opt(self@),
    {
        match self {
            DumpedOption::OsInfo(s) => s.clone(),
            DumpedOption::TargetSpecific(k, v) => {
                let mut m = k.clone();
                m.append("=");
                m.append(v.as_str());
                proof {
                    reveal_strlit("=");
                    assert("="@ =~= seq!['=']);
                }
                m
            },
        }
    }
}

/// The rendered form of one entry.
pub open spec fn spec_render_opt(o: DumpedOptionSpec) -> Seq<char> {
    match o {
        DumpedOptionSpec::OsInfo(s) => s,
        DumpedOptionSpec::TargetSpecific(k, v) => k + seq!['='] + v,
    }
}

/// The printing order: every target-specific entry before every platform
/// entry, target-specific entries by `(key, value)`, platform entries by
/// their text.
pub open spec fn opt_le(a: DumpedOptionSpec, b: DumpedOptionSpec) -> bool {
    match (a, b) {
        (DumpedOptionSpec::TargetSpecific(ak, av), DumpedOptionSpec::TargetSpecific(bk, bv)) => {
            if ak == bk {
                spec_le(av, bv)
            } else {
                spec_le(ak, bk)
            }
        },
        (DumpedOptionSpec::TargetSpecific(_, _), DumpedOptionSpec::OsInfo(_)) => true,
        (DumpedOptionSpec::OsInfo(_), DumpedOptionSpec::TargetSpecific(_, _)) => false,
        (DumpedOptionSpec::OsInfo(a0), DumpedOptionSpec::OsInfo(b0)) => spec_le(a0, b0),
    }
}

pub proof fn lemma_opt_le_total(a: DumpedOptionSpec, b: DumpedOptionSpec)
    ensures
        opt_le(a, b) || opt_le(b, a),
{
    match (a, b) {
        (DumpedOptionSpec::TargetSpecific(ak, av), DumpedOptionSpec::TargetSpecific(bk, bv)) => {
            lemma_le_total(ak, bk);
            lemma_le_total(av, bv);
        },
        (DumpedOptionSpec::OsInfo(a0), DumpedOptionSpec::OsInfo(b0)) => {
            lemma_le_total(a0, b0);
        },
        _ => {},
    }
}

pub proof fn lemma_opt_le_trans(a: DumpedOptionSpec, b: DumpedOptionSpec, c: DumpedOptionSpec)
    requires
        opt_le(a, b),
        opt_le(b, c),
    ensures
        opt_le(a, c),
{
    match (a, b, c) {
        (
            DumpedOptionSpec::TargetSpecific(ak, av),
            DumpedOptionSpec::TargetSpecific(bk, bv),
            DumpedOptionSpec::TargetSpecific(ck, cv),
        ) => {
            if ak == bk {
                if bk == ck {
                    lemma_le_trans(av, bv, cv);
                }
            } else {
                if bk != ck {
                    if ak == ck {
                        // le(ak, bk) and le(bk, ck) == le(bk, ak) would force
                        // ak == bk, against this branch.
                        lemma_le_total(ak, bk);
                        assert(false);
                    } else {
                        lemma_le_trans(ak, bk, ck);
                    }
                }
            }
        },
        (
            DumpedOptionSpec::OsInfo(a0),
            DumpedOptionSpec::OsInfo(b0),
            DumpedOptionSpec::OsInfo(c0),
        ) => {
            lemma_le_trans(a0, b0, c0);
        },
        _ => {},
    }
}

/// Is this sequence of entries in printing order?
pub open spec fn opts_sorted(s: Seq<DumpedOptionSpec>) -> bool {
    forall|i: int, j: int| 0 <= i < j < s.len() ==> opt_le(s[i], s[j])
}

/// The views of a sequence of entries.
pub open spec fn views_of(s: Seq<DumpedOption>) -> Seq<DumpedOptionSpec> {
    s.map_values(|o: DumpedOption| o@)
}

/// Does `a` print at or before `b`?
fn opt_le_exec(a: &DumpedOption, b: &DumpedOption) -> (r: bool)
    ensures
        r == opt_le(a@, b@),
{
    match (a, b) {
        (DumpedOption::TargetSpecific(ak, av), DumpedOption::TargetSpecific(bk, bv)) => {
            if str_eq(ak.as_str(), bk.as_str()) {
                str_le(av.as_str(), bv.as_str())
            } else {
                str_le(ak.as_str(), bk.as_str())
            }
        },
        (DumpedOption::TargetSpecific(_, _), DumpedOption::OsInfo(_)) => true,
        (DumpedOption::OsInfo(_), DumpedOption::TargetSpecific(_, _)) => false,
        (DumpedOption::OsInfo(a0), DumpedOption::OsInfo(b0)) => str_le(a0.as_str(), b0.as_str()),
    }
}

/// Insert `x` into the sorted `out`, keeping it sorted.
fn insert_sorted(out: &mut Vec<DumpedOption>, x: DumpedOption)
    requires
        opts_sorted(views_of(old(out)@)),
    ensures
        opts_sorted(views_of(final(out)@)),
        views_of(final(out)@).to_multiset() == views_of(old(out)@).to_multiset().insert(x@),
{
    broadcast use vstd::seq_lib::group_to_multiset_ensures;
    broadcast use vstd::multiset::group_multiset_axioms;

    let mut pos: usize = 0;
    while pos < out.len() && opt_le_exec(&out[pos], &x)
        invariant
            0 <= pos <= out.len(),
            out@ == old(out)@,
            forall|k: int| 0 <= k < pos ==> opt_le(views_of(out@)[k], x@),
        decreases out.len() - pos,
    {
        pos += 1;
    }
    proof {
        if pos < out.len() {
            lemma_opt_le_total(views_of(out@)[pos as int], x@);
        }
    }
    let ghost pre = out@;
    out.insert(pos, x);
    proof {
        let vs = views_of(out@);
        let old_vs = views_of(pre);
        assert(vs =~= old_vs.insert(pos as int, x@));
        assert(vs.to_multiset() == old_vs.to_multiset().insert(x@));
        let ghost p = pos as int;
        assert forall|i: int, j: int| 0 <= i < j < vs.len() implies opt_le(vs[i], vs[j]) by {
            assert(forall|k: int| 0 <= k < p ==> vs[k] == old_vs[k]);
            assert(forall|k: int| p < k < vs.len() ==> vs[k] == old_vs[k - 1]);
            if i == p {
                if j - 1 > p {
                    lemma_opt_le_trans(x@, old_vs[p], old_vs[j - 1]);
                }
            } else if j == p {
                // vs[i] is an element the scan passed, so it lies at or
                // before x.
            } else if i < p && j > p {
                assert(opt_le(old_vs[i], old_vs[j - 1]));
            }
        }
    }
}

/// Sort entries into printing order. The result is a permutation of the
/// input: the multiset of entries is unchanged.
#[verifier::loop_isolation(false)]
fn sort_options(input: Vec<DumpedOption>) -> (r: Vec<DumpedOption>)
    ensures
        opts_sorted(views_of(r@)),
        views_of(r@).to_multiset() == views_of(input@).to_multiset(),
{
    broadcast use vstd::seq_lib::group_to_multiset_ensures;
    broadcast use vstd::multiset::group_multiset_axioms;

    let ghost input_views = views_of(input@);
    let mut rest = input;
    let mut out: Vec<DumpedOption> = Vec::new();
    proof {
        assert(views_of(out@) =~= Seq::<DumpedOptionSpec>::empty());
        assert(views_of(out@).to_multiset().add(views_of(rest@).to_multiset())
            =~= input_views.to_multiset());
    }
    while rest.len() > 0
        invariant
            opts_sorted(views_of(out@)),
            views_of(out@).to_multiset().add(views_of(rest@).to_multiset())
                == input_views.to_multiset(),
        decreases rest.len(),
    {
        let ghost rest_pre = rest@;
        let ghost out_pre = out@;
        let x = rest.pop().unwrap();
        proof {
            assert(views_of(rest_pre) =~= views_of(rest@).push(x@));
            assert(views_of(rest_pre).to_multiset() == views_of(rest@).push(x@).to_multiset());
            assert(views_of(rest_pre).to_multiset() =~= views_of(rest@).to_multiset().insert(x@));
        }
        insert_sorted(&mut out, x);
        proof {
            assert(views_of(out@).to_multiset() == views_of(out_pre).to_multiset().insert(x@));
            assert(views_of(out@).to_multiset().add(views_of(rest@).to_multiset())
                =~= input_views.to_multiset());
        }
    }
    proof {
        assert(views_of(rest@) =~= Seq::<DumpedOptionSpec>::empty());
        assert(views_of(out@).to_multiset() =~= input_views.to_multiset());
    }
    out
}

/// What a whole dump parses to: one entry per line, or nothing when any
/// line is malformed.
pub open spec fn spec_parse_dump(text: Seq<char>) -> Option<Seq<DumpedOptionSpec>> {
    let ls = spec_lines(text);
    if forall|i: int| 0 <= i < ls.len() ==> (#[trigger] spec_parse_line(ls[i])) is Some {
        Some(Seq::new(ls.len(), |i: int| spec_parse_line(ls[i]).unwrap()))
    } else {
        None
    }
}

/// A dump in which any line holds two or more colons does not parse, so no
/// partial rendering can come out of it.
pub proof fn lemma_bad_line_fails_dump(text: Seq<char>, i: int)
    requires
        0 <= i < spec_lines(text).len(),
        spec_count(spec_lines(text)[i], ':') >= 2,
    ensures
        spec_parse_dump(text) is None,
{
    assert(spec_parse_line(spec_lines(text)[i]) is None);
}

/// The parsed, sorted target-option dump.
pub struct GccrsConfig {
    options: Vec<DumpedOption>,
}

impl View for GccrsConfig {
    type V = Seq<DumpedOptionSpec>;

    closed spec fn view(&self) -> Seq<DumpedOptionSpec> {
        views_of(self.options@)
    }
}

/// The rendered form of a sequence of entries: each entry's form, in order,
/// with no separator in between.
pub open spec fn spec_render(s: Seq<DumpedOptionSpec>) -> Seq<char>
    decreases s.len(),
{
    if s.len() == 0 {
        Seq::empty()
    } else {
        spec_render_opt(s[0]) + spec_render(s.drop_first())
    }
}

impl GccrsConfig {
    /// Parse the contents of the target-option dump and sort the entries
    /// into printing order. Any malformed line fails the whole parse.
    #[verifier::loop_isolation(false)]
    pub fn new(contents: &str) -> (r: Result<GccrsConfig, Error>)
        ensures
            match r {
                Ok(cfg) => {
                    &&& spec_parse_dump(contents@) matches Some(opts)
                    &&& cfg@.to_multiset() == opts.to_multiset()
                    &&& opts_sorted(cfg@)
                },
                Err(e) => spec_parse_dump(contents@) is None && e is InvalidCfgDump,
            },
    {
        let lines = split_lines(contents);
        let ghost ls = spec_lines(contents@);
        let mut parsed: Vec<DumpedOption> = Vec::new();
        let mut i: usize = 0;
        proof {
            assert(views_of(parsed@) =~= Seq::<DumpedOptionSpec>::empty());
        }
        while i < lines.len()
            invariant
                0 <= i <= lines.len(),
                lines.deep_view() == ls,
                lines@.len() == ls.len(),
                parsed@.len() == i,
                forall|k: int|
                    0 <= k < i ==> (#[trigger] spec_parse_line(ls[k])) == Some(
                        views_of(parsed@)[k],
                    ),
            decreases lines.len() - i,
        {
            proof {
                assert(lines@[i as int]@ == lines.deep_view()[i as int]);
            }
            match DumpedOption::from_str(lines[i].as_str()) {
                Ok(o) => {
                    parsed.push(o);
                    proof {
                        assert(views_of(parsed@) =~= views_of(parsed@.drop_last()).push(o@));
                    }
                },
                Err(e) => {
                    proof {
                        let ls2 = spec_lines(contents@);
                        assert((i as int) < ls2.len());
                        assert(!((#[trigger] spec_parse_line(ls2[i as int])) is Some));
                        assert(!(forall|k: int|
                            0 <= k < ls2.len() ==> (#[trigger] spec_parse_line(ls2[k])) is Some));
                        assert(spec_parse_dump(contents@) is None);
                    }
                    return Err(e);
                },
            }
            i += 1;
        }
        let ghost opts = spec_parse_dump(contents@).unwrap();
        proof {
            assert(spec_parse_dump(contents@) is Some);
            assert(views_of(parsed@) =~= opts);
        }
        let options = sort_options(parsed);
        Ok(GccrsConfig { options })
    }

    /// Render the whole configuration listing: every entry's form, in
    /// printing order, with no separator in between.
    pub fn display(&self) -> (r: String)
        ensures
            r@ == spec_render(self@),
    {
        let mut acc = String::new();
        let n = self.options.len();
        let mut i: usize = 0;
        proof {
            assert(self@.subrange(0, n as int) =~= self@);
            assert(self@.subrange(n as int, n as int) =~= Seq::<DumpedOptionSpec>::empty());
        }
        while i < n
            invariant
                0 <= i <= n,
                n == self.options@.len(),
                acc@ + spec_render(self@.subrange(i as int, n as int)) == spec_render(self@),
            decreases n - i,
        {
            let piece = self.options[i].display();
            proof {
                let tail = self@.subrange(i as int, n as int);
                assert(tail[0] == self@[i as int]);
                assert(tail.drop_first() =~= self@.subrange(i + 1, n as int));
                assert((acc@ + spec_render_opt(self@[i as int])) + spec_render(
                    self@.subrange(i + 1, n as int),
                ) =~= acc@ + (spec_render_opt(self@[i as int]) + spec_render(
                    self@.subrange(i + 1, n as int),
                )));
            }
            acc.append(piece.as_str());
            i += 1;
        }
        proof {
            assert(acc@ + Seq::<char>::empty() =~= acc@);
        }
        acc
    }
}

} // verus!
