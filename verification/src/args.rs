//! Translation of one parsed `rustc`-style invocation into the set of
//! `gccrs` invocations it stands for: one per requested crate type, each
//! with its derived output path and its flag list.

use vstd::prelude::*;

use crate::error::{Error, ErrorSpec};
use crate::rustc_args::{RustcArgs, RustcArgsSpec};
use crate::text::{clone_string_vec, find_char, lemma_find_bounds, spec_find, str_eq};

verus! {

/// The crate types the translation knows how to produce.
#[derive(Clone, Copy, Debug, PartialEq, Eq, Structural)]
pub enum CrateType {
    /// Binary application.
    Bin,
    /// Dynamic library / shared object.
    DyLib,
    /// Statically linked library.
    StaticLib,
    /// Any other requested type; accepted but given no output of its own.
    Unknown,
}

impl CrateType {
    /// The crate type a `--crate-type` value names; every unrecognized
    /// name maps to [`CrateType::Unknown`].
    pub open spec fn spec_from(s: Seq<char>) -> CrateType {
        if s == "bin"@ {
            CrateType::Bin
        } else if s == "dylib"@ {
            CrateType::DyLib
        } else if s == "staticlib"@ {
            CrateType::StaticLib
        } else {
            CrateType::Unknown
        }
    }

    /// Map a `--crate-type` value to its crate type.
    pub fn from(s: &str) -> (r: CrateType)
        ensures
            r == CrateType::spec_from(s@),
    {
        if str_eq(s, "bin") {
            CrateType::Bin
        } else if str_eq(s, "dylib") {
            CrateType::DyLib
        } else if str_eq(s, "staticlib") {
            CrateType::StaticLib
        } else {
            CrateType::Unknown
        }
    }
}

/// The suffix a `-C` flag of the form `extra-filename=VALUE` carries:
/// the piece between the first and the second `=`, as the option parser's
/// splitting hands it out. Any other flag carries none.
pub open spec fn ef_value(c: Seq<char>) -> Option<Seq<char>> {
    let j = spec_find(c, '=');
    if 0 <= j && j < c.len() && c.subrange(0, j) == "extra-filename"@ {
        let rest = c.subrange(j + 1, c.len() as int);
        Some(rest.subrange(0, spec_find(rest, '=')))
    } else {
        None
    }
}

/// The resolved extra-filename suffix of a `-C` flag list: the value of the
/// last flag that carries one, or nothing.
pub open spec fn spec_extra_filename(cs: Seq<Seq<char>>) -> Seq<char>
    decreases cs.len(),
{
    if cs.len() == 0 {
        Seq::empty()
    } else {
        match ef_value(cs.last()) {
            Some(v) => v,
            None => spec_extra_filename(cs.drop_last()),
        }
    }
}

/// The last `extra-filename` flag decides the suffix: whatever stands
/// before it cannot change the result.
pub proof fn lemma_extra_filename_last_wins(cs: Seq<Seq<char>>, i: int)
    requires
        0 <= i < cs.len(),
        ef_value(cs[i]) is Some,
        forall|k: int| i < k < cs.len() ==> (#[trigger] ef_value(cs[k])) is None,
    ensures
        spec_extra_filename(cs) == ef_value(cs[i]).unwrap(),
    decreases cs.len(),
{
    if i == cs.len() - 1 {
    } else {
        lemma_extra_filename_last_wins(cs.drop_last(), i);
    }
}

/// The suffix part of a `-C` flag, when it is an `extra-filename` flag.
fn ef_value_exec(c: &str) -> (r: Option<String>)
    ensures
        r.deep_view() == ef_value(c@),
{
    let n = c.unicode_len();
    let j = find_char(c, '=');
    proof {
        lemma_find_bounds(c@, '=');
    }
    if j == n {
        return None;
    }
    let key = c.substring_char(0, j);
    if !str_eq(key, "extra-filename") {
        return None;
    }
    let rest = c.substring_char(j + 1, n);
    let k = find_char(rest, '=');
    proof {
        lemma_find_bounds(rest@, '=');
    }
    Some(rest.substring_char(0, k).to_owned())
}

/// The resolved extra-filename suffix of a `-C` flag list: last one wins.
#[verifier::loop_isolation(false)]
fn extra_filename(c_options: &Vec<String>) -> (r: String)
    ensures
        r@ == spec_extra_filename(c_options.deep_view()),
{
    let ghost dv = c_options.deep_view();
    let mut i = c_options.len();
    proof {
        assert(dv.take(dv.len() as int) =~= dv);
    }
    while i > 0
        invariant
            0 <= i <= c_options@.len(),
            spec_extra_filename(dv) == spec_extra_filename(dv.take(i as int)),
        decreases i,
    {
        i -= 1;
        proof {
            assert(dv.take(i + 1).last() == dv[i as int]);
            assert(dv.take(i + 1).drop_last() =~= dv.take(i as int));
            assert(dv[i as int] == c_options@[i as int]@);
        }
        match ef_value_exec(c_options[i].as_str()) {
            Some(v) => {
                return v;
            },
            None => {},
        }
    }
    proof {
        assert(dv.take(0) =~= Seq::<Seq<char>>::empty());
    }
    String::new()
}

/// The output file that one crate type of one invocation lands in:
/// `{out-dir}/{crate-name}{extra}` for a binary, the platform library
/// naming around the same stem for the two library kinds, and none for an
/// unknown crate type.
pub open spec fn spec_output_path(
    out_dir: Seq<char>,
    name: Seq<char>,
    extra: Seq<char>,
    ct: CrateType,
) -> Option<Seq<char>> {
    match ct {
        CrateType::Bin => Some(out_dir + seq!['/'] + name + extra),
        CrateType::DyLib => Some(out_dir + seq!['/'] + "lib"@ + name + extra + ".so"@),
        CrateType::StaticLib => Some(out_dir + seq!['/'] + "lib"@ + name + extra + ".a"@),
        CrateType::Unknown => None,
    }
}

/// Derive the output path for one crate type, requiring `--crate-name` and
/// `--out-dir` to be present; the absence of either is an
/// [`Error::InvalidArg`] naming the missing flag.
pub fn format_output_filename(parsed: &RustcArgs, crate_type: CrateType) -> (r: Result<
    (Option<String>, CrateType),
    Error,
>)
    ensures
        match r {
            Ok((out, ct)) => {
                &&& parsed@.crate_name matches Some(name)
                &&& parsed@.out_dir matches Some(dir)
                &&& ct == crate_type
                &&& out.deep_view() == spec_output_path(
                    dir,
                    name,
                    spec_extra_filename(parsed@.c_options),
                    crate_type,
                )
            },
            Err(e) => {
                &&& (parsed@.crate_name is None || parsed@.out_dir is None)
                &&& (parsed@.crate_name is None ==> e@ == ErrorSpec::InvalidArg(
                    "no `--crate-name` provided"@,
                ))
                &&& (parsed@.crate_name is Some ==> e@ == ErrorSpec::InvalidArg(
                    "no `--out-dir` provided"@,
                ))
            },
        },
{
    let crate_name = match &parsed.crate_name {
        Some(n) => n,
        None => {
            return Err(Error::InvalidArg(String::from_str("no `--crate-name` provided")));
        },
    };
    let out_dir = match &parsed.out_dir {
        Some(d) => d,
        None => {
            return Err(Error::InvalidArg(String::from_str("no `--out-dir` provided")));
        },
    };
    let extra = extra_filename(&parsed.c_options);
    proof {
        reveal_strlit("/");
        assert("/"@ =~= seq!['/']);
    }
    let stem = {
        let mut s = out_dir.clone();
        s.append("/");
        s
    };
    match crate_type {
        CrateType::Bin => {
            let mut s = stem;
            s.append(crate_name.as_str());
            s.append(extra.as_str());
            Ok((Some(s), crate_type))
        },
        CrateType::DyLib => {
            let mut s = stem;
            s.append("lib");
            s.append(crate_name.as_str());
            s.append(extra.as_str());
            s.append(".so");
            Ok((Some(s), crate_type))
        },
        CrateType::StaticLib => {
            let mut s = stem;
            s.append("lib");
            s.append(crate_name.as_str());
            s.append(extra.as_str());
            s.append(".a");
            Ok((Some(s), crate_type))
        },
        CrateType::Unknown => Ok((None, crate_type)),
    }
}

/// Spec-level shape of an [`Args`], with text as character sequences.
pub struct ArgsSpec {
    pub source_files: Seq<Seq<char>>,
    pub crate_type: CrateType,
    pub output_file: Option<Seq<char>>,
}

/// One ready-to-run `gccrs` invocation plan: the shared source files, the
/// crate type it produces, and the output path it lands in (none for an
/// unknown crate type).
pub struct Args {
    source_files: Vec<String>,
    crate_type: CrateType,
    output_file: Option<String>,
}

impl View for Args {
    type V = ArgsSpec;

    closed spec fn view(&self) -> ArgsSpec {
        ArgsSpec {
            source_files: self.source_files.deep_view(),
            crate_type: self.crate_type,
            output_file: self.output_file.deep_view(),
        }
    }
}

/// The flag list of the compiler invocation an [`ArgsSpec`] stands for:
/// the source files, then the extra flags from the environment, then the
/// flags its crate type asks for.
pub open spec fn spec_as_args(a: ArgsSpec, extra: Seq<Seq<char>>) -> Seq<Seq<char>> {
    a.source_files + extra + (match (a.crate_type, a.output_file) {
        (CrateType::Bin, Some(out)) => seq!["-fPIE"@, "-pie"@, "-o"@, out],
        (CrateType::DyLib, Some(out)) => seq!["-fPIC"@, "-shared"@, "-o"@, out],
        (CrateType::StaticLib, Some(out)) => seq!["-c"@, "-o"@, out + ".tmp.o"@],
        _ => Seq::empty(),
    })
}

impl Args {
    /// Bundle one invocation plan.
    fn new(source_files: &Vec<String>, crate_type: CrateType, output_file: Option<String>) -> (r:
        Args)
        ensures
            r@ == (ArgsSpec {
                source_files: source_files.deep_view(),
                crate_type,
                output_file: output_file.deep_view(),
            }),
    {
        Args { source_files: clone_string_vec(source_files), crate_type, output_file }
    }

    /// The path of the temporary object file of the static-library path:
    /// the output path with `.tmp.o` appended.
    pub fn object_file_name(&self) -> (r: Option<String>)
        ensures
            match self@.output_file {
                Some(p) => r matches Some(o) && o@ == p + ".tmp.o"@,
                None => r is None,
            },
    {
        match &self.output_file {
            Some(p) => {
                let mut o = p.clone();
                o.append(".tmp.o");
                Some(o)
            },
            None => None,
        }
    }

    /// The output file this plan lands in, when its crate type has one.
    pub fn output_file(&self) -> (r: &Option<String>)
        ensures
            r.deep_view() == self@.output_file,
    {
        &self.output_file
    }

    /// The crate type this plan produces.
    pub fn crate_type(&self) -> (r: CrateType)
        ensures
            r == self@.crate_type,
    {
        self.crate_type
    }

    /// The literal flag list of the compiler invocation this plan stands
    /// for, with the extra arguments the environment supplied.
    pub fn as_args(&self, extra: &Vec<String>) -> (r: Vec<String>)
        ensures
            r.deep_view() == spec_as_args(self@, extra.deep_view()),
    {
        let mut r = clone_string_vec(&self.source_files);
        let mut e = clone_string_vec(extra);
        r.append(&mut e);
        proof {
            assert(r.deep_view() =~= self@.source_files + extra.deep_view());
        }
        let ghost base = r.deep_view();
        match (self.crate_type, &self.output_file) {
            (CrateType::Bin, Some(out)) => {
                r.push(String::from_str("-fPIE"));
                r.push(String::from_str("-pie"));
                r.push(String::from_str("-o"));
                r.push(out.clone());
                proof {
                    assert(r.deep_view() =~= base + seq!["-fPIE"@, "-pie"@, "-o"@, out@]);
                    assert(base + seq!["-fPIE"@, "-pie"@, "-o"@, out@] =~= spec_as_args(
                        self@,
                        extra.deep_view(),
                    ));
                }
            },
            (CrateType::DyLib, Some(out)) => {
                r.push(String::from_str("-fPIC"));
                r.push(String::from_str("-shared"));
                r.push(String::from_str("-o"));
                r.push(out.clone());
                proof {
                    assert(r.deep_view() =~= base + seq!["-fPIC"@, "-shared"@, "-o"@, out@]);
                    assert(base + seq!["-fPIC"@, "-shared"@, "-o"@, out@] =~= spec_as_args(
                        self@,
                        extra.deep_view(),
                    ));
                }
            },
            (CrateType::StaticLib, Some(out)) => {
                let mut obj = out.clone();
                obj.append(".tmp.o");
                r.push(String::from_str("-c"));
                r.push(String::from_str("-o"));
                r.push(obj);
                proof {
                    assert(r.deep_view() =~= base + seq!["-c"@, "-o"@, out@ + ".tmp.o"@]);
                    assert(base + seq!["-c"@, "-o"@, out@ + ".tmp.o"@] =~= spec_as_args(
                        self@,
                        extra.deep_view(),
                    ));
                }
            },
            _ => {
                proof {
                    assert(r.deep_view() =~= spec_as_args(self@, extra.deep_view()));
                }
            },
        }
        r
    }
}

/// The plan an entry of the `--crate-type` list translates to.
pub open spec fn spec_set_for(p: RustcArgsSpec, i: int) -> ArgsSpec {
    let ct = CrateType::spec_from(p.crate_types[i]);
    ArgsSpec {
        source_files: p.free,
        crate_type: ct,
        output_file: spec_output_path(
            p.out_dir.unwrap(),
            p.crate_name.unwrap(),
            spec_extra_filename(p.c_options),
            ct,
        ),
    }
}

/// What the builder produces from a parsed invocation: one plan per
/// requested crate type, in request order, or the error naming the missing
/// required flag. An invocation that requests nothing builds nothing.
pub open spec fn spec_build(p: RustcArgsSpec) -> Result<Seq<ArgsSpec>, ErrorSpec> {
    if p.crate_types.len() == 0 {
        Ok(Seq::empty())
    } else if p.crate_name is None {
        Err(ErrorSpec::InvalidArg("no `--crate-name` provided"@))
    } else if p.out_dir is None {
        Err(ErrorSpec::InvalidArg("no `--out-dir` provided"@))
    } else {
        Ok(Seq::new(p.crate_types.len(), |i: int| spec_set_for(p, i)))
    }
}

/// The builder keeps the request: as many plans as requested crate types,
/// each entry translated in place, so request order is execution order.
pub proof fn lemma_build_counts(p: RustcArgsSpec)
    requires
        p.crate_name is Some,
        p.out_dir is Some,
    ensures
        spec_build(p) matches Ok(sets) && sets.len() == p.crate_types.len() && forall|i: int|
            0 <= i < sets.len() ==> (#[trigger] sets[i]) == spec_set_for(p, i),
{
}

/// A request that asks for at least one crate type without naming the
/// crate or the output directory is rejected, and the error names the
/// missing flag, `--crate-name` first.
pub proof fn lemma_build_missing_input(p: RustcArgsSpec)
    requires
        p.crate_types.len() > 0,
        p.crate_name is None || p.out_dir is None,
    ensures
        spec_build(p) matches Err(e) && e == ErrorSpec::InvalidArg(
            if p.crate_name is None {
                "no `--crate-name` provided"@
            } else {
                "no `--out-dir` provided"@
            },
        ),
{
}

/// One plan per requested crate type, in request order. A single `rustc`
/// invocation may ask for several output kinds, while the underlying
/// toolchain produces one per run, so one invocation fans out into many.
pub struct ArgsCollection {
    args_set: Vec<Args>,
}

impl View for ArgsCollection {
    type V = Seq<ArgsSpec>;

    closed spec fn view(&self) -> Seq<ArgsSpec> {
        self.args_set@.map_values(|a: Args| a@)
    }
}

impl ArgsCollection {
    /// Translate a parsed invocation into its plans, one per requested
    /// crate type, in request order.
    #[verifier::loop_isolation(false)]
    pub fn try_from(parsed: &RustcArgs) -> (r: Result<ArgsCollection, Error>)
        ensures
            match (r, spec_build(parsed@)) {
                (Ok(c), Ok(s)) => c@ == s,
                (Err(e), Err(es)) => e@ == es,
                _ => false,
            },
    {
        let n = parsed.crate_types.len();
        let mut sets: Vec<Args> = Vec::new();
        if n == 0 {
            let c = ArgsCollection { args_set: sets };
            proof {
                assert(c@ =~= Seq::<ArgsSpec>::empty());
            }
            return Ok(c);
        }
        let mut i: usize = 0;
        while i < n
            invariant
                0 <= i <= n,
                n == parsed.crate_types@.len(),
                i > 0 ==> parsed@.crate_name is Some && parsed@.out_dir is Some,
                sets@.map_values(|a: Args| a@) =~= Seq::new(
                    i as nat,
                    |k: int| spec_set_for(parsed@, k),
                ),
            decreases n - i,
        {
            let ct = CrateType::from(parsed.crate_types[i].as_str());
            match format_output_filename(parsed, ct) {
                Ok((out, ct2)) => {
                    let a = Args::new(&parsed.free, ct2, out);
                    let ghost prev = sets@.map_values(|x: Args| x@);
                    sets.push(a);
                    proof {
                        assert(parsed.crate_types@[i as int]@ == parsed@.crate_types[i as int]);
                        assert(a@ == spec_set_for(parsed@, i as int));
                        assert(sets@.map_values(|x: Args| x@) =~= prev.push(a@));
                        assert(prev.push(a@) =~= Seq::new(
                            (i + 1) as nat,
                            |k: int| spec_set_for(parsed@, k),
                        ));
                    }
                },
                Err(e) => {
                    return Err(e);
                },
            }
            i += 1;
        }
        let c = ArgsCollection { args_set: sets };
        proof {
            assert(c@ =~= Seq::new(parsed@.crate_types.len(), |k: int| spec_set_for(parsed@, k)));
        }
        Ok(c)
    }

    /// How many plans the collection holds.
    pub fn len(&self) -> (r: usize)
        ensures
            r == self@.len(),
    {
        self.args_set.len()
    }

    /// The plan at position `i`.
    pub fn get(&self, i: usize) -> (r: &Args)
        requires
            i < self@.len(),
        ensures
            r@ == self@[i as int],
    {
        &self.args_set[i]
    }
}

} // verus!
