//! The option grammar of a `rustc`-style invocation, applied through the
//! `getopts` option parser, and the plain-value record of what it matched.
//!
//! The `getopts` calls stand behind trusted declarations. Parsing is a
//! function of the grammar and the argument list alone, so its outcome is
//! named ([`parse_ok`], [`parsed_single`], [`parsed_multi`], [`parsed_free`],
//! [`parse_fail`]) and the grammar itself is pinned as a term over the
//! registration steps ([`rustc_grammar`]); everything past [`RustcArgs`]
//! works on plain values and is verified.

use vstd::prelude::*;

use crate::error::{Error, ErrorSpec};

verus! {

#[verifier::external_type_specification]
#[verifier::external_body]
pub struct ExOptions(getopts::Options);

#[verifier::external_type_specification]
#[verifier::external_body]
pub struct ExMatches(getopts::Matches);

#[verifier::external_type_specification]
#[verifier::external_body]
pub struct ExFail(getopts::Fail);

/// The views of a list of strings.
pub open spec fn arg_views(args: Seq<String>) -> Seq<Seq<char>> {
    args.map_values(|s: String| s@)
}

/// Whether `o` is the blank grammar that `getopts::Options::new` returns —
/// the same value in every process.
pub uninterp spec fn base_grammar(o: getopts::Options) -> bool;

/// The grammar `o` with one optional single-valued option added, found
/// later under the given short (one-character) or long name.
pub uninterp spec fn with_single(
    o: getopts::Options,
    short: Seq<char>,
    long: Seq<char>,
) -> getopts::Options;

/// The grammar `o` with one multi-valued option added, found later under
/// the given short (one-character) or long name.
pub uninterp spec fn with_multi(
    o: getopts::Options,
    short: Seq<char>,
    long: Seq<char>,
) -> getopts::Options;

/// Whether parsing `args` under the grammar `o` succeeds.
pub uninterp spec fn parse_ok(o: getopts::Options, args: Seq<Seq<char>>) -> bool;

/// The value a successful parse of `args` under `o` holds for the
/// single-valued option `name`.
pub uninterp spec fn parsed_single(
    o: getopts::Options,
    args: Seq<Seq<char>>,
    name: Seq<char>,
) -> Option<Seq<char>>;

/// The values, in appearance order and with duplicates preserved, that a
/// successful parse of `args` under `o` holds for the multi-valued option
/// `name`.
pub uninterp spec fn parsed_multi(
    o: getopts::Options,
    args: Seq<Seq<char>>,
    name: Seq<char>,
) -> Seq<Seq<char>>;

/// The non-option arguments of a successful parse of `args` under `o`, in
/// appearance order.
pub uninterp spec fn parsed_free(o: getopts::Options, args: Seq<Seq<char>>) -> Seq<Seq<char>>;

/// The diagnostic text of the failure when parsing `args` under `o` fails.
pub uninterp spec fn parse_fail(o: getopts::Options, args: Seq<Seq<char>>) -> Seq<char>;

/// The diagnostic text of a parse-failure value.
pub uninterp spec fn fail_text(f: getopts::Fail) -> Seq<char>;

/// Whether the option grammar `o` knows an option under the name `name`.
pub uninterp spec fn registered(o: getopts::Options, name: Seq<char>) -> bool;

/// Whether the parse result `m` was made by a grammar that knows `name`.
pub uninterp spec fn defined(m: getopts::Matches, name: Seq<char>) -> bool;

/// The value the parse result `m` holds for the single-valued option `name`.
pub uninterp spec fn single_value(m: getopts::Matches, name: Seq<char>) -> Option<Seq<char>>;

/// The values, in appearance order, that `m` holds for the multi-valued
/// option `name`.
pub uninterp spec fn multi_values(m: getopts::Matches, name: Seq<char>) -> Seq<Seq<char>>;

/// The non-option arguments of `m`, in appearance order.
pub uninterp spec fn free_args(m: getopts::Matches) -> Seq<Seq<char>>;

/// Relies on getopts::Options::new to make the blank grammar; its result
/// is one fixed value, the same on every call.
#[verifier::external_body]
fn options_new() -> (r: getopts::Options)
    ensures
        base_grammar(r),
        forall|o: getopts::Options| base_grammar(o) ==> o == r,
{
    getopts::Options::new()
}

/// Relies on getopts::Options::optopt: it appends one optional
/// single-valued option, found later under its one-character short name or
/// its long name, and keeps every earlier registration. The `requires`
/// rule out the name shapes on which `getopts` panics, in registration or
/// in a later parse.
#[verifier::external_body]
fn register_single(o: &mut getopts::Options, short: &str, long: &str)
    requires
        short.is_ascii(),
        short@.len() <= 1,
        long@.len() != 1,
        short@.len() == 1 || long@.len() > 1,
    ensures
        *final(o) == with_single(*old(o), short@, long@),
        short@.len() == 1 ==> registered(*final(o), short@),
        long@.len() > 1 ==> registered(*final(o), long@),
        forall|n: Seq<char>| registered(*old(o), n) ==> registered(*final(o), n),
{
    o.optopt(short, long, "", "");
}

/// Relies on getopts::Options::optmulti: it appends one multi-valued
/// option, found later under its one-character short name or its long
/// name, and keeps every earlier registration. The `requires` rule out the
/// name shapes on which `getopts` panics, in registration or in a later
/// parse.
#[verifier::external_body]
fn register_multi(o: &mut getopts::Options, short: &str, long: &str)
    requires
        short.is_ascii(),
        short@.len() <= 1,
        long@.len() != 1,
        short@.len() == 1 || long@.len() > 1,
    ensures
        *final(o) == with_multi(*old(o), short@, long@),
        short@.len() == 1 ==> registered(*final(o), short@),
        long@.len() > 1 ==> registered(*final(o), long@),
        forall|n: Seq<char>| registered(*old(o), n) ==> registered(*final(o), n),
{
    o.optmulti(short, long, "", "");
}

/// Relies on getopts::Options::parse: the parse is a function of the
/// grammar and the argument list alone; on success every registered name
/// is defined in the result and each lookup of the result is the named
/// parse outcome, and on failure the failure carries the named diagnostic.
#[verifier::external_body]
fn parse_args(o: &getopts::Options, args: &[String]) -> (r: Result<getopts::Matches, getopts::Fail>)
    ensures
        r is Ok <==> parse_ok(*o, arg_views(args@)),
        r matches Ok(m) ==> forall|n: Seq<char>| registered(*o, n) ==> defined(m, n),
        r matches Ok(m) ==> forall|n: Seq<char>|
            single_value(m, n) == parsed_single(*o, arg_views(args@), n),
        r matches Ok(m) ==> forall|n: Seq<char>|
            multi_values(m, n) == parsed_multi(*o, arg_views(args@), n),
        r matches Ok(m) ==> free_args(m) == parsed_free(*o, arg_views(args@)),
        r matches Err(f) ==> fail_text(f) == parse_fail(*o, arg_views(args@)),
{
    o.parse(args)
}

/// Relies on getopts::Matches::opt_str for the value of a single-valued
/// option; the option must be defined, since `getopts` panics otherwise.
#[verifier::external_body]
fn opt_str(m: &getopts::Matches, name: &str) -> (r: Option<String>)
    requires
        defined(*m, name@),
    ensures
        r.deep_view() == single_value(*m, name@),
{
    m.opt_str(name)
}

/// Relies on getopts::Matches::opt_strs for all values of a multi-valued
/// option, in appearance order; the option must be defined, since `getopts`
/// panics otherwise.
#[verifier::external_body]
fn opt_strs(m: &getopts::Matches, name: &str) -> (r: Vec<String>)
    requires
        defined(*m, name@),
    ensures
        r.deep_view() == multi_values(*m, name@),
{
    m.opt_strs(name)
}

/// Relies on the public `free` field of getopts::Matches for the non-option
/// arguments, in appearance order.
#[verifier::external_body]
fn free_list(m: &getopts::Matches) -> (r: Vec<String>)
    ensures
        r.deep_view() == free_args(*m),
{
    m.free.clone()
}

/// Relies on the Display impl of getopts::Fail for the diagnostic text of a
/// parse failure.
#[verifier::external_body]
fn fail_message(f: &getopts::Fail) -> (r: String)
    ensures
        r@ == fail_text(*f),
{
    f.to_string()
}

/// The grammar of a `rustc`-style invocation, as a term over the
/// registration steps from the blank grammar `o0`: the six single-valued
/// options, then the five multi-valued ones, in registration order.
pub open spec fn rustc_grammar(o0: getopts::Options) -> getopts::Options {
    let o1 = with_single(o0, ""@, "crate-name"@);
    let o2 = with_single(o1, ""@, "edition"@);
    let o3 = with_single(o2, ""@, "error-format"@);
    let o4 = with_single(o3, ""@, "out-dir"@);
    let o5 = with_single(o4, ""@, "emit"@);
    let o6 = with_single(o5, ""@, "json"@);
    let o7 = with_multi(o6, "C"@, ""@);
    let o8 = with_multi(o7, "L"@, ""@);
    let o9 = with_multi(o8, ""@, "crate-type"@);
    let o10 = with_multi(o9, ""@, "cap-lints"@);
    with_multi(o10, ""@, "cfg"@)
}

/// Spec-level shape of a [`RustcArgs`], with text as character sequences.
pub struct RustcArgsSpec {
    pub crate_name: Option<Seq<char>>,
    pub edition: Option<Seq<char>>,
    pub error_format: Option<Seq<char>>,
    pub out_dir: Option<Seq<char>>,
    pub emit: Option<Seq<char>>,
    pub json: Option<Seq<char>>,
    pub c_options: Seq<Seq<char>>,
    pub lib_paths: Seq<Seq<char>>,
    pub crate_types: Seq<Seq<char>>,
    pub cap_lints: Seq<Seq<char>>,
    pub cfgs: Seq<Seq<char>>,
    pub free: Seq<Seq<char>>,
}

/// The record a successful parse of `tail` under the grammar `o` fills:
/// each field is the named outcome of its option's lookup.
pub open spec fn spec_parsed_args(o: getopts::Options, tail: Seq<Seq<char>>) -> RustcArgsSpec {
    RustcArgsSpec {
        crate_name: parsed_single(o, tail, "crate-name"@),
        edition: parsed_single(o, tail, "edition"@),
        error_format: parsed_single(o, tail, "error-format"@),
        out_dir: parsed_single(o, tail, "out-dir"@),
        emit: parsed_single(o, tail, "emit"@),
        json: parsed_single(o, tail, "json"@),
        c_options: parsed_multi(o, tail, "C"@),
        lib_paths: parsed_multi(o, tail, "L"@),
        crate_types: parsed_multi(o, tail, "crate-type"@),
        cap_lints: parsed_multi(o, tail, "cap-lints"@),
        cfgs: parsed_multi(o, tail, "cfg"@),
        free: parsed_free(o, tail),
    }
}

/// Everything a `rustc`-style invocation can say that this layer reads:
/// the values of the registered single-valued options, the value lists of
/// the registered multi-valued options, and the free source-file arguments.
pub struct RustcArgs {
    /// Value of `--crate-name`.
    pub crate_name: Option<String>,
    /// Value of `--edition`.
    pub edition: Option<String>,
    /// Value of `--error-format`.
    pub error_format: Option<String>,
    /// Value of `--out-dir`.
    pub out_dir: Option<String>,
    /// Value of `--emit`.
    pub emit: Option<String>,
    /// Value of `--json`.
    pub json: Option<String>,
    /// Values of `-C`, each of the form `KEY` or `KEY=VALUE`.
    pub c_options: Vec<String>,
    /// Values of `-L`.
    pub lib_paths: Vec<String>,
    /// Values of `--crate-type`, in appearance order, duplicates and
    /// unknown names preserved.
    pub crate_types: Vec<String>,
    /// Values of `--cap-lints`.
    pub cap_lints: Vec<String>,
    /// Values of `--cfg`.
    pub cfgs: Vec<String>,
    /// The free (positional) arguments: the source files.
    pub free: Vec<String>,
}

impl View for RustcArgs {
    type V = RustcArgsSpec;

    open spec fn view(&self) -> RustcArgsSpec {
        RustcArgsSpec {
            crate_name: self.crate_name.deep_view(),
            edition: self.edition.deep_view(),
            error_format: self.error_format.deep_view(),
            out_dir: self.out_dir.deep_view(),
            emit: self.emit.deep_view(),
            json: self.json.deep_view(),
            c_options: self.c_options.deep_view(),
            lib_paths: self.lib_paths.deep_view(),
            crate_types: self.crate_types.deep_view(),
            cap_lints: self.cap_lints.deep_view(),
            cfgs: self.cfgs.deep_view(),
            free: self.free.deep_view(),
        }
    }
}

impl RustcArgs {
    /// Apply the option grammar to a raw invocation. Only the tail past
    /// the first two elements (the program name and the sub-command
    /// selector) is parsed, and the result is the named parse outcome of
    /// that tail under [`rustc_grammar`]: the parse succeeds exactly when
    /// `getopts` accepts the tail, a success fills every field from its
    /// option's lookup, and a failure — an unregistered option, a missing
    /// option argument — is [`Error::InvalidArg`] carrying the parser's
    /// diagnostic.
    pub fn try_from(args: &[String]) -> (r: Result<RustcArgs, Error>)
        requires
            args@.len() >= 2,
        ensures
            r matches Err(e) ==> e is InvalidArg,
            forall|o0: getopts::Options| #[trigger] base_grammar(o0) ==> ({
                let tail = arg_views(args@).subrange(2, args@.len() as int);
                let g = rustc_grammar(o0);
                &&& (r is Ok <==> parse_ok(g, tail))
                &&& (r matches Ok(p) ==> p@ == spec_parsed_args(g, tail))
                &&& (r matches Err(e) ==> e@ == ErrorSpec::InvalidArg(parse_fail(g, tail)))
            }),
    {
        proof {
            reveal_strlit("");
            reveal_strlit("C");
            reveal_strlit("L");
            reveal_strlit("crate-name");
            reveal_strlit("edition");
            reveal_strlit("error-format");
            reveal_strlit("out-dir");
            reveal_strlit("emit");
            reveal_strlit("json");
            reveal_strlit("crate-type");
            reveal_strlit("cap-lints");
            reveal_strlit("cfg");
        }
        let mut options = options_new();
        let ghost g0 = options;
        register_single(&mut options, "", "crate-name");
        register_single(&mut options, "", "edition");
        register_single(&mut options, "", "error-format");
        register_single(&mut options, "", "out-dir");
        register_single(&mut options, "", "emit");
        register_single(&mut options, "", "json");
        register_multi(&mut options, "C", "");
        register_multi(&mut options, "L", "");
        register_multi(&mut options, "", "crate-type");
        register_multi(&mut options, "", "cap-lints");
        register_multi(&mut options, "", "cfg");
        proof {
            assert(options == rustc_grammar(g0));
        }
        let (_, tail) = args.split_at(2);
        proof {
            assert(arg_views(tail@) =~= arg_views(args@).subrange(2, args@.len() as int));
        }
        match parse_args(&options, tail) {
            Err(f) => {
                let e = Error::InvalidArg(fail_message(&f));
                proof {
                    assert forall|o0: getopts::Options| #[trigger] base_grammar(o0) implies o0
                        == g0 by {}
                }
                Err(e)
            },
            Ok(m) => {
                let parsed = RustcArgs {
                    crate_name: opt_str(&m, "crate-name"),
                    edition: opt_str(&m, "edition"),
                    error_format: opt_str(&m, "error-format"),
                    out_dir: opt_str(&m, "out-dir"),
                    emit: opt_str(&m, "emit"),
                    json: opt_str(&m, "json"),
                    c_options: opt_strs(&m, "C"),
                    lib_paths: opt_strs(&m, "L"),
                    crate_types: opt_strs(&m, "crate-type"),
                    cap_lints: opt_strs(&m, "cap-lints"),
                    cfgs: opt_strs(&m, "cfg"),
                    free: free_list(&m),
                };
                proof {
                    assert forall|o0: getopts::Options| #[trigger] base_grammar(o0) implies o0
                        == g0 by {}
                    assert(parsed@ == spec_parsed_args(
                        rustc_grammar(g0),
                        arg_views(args@).subrange(2, args@.len() as int),
                    ));
                }
                Ok(parsed)
            },
        }
    }
}

} // verus!
