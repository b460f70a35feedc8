//! The dispatcher: given one parsed `rustc`-style invocation, decide the
//! exact sequence of subprocess commands that carries it out — one `gccrs`
//! run per requested crate type, in request order, each static-library run
//! followed by its archive run — and hand them out one at a time, halting
//! the whole sequence at the first failure.

use vstd::prelude::*;

use crate::args::{spec_as_args, spec_build, Args, ArgsCollection, ArgsSpec, CrateType};
use crate::error::{Error, ErrorSpec};
use crate::rustc_args::{
    arg_views, base_grammar, parse_fail, parse_ok, rustc_grammar, spec_parsed_args, RustcArgs,
};
use crate::text::{clone_string_vec, str_eq};

verus! {

/// Spec-level shape of a [`Command`].
pub struct CommandSpec {
    pub program: Seq<char>,
    pub args: Seq<Seq<char>>,
}

/// One subprocess the dispatcher asks its caller to run: a program name
/// and its argument list.
pub struct Command {
    /// The program to spawn.
    pub program: String,
    /// Its arguments, in order.
    pub args: Vec<String>,
}

impl View for Command {
    type V = CommandSpec;

    open spec fn view(&self) -> CommandSpec {
        CommandSpec { program: self.program@, args: self.args.deep_view() }
    }
}

/// The compiler run of one plan: `gccrs` with the plan's flag list.
pub open spec fn spec_compile_command(a: ArgsSpec, gcc_extra: Seq<Seq<char>>) -> CommandSpec {
    CommandSpec { program: "gccrs"@, args: spec_as_args(a, gcc_extra) }
}

/// The archive run that bundles a static library: `ar rcs <output> <object>`
/// plus the extra arguments the environment supplied.
pub open spec fn spec_archive_command(a: ArgsSpec, ar_extra: Seq<Seq<char>>) -> CommandSpec {
    CommandSpec {
        program: "ar"@,
        args: seq!["rcs"@] + (match a.output_file {
            Some(out) => seq![out, out + ".tmp.o"@],
            None => Seq::empty(),
        }) + ar_extra,
    }
}

/// The commands one plan asks for: its compiler run, followed, only for a
/// static library, by its archive run.
pub open spec fn spec_commands_for(
    a: ArgsSpec,
    gcc_extra: Seq<Seq<char>>,
    ar_extra: Seq<Seq<char>>,
) -> Seq<CommandSpec> {
    if a.crate_type is StaticLib {
        seq![spec_compile_command(a, gcc_extra), spec_archive_command(a, ar_extra)]
    } else {
        seq![spec_compile_command(a, gcc_extra)]
    }
}

/// The full command sequence of a list of plans, in plan order.
pub open spec fn spec_command_plan(
    sets: Seq<ArgsSpec>,
    gcc_extra: Seq<Seq<char>>,
    ar_extra: Seq<Seq<char>>,
) -> Seq<CommandSpec>
    decreases sets.len(),
{
    if sets.len() == 0 {
        Seq::empty()
    } else {
        spec_commands_for(sets[0], gcc_extra, ar_extra) + spec_command_plan(
            sets.drop_first(),
            gcc_extra,
            ar_extra,
        )
    }
}

/// The plan of a list grows at its end: the commands of the last plan
/// follow the commands of the rest.
proof fn lemma_plan_snoc(sets: Seq<ArgsSpec>, gcc_extra: Seq<Seq<char>>, ar_extra: Seq<Seq<char>>)
    requires
        sets.len() > 0,
    ensures
        spec_command_plan(sets, gcc_extra, ar_extra) == spec_command_plan(
            sets.drop_last(),
            gcc_extra,
            ar_extra,
        ) + spec_commands_for(sets.last(), gcc_extra, ar_extra),
    decreases sets.len(),
{
    if sets.len() == 1 {
        assert(sets.drop_first() =~= Seq::<ArgsSpec>::empty());
        assert(sets.drop_last() =~= Seq::<ArgsSpec>::empty());
        assert(spec_command_plan(sets, gcc_extra, ar_extra) =~= spec_command_plan(
            sets.drop_last(),
            gcc_extra,
            ar_extra,
        ) + spec_commands_for(sets.last(), gcc_extra, ar_extra));
    } else {
        let t = sets.drop_first();
        lemma_plan_snoc(t, gcc_extra, ar_extra);
        assert(t.drop_last() =~= sets.drop_last().drop_first());
        assert(t.last() == sets.last());
        assert(sets.drop_last()[0] == sets[0]);
        assert(spec_command_plan(sets, gcc_extra, ar_extra) =~= spec_command_plan(
            sets.drop_last(),
            gcc_extra,
            ar_extra,
        ) + spec_commands_for(sets.last(), gcc_extra, ar_extra));
    }
}

/// A request for a binary and then a static library plans exactly three
/// commands: the two compiler runs in request order, then the single
/// archive run of the static library — and nothing else. Together with the
/// contract of [`Dispatcher::advance`], which halts the sequence at the
/// first failure, a failed first compile leaves the later commands untried.
pub proof fn lemma_bin_then_staticlib_plan(
    sets: Seq<ArgsSpec>,
    gcc_extra: Seq<Seq<char>>,
    ar_extra: Seq<Seq<char>>,
)
    requires
        sets.len() == 2,
        sets[0].crate_type == CrateType::Bin,
        sets[1].crate_type == CrateType::StaticLib,
    ensures
        spec_command_plan(sets, gcc_extra, ar_extra).len() == 3,
        spec_command_plan(sets, gcc_extra, ar_extra)[0] == spec_compile_command(
            sets[0],
            gcc_extra,
        ),
        spec_command_plan(sets, gcc_extra, ar_extra)[1] == spec_compile_command(
            sets[1],
            gcc_extra,
        ),
        spec_command_plan(sets, gcc_extra, ar_extra)[2] == spec_archive_command(sets[1], ar_extra),
{
    let t = sets.drop_first();
    let c0 = spec_commands_for(sets[0], gcc_extra, ar_extra);
    let c1 = spec_commands_for(sets[1], gcc_extra, ar_extra);
    assert(t[0] == sets[1]);
    assert(t.drop_first() =~= Seq::<ArgsSpec>::empty());
    assert(spec_command_plan(t.drop_first(), gcc_extra, ar_extra) =~= Seq::<CommandSpec>::empty());
    assert(spec_command_plan(t, gcc_extra, ar_extra) =~= c1);
    assert(spec_command_plan(sets, gcc_extra, ar_extra) =~= c0 + c1);
    assert(c0.len() == 1);
    assert(c1.len() == 2);
    assert((c0 + c1)[0] == c0[0]);
    assert((c0 + c1)[1] == c1[0]);
    assert((c0 + c1)[2] == c1[1]);
}

/// Runs the planned commands in order through its caller: hands out the
/// command at the current position, and moves on only when the caller
/// reports success, halting the whole sequence at the first failure.
pub struct Dispatcher {
    commands: Vec<Command>,
    pos: usize,
    halted: bool,
}

impl Dispatcher {
    /// The full command sequence this dispatcher runs.
    pub closed spec fn plan(&self) -> Seq<CommandSpec> {
        self.commands@.map_values(|c: Command| c@)
    }

    /// How many commands have completed successfully.
    pub closed spec fn spec_pos(&self) -> int {
        self.pos as int
    }

    /// Whether a failure has stopped the sequence for good.
    pub closed spec fn spec_halted(&self) -> bool {
        self.halted
    }

    /// The position never passes the end of the plan.
    pub closed spec fn wf(&self) -> bool {
        self.pos <= self.commands@.len()
    }

    /// Plan the dispatch of every translated argument set: one compiler
    /// run per set, in set order, each static-library set followed by its
    /// archive run.
    #[verifier::loop_isolation(false)]
    pub fn new(sets: &ArgsCollection, gcc_extra: &Vec<String>, ar_extra: &Vec<String>) -> (d:
        Dispatcher)
        ensures
            d.plan() == spec_command_plan(sets@, gcc_extra.deep_view(), ar_extra.deep_view()),
            d.spec_pos() == 0,
            !d.spec_halted(),
            d.wf(),
    {
        let ghost gcc = gcc_extra.deep_view();
        let ghost ar = ar_extra.deep_view();
        let mut commands: Vec<Command> = Vec::new();
        let n = sets.len();
        let mut i: usize = 0;
        proof {
            assert(commands@.map_values(|c: Command| c@) =~= spec_command_plan(
                sets@.take(0),
                gcc,
                ar,
            ));
        }
        while i < n
            invariant
                0 <= i <= n,
                n == sets@.len(),
                commands@.map_values(|c: Command| c@) == spec_command_plan(
                    sets@.take(i as int),
                    gcc,
                    ar,
                ),
            decreases n - i,
        {
            let a = sets.get(i);
            let ghost prev = commands@.map_values(|c: Command| c@);
            let cargs = a.as_args(gcc_extra);
            commands.push(Command { program: String::from_str("gccrs"), args: cargs });
            if a.crate_type() == CrateType::StaticLib {
                let mut aargs: Vec<String> = Vec::new();
                aargs.push(String::from_str("rcs"));
                match a.output_file() {
                    Some(out) => {
                        aargs.push(out.clone());
                    },
                    None => {},
                }
                match a.object_file_name() {
                    Some(obj) => {
                        aargs.push(obj);
                    },
                    None => {},
                }
                let mut e = clone_string_vec(ar_extra);
                aargs.append(&mut e);
                proof {
                    assert(aargs.deep_view() =~= seq!["rcs"@] + (match a@.output_file {
                        Some(out) => seq![out, out + ".tmp.o"@],
                        None => Seq::<Seq<char>>::empty(),
                    }) + ar);
                }
                commands.push(Command { program: String::from_str("ar"), args: aargs });
                proof {
                    assert(commands@.map_values(|c: Command| c@) =~= prev + spec_commands_for(
                        a@,
                        gcc,
                        ar,
                    ));
                }
            } else {
                proof {
                    assert(commands@.map_values(|c: Command| c@) =~= prev + spec_commands_for(
                        a@,
                        gcc,
                        ar,
                    ));
                }
            }
            proof {
                lemma_plan_snoc(sets@.take(i + 1), gcc, ar);
                assert(sets@.take(i + 1).drop_last() =~= sets@.take(i as int));
                assert(sets@.take(i + 1).last() == sets@[i as int]);
            }
            i += 1;
        }
        proof {
            assert(sets@.take(n as int) =~= sets@);
        }
        Dispatcher { commands, pos: 0, halted: false }
    }

    /// The command to run next: the one at the current position, or
    /// nothing when the sequence is done or has halted on a failure.
    pub fn next_command(&self) -> (r: Option<&Command>)
        ensures
            match r {
                Some(c) => {
                    &&& !self.spec_halted()
                    &&& self.spec_pos() < self.plan().len()
                    &&& c@ == self.plan()[self.spec_pos()]
                },
                None => self.spec_halted() || self.spec_pos() >= self.plan().len(),
            },
    {
        if self.halted || self.pos >= self.commands.len() {
            None
        } else {
            Some(&self.commands[self.pos])
        }
    }

    /// Record the outcome the caller observed for the current command.
    /// Success moves the sequence one step forward; failure halts it for
    /// good — no later command is ever handed out — and reports the
    /// compile error.
    pub fn advance(&mut self, success: bool) -> (r: Result<(), Error>)
        requires
            !old(self).spec_halted(),
            old(self).spec_pos() < old(self).plan().len(),
            old(self).wf(),
        ensures
            final(self).plan() == old(self).plan(),
            final(self).wf(),
            success ==> r is Ok && final(self).spec_pos() == old(self).spec_pos() + 1
                && !final(self).spec_halted(),
            !success ==> (r matches Err(e) && e is Compile && final(self).spec_halted()
                && final(self).spec_pos() == old(self).spec_pos()),
    {
        if success {
            let n = self.commands.len();
            proof {
                assert(self.pos < n);
            }
            self.pos = self.pos + 1;
            Ok(())
        } else {
            self.halted = true;
            Err(Error::Compile)
        }
    }
}

/// What a non-query invocation with argument tail `tail` translates to
/// under the grammar `o`: the full command plan when the tail parses and
/// the builder accepts it, or the error of the stage that refused it.
pub open spec fn spec_translate(
    o: getopts::Options,
    tail: Seq<Seq<char>>,
    gcc_extra: Seq<Seq<char>>,
    ar_extra: Seq<Seq<char>>,
) -> Result<Seq<CommandSpec>, ErrorSpec> {
    if !parse_ok(o, tail) {
        Err(ErrorSpec::InvalidArg(parse_fail(o, tail)))
    } else {
        match spec_build(spec_parsed_args(o, tail)) {
            Ok(sets) => Ok(spec_command_plan(sets, gcc_extra, ar_extra)),
            Err(e) => Err(e),
        }
    }
}

/// What one invocation asks the program to do.
pub enum BuildPlan {
    /// The invocation is a configuration query: dump and translate the
    /// target options instead of compiling.
    ConfigQuery,
    /// A real compilation: run the planned commands, in order.
    Build(Dispatcher),
}

/// The `gccrs` compiler as this layer sees it.
pub struct Gccrs;

/// Relies on which::which to probe the search path for the `gccrs` binary.
/// Whether it is found depends on the machine, so nothing is promised of
/// the result.
#[verifier::external_body]
fn gccrs_found() -> bool {
    which::which("gccrs").is_ok()
}

impl Gccrs {
    /// Installing the compiler on the user's behalf is not supported, so a
    /// missing compiler is always fatal.
    fn install() -> (r: Result<(), Error>)
        ensures
            r matches Err(e) && e is Installation,
    {
        Err(Error::Installation)
    }

    /// Whether the `gccrs` binary is present in the search path.
    fn is_installed() -> bool {
        gccrs_found()
    }

    /// Fail with [`Error::Installation`] when the compiler cannot be
    /// found; succeed when it is present.
    pub fn maybe_install() -> (r: Result<(), Error>)
        ensures
            r matches Err(e) ==> e is Installation,
    {
        if Gccrs::is_installed() {
            Ok(())
        } else {
            Gccrs::install()
        }
    }

    /// The fixed invocation that makes `gccrs` dump its target options
    /// into its side-channel file.
    pub fn dump_config_command() -> (r: Command)
        ensures
            r@.program == "gccrs"@,
            r@.args == seq!["-x"@, "rs"@, "-frust-dump-target_options"@, "-"@],
    {
        let mut args: Vec<String> = Vec::new();
        args.push(String::from_str("-x"));
        args.push(String::from_str("rs"));
        args.push(String::from_str("-frust-dump-target_options"));
        args.push(String::from_str("-"));
        proof {
            assert(args.deep_view() =~= seq!["-x"@, "rs"@, "-frust-dump-target_options"@, "-"@]);
        }
        Command { program: String::from_str("gccrs"), args }
    }

    /// Decide what a `rustc`-style invocation asks for. An invocation
    /// whose first flag is the literal `-` is a configuration query;
    /// anything else is translated into a dispatch plan, or into the error
    /// the translation reports.
    pub fn compile_with_rust_args(
        args: &Vec<String>,
        gcc_extra: &Vec<String>,
        ar_extra: &Vec<String>,
    ) -> (r: Result<BuildPlan, Error>)
        requires
            args@.len() >= 2,
        ensures
            (args@.len() > 2 && args@[2]@ == "-"@) ==> (r matches Ok(p) && p is ConfigQuery),
            (args@.len() == 2 || args@[2]@ != "-"@) ==> !(r matches Ok(p) && p is ConfigQuery),
            r matches Ok(BuildPlan::Build(d)) ==> d.spec_pos() == 0 && !d.spec_halted() && d.wf(),
            (args@.len() == 2 || args@[2]@ != "-"@) ==> forall|o0: getopts::Options|
                #[trigger] base_grammar(o0) ==> (match (
                    r,
                    spec_translate(
                        rustc_grammar(o0),
                        arg_views(args@).subrange(2, args@.len() as int),
                        gcc_extra.deep_view(),
                        ar_extra.deep_view(),
                    ),
                ) {
                    (Ok(BuildPlan::Build(d)), Ok(plan)) => d.plan() == plan,
                    (Err(e), Err(es)) => e@ == es,
                    _ => false,
                }),
    {
        if args.len() > 2 && str_eq(args[2].as_str(), "-") {
            return Ok(BuildPlan::ConfigQuery);
        }
        let parsed = match RustcArgs::try_from(args.as_slice()) {
            Ok(p) => p,
            Err(e) => {
                return Err(e);
            },
        };
        let sets = match ArgsCollection::try_from(&parsed) {
            Ok(s) => s,
            Err(e) => {
                return Err(e);
            },
        };
        let d = Dispatcher::new(&sets, gcc_extra, ar_extra);
        Ok(BuildPlan::Build(d))
    }

    /// Decide what a `rustc`-style invocation asks for; the historical
    /// entry point with the same behavior as
    /// [`Gccrs::compile_with_rust_args`].
    pub fn handle_rust_args(
        args: &Vec<String>,
        gcc_extra: &Vec<String>,
        ar_extra: &Vec<String>,
    ) -> (r: Result<BuildPlan, Error>)
        requires
            args@.len() >= 2,
        ensures
            (args@.len() > 2 && args@[2]@ == "-"@) ==> (r matches Ok(p) && p is ConfigQuery),
            (args@.len() == 2 || args@[2]@ != "-"@) ==> !(r matches Ok(p) && p is ConfigQuery),
            r matches Ok(BuildPlan::Build(d)) ==> d.spec_pos() == 0 && !d.spec_halted() && d.wf(),
            (args@.len() == 2 || args@[2]@ != "-"@) ==> forall|o0: getopts::Options|
                #[trigger] base_grammar(o0) ==> (match (
                    r,
                    spec_translate(
                        rustc_grammar(o0),
                        arg_views(args@).subrange(2, args@.len() as int),
                        gcc_extra.deep_view(),
                        ar_extra.deep_view(),
                    ),
                ) {
                    (Ok(BuildPlan::Build(d)), Ok(plan)) => d.plan() == plan,
                    (Err(e), Err(es)) => e@ == es,
                    _ => false,
                }),
    {
        Gccrs::compile_with_rust_args(args, gcc_extra, ar_extra)
    }
}

} // verus!
