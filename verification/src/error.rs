//! Error taxonomy of the `gccrs` translation layer.

use vstd::prelude::*;

verus! {

/// Spec-level shape of an [`Error`], with text as character sequences.
pub enum ErrorSpec {
    InvalidArg(Seq<char>),
    InvalidCfgDump,
    Compile,
    Command(Seq<char>),
    Utf8(Option<Seq<char>>),
    Invocation,
    Installation,
    WrapperLaunch,
    WrapperExit,
}

/// Everything that can go wrong while translating and dispatching an
/// invocation.
#[derive(Debug)]
pub enum Error {
    /// Invalid argument given to `gccrs`; carries the offending text or the
    /// name of a missing required flag.
    InvalidArg(String),
    /// A line of the configuration dump written by `gccrs -frust-dump-*`
    /// does not follow the two-variant grammar.
    InvalidCfgDump,
    /// The compiler or the archiver exited with a non-zero status.
    Compile,
    /// A child process could not be spawned or awaited; carries the text of
    /// the operating-system error.
    Command(String),
    /// A path needed on a command line is not representable as text; carries
    /// a lossy rendering of the path when one is available.
    Utf8(Option<String>),
    /// The program was invoked with an unrecognized sub-command selector.
    Invocation,
    /// The `gccrs` compiler is required but cannot be found.
    Installation,
    /// The surrounding build orchestrator could not be started as a wrapper.
    WrapperLaunch,
    /// The wrapped build orchestrator did not complete successfully.
    WrapperExit,
}

impl View for Error {
    type V = ErrorSpec;

    open spec fn view(&self) -> ErrorSpec {
        match self {
            Error::InvalidArg(s) => ErrorSpec::InvalidArg(s@),
            Error::InvalidCfgDump => ErrorSpec::InvalidCfgDump,
            Error::Compile => ErrorSpec::Compile,
            Error::Command(s) => ErrorSpec::Command(s@),
            Error::Utf8(p) => ErrorSpec::Utf8(
                match p {
                    Some(s) => Some(s@),
                    None => None,
                },
            ),
            Error::Invocation => ErrorSpec::Invocation,
            Error::Installation => ErrorSpec::Installation,
            Error::WrapperLaunch => ErrorSpec::WrapperLaunch,
            Error::WrapperExit => ErrorSpec::WrapperExit,
        }
    }
}

/// The diagnostic line that [`Error::message`] produces for each variant.
pub open spec fn spec_message(e: ErrorSpec) -> Seq<char> {
    match e {
        ErrorSpec::InvalidArg(s) => "Invalid argument given to `gccrs`: "@ + s,
        ErrorSpec::InvalidCfgDump => "Invalid configuration returned when executing `gccrs -frust-dump-*`"@,
        ErrorSpec::Compile => "Error when compiling project using `gccrs`"@,
        ErrorSpec::Command(s) => "IO Error when executing `gccrs`: "@ + s,
        ErrorSpec::Utf8(_) => "Error when dealing with UTF-8 strings"@,
        ErrorSpec::Invocation => "Error when invoking `cargo-gccrs`"@,
        ErrorSpec::Installation => "`gccrs` must be installed"@,
        ErrorSpec::WrapperLaunch => "Error when launching `cargo-gccrs` as a `rustc` wrapper"@,
        ErrorSpec::WrapperExit => "`cargo-gccrs` did not complete succesfully"@,
    }
}

impl Error {
    /// A single human-readable diagnostic line describing the failure.
    pub fn message(&self) -> (r: String)
        ensures
            r@ == spec_message(self@),
    {
        match self {
            Error::InvalidArg(s) => {
                let mut m = String::from_str("Invalid argument given to `gccrs`: ");
                m.append(s.as_str());
                m
            },
            Error::InvalidCfgDump => String::from_str(
                "Invalid configuration returned when executing `gccrs -frust-dump-*`",
            ),
            Error::Compile => String::from_str("Error when compiling project using `gccrs`"),
            Error::Command(s) => {
                let mut m = String::from_str("IO Error when executing `gccrs`: ");
                m.append(s.as_str());
                m
            },
            Error::Utf8(_) => String::from_str("Error when dealing with UTF-8 strings"),
            Error::Invocation => String::from_str("Error when invoking `cargo-gccrs`"),
            Error::Installation => String::from_str("`gccrs` must be installed"),
            Error::WrapperLaunch => String::from_str(
                "Error when launching `cargo-gccrs` as a `rustc` wrapper",
            ),
            Error::WrapperExit => String::from_str("`cargo-gccrs` did not complete succesfully"),
        }
    }
}

} // verus!
