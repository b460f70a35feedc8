//! The extra-argument environment variables the dispatcher honors, and the
//! splitting of their raw text into individual arguments.

use vstd::prelude::*;

use crate::text::{spec_tokens, split_tokens};

verus! {

/// The kinds of extra arguments a user can hand in through the environment.
pub enum EnvArgs {
    /// Extra arguments for the archiver run that bundles a static library.
    Ar,
    /// Extra arguments for every compiler invocation.
    Gcc,
}

impl EnvArgs {
    /// The name of the environment variable that carries this kind of
    /// extra arguments.
    pub open spec fn spec_key(self) -> Seq<char> {
        match self {
            EnvArgs::Ar => "AR_EXTRA_ARGS"@,
            EnvArgs::Gcc => "GCCRS_EXTRA_ARGS"@,
        }
    }

    /// The environment variable key associated with this kind.
    pub fn as_key(&self) -> (r: &'static str)
        ensures
            r@ == self.spec_key(),
    {
        match self {
            EnvArgs::Ar => "AR_EXTRA_ARGS",
            EnvArgs::Gcc => "GCCRS_EXTRA_ARGS",
        }
    }

    /// Split the raw text of the variable, as read from the environment,
    /// into arguments: its whitespace-separated tokens, in order. An
    /// absent variable means no extra arguments at all.
    pub fn as_args(&self, raw: Option<String>) -> (r: Option<Vec<String>>)
        ensures
            match raw {
                None => r is None,
                Some(s) => r matches Some(v) && v.deep_view() == spec_tokens(s@),
            },
    {
        match raw {
            None => None,
            Some(s) => Some(split_tokens(s.as_str())),
        }
    }
}

} // verus!
