//! Command-line surface: the parsed flags and the decisions made on them.
//!
//! The surrounding process parses the raw arguments and prints the help or
//! version text; the decisions — which short-circuit applies, which file to
//! preload — are made here.

use vstd::prelude::*;

verus! {

/// The flags the process accepts: an input file, and the version and help
/// short-circuits in short and long form.
pub struct Args {
    pub f: Option<String>,
    pub v: bool,
    pub version: bool,
    pub h: bool,
    pub help: bool,
}

/// Decision helper over the parsed flags.
pub struct CliHelper {
    pub args: Args,
}

impl CliHelper {
    pub fn new(args: Args) -> (r: CliHelper)
        ensures
            r.args == args,
    {
        CliHelper { args }
    }

    /// Whether the help text is to be shown (and the run ends there).
    pub fn help(&self) -> (r: bool)
        ensures
            r == (self.args.help || self.args.h),
    {
        self.args.help || self.args.h
    }

    /// Whether the version line is to be shown (and the run ends there).
    pub fn version(&self) -> (r: bool)
        ensures
            r == (self.args.version || self.args.v),
    {
        self.args.version || self.args.v
    }

    /// The path of the file to preload, if one was named.  Whether it
    /// exists on disk only the caller can see; a named but missing file is
    /// dropped there, not here.
    pub fn requested_path(&self) -> (r: Option<&String>)
        ensures
            match self.args.f {
                Some(_) => r matches Some(p) && p@ == self.args.f->Some_0@,
                None => r is None,
            },
    {
        match &self.args.f {
            Some(p) => Some(p),
            None => None,
        }
    }
}

} // verus!
