use vstd::prelude::*;

verus! {

/// The subcommand chosen on the command line. The model only carries the
/// choice through to action execution; what each operation does is the
/// executors' business.
#[derive(Clone, Copy, PartialEq, Eq, Structural, Debug)]
pub enum Subcommands {
    Foo,
    Bar,
    Baz,
}

/// What the command-line front end hands the core: the resolved path of
/// the configuration file, the pass-through `dry_run` flag, and the
/// chosen subcommand. Validation behaviour does not change under
/// `dry_run`; downstream execution may consult it.
#[derive(Debug)]
pub struct Cli {
    pub config: String,
    pub dry_run: bool,
    pub subcommand: Subcommands,
}

/// The abstract value of the command-line input.
pub struct CliV {
    pub config: Seq<char>,
    pub dry_run: bool,
    pub subcommand: Subcommands,
}

impl View for Cli {
    type V = CliV;

    open spec fn view(&self) -> CliV {
        CliV { config: self.config@, dry_run: self.dry_run, subcommand: self.subcommand }
    }
}

} // verus!
