//! The command line: which arguments name the two input files.
use vstd::prelude::*;

verus! {

/// The number of command-line arguments, the program's name included: three
/// that are not used, then the identifiers file and the token file.
pub const ARG_COUNT: usize = 6;

/// The two files that a run reads.
pub struct Invocation {
    pub identifiers_file: String,
    pub token_file: String,
}

/// The files named on the command line `args` (the program's name first), or
/// none when the count of arguments is not the expected one, in which case
/// the caller prints how to call the program and does nothing else.
pub fn parse_args(args: &Vec<String>) -> (r: Option<Invocation>)
    ensures
        r is None <==> args@.len() != ARG_COUNT,
        r matches Some(inv) ==> inv.identifiers_file == args@[4] && inv.token_file == args@[5],
{
    if args.len() != ARG_COUNT {
        None
    } else {
        Some(
            Invocation { identifiers_file: args[4].clone(), token_file: args[5].clone() },
        )
    }
}

} // verus!
