//! The command-line decisions: which argument names the template, and
//! whether `.gitignore` may be written.
//!
//! The binary collects the arguments, checks whether the file exists and
//! reads the confirmation answer; the decisions themselves are made here.

use vstd::prelude::*;
use crate::text::accepts_overwrite;
use crate::text::overwrite_accepted;

verus! {

/// Selects the template name from the argument list (the first entry being
/// the program's own name). Exactly one positional argument is required:
/// with any other count the caller must print usage and exit with status 1.
pub fn parse_args(args: &Vec<String>) -> (r: Option<String>)
    ensures
        r is Some <==> args@.len() == 2,
        r matches Some(template) ==> template@ == args@[1]@,
{
    if args.len() == 2 {
        Option::Some(args[1].clone())
    } else {
        Option::None
    }
}

/// The overwrite guard. Where no `.gitignore` exists the write proceeds
/// with no prompt; where one exists it proceeds only when the answer,
/// lowercased and trimmed, is exactly `y`. Declining is not an error: the
/// caller exits with status 0.
pub fn should_write_file(gitignore_exists: bool, answer: &Option<String>) -> (r: bool)
    ensures
        r <==> (!gitignore_exists || (answer matches Some(a) && overwrite_accepted(a@))),
{
    if gitignore_exists {
        match answer {
            Option::Some(a) => accepts_overwrite(a),
            Option::None => false,
        }
    } else {
        true
    }
}

} // verus!
