//! Command-line handling shared by the programs: taking positional arguments and
//! composing the usage line.

use vstd::prelude::*;

verus! {

/// The usage line printed when arguments are missing: `Usage: PROGRAM SYNOPSIS`.
pub open spec fn usage_text(program: Seq<char>, synopsis: Seq<char>) -> Seq<char> {
    "Usage: "@ + program + " "@ + synopsis
}

/// A copy of the `i`-th command-line word.
pub fn arg(args: &Vec<String>, i: usize) -> (s: String)
    requires
        i < args@.len(),
    ensures
        s@ == args@[i as int]@,
{
    args[i].clone()
}

/// The usage line for the program named by `args[0]`.
pub fn usage_line(args: &Vec<String>, synopsis: &str) -> (s: String)
    requires
        args@.len() >= 1,
    ensures
        s@ == usage_text(args@[0]@, synopsis@),
{
    let mut s = String::from_str("Usage: ");
    s.append(args[0].as_str());
    s.append(" ");
    s.append(synopsis);
    s
}

/// Concatenates three strings.
pub fn concat3(a: &str, b: &str, c: &str) -> (s: String)
    ensures
        s@ == a@ + b@ + c@,
{
    let mut s = String::from_str(a);
    s.append(b);
    s.append(c);
    s
}

} // verus!
