//! Validation of the positional command-line arguments.

use vstd::prelude::*;

verus! {

use vstd::string::StringExecFns;

/// Why the argument list was rejected. The launcher accepts at most one
/// positional argument, so the only rejection is a surplus of them.
#[derive(Clone, Copy, Debug, PartialEq, Eq, Structural)]
pub enum ArgError {
    BadArgCount,
}

impl ArgError {
    /// The fatal message reported for this error.
    pub fn message(&self) -> (r: String)
        ensures
            r@ == "bad number of args"@,
    {
        String::from_str("bad number of args")
    }
}

/// Reads the optional URL out of the positional arguments: none means no
/// URL, exactly one is the URL taken verbatim, and any more are rejected.
pub fn parse_args(args: &Vec<String>) -> (r: Result<Option<String>, ArgError>)
    ensures
        args@.len() == 0 ==> r == Ok::<Option<String>, ArgError>(None),
        args@.len() == 1 ==> r == Ok::<Option<String>, ArgError>(Some(args@[0])),
        args@.len() >= 2 ==> r == Err::<Option<String>, ArgError>(ArgError::BadArgCount),
{
    if args.len() == 0 {
        Ok(None)
    } else if args.len() == 1 {
        Ok(Some(args[0].clone()))
    } else {
        Err(ArgError::BadArgCount)
    }
}

} // verus!
