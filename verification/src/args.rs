use vstd::prelude::*;

verus! {

/// The command-line options the simulator's front end accepts; each falls
/// back to a configured default when absent.
pub struct Args {
    pub compiler_path: Option<String>,
    pub objdump_path: Option<String>,
    pub file: Option<String>,
}

/// Resolves one option against its default.
pub fn pick(cli: Option<String>, default: String) -> (r: String)
    ensures
        r == (match cli {
            Option::Some(c) => c,
            Option::None => default,
        }),
{
    match cli {
        Option::Some(c) => c,
        Option::None => default,
    }
}

} // verus!
