//! The platform selector: a pure mapping from the target operating system
//! to the required spelling of the program entry symbol.

use vstd::prelude::*;

verus! {

/// The operating systems the compiler can target.
#[derive(Debug, Clone, Copy, PartialEq, Eq, Structural)]
pub enum TargetOs {
    Linux,
    MacOs,
}

/// The required spelling of the entry symbol on `os`: Mach-O targets
/// prefix C symbols with an underscore, ELF targets do not.
pub open spec fn spec_main_symbol(os: TargetOs) -> Seq<char> {
    match os {
        TargetOs::Linux => "main"@,
        TargetOs::MacOs => "_main"@,
    }
}

/// The entry-symbol spelling the target assembler and linker require for
/// the source function named `main`.
pub fn main_symbol(os: TargetOs) -> (s: &'static str)
    ensures
        s@ == spec_main_symbol(os),
{
    match os {
        TargetOs::Linux => "main",
        TargetOs::MacOs => "_main",
    }
}

} // verus!
