//! The command-line surface: one required mode argument.
//!
//! `manual` enables interactive key control, `auto` spins
//! autonomously. Any other invocation — wrong argument count or an
//! unrecognized value — yields no mode; the caller prints the usage
//! text and exits without entering the loop or touching the display
//! sink. (This program exits with a non-zero code in that case.)

use vstd::prelude::*;

verus! {

/// The two run modes.
#[derive(Clone, Copy, PartialEq, Eq, Structural, Debug)]
pub enum Mode {
    Manual,
    Auto,
}

impl Mode {
    /// Whether this mode ignores rotation keys.
    pub fn is_auto(&self) -> (r: bool)
        ensures
            r == (*self is Auto),
    {
        matches!(self, Mode::Auto)
    }
}

/// What the arguments parse to: exactly two (the program name and the
/// mode), the second being `manual` or `auto`; anything else is
/// rejected.
pub open spec fn parse_mode_spec(args: Seq<String>) -> Option<Mode> {
    if args.len() != 2 {
        Option::None
    } else if args[1]@ == "manual"@ {
        Option::Some(Mode::Manual)
    } else if args[1]@ == "auto"@ {
        Option::Some(Mode::Auto)
    } else {
        Option::None
    }
}

/// Parse the argument vector (program name included). Returns the
/// mode exactly when the invocation is well-formed, and nothing — so
/// that the caller prints usage and leaves — otherwise.
pub fn parse_mode(args: &Vec<String>) -> (r: Option<Mode>)
    ensures
        r == parse_mode_spec(args@),
{
    if args.len() != 2 {
        return Option::None;
    }
    let manual: String = "manual".to_owned();
    let auto: String = "auto".to_owned();
    if args[1] == manual {
        Option::Some(Mode::Manual)
    } else if args[1] == auto {
        Option::Some(Mode::Auto)
    } else {
        Option::None
    }
}

/// The usage text printed on a rejected invocation.
pub fn usage() -> (r: &'static str)
    ensures
        r@ == ("cargo run -- manual : Run the program in manual mode\ncargo run -- auto : Run the program in automatic mode")@,
{
    "cargo run -- manual : Run the program in manual mode\ncargo run -- auto : Run the program in automatic mode"
}

} // verus!
