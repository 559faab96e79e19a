//! Options for the password generation command.

use vstd::prelude::*;

verus! {

pub struct GenPassOpts {
    pub length: u8,
    pub no_upper_case: bool,
    pub no_lower_case: bool,
    pub no_number: bool,
    pub no_symbol: bool,
}

} // verus!
