//! A small demonstration: the same sum asked of two sample libraries.
use vstd::prelude::*;

verus! {

/// Where the sample library with the faulty adder lies.
pub const BAD_ADDER_DLL: &'static str =
    "C:\\Tony\\Code\\Rust\\local-compute\\ext\\out\\bad_adder\\bad_adder.dll";

/// Where the sample library with the working adder lies.
pub const GOOD_ADDER_DLL: &'static str =
    "C:\\Tony\\Code\\Rust\\local-compute\\ext\\out\\good_adder\\good_adder.dll";

/// The symbol under which both sample libraries export their adder.
pub const ADDER_SYMBOL: &'static str = "add";

/// Asks the working and the faulty sample library for the sum of `a` and `b`,
/// in that order. `call_adder` takes a library's path, the adder's symbol and
/// the two numbers; it gives what the adder returned, or `None` where the
/// library or the symbol could not be loaded.
pub fn execute<F: Fn(&'static str, &'static str, isize, isize) -> Option<isize>>(
    call_adder: F,
    a: isize,
    b: isize,
) -> (outputs: (Option<isize>, Option<isize>))
    requires
        call_adder.requires((GOOD_ADDER_DLL, ADDER_SYMBOL, a, b)),
        call_adder.requires((BAD_ADDER_DLL, ADDER_SYMBOL, a, b)),
    ensures
        call_adder.ensures((GOOD_ADDER_DLL, ADDER_SYMBOL, a, b), outputs.0),
        call_adder.ensures((BAD_ADDER_DLL, ADDER_SYMBOL, a, b), outputs.1),
{
    let good_output = call_adder(GOOD_ADDER_DLL, ADDER_SYMBOL, a, b);
    let bad_output = call_adder(BAD_ADDER_DLL, ADDER_SYMBOL, a, b);
    (good_output, bad_output)
}

} // verus!
