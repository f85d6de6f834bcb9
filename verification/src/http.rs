use vstd::prelude::*;
use vstd::string::StringExecFns;

use crate::decimal::{spec_decimal_nat, u64_to_decimal};

verus! {

/// The address of the test endpoint that answers after the given number
/// of seconds.
pub open spec fn spec_delay_url(delay: nat) -> Seq<char> {
    "http://httpbin.org/delay/"@ + spec_decimal_nat(delay)
}

/// Builds the address of the test endpoint for the given delay. Making
/// the request is the caller's business; a failed request has no recovery.
pub fn delay_url(delay: u64) -> (r: String)
    ensures
        r@ == spec_delay_url(delay as nat),
{
    let mut s = "http://httpbin.org/delay/".to_owned();
    let digits = u64_to_decimal(delay);
    s.append(digits.as_str());
    s
}

} // verus!
