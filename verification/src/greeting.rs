//! Greeting strings used to verify that the foreign-function boundary
//! round-trips values correctly.

use crate::decimal::dec_rep;
use crate::decimal::u64_to_dec;
use vstd::prelude::*;

verus! {

/// The synchronous greeting.
pub fn greet(name: String) -> (r: String)
    ensures
        r@ == "Hello from Rust, "@ + name@ + "!"@,
{
    String::from_str("Hello from Rust, ").concat(name.as_str()).concat("!")
}

/// The text the delayed greeting resolves to, for a given name and
/// delay in milliseconds.
pub fn greet_async_message(name: &str, delay_ms: u64) -> (r: String)
    ensures
        r@ == "Hello Async from Rust, "@ + name@ + "! (after "@ + dec_rep(delay_ms as nat)
            + "ms)"@,
{
    String::from_str("Hello Async from Rust, ").concat(name).concat("! (after ").concat(
        u64_to_dec(delay_ms).as_str(),
    ).concat("ms)")
}

} // verus!
