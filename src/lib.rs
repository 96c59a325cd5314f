use vstd::prelude::*;

pub mod backoff;
pub mod credential;
pub mod decoder;
pub mod error;
pub mod frames;
pub mod json;
pub mod number;
pub mod session;

verus! {

/// Name of the exchange every tick of this client comes from.
pub fn default_exchange() -> (r: String)
    ensures
        r@ == seq!['k', 'u', 'c', 'o', 'i', 'n'],
{
    proof {
        reveal_strlit("kucoin");
    }
    String::from_str("kucoin")
}

} // verus!
