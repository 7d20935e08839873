use vstd::prelude::*;
use crate::velocity_analyzer::{VelocityError, VelocityErrorKind};
use std::str::FromStr;
use bitcoincore_rpc::bitcoin::address::NetworkUnchecked;
use bitcoincore_rpc::bitcoin::Address;

verus! {

/// What parsing a text as a Bitcoin address gives: the address in its
/// canonical text form, or nothing where the text is no address.
pub uninterp spec fn parsed_address(s: Seq<char>) -> Option<Seq<char>>;

/// Relies on `bitcoin::Address::from_str` (network left unchecked) and the
/// address's `Display`: the result depends on the text alone.
#[verifier::external_body]
fn parse_address(s: &str) -> (r: Option<String>)
    ensures
        match r {
            Some(a) => parsed_address(s@) == Some(a@),
            None => parsed_address(s@).is_none(),
        },
{
    Address::from_str(s).ok().map(|a: Address<NetworkUnchecked>| a.assume_checked().to_string())
}

/// Every address parsed, in order; the first text that is no address gives
/// `InvalidData`.
pub fn parse_addresses(addresses: &Vec<String>) -> (r: Result<Vec<String>, VelocityError>)
    ensures
        match r {
            Ok(v) => v@.len() == addresses@.len() && forall|i: int|
                0 <= i < addresses@.len() ==> parsed_address((#[trigger] addresses@[i])@) == Some(v@[i]@),
            Err(e) => e.kind() == VelocityErrorKind::InvalidData && exists|i: int|
                0 <= i < addresses@.len() && parsed_address((#[trigger] addresses@[i])@).is_none(),
        },
{
    let mut out: Vec<String> = Vec::new();
    let mut i: usize = 0;
    while i < addresses.len()
        invariant
            i <= addresses@.len(),
            out@.len() == i,
            forall|k: int| 0 <= k < i ==> parsed_address((#[trigger] addresses@[k])@) == Some(out@[k]@),
        decreases addresses@.len() - i,
    {
        match parse_address(addresses[i].as_str()) {
            Some(a) => {
                out.push(a);
            },
            None => {
                return Err(VelocityError::InvalidData("invalid address".to_owned()));
            },
        }
        i = i + 1;
    }
    Ok(out)
}

} // verus!
