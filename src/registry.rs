use vstd::prelude::*;
use crate::activity::contains_address;
use crate::addresses::texts;
use crate::velocity_analyzer::{VelocityError, VelocityErrorKind};

verus! {

/// The first of `required` that `present` lacks, by index.
pub fn first_missing(required: &Vec<String>, present: &Vec<String>) -> (r: Option<usize>)
    ensures
        match r {
            Some(i) => i < required@.len() && !texts(present@).contains(required@[i as int]@)
                && forall|j: int| 0 <= j < i ==> texts(present@).contains(#[trigger] required@[j]@),
            None => forall|j: int|
                0 <= j < required@.len() ==> texts(present@).contains(#[trigger] required@[j]@),
        },
{
    let mut i: usize = 0;
    while i < required.len()
        invariant
            i <= required@.len(),
            forall|j: int| 0 <= j < i ==> texts(present@).contains(#[trigger] required@[j]@),
        decreases required@.len() - i,
    {
        if !contains_address(present, &required[i]) {
            return Some(i);
        }
        i = i + 1;
    }
    None
}

/// A participant's addresses as found; none at all means the participant is unknown.
pub fn addresses_or_not_found(addresses: Vec<String>) -> (r: Result<Vec<String>, VelocityError>)
    ensures
        addresses@.len() == 0 ==> r.is_err() && r.unwrap_err().kind()
            == VelocityErrorKind::ParticipantNotFound,
        addresses@.len() > 0 ==> r.is_ok() && r.unwrap()@ == addresses@,
{
    if addresses.len() == 0 {
        Err(VelocityError::ParticipantNotFound)
    } else {
        Ok(addresses)
    }
}

} // verus!
