//! The cloud-credential context, read from the environment by the caller.

use vstd::prelude::*;

verus! {

/// The first of the region settings that is present, in order of precedence.
pub open spec fn first_present(
    primary: Option<Seq<char>>,
    default: Option<Seq<char>>,
    profile_region: Option<Seq<char>>,
) -> Option<Seq<char>> {
    if primary is Some {
        primary
    } else if default is Some {
        default
    } else {
        profile_region
    }
}

/// The cloud region: the primary region setting when present, else the
/// default region, else the profile's region, else none.
pub fn get_aws_region(
    primary: Option<String>,
    default: Option<String>,
    profile_region: Option<String>,
) -> (r: Option<String>)
    ensures
        crate::query::text_of(r) == first_present(
            crate::query::text_of(primary),
            crate::query::text_of(default),
            crate::query::text_of(profile_region),
        ),
        primary is Some ==> r == primary,
{
    match primary {
        Some(p) => Some(p),
        None => match default {
            Some(d) => Some(d),
            None => profile_region,
        },
    }
}

} // verus!
