//! Country codes, as the isocountry crate provides them.
use vstd::prelude::*;

verus! {

/// The countries of the isocountry crate; a value is carried through as it is
/// and read only through `alpha2`.
#[verifier::external_type_specification]
#[verifier::external_body]
pub struct ExCountryCode(isocountry::CountryCode);

/// Two upper-case ASCII letters.
pub open spec fn is_alpha2(s: Seq<char>) -> bool {
    &&& s.len() == 2
    &&& forall|i: int| 0 <= i < 2 ==> 'A' <= #[trigger] s[i] <= 'Z'
}

/// Relies on isocountry's `CountryCode::alpha2`: every country's ISO 3166-1
/// alpha-2 code is a constant of two upper-case ASCII letters.
pub assume_specification[ isocountry::CountryCode::alpha2 ](c: &isocountry::CountryCode) -> (r: &'static str)
    ensures
        is_alpha2(r@),
;

/// The two-letter code of a country, as a string.
pub fn alpha2_string(c: &isocountry::CountryCode) -> (r: String)
    ensures
        is_alpha2(r@),
{
    String::from_str(c.alpha2())
}

} // verus!
