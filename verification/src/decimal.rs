//! Trusted boundary to `bigdecimal`, the arbitrary-precision decimal type in
//! which start blocks are persisted. The decimal itself is opaque here; the
//! loader only ever asks it for a `u64` conversion and a textual rendering.
//! Both results depend on the decimal value alone, so each is given a name
//! that the verified contracts speak of; nothing is assumed about what the
//! names are on given values.

use vstd::prelude::*;

use bigdecimal::BigDecimal;
use bigdecimal::ToPrimitive;

verus! {

/// `bigdecimal::BigDecimal`: declared so that raw rows can carry the stored
/// start block through to the conversion; nothing is assumed of its values.
#[verifier::external_type_specification]
#[verifier::external_body]
pub struct ExBigDecimal(BigDecimal);

/// What `bigdecimal`'s `ToPrimitive::to_u64` returns of a stored decimal: a
/// function of the decimal value alone.
pub uninterp spec fn u64_of(d: BigDecimal) -> Option<u64>;

/// What `bigdecimal`'s `Display` renders of a stored decimal: a function of
/// the decimal value alone within one build of the crate (the rendering's
/// exponential-notation thresholds are compile-time constants of
/// `bigdecimal`, so the text is fixed per build, not across
/// differently-configured builds).
pub uninterp spec fn text_of(d: BigDecimal) -> Seq<char>;

/// Relies on `bigdecimal`'s `ToPrimitive::to_u64` to decide whether the
/// stored decimal is representable as an unsigned 64-bit integer (`None`
/// when it is negative or too large). The result is named, not described:
/// the validator is verified for every value the conversion can hand back.
#[verifier::external_body]
pub(crate) fn decimal_to_u64(d: &BigDecimal) -> (r: Option<u64>)
    ensures
        r == u64_of(*d),
{
    d.to_u64()
}

/// Relies on `bigdecimal`'s `Display` to render the stored decimal, used
/// only in diagnostics carried by errors. The result is named, not
/// described.
#[verifier::external_body]
pub(crate) fn decimal_to_text(d: &BigDecimal) -> (r: String)
    ensures
        r@ == text_of(*d),
{
    d.to_string()
}

} // verus!
