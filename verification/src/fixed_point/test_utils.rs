//! Short ways to write `FixedPoint` numbers in tests.
use crate::fixed_point::text::{parse_defined, scan, scaled_value};
use crate::fixed_point::{FPUSDC, FixedPoint};
use vstd::prelude::*;

verus! {

/// The number written in `x`, which must be a valid decimal number in range.
pub fn fp<const D: u8>(x: &str) -> (r: FixedPoint<D>)
    requires
        parse_defined(x@, D as nat),
        scan(x@) is Ok,
    ensures
        scan(x@) matches Ok((v, dot)) && r.0@ == scaled_value(v, dot, D as nat),
{
    match FixedPoint::<D>::from_text(x) {
        Some(Ok(f)) => f,
        _ => FixedPoint::<D>::zero(),
    }
}

/// The USDC amount written in `x`, which must be a valid decimal number in range.
pub fn usdc(x: &str) -> (r: FPUSDC)
    requires
        parse_defined(x@, 6),
        scan(x@) is Ok,
    ensures
        scan(x@) matches Ok((v, dot)) && r.0@ == scaled_value(v, dot, 6),
{
    fp(x)
}

/// Values that tests write numbers with.
pub trait StrOrFloat: Sized {
    /// The characters that the value is written with.
    spec fn text(self) -> Seq<char>;

    /// The text of the value.
    fn to_string(self) -> (r: String)
        ensures
            r@ == self.text(),
    ;
}

impl StrOrFloat for &str {
    open spec fn text(self) -> Seq<char> {
        self@
    }

    fn to_string(self) -> String {
        self.to_owned()
    }
}

} // verus!
