//! The fixed-width unsigned integer in which field elements are handed in
//! and out.

use crate::field::CamlBn382Fq;
use crate::limbs::value6;
use vstd::prelude::*;

verus! {

/// An unsigned integer of 384 bits, in six 64-bit limbs, least significant
/// first.
#[derive(Clone, Copy, Debug, PartialEq, Eq)]
pub struct CamlBigint384 {
    pub limbs: [u64; 6],
}

impl View for CamlBigint384 {
    type V = nat;

    /// The number that the limbs hold.
    open spec fn view(&self) -> nat {
        value6(self.limbs@)
    }
}

impl CamlBigint384 {
    /// The integer with the given limbs.
    pub fn new(limbs: [u64; 6]) -> (r: Self)
        ensures
            r.limbs == limbs,
            r@ == value6(limbs@),
    {
        CamlBigint384 { limbs }
    }
}

impl From<&CamlBn382Fq> for CamlBigint384 {
    /// The canonical representative of a field element.
    fn from(x: &CamlBn382Fq) -> (r: CamlBigint384) {
        CamlBigint384 { limbs: x.limbs() }
    }
}

impl vstd::std_specs::convert::FromSpecImpl<&CamlBn382Fq> for CamlBigint384 {
    open spec fn obeys_from_spec() -> bool {
        true
    }

    open spec fn from_spec(x: &CamlBn382Fq) -> CamlBigint384 {
        CamlBigint384 { limbs: x.spec_limbs() }
    }
}

} // verus!
