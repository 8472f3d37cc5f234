use vstd::prelude::*;

use crate::decimal::{decimal, digits_value, is_digit_string, lemma_decimal_round_trip};

verus! {

/// Number of values one 64-bit limb can hold.
pub open spec fn limb_base() -> nat {
    0x1_0000_0000_0000_0000
}

/// Value of little-endian 64-bit limbs.
pub open spec fn limbs_value(l: Seq<u64>) -> nat
    decreases l.len(),
{
    if l.len() == 0 {
        0
    } else {
        l[0] as nat + limb_base() * limbs_value(l.drop_first())
    }
}

/// Value of little-endian bytes.
pub open spec fn le_value(b: Seq<u8>) -> nat
    decreases b.len(),
{
    if b.len() == 0 {
        0
    } else {
        b[0] as nat + 256 * le_value(b.drop_first())
    }
}

/// An unsigned 256-bit integer, as four little-endian 64-bit limbs.
#[derive(Clone, Copy, Debug)]
pub struct U256 {
    pub limbs: [u64; 4],
}

impl U256 {
    pub open spec fn value(&self) -> nat {
        limbs_value(self.limbs@)
    }

    pub fn from_u64(n: u64) -> (r: U256)
        ensures
            r.value() == n as nat,
    {
        let r = U256 { limbs: [n, 0, 0, 0] };
        proof {
            reveal_with_fuel(limbs_value, 5);
            assert(r.limbs@.drop_first().drop_first().drop_first().drop_first().len() == 0);
        }
        r
    }

    pub fn zero() -> (r: U256)
        ensures
            r.value() == 0,
    {
        U256::from_u64(0)
    }

    /// Canonical decimal text of the value.
    pub fn to_decimal(&self) -> (r: String)
        ensures
            r@ == decimal(self.value()),
    {
        let shown = display_decimal(self);
        proof {
            lemma_decimal_round_trip(self.value());
        }
        match reparse_decimal(shown.as_str()) {
            Some(t) => t,
            None => shown,
        }
    }
}

impl PartialEq for U256 {
    fn eq(&self, o: &U256) -> (r: bool) {
        let r = self.limbs[0] == o.limbs[0] && self.limbs[1] == o.limbs[1] && self.limbs[2]
            == o.limbs[2] && self.limbs[3] == o.limbs[3];
        proof {
            if r {
                assert(self.limbs@ =~= o.limbs@);
            }
        }
        r
    }
}

impl vstd::std_specs::cmp::PartialEqSpecImpl for U256 {
    open spec fn obeys_eq_spec() -> bool {
        true
    }

    open spec fn eq_spec(&self, o: &U256) -> bool {
        self.limbs@ == o.limbs@
    }
}

impl Eq for U256 {

}

/// An element of the proof system's prime field, held as its canonical
/// 32-byte little-endian representation.
#[derive(Clone, Copy, Debug)]
pub struct FieldElement {
    pub repr: [u8; 32],
}

impl FieldElement {
    /// The integer that the representation encodes, read little-endian.
    pub open spec fn value(&self) -> nat {
        le_value(self.repr@)
    }

    /// Canonical decimal text of the element's integer value.
    pub fn to_decimal(&self) -> (r: String)
        ensures
            r@ == decimal(self.value()),
    {
        le_bytes_decimal(&self.repr)
    }
}

/// The decimal text of a field element reads back as the little-endian
/// value of its representation, and holds decimal digits only: no sign and
/// no hex digits.
pub proof fn lemma_field_element_decimal(f: FieldElement)
    ensures
        is_digit_string(decimal(f.value())),
        digits_value(decimal(f.value())) == le_value(f.repr@),
{
    lemma_decimal_round_trip(f.value());
}

/// A public key: the two coordinates of a curve point, as integers.
#[derive(Clone, Copy, Debug)]
pub struct PublicKey {
    pub x: U256,
    pub y: U256,
}

/// Relies on the `Display` impl of ethers' `U256` (uint's `construct_uint!`),
/// which writes the value in canonical decimal.
#[verifier::external_body]
fn display_decimal(x: &U256) -> (r: String)
    ensures
        r@ == decimal(x.value()),
{
    ethers::types::U256(x.limbs).to_string()
}

/// Relies on num-bigint's `BigUint::from_str`, which reads any non-empty
/// string of decimal digits as its value, and on `BigUint`'s `Display`,
/// which writes canonical decimal.
#[verifier::external_body]
fn reparse_decimal(s: &str) -> (r: Option<String>)
    ensures
        is_digit_string(s@) ==> r.is_some() && r.unwrap()@ == decimal(digits_value(s@)),
{
    match <num_bigint::BigUint as std::str::FromStr>::from_str(s) {
        Ok(v) => Some(v.to_string()),
        Err(_) => None,
    }
}

/// Relies on num-bigint's `BigUint::from_bytes_le`, which reads the bytes
/// as a little-endian integer, and on `BigUint`'s `Display`, which writes
/// canonical decimal.
#[verifier::external_body]
fn le_bytes_decimal(b: &[u8; 32]) -> (r: String)
    ensures
        r@ == decimal(le_value(b@)),
{
    num_bigint::BigUint::from_bytes_le(b).to_string()
}

} // verus!
