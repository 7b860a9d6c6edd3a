//! An exact decimal price, held as rust_decimal holds it: a signed integer
//! mantissa and a power-of-ten scale.
use vstd::prelude::*;

verus! {

/// The largest magnitude of a mantissa: 96 bits.
pub const MAX_MANTISSA: i128 = 0xFFFF_FFFF_FFFF_FFFF_FFFF_FFFF;

/// The largest number of digits after the decimal point.
pub const MAX_SCALE: u32 = 28;

/// The value `mantissa / 10^scale`. Trailing zeros are kept: `65000.50` is
/// mantissa 6500050 with scale 2, and differs from `65000.5`.
#[derive(Clone, Copy, Debug)]
pub struct Price {
    pub mantissa: i128,
    pub scale: u32,
}

impl Price {
    /// The ranges that rust_decimal can represent.
    pub open spec fn wf(self) -> bool {
        &&& -MAX_MANTISSA <= self.mantissa <= MAX_MANTISSA
        &&& self.scale <= MAX_SCALE
    }

    /// The price `mantissa / 10^scale`, or `None` where either part is out of range.
    pub fn new(mantissa: i128, scale: u32) -> (r: Option<Price>)
        ensures
            r matches Some(p) ==> p.mantissa == mantissa && p.scale == scale && p.wf(),
            r is None <==> !(Price { mantissa, scale }).wf(),
    {
        if -MAX_MANTISSA <= mantissa && mantissa <= MAX_MANTISSA && scale <= MAX_SCALE {
            Some(Price { mantissa, scale })
        } else {
            None
        }
    }
}

/// The character of the decimal digit `n`, for `0 <= n < 10`.
pub open spec fn digit_char(n: int) -> char {
    seq!['0', '1', '2', '3', '4', '5', '6', '7', '8', '9'][n]
}

/// The decimal digits of `n`, most significant first; none for zero.
pub open spec fn digits(n: nat) -> Seq<char>
    decreases n,
{
    if n == 0 {
        seq![]
    } else {
        digits(n / 10) + seq![digit_char((n % 10) as int)]
    }
}

/// The digits of `|mantissa|`, padded with leading zeros to at least `scale` digits.
pub open spec fn padded_digits(mantissa: int, scale: nat) -> Seq<char> {
    let d = digits(if mantissa < 0 { (-mantissa) as nat } else { mantissa as nat });
    if d.len() < scale {
        Seq::new((scale - d.len()) as nat, |i: int| '0') + d
    } else {
        d
    }
}

/// The text of `mantissa / 10^scale` with exactly `scale` fractional digits:
/// a `-` for a negative mantissa, the whole part (`0` where it has no digit),
/// and, for a positive scale, a point and the last `scale` digits.
pub open spec fn decimal_text(mantissa: int, scale: nat) -> Seq<char> {
    let p = padded_digits(mantissa, scale);
    let whole = p.subrange(0, p.len() - scale);
    let int_part = if whole.len() == 0 { seq!['0'] } else { whole };
    let sign = if mantissa < 0 { seq!['-'] } else { seq![] };
    if scale == 0 {
        sign + int_part
    } else {
        sign + int_part + seq!['.'] + p.subrange(p.len() - scale, p.len() as int)
    }
}

/// The JSON string literal of that text.
pub open spec fn json_of_decimal(mantissa: int, scale: nat) -> Seq<char> {
    seq!['"'] + decimal_text(mantissa, scale) + seq!['"']
}

/// Relies on `Decimal::from_i128_with_scale`, which panics only outside `wf`,
/// and on serde_json writing a `Decimal` through its `Serialize` impl, which
/// passes the decimal text to `serialize_str`: a quoted string, written into
/// a `Vec`, which cannot fail.
#[verifier::external_body]
pub(crate) fn decimal_json(p: &Price) -> (r: Option<String>)
    requires
        p.wf(),
    ensures
        r is Some,
        r matches Some(t) ==> t@ == json_of_decimal(p.mantissa as int, p.scale as nat),
{
    serde_json::to_string(&rust_decimal::Decimal::from_i128_with_scale(p.mantissa, p.scale)).ok()
}

} // verus!
