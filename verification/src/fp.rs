//! The scalar layer: double-precision values carried as bit patterns.
//!
//! Every scalar of the engine is an IEEE-754 double held by its 64-bit
//! pattern, so that verified code can state exactly which value a
//! computation produced.  Structural operations (negation, absolute value,
//! the total order used for comparisons and ties) are implemented here on
//! the bits and verified outright.  Genuinely numeric operations (addition,
//! the transcendentals) are performed by the platform's double arithmetic
//! behind trusted wrappers; each wrapper's result is pinned to an
//! uninterpreted name so that callers' contracts stay exact.
//!
//! Inside a wrapper the operand's bit pattern is turned back into a double
//! by loading its eight bytes into a one-element `candle_core` tensor of
//! the double dtype and reading the value out of the tensor's CPU storage;
//! the named operation itself is then the platform's own, and the result
//! returns as its bit pattern.

use vstd::prelude::*;

use candle_core::CpuStorage;
use candle_core::DType;
use candle_core::Device;
use candle_core::Storage;
use candle_core::Tensor as CandleTensor;

verus! {

/// Bit mask of the sign bit of a double.
pub const SIGN_MASK: u64 = 0x8000_0000_0000_0000;

/// Magnitude (sign bit cleared) of positive infinity; any magnitude above
/// this is a NaN payload.
pub const INF_MAG: u64 = 0x7FF0_0000_0000_0000;

/// Bit pattern of `1.0`.
pub const ONE_BITS: u64 = 0x3FF0_0000_0000_0000;

/// Bit pattern of `-1.0`.
pub const NEG_ONE_BITS: u64 = 0xBFF0_0000_0000_0000;

/// Bit pattern of `2.0`.
pub const TWO_BITS: u64 = 0x4000_0000_0000_0000;

/// Bit pattern of `3.0`.
pub const THREE_BITS: u64 = 0x4008_0000_0000_0000;

/// Bit pattern of `0.5`.
pub const HALF_BITS: u64 = 0x3FE0_0000_0000_0000;

/// Bit pattern of the double nearest to pi.
pub const PI_BITS: u64 = 0x4009_21FB_5444_2D18;

/// Bit pattern of the canonical quiet NaN.
pub const NAN_BITS: u64 = 0x7FF8_0000_0000_0000;

/// A double-precision floating-point value, identified by its bit pattern.
#[derive(Clone, Copy, PartialEq, Eq, Structural, Debug)]
pub struct Fp {
    pub bits: u64,
}

/// The magnitude of a bit pattern: the pattern with its sign bit cleared.
pub open spec fn mag_bits(b: u64) -> u64 {
    if b >= SIGN_MASK {
        (b - SIGN_MASK) as u64
    } else {
        b
    }
}

/// Whether the sign bit of the pattern is set.
pub open spec fn sign_set(b: u64) -> bool {
    b >= SIGN_MASK
}

/// Whether the pattern encodes a NaN.
pub open spec fn is_nan_bits(b: u64) -> bool {
    mag_bits(b) > INF_MAG
}

/// Whether the pattern encodes a zero (of either sign).
pub open spec fn is_zero_bits(b: u64) -> bool {
    mag_bits(b) == 0
}

/// Whether the pattern encodes a finite value.
pub open spec fn is_finite_bits(b: u64) -> bool {
    mag_bits(b) < INF_MAG
}

/// The pattern with its sign bit flipped: IEEE-754 negation.
pub open spec fn neg_bits(b: u64) -> u64 {
    if b >= SIGN_MASK {
        (b - SIGN_MASK) as u64
    } else {
        (b + SIGN_MASK) as u64
    }
}

/// The key of the total order used for every comparison and tie test of the
/// engine: numeric order on non-NaN values, the two zeros identified, and
/// every NaN a single greatest element.
pub open spec fn ord_key(b: u64) -> int {
    if is_nan_bits(b) {
        SIGN_MASK as int
    } else if b >= SIGN_MASK {
        -(mag_bits(b) as int)
    } else {
        b as int
    }
}

/// The result of `signum`: NaN maps to the canonical NaN, every other value
/// to `1.0` or `-1.0` after its sign bit (so the two zeros keep their signs).
pub open spec fn signum_bits(b: u64) -> u64 {
    if is_nan_bits(b) {
        NAN_BITS
    } else if b >= SIGN_MASK {
        NEG_ONE_BITS
    } else {
        ONE_BITS
    }
}

impl Fp {
    /// The value with the given bit pattern.
    pub fn from_bits(bits: u64) -> (r: Fp)
        ensures
            r.bits == bits,
    {
        Fp { bits }
    }

    /// The bit pattern of the value.
    pub fn to_bits(self) -> (r: u64)
        ensures
            r == self.bits,
    {
        self.bits
    }

    /// Whether the value is a NaN.
    pub fn is_nan(self) -> (r: bool)
        ensures
            r == is_nan_bits(self.bits),
    {
        let m: u64 = if self.bits >= SIGN_MASK {
            self.bits - SIGN_MASK
        } else {
            self.bits
        };
        m > INF_MAG
    }

    /// Whether the value is a zero of either sign.
    pub fn is_zero(self) -> (r: bool)
        ensures
            r == is_zero_bits(self.bits),
    {
        self.bits == 0 || self.bits == SIGN_MASK
    }

    /// Whether the sign bit is clear, as on the positive half of the line.
    pub fn is_sign_positive(self) -> (r: bool)
        ensures
            r == !sign_set(self.bits),
    {
        self.bits < SIGN_MASK
    }

    /// IEEE-754 negation: the same value with its sign bit flipped.
    pub fn neg(self) -> (r: Fp)
        ensures
            r.bits == neg_bits(self.bits),
    {
        if self.bits >= SIGN_MASK {
            Fp { bits: self.bits - SIGN_MASK }
        } else {
            Fp { bits: self.bits + SIGN_MASK }
        }
    }

    /// IEEE-754 absolute value: the same value with its sign bit cleared.
    pub fn abs(self) -> (r: Fp)
        ensures
            r.bits == mag_bits(self.bits),
    {
        if self.bits >= SIGN_MASK {
            Fp { bits: self.bits - SIGN_MASK }
        } else {
            Fp { bits: self.bits }
        }
    }

    /// The sign of the value: `1.0` or `-1.0` after the sign bit, and the
    /// canonical NaN for a NaN.
    pub fn signum(self) -> (r: Fp)
        ensures
            r.bits == signum_bits(self.bits),
    {
        if self.is_nan() {
            Fp { bits: NAN_BITS }
        } else if self.bits >= SIGN_MASK {
            Fp { bits: NEG_ONE_BITS }
        } else {
            Fp { bits: ONE_BITS }
        }
    }

    /// Strict less-than in the engine's total order.
    pub fn total_lt(self, other: Fp) -> (r: bool)
        ensures
            r == (ord_key(self.bits) < ord_key(other.bits)),
    {
        let a = self.bits;
        let b = other.bits;
        if self.is_nan() {
            false
        } else if other.is_nan() {
            true
        } else {
            let ma: u64 = if a >= SIGN_MASK {
                a - SIGN_MASK
            } else {
                a
            };
            let mb: u64 = if b >= SIGN_MASK {
                b - SIGN_MASK
            } else {
                b
            };
            if a >= SIGN_MASK && b >= SIGN_MASK {
                ma > mb
            } else if a >= SIGN_MASK {
                ma > 0 || mb > 0
            } else if b >= SIGN_MASK {
                false
            } else {
                a < b
            }
        }
    }

    /// Equality in the engine's total order: the two zeros are equal, and
    /// every NaN equals every NaN.
    pub fn total_eq(self, other: Fp) -> (r: bool)
        ensures
            r == (ord_key(self.bits) == ord_key(other.bits)),
    {
        if self.is_nan() {
            other.is_nan()
        } else if other.is_nan() {
            false
        } else {
            let ma: u64 = if self.bits >= SIGN_MASK {
                self.bits - SIGN_MASK
            } else {
                self.bits
            };
            let mb: u64 = if other.bits >= SIGN_MASK {
                other.bits - SIGN_MASK
            } else {
                other.bits
            };
            if ma == 0 && mb == 0 {
                true
            } else {
                self.bits == other.bits
            }
        }
    }

    /// Less-than-or-equal in the engine's total order.
    pub fn total_le(self, other: Fp) -> (r: bool)
        ensures
            r == (ord_key(self.bits) <= ord_key(other.bits)),
    {
        !other.total_lt(self)
    }
}

/// The bit pattern of the sum of the doubles with patterns `a` and `b`.
pub uninterp spec fn add_bits(a: u64, b: u64) -> u64;

/// The bit pattern of the difference of the doubles with patterns `a` and `b`.
pub uninterp spec fn sub_bits(a: u64, b: u64) -> u64;

/// The bit pattern of the product of the doubles with patterns `a` and `b`.
pub uninterp spec fn mul_bits(a: u64, b: u64) -> u64;

/// The bit pattern of the quotient of the doubles with patterns `a` and `b`.
pub uninterp spec fn div_bits(a: u64, b: u64) -> u64;

/// The bit pattern of `powf` of the doubles with patterns `a` and `b`.
pub uninterp spec fn powf_bits(a: u64, b: u64) -> u64;

/// The bit pattern of the sine of the double with pattern `x`.
pub uninterp spec fn sin_bits(x: u64) -> u64;

/// The bit pattern of the cosine of the double with pattern `x`.
pub uninterp spec fn cos_bits(x: u64) -> u64;

/// The bit pattern of the tangent of the double with pattern `x`.
pub uninterp spec fn tan_bits(x: u64) -> u64;

/// The bit pattern of the hyperbolic tangent of the double with pattern `x`.
pub uninterp spec fn tanh_bits(x: u64) -> u64;

/// The bit pattern of the square root of the double with pattern `x`.
pub uninterp spec fn sqrt_bits(x: u64) -> u64;

/// The bit pattern of the natural logarithm of the double with pattern `x`.
pub uninterp spec fn ln_bits(x: u64) -> u64;

/// The bit pattern of the natural exponential of the double with pattern `x`.
pub uninterp spec fn exp_bits(x: u64) -> u64;

/// The bit pattern of the floor of the double with pattern `x`.
pub uninterp spec fn floor_bits(x: u64) -> u64;

/// The bit pattern of the ceiling of the double with pattern `x`.
pub uninterp spec fn ceil_bits(x: u64) -> u64;

/// The bit pattern of the double with pattern `x` rounded to the nearest
/// integer, ties away from zero.
pub uninterp spec fn round_bits(x: u64) -> u64;

/// The bit pattern of the error function of the double with pattern `x`.
pub uninterp spec fn erf_bits(x: u64) -> u64;

/// Relies on the platform's double addition (`+` on the primitive double
/// type): IEEE-754 binary64 addition, which on non-NaN operands does not
/// depend on their order, and returns a non-zero finite operand unchanged
/// when the other operand is a zero.
#[verifier::external_body]
pub(crate) fn fp_add(a: Fp, b: Fp) -> (r: Fp)
    ensures
        r.bits == add_bits(a.bits, b.bits),
        is_finite_bits(a.bits) && is_finite_bits(b.bits) ==> r.bits == add_bits(b.bits, a.bits),
        !is_nan_bits(a.bits) && !is_zero_bits(a.bits) && is_zero_bits(b.bits) ==> r.bits == a.bits,
        is_zero_bits(a.bits) && !is_nan_bits(b.bits) && !is_zero_bits(b.bits) ==> r.bits == b.bits,
{
    let ta = CandleTensor::from_raw_buffer(&a.bits.to_le_bytes(), DType::F64, &[1], &Device::Cpu).unwrap();
    let tb = CandleTensor::from_raw_buffer(&b.bits.to_le_bytes(), DType::F64, &[1], &Device::Cpu).unwrap();
    let (sa, _) = ta.storage_and_layout();
    let (sb, _) = tb.storage_and_layout();
    let va = match &*sa { Storage::Cpu(CpuStorage::F64(d)) => d[0], _ => return Fp { bits: 0 } };
    let vb = match &*sb { Storage::Cpu(CpuStorage::F64(d)) => d[0], _ => return Fp { bits: 0 } };
    Fp { bits: (va + vb).to_bits() }
}

/// Relies on the platform's double subtraction (`-` on the primitive double
/// type): IEEE-754 binary64 subtraction, for which `x - x` is the positive
/// zero whenever `x` is finite, and subtracting the positive zero returns a
/// non-NaN operand unchanged.
#[verifier::external_body]
pub(crate) fn fp_sub(a: Fp, b: Fp) -> (r: Fp)
    ensures
        r.bits == sub_bits(a.bits, b.bits),
        is_finite_bits(a.bits) && a.bits == b.bits ==> r.bits == 0,
        !is_nan_bits(a.bits) && b.bits == 0 ==> r.bits == a.bits,
{
    let ta = CandleTensor::from_raw_buffer(&a.bits.to_le_bytes(), DType::F64, &[1], &Device::Cpu).unwrap();
    let tb = CandleTensor::from_raw_buffer(&b.bits.to_le_bytes(), DType::F64, &[1], &Device::Cpu).unwrap();
    let (sa, _) = ta.storage_and_layout();
    let (sb, _) = tb.storage_and_layout();
    let va = match &*sa { Storage::Cpu(CpuStorage::F64(d)) => d[0], _ => return Fp { bits: 0 } };
    let vb = match &*sb { Storage::Cpu(CpuStorage::F64(d)) => d[0], _ => return Fp { bits: 0 } };
    Fp { bits: (va - vb).to_bits() }
}

/// Relies on the platform's double multiplication (`*` on the primitive
/// double type): IEEE-754 binary64 multiplication, for which `1.0` is an
/// identity on non-NaN operands, a zero times a finite value is a zero, and
/// doubling a positive non-zero non-NaN value is exact, positive and
/// non-zero.
#[verifier::external_body]
pub(crate) fn fp_mul(a: Fp, b: Fp) -> (r: Fp)
    ensures
        r.bits == mul_bits(a.bits, b.bits),
        a.bits == ONE_BITS && !is_nan_bits(b.bits) ==> r.bits == b.bits,
        b.bits == ONE_BITS && !is_nan_bits(a.bits) ==> r.bits == a.bits,
        is_zero_bits(a.bits) && is_finite_bits(b.bits) ==> is_zero_bits(r.bits),
        is_finite_bits(a.bits) && is_zero_bits(b.bits) ==> is_zero_bits(r.bits),
        a.bits == TWO_BITS && !is_nan_bits(b.bits) && !is_zero_bits(b.bits) && !sign_set(b.bits)
            ==> !is_nan_bits(r.bits) && !is_zero_bits(r.bits) && !sign_set(r.bits),
{
    let ta = CandleTensor::from_raw_buffer(&a.bits.to_le_bytes(), DType::F64, &[1], &Device::Cpu).unwrap();
    let tb = CandleTensor::from_raw_buffer(&b.bits.to_le_bytes(), DType::F64, &[1], &Device::Cpu).unwrap();
    let (sa, _) = ta.storage_and_layout();
    let (sb, _) = tb.storage_and_layout();
    let va = match &*sa { Storage::Cpu(CpuStorage::F64(d)) => d[0], _ => return Fp { bits: 0 } };
    let vb = match &*sb { Storage::Cpu(CpuStorage::F64(d)) => d[0], _ => return Fp { bits: 0 } };
    Fp { bits: (va * vb).to_bits() }
}

/// Relies on the platform's double division (`/` on the primitive double
/// type): IEEE-754 binary64 division, for which a zero divided by a
/// positive non-zero non-NaN value is the same zero.
#[verifier::external_body]
pub(crate) fn fp_div(a: Fp, b: Fp) -> (r: Fp)
    ensures
        r.bits == div_bits(a.bits, b.bits),
        is_zero_bits(a.bits) && !is_nan_bits(b.bits) && !is_zero_bits(b.bits) && !sign_set(b.bits)
            ==> r.bits == a.bits,
{
    let ta = CandleTensor::from_raw_buffer(&a.bits.to_le_bytes(), DType::F64, &[1], &Device::Cpu).unwrap();
    let tb = CandleTensor::from_raw_buffer(&b.bits.to_le_bytes(), DType::F64, &[1], &Device::Cpu).unwrap();
    let (sa, _) = ta.storage_and_layout();
    let (sb, _) = tb.storage_and_layout();
    let va = match &*sa { Storage::Cpu(CpuStorage::F64(d)) => d[0], _ => return Fp { bits: 0 } };
    let vb = match &*sb { Storage::Cpu(CpuStorage::F64(d)) => d[0], _ => return Fp { bits: 0 } };
    Fp { bits: (va / vb).to_bits() }
}

/// Relies on `powf` of the primitive double type.
#[verifier::external_body]
pub(crate) fn fp_powf(a: Fp, b: Fp) -> (r: Fp)
    ensures
        r.bits == powf_bits(a.bits, b.bits),
{
    let ta = CandleTensor::from_raw_buffer(&a.bits.to_le_bytes(), DType::F64, &[1], &Device::Cpu).unwrap();
    let tb = CandleTensor::from_raw_buffer(&b.bits.to_le_bytes(), DType::F64, &[1], &Device::Cpu).unwrap();
    let (sa, _) = ta.storage_and_layout();
    let (sb, _) = tb.storage_and_layout();
    let va = match &*sa { Storage::Cpu(CpuStorage::F64(d)) => d[0], _ => return Fp { bits: 0 } };
    let vb = match &*sb { Storage::Cpu(CpuStorage::F64(d)) => d[0], _ => return Fp { bits: 0 } };
    Fp { bits: va.powf(vb).to_bits() }
}

/// Relies on `sin` of the primitive double type.
#[verifier::external_body]
pub(crate) fn fp_sin(x: Fp) -> (r: Fp)
    ensures
        r.bits == sin_bits(x.bits),
{
    let t = CandleTensor::from_raw_buffer(&x.bits.to_le_bytes(), DType::F64, &[1], &Device::Cpu).unwrap();
    let (s, _) = t.storage_and_layout();
    let v = match &*s { Storage::Cpu(CpuStorage::F64(d)) => d[0], _ => return Fp { bits: 0 } };
    Fp { bits: v.sin().to_bits() }
}

/// Relies on `cos` of the primitive double type.
#[verifier::external_body]
pub(crate) fn fp_cos(x: Fp) -> (r: Fp)
    ensures
        r.bits == cos_bits(x.bits),
{
    let t = CandleTensor::from_raw_buffer(&x.bits.to_le_bytes(), DType::F64, &[1], &Device::Cpu).unwrap();
    let (s, _) = t.storage_and_layout();
    let v = match &*s { Storage::Cpu(CpuStorage::F64(d)) => d[0], _ => return Fp { bits: 0 } };
    Fp { bits: v.cos().to_bits() }
}

/// Relies on `tan` of the primitive double type.
#[verifier::external_body]
pub(crate) fn fp_tan(x: Fp) -> (r: Fp)
    ensures
        r.bits == tan_bits(x.bits),
{
    let t = CandleTensor::from_raw_buffer(&x.bits.to_le_bytes(), DType::F64, &[1], &Device::Cpu).unwrap();
    let (s, _) = t.storage_and_layout();
    let v = match &*s { Storage::Cpu(CpuStorage::F64(d)) => d[0], _ => return Fp { bits: 0 } };
    Fp { bits: v.tan().to_bits() }
}

/// Relies on `tanh` of the primitive double type.
#[verifier::external_body]
pub(crate) fn fp_tanh(x: Fp) -> (r: Fp)
    ensures
        r.bits == tanh_bits(x.bits),
{
    let t = CandleTensor::from_raw_buffer(&x.bits.to_le_bytes(), DType::F64, &[1], &Device::Cpu).unwrap();
    let (s, _) = t.storage_and_layout();
    let v = match &*s { Storage::Cpu(CpuStorage::F64(d)) => d[0], _ => return Fp { bits: 0 } };
    Fp { bits: v.tanh().to_bits() }
}

/// Relies on `sqrt` of the primitive double type.
#[verifier::external_body]
pub(crate) fn fp_sqrt(x: Fp) -> (r: Fp)
    ensures
        r.bits == sqrt_bits(x.bits),
{
    let t = CandleTensor::from_raw_buffer(&x.bits.to_le_bytes(), DType::F64, &[1], &Device::Cpu).unwrap();
    let (s, _) = t.storage_and_layout();
    let v = match &*s { Storage::Cpu(CpuStorage::F64(d)) => d[0], _ => return Fp { bits: 0 } };
    Fp { bits: v.sqrt().to_bits() }
}

/// Relies on `ln` of the primitive double type.
#[verifier::external_body]
pub(crate) fn fp_ln(x: Fp) -> (r: Fp)
    ensures
        r.bits == ln_bits(x.bits),
{
    let t = CandleTensor::from_raw_buffer(&x.bits.to_le_bytes(), DType::F64, &[1], &Device::Cpu).unwrap();
    let (s, _) = t.storage_and_layout();
    let v = match &*s { Storage::Cpu(CpuStorage::F64(d)) => d[0], _ => return Fp { bits: 0 } };
    Fp { bits: v.ln().to_bits() }
}

/// Relies on `exp` of the primitive double type.
#[verifier::external_body]
pub(crate) fn fp_exp(x: Fp) -> (r: Fp)
    ensures
        r.bits == exp_bits(x.bits),
{
    let t = CandleTensor::from_raw_buffer(&x.bits.to_le_bytes(), DType::F64, &[1], &Device::Cpu).unwrap();
    let (s, _) = t.storage_and_layout();
    let v = match &*s { Storage::Cpu(CpuStorage::F64(d)) => d[0], _ => return Fp { bits: 0 } };
    Fp { bits: v.exp().to_bits() }
}

/// Relies on `floor` of the primitive double type.
#[verifier::external_body]
pub(crate) fn fp_floor(x: Fp) -> (r: Fp)
    ensures
        r.bits == floor_bits(x.bits),
{
    let t = CandleTensor::from_raw_buffer(&x.bits.to_le_bytes(), DType::F64, &[1], &Device::Cpu).unwrap();
    let (s, _) = t.storage_and_layout();
    let v = match &*s { Storage::Cpu(CpuStorage::F64(d)) => d[0], _ => return Fp { bits: 0 } };
    Fp { bits: v.floor().to_bits() }
}

/// Relies on `ceil` of the primitive double type.
#[verifier::external_body]
pub(crate) fn fp_ceil(x: Fp) -> (r: Fp)
    ensures
        r.bits == ceil_bits(x.bits),
{
    let t = CandleTensor::from_raw_buffer(&x.bits.to_le_bytes(), DType::F64, &[1], &Device::Cpu).unwrap();
    let (s, _) = t.storage_and_layout();
    let v = match &*s { Storage::Cpu(CpuStorage::F64(d)) => d[0], _ => return Fp { bits: 0 } };
    Fp { bits: v.ceil().to_bits() }
}

/// Relies on `round` of the primitive double type.
#[verifier::external_body]
pub(crate) fn fp_round(x: Fp) -> (r: Fp)
    ensures
        r.bits == round_bits(x.bits),
{
    let t = CandleTensor::from_raw_buffer(&x.bits.to_le_bytes(), DType::F64, &[1], &Device::Cpu).unwrap();
    let (s, _) = t.storage_and_layout();
    let v = match &*s { Storage::Cpu(CpuStorage::F64(d)) => d[0], _ => return Fp { bits: 0 } };
    Fp { bits: v.round().to_bits() }
}

/// Relies on `candle_core::cpu::erf::erf_f64`: the error function on
/// doubles, computed by a fixed polynomial approximation.
#[verifier::external_body]
pub(crate) fn fp_erf(x: Fp) -> (r: Fp)
    ensures
        r.bits == erf_bits(x.bits),
{
    let t = CandleTensor::from_raw_buffer(&x.bits.to_le_bytes(), DType::F64, &[1], &Device::Cpu).unwrap();
    let (s, _) = t.storage_and_layout();
    let v = match &*s { Storage::Cpu(CpuStorage::F64(d)) => d[0], _ => return Fp { bits: 0 } };
    Fp { bits: candle_core::cpu::erf::erf_f64(v).to_bits() }
}

} // verus!
