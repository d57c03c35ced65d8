//! Value types: opaque descriptors of a scalar or vector value's bit width
//! and lane structure.
//!
//! The ABI model only reads three things of a value type: its byte size, its
//! integer classification, and its textual name. A value type is a lane type
//! together with a lane count; every representable value is well formed, so
//! no separate invariant is needed.

use crate::text::dec_rep;
use crate::text::u32_to_text;
use vstd::prelude::*;
use vstd::string::StringExecFns;

verus! {

/// The scalar type of one lane: a boolean, integer or floating-point width.
#[derive(Copy, Clone, Debug, PartialEq, Eq, Hash, Structural)]
pub enum LaneType {
    /// A boolean stored in one bit.
    B1,
    /// A boolean stored in 8 bits.
    B8,
    /// A boolean stored in 16 bits.
    B16,
    /// A boolean stored in 32 bits.
    B32,
    /// A boolean stored in 64 bits.
    B64,
    /// An 8-bit integer.
    I8,
    /// A 16-bit integer.
    I16,
    /// A 32-bit integer.
    I32,
    /// A 64-bit integer.
    I64,
    /// A 32-bit floating-point number.
    F32,
    /// A 64-bit floating-point number.
    F64,
}

/// The number of lanes: one for a scalar, a power of two up to 256 for a
/// SIMD vector.
#[derive(Copy, Clone, Debug, PartialEq, Eq, Hash, Structural)]
pub enum LaneCount {
    /// One lane: a scalar.
    X1,
    /// 2 lanes.
    X2,
    /// 4 lanes.
    X4,
    /// 8 lanes.
    X8,
    /// 16 lanes.
    X16,
    /// 32 lanes.
    X32,
    /// 64 lanes.
    X64,
    /// 128 lanes.
    X128,
    /// 256 lanes.
    X256,
}

/// A value type: the type of one SSA value as the ABI model sees it.
#[derive(Copy, Clone, Debug, PartialEq, Eq, Hash, Structural)]
pub struct ValueType {
    /// The type of each lane.
    pub lane: LaneType,
    /// How many lanes the value has.
    pub lanes: LaneCount,
}

/// How many bits one lane occupies.
pub open spec fn lane_bits(l: LaneType) -> nat {
    match l {
        LaneType::B1 => 1,
        LaneType::B8 => 8,
        LaneType::B16 => 16,
        LaneType::B32 => 32,
        LaneType::B64 => 64,
        LaneType::I8 => 8,
        LaneType::I16 => 16,
        LaneType::I32 => 32,
        LaneType::I64 => 64,
        LaneType::F32 => 32,
        LaneType::F64 => 64,
    }
}

/// The number of lanes a lane count stands for.
pub open spec fn lane_count(c: LaneCount) -> nat {
    match c {
        LaneCount::X1 => 1,
        LaneCount::X2 => 2,
        LaneCount::X4 => 4,
        LaneCount::X8 => 8,
        LaneCount::X16 => 16,
        LaneCount::X32 => 32,
        LaneCount::X64 => 64,
        LaneCount::X128 => 128,
        LaneCount::X256 => 256,
    }
}

/// The lane count standing for `c` lanes: the table entry for each power
/// of two up to 256, and `None` for every other number.
pub open spec fn lane_count_of(c: nat) -> Option<LaneCount> {
    if c == 1 {
        Some(LaneCount::X1)
    } else if c == 2 {
        Some(LaneCount::X2)
    } else if c == 4 {
        Some(LaneCount::X4)
    } else if c == 8 {
        Some(LaneCount::X8)
    } else if c == 16 {
        Some(LaneCount::X16)
    } else if c == 32 {
        Some(LaneCount::X32)
    } else if c == 64 {
        Some(LaneCount::X64)
    } else if c == 128 {
        Some(LaneCount::X128)
    } else if c == 256 {
        Some(LaneCount::X256)
    } else {
        None
    }
}

/// Law: `lane_count_of` is exactly the inverse of `lane_count`: a found
/// entry stands for the asked-for count, and a miss means no lane count
/// stands for it.
pub proof fn lemma_lane_count_of_exact(c: nat)
    ensures
        match lane_count_of(c) {
            Some(lc) => lane_count(lc) == c,
            None => forall|lc: LaneCount| #[trigger] lane_count(lc) != c,
        },
{
    if lane_count_of(c) is None {
        assert forall|lc: LaneCount| #[trigger] lane_count(lc) != c by {
            match lc {
                LaneCount::X1 => assert(lane_count(lc) == 1),
                LaneCount::X2 => assert(lane_count(lc) == 2),
                LaneCount::X4 => assert(lane_count(lc) == 4),
                LaneCount::X8 => assert(lane_count(lc) == 8),
                LaneCount::X16 => assert(lane_count(lc) == 16),
                LaneCount::X32 => assert(lane_count(lc) == 32),
                LaneCount::X64 => assert(lane_count(lc) == 64),
                LaneCount::X128 => assert(lane_count(lc) == 128),
                LaneCount::X256 => assert(lane_count(lc) == 256),
            }
        }
    }
}

/// The total number of bits of a value of this type.
pub open spec fn type_bits(t: ValueType) -> nat {
    lane_bits(t.lane) * lane_count(t.lanes)
}

/// The number of bytes used to store a value of this type in memory: the
/// bit count rounded up to whole bytes.
pub open spec fn type_bytes(t: ValueType) -> nat {
    (type_bits(t) + 7) / 8
}

/// The textual name of one lane type.
pub open spec fn lane_name(l: LaneType) -> Seq<char> {
    match l {
        LaneType::B1 => "b1"@,
        LaneType::B8 => "b8"@,
        LaneType::B16 => "b16"@,
        LaneType::B32 => "b32"@,
        LaneType::B64 => "b64"@,
        LaneType::I8 => "i8"@,
        LaneType::I16 => "i16"@,
        LaneType::I32 => "i32"@,
        LaneType::I64 => "i64"@,
        LaneType::F32 => "f32"@,
        LaneType::F64 => "f64"@,
    }
}

/// The textual name of a value type: the lane name alone for a scalar, with
/// an `x` and the lane count appended for a vector.
pub open spec fn type_text(t: ValueType) -> Seq<char> {
    if t.lanes == LaneCount::X1 {
        lane_name(t.lane)
    } else {
        lane_name(t.lane) + "x"@ + dec_rep(lane_count(t.lanes))
    }
}

impl LaneType {
    /// How many bits one lane of this type occupies.
    pub fn bits(self) -> (r: u32)
        ensures
            r == lane_bits(self),
            r <= 64,
    {
        match self {
            LaneType::B1 => 1,
            LaneType::B8 => 8,
            LaneType::B16 => 16,
            LaneType::B32 => 32,
            LaneType::B64 => 64,
            LaneType::I8 => 8,
            LaneType::I16 => 16,
            LaneType::I32 => 32,
            LaneType::I64 => 64,
            LaneType::F32 => 32,
            LaneType::F64 => 64,
        }
    }

    /// The textual name of this lane type.
    pub fn to_text(self) -> (r: &'static str)
        ensures
            r@ == lane_name(self),
    {
        match self {
            LaneType::B1 => "b1",
            LaneType::B8 => "b8",
            LaneType::B16 => "b16",
            LaneType::B32 => "b32",
            LaneType::B64 => "b64",
            LaneType::I8 => "i8",
            LaneType::I16 => "i16",
            LaneType::I32 => "i32",
            LaneType::I64 => "i64",
            LaneType::F32 => "f32",
            LaneType::F64 => "f64",
        }
    }
}

impl LaneCount {
    /// The number of lanes this count stands for.
    pub fn count(self) -> (r: u32)
        ensures
            r == lane_count(self),
            1 <= r <= 256,
    {
        match self {
            LaneCount::X1 => 1,
            LaneCount::X2 => 2,
            LaneCount::X4 => 4,
            LaneCount::X8 => 8,
            LaneCount::X16 => 16,
            LaneCount::X32 => 32,
            LaneCount::X64 => 64,
            LaneCount::X128 => 128,
            LaneCount::X256 => 256,
        }
    }

    /// The lane count standing for `c` lanes, or `None` when `c` is not a
    /// power of two up to 256.
    pub fn from_count(c: u32) -> (r: Option<LaneCount>)
        ensures
            r == lane_count_of(c as nat),
    {
        let r = if c == 1 {
            Some(LaneCount::X1)
        } else if c == 2 {
            Some(LaneCount::X2)
        } else if c == 4 {
            Some(LaneCount::X4)
        } else if c == 8 {
            Some(LaneCount::X8)
        } else if c == 16 {
            Some(LaneCount::X16)
        } else if c == 32 {
            Some(LaneCount::X32)
        } else if c == 64 {
            Some(LaneCount::X64)
        } else if c == 128 {
            Some(LaneCount::X128)
        } else if c == 256 {
            Some(LaneCount::X256)
        } else {
            None
        };
        r
    }
}

impl ValueType {
    /// The scalar value type with the given lane type.
    pub fn scalar(lane: LaneType) -> (r: ValueType)
        ensures
            r == (ValueType { lane, lanes: LaneCount::X1 }),
    {
        ValueType { lane, lanes: LaneCount::X1 }
    }

    /// The number of bytes used to store a value of this type in memory.
    pub fn bytes(&self) -> (r: u32)
        ensures
            r == type_bytes(*self),
            r <= 2048,
    {
        let b = self.lane.bits();
        let c = self.lanes.count();
        proof {
            assert(b * c <= 64 * 256) by (nonlinear_arith)
                requires
                    b <= 64,
                    1 <= c <= 256,
            ;
        }
        let bits = b * c;
        (bits + 7) / 8
    }

    /// Whether this type is a scalar integer: the only types that sign- or
    /// zero-extension may be applied to.
    pub open spec fn spec_is_int(&self) -> bool {
        self.lanes == LaneCount::X1 && (self.lane == LaneType::I8 || self.lane == LaneType::I16
            || self.lane == LaneType::I32 || self.lane == LaneType::I64)
    }

    /// Whether this type is a scalar integer.
    #[verifier::when_used_as_spec(spec_is_int)]
    pub fn is_int(&self) -> (r: bool)
        ensures
            r == self.spec_is_int(),
    {
        match self.lane {
            LaneType::I8 => self.lanes == LaneCount::X1,
            LaneType::I16 => self.lanes == LaneCount::X1,
            LaneType::I32 => self.lanes == LaneCount::X1,
            LaneType::I64 => self.lanes == LaneCount::X1,
            _ => false,
        }
    }

    /// The vector type with the same lane type and `n` times as many lanes,
    /// or `None` when the resulting lane count is not a power of two up
    /// to 256.
    pub fn by_lanes(self, n: u16) -> (r: Option<ValueType>)
        ensures
            r == match lane_count_of((lane_count(self.lanes) * n) as nat) {
                Some(lanes) => Some(ValueType { lane: self.lane, lanes }),
                None => None,
            },
    {
        let c = self.lanes.count();
        proof {
            assert(c * (n as u32) <= 256 * 65535) by (nonlinear_arith)
                requires
                    c <= 256,
                    n <= 65535,
            ;
        }
        let total = c * (n as u32);
        match LaneCount::from_count(total) {
            Some(lanes) => Some(ValueType { lane: self.lane, lanes }),
            None => None,
        }
    }

    /// The textual name of this type, such as `i32` or `i32x4`.
    pub fn to_text(&self) -> (r: String)
        ensures
            r@ == type_text(*self),
    {
        let base = self.lane.to_text();
        match self.lanes {
            LaneCount::X1 => base.to_owned(),
            _ => {
                let mut s = base.to_owned();
                s.append("x");
                let count = u32_to_text(self.lanes.count());
                s.append(count.as_str());
                proof {
                    assert(s@ =~= type_text(*self));
                }
                s
            },
        }
    }
}

} // verus!
