use vstd::prelude::*;
use crate::error::Z3Error;

verus! {

/// The bit-vector widths this library supports.
pub open spec fn supported_width(w: usize) -> bool {
    w == 8 || w == 16 || w == 32 || w == 64
}

/// Number of distinct values of a supported bit-vector width.
pub open spec fn bv_modulus(w: usize) -> int {
    if w == 8 {
        0x100
    } else if w == 16 {
        0x1_0000
    } else if w == 32 {
        0x1_0000_0000
    } else {
        0x1_0000_0000_0000_0000
    }
}

/// The numeric theory that an expression is compiled against.
#[derive(Clone, Copy, Debug, PartialEq, Eq, Structural)]
pub enum Z3Type {
    /// Unbounded signed integers; model values decode as `i64`.
    Int,
    /// Fixed-width bit-vectors; model values decode as unsigned integers of
    /// that width.
    BV(usize),
}

impl Z3Type {
    /// A domain is usable when its width, if any, is supported.
    pub open spec fn wf(self) -> bool {
        match self {
            Z3Type::Int => true,
            Z3Type::BV(w) => supported_width(w),
        }
    }

    /// Whether `v` is a value of the domain's native scalar type.
    pub open spec fn fits(self, v: int) -> bool {
        match self {
            Z3Type::Int => i64::MIN <= v <= i64::MAX,
            Z3Type::BV(w) => 0 <= v < bv_modulus(w),
        }
    }

    pub open spec fn spec_rust_type_name(self) -> Seq<char> {
        match self {
            Z3Type::Int => "i64"@,
            Z3Type::BV(w) => if w == 8 {
                "u8"@
            } else if w == 16 {
                "u16"@
            } else if w == 32 {
                "u32"@
            } else {
                "u64"@
            },
        }
    }

    pub open spec fn spec_z3_type_name(self) -> Seq<char> {
        match self {
            Z3Type::Int => "z3::ast::Int"@,
            Z3Type::BV(_) => "z3::ast::BV"@,
        }
    }

    /// Builds a bit-vector domain, refusing unsupported widths.
    pub fn bit_vector(width: usize) -> (r: Result<Z3Type, Z3Error>)
        ensures
            r == (if supported_width(width) {
                Ok::<Z3Type, Z3Error>(Z3Type::BV(width))
            } else {
                Err::<Z3Type, Z3Error>(Z3Error::UnsupportedWidth)
            }),
    {
        if width == 8 || width == 16 || width == 32 || width == 64 {
            Ok(Z3Type::BV(width))
        } else {
            Err(Z3Error::UnsupportedWidth)
        }
    }

    /// Checks that the domain is usable.
    pub fn validate(self) -> (r: Result<(), Z3Error>)
        ensures
            r == (if self.wf() {
                Ok::<(), Z3Error>(())
            } else {
                Err::<(), Z3Error>(Z3Error::UnsupportedWidth)
            }),
    {
        match self {
            Z3Type::Int => Ok(()),
            Z3Type::BV(w) => match Z3Type::bit_vector(w) {
                Ok(_) => Ok(()),
                Err(e) => Err(e),
            },
        }
    }

    pub fn is_int(self) -> (r: bool)
        ensures
            r == (self is Int),
    {
        self == Z3Type::Int
    }

    /// Whether bitwise and shift operators are legal in this domain.
    pub fn allows_bitwise(self) -> (r: bool)
        ensures
            r == (self is BV),
    {
        !self.is_int()
    }

    /// The native scalar type that model values decode to.
    pub fn rust_type_name(self) -> (r: String)
        requires
            self.wf(),
        ensures
            r@ == self.spec_rust_type_name(),
    {
        match self {
            Z3Type::Int => String::from_str("i64"),
            Z3Type::BV(w) => if w == 8 {
                String::from_str("u8")
            } else if w == 16 {
                String::from_str("u16")
            } else if w == 32 {
                String::from_str("u32")
            } else {
                String::from_str("u64")
            },
        }
    }

    /// The solver's sort for this domain.
    pub fn z3_type_name(self) -> (r: String)
        ensures
            r@ == self.spec_z3_type_name(),
    {
        match self {
            Z3Type::Int => String::from_str("z3::ast::Int"),
            Z3Type::BV(_) => String::from_str("z3::ast::BV"),
        }
    }

    /// Whether `v` fits the domain's native scalar type.
    pub fn value_fits(self, v: i128) -> (r: bool)
        requires
            self.wf(),
        ensures
            r == self.fits(v as int),
    {
        match self {
            Z3Type::Int => i64::MIN as i128 <= v && v <= i64::MAX as i128,
            Z3Type::BV(w) => if w == 8 {
                0 <= v && v < 0x100
            } else if w == 16 {
                0 <= v && v < 0x1_0000
            } else if w == 32 {
                0 <= v && v < 0x1_0000_0000
            } else {
                0 <= v && v < 0x1_0000_0000_0000_0000
            },
        }
    }
}

} // verus!
