//! Argument locations and the register-naming service.
//!
//! An argument location is a small assignable union: unassigned, a register
//! unit, or a stack offset (the byte size at a stack offset is implied by the
//! paired value type). A location renders inside brackets only once
//! assigned; register units render through an optional register-naming
//! service, with a generic `%N` fallback when no service is supplied or the
//! unit is unknown to it.

use crate::text::dec_rep;
use crate::text::i32_to_text;
use crate::text::int_rep;
use crate::text::u32_to_text;
use vstd::prelude::*;
use vstd::string::StringExecFns;

verus! {

/// One register unit in the target ISA's register-unit numbering.
pub type RegUnit = u16;

/// The ABI-specific location of an argument, or `Unassigned` before
/// legalization has decided it.
#[derive(Copy, Clone, Debug, PartialEq, Eq, Hash, Structural)]
pub enum ArgumentLoc {
    /// Not yet assigned to a concrete location.
    Unassigned,
    /// Assigned to a register unit.
    Reg(RegUnit),
    /// Assigned to a byte offset into the outgoing-argument stack area; the
    /// size of the slot is given by the paired value type.
    Stack(i32),
}

/// A register-naming service: the display name of each register unit, in
/// register-unit order. A unit outside the table renders as the generic
/// `%N` fallback.
pub struct RegInfo {
    /// The display name of each register unit, indexed by unit number.
    pub names: Vec<String>,
}

/// The name table a display call works with: the named units of the given
/// service, or an empty table when no service is supplied.
pub open spec fn reg_names_of(regs: Option<&RegInfo>) -> Seq<Seq<char>> {
    match regs {
        Some(ri) => ri.names_view(),
        None => Seq::empty(),
    }
}

/// The rendering of one register unit against a name table: the table's
/// name when the unit is in range, otherwise `%N`.
pub open spec fn reg_text(ru: RegUnit, names: Seq<Seq<char>>) -> Seq<char> {
    if ru < names.len() {
        names[ru as int]
    } else {
        "%"@ + dec_rep(ru as nat)
    }
}

/// The rendering of a location: `-` when unassigned, the register name for
/// a register, the decimal byte offset for a stack slot.
pub open spec fn loc_text(loc: ArgumentLoc, names: Seq<Seq<char>>) -> Seq<char> {
    match loc {
        ArgumentLoc::Unassigned => "-"@,
        ArgumentLoc::Reg(ru) => reg_text(ru, names),
        ArgumentLoc::Stack(offset) => int_rep(offset as int),
    }
}

impl RegInfo {
    /// The name table as a sequence of character sequences.
    pub open spec fn names_view(&self) -> Seq<Seq<char>> {
        self.names@.map_values(|s: String| s@)
    }

    /// A register-naming service over the given name table.
    pub fn new(names: Vec<String>) -> (r: RegInfo)
        ensures
            r.names == names,
    {
        RegInfo { names }
    }

    /// The display name of a register unit: its table entry, or `%N` when
    /// the unit is outside the table.
    pub fn regunit_name(&self, ru: RegUnit) -> (r: String)
        ensures
            r@ == reg_text(ru, self.names_view()),
    {
        if (ru as usize) < self.names.len() {
            self.names[ru as usize].clone()
        } else {
            let mut s = "%".to_owned();
            let digits = u32_to_text(ru as u32);
            s.append(digits.as_str());
            s
        }
    }
}

impl ArgumentLoc {
    /// Whether this location has been assigned to a register or stack slot.
    pub fn is_assigned(&self) -> (r: bool)
        ensures
            r == !(*self is Unassigned),
    {
        match self {
            ArgumentLoc::Unassigned => false,
            ArgumentLoc::Reg(_) => true,
            ArgumentLoc::Stack(_) => true,
        }
    }

    /// Renders this location: `-` when unassigned, the register name or the
    /// generic `%N` fallback for a register, the decimal offset for a stack
    /// slot.
    pub fn to_text(&self, regs: Option<&RegInfo>) -> (r: String)
        ensures
            r@ == loc_text(*self, reg_names_of(regs)),
    {
        match self {
            ArgumentLoc::Unassigned => "-".to_owned(),
            ArgumentLoc::Reg(ru) => match regs {
                Some(ri) => ri.regunit_name(*ru),
                None => {
                    let mut s = "%".to_owned();
                    let digits = u32_to_text(*ru as u32);
                    s.append(digits.as_str());
                    s
                },
            },
            ArgumentLoc::Stack(offset) => i32_to_text(*offset),
        }
    }
}

} // verus!
