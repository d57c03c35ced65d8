//! External-function names and signature references.
//!
//! Both are opaque identities as far as the ABI model is concerned: a name
//! identifies an external function, and a signature reference points into a
//! function's signature table. Only their display forms matter here.

use crate::text::dec_rep;
use crate::text::u32_to_text;
use vstd::prelude::*;
use vstd::string::StringExecFns;

verus! {

/// The name of an external function, rendered with a `%` sigil.
#[derive(Clone, Debug, PartialEq, Eq, Hash)]
pub struct ExternalName {
    /// The bare symbol text, without the sigil.
    pub symbol: String,
}

/// The rendering of an external name: a `%` sigil followed by the symbol.
pub open spec fn external_name_text(n: ExternalName) -> Seq<char> {
    "%"@ + n.symbol@
}

impl ExternalName {
    /// An external name with the given symbol text.
    pub fn new(symbol: String) -> (r: ExternalName)
        ensures
            r.symbol == symbol,
    {
        ExternalName { symbol }
    }

    /// Renders this name: a `%` sigil followed by the symbol.
    pub fn to_text(&self) -> (r: String)
        ensures
            r@ == external_name_text(*self),
    {
        let mut s = "%".to_owned();
        s.append(self.symbol.as_str());
        s
    }
}

/// A reference to a signature in a function's signature table, rendered as
/// `sigN`.
#[derive(Copy, Clone, Debug, PartialEq, Eq, Hash, Structural)]
pub struct SigRef {
    /// The index into the signature table.
    pub index: u32,
}

/// The rendering of a signature reference: `sig` followed by the index.
pub open spec fn sig_ref_text(r: SigRef) -> Seq<char> {
    "sig"@ + dec_rep(r.index as nat)
}

impl SigRef {
    /// The signature reference with the given table index.
    pub fn new(index: u32) -> (r: SigRef)
        ensures
            r.index == index,
    {
        SigRef { index }
    }

    /// Renders this reference as `sig` followed by the index.
    pub fn to_text(&self) -> (r: String)
        ensures
            r@ == sig_ref_text(*self),
    {
        let mut s = "sig".to_owned();
        let digits = u32_to_text(self.index);
        s.append(digits.as_str());
        s
    }
}

} // verus!
