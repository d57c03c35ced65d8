//! Argument descriptors, function signatures and external-function
//! references.
//!
//! An `AbiParam` describes one parameter or return slot: a value type plus
//! extension, purpose, and an assignable location. A `Signature` is the
//! ordered lists of parameter and return descriptors with a calling
//! convention and, once legalized, the computed stack-argument byte size.
//! An `ExtFuncData` is the thin reference attached to call sites.

use crate::callconv::call_conv_token;
use crate::callconv::CallConv;
use crate::entities::external_name_text;
use crate::entities::sig_ref_text;
use crate::entities::ExternalName;
use crate::entities::SigRef;
use crate::loc::loc_text;
use crate::loc::reg_names_of;
use crate::loc::ArgumentLoc;
use crate::loc::RegInfo;
use crate::loc::RegUnit;
use crate::text::str_eq;
use crate::types::type_bytes;
use crate::types::type_text;
use crate::types::ValueType;
use vstd::prelude::*;
use vstd::string::StringExecFns;

verus! {

/// How a small integer argument is extended to the width of a full
/// register, on architectures that require it.
#[derive(Copy, Clone, Debug, PartialEq, Eq, Hash, Structural)]
pub enum ArgumentExtension {
    /// No extension: the high bits are indeterminate.
    NoExtension,
    /// Unsigned extension: the high bits in the register are zero.
    Uext,
    /// Signed extension: the high bits replicate the sign bit.
    Sext,
}

/// The special purpose of a function argument: an ordinary user value, or
/// one of the ABI-plumbing registers and slots that a calling convention or
/// the sandboxing model requires.
#[derive(Copy, Clone, Debug, PartialEq, Eq, Hash, Structural)]
pub enum ArgumentPurpose {
    /// A normal user program value passed to or from a function.
    Normal,
    /// A struct-return pointer: where a return value does not fit in
    /// registers, the caller passes a pointer to memory the callee writes.
    StructReturn,
    /// The link register holding the return address.
    Link,
    /// The frame pointer register.
    FramePointer,
    /// A callee-saved register.
    CalleeSaved,
    /// A pointer to the current sandbox's context struct.
    VMContext,
    /// A caller-supplied signature identifier that the callee of an
    /// indirect call may check against its own signature.
    SignatureId,
}

/// The canonical token of an argument purpose. The token table is a stable
/// external contract: encoding and decoding use this one table.
pub open spec fn purpose_token(p: ArgumentPurpose) -> Seq<char> {
    match p {
        ArgumentPurpose::Normal => "normal"@,
        ArgumentPurpose::StructReturn => "sret"@,
        ArgumentPurpose::Link => "link"@,
        ArgumentPurpose::FramePointer => "fp"@,
        ArgumentPurpose::CalleeSaved => "csr"@,
        ArgumentPurpose::VMContext => "vmctx"@,
        ArgumentPurpose::SignatureId => "sigid"@,
    }
}

/// The argument purpose a token stands for: exact match against the fixed
/// table, or `None` for any other string.
pub open spec fn purpose_decode(s: Seq<char>) -> Option<ArgumentPurpose> {
    if s == "normal"@ {
        Some(ArgumentPurpose::Normal)
    } else if s == "sret"@ {
        Some(ArgumentPurpose::StructReturn)
    } else if s == "link"@ {
        Some(ArgumentPurpose::Link)
    } else if s == "fp"@ {
        Some(ArgumentPurpose::FramePointer)
    } else if s == "csr"@ {
        Some(ArgumentPurpose::CalleeSaved)
    } else if s == "vmctx"@ {
        Some(ArgumentPurpose::VMContext)
    } else if s == "sigid"@ {
        Some(ArgumentPurpose::SignatureId)
    } else {
        None
    }
}

impl ArgumentPurpose {
    /// The canonical token of this purpose.
    pub fn to_text(&self) -> (r: String)
        ensures
            r@ == purpose_token(*self),
    {
        let token: &str = match self {
            ArgumentPurpose::Normal => "normal",
            ArgumentPurpose::StructReturn => "sret",
            ArgumentPurpose::Link => "link",
            ArgumentPurpose::FramePointer => "fp",
            ArgumentPurpose::CalleeSaved => "csr",
            ArgumentPurpose::VMContext => "vmctx",
            ArgumentPurpose::SignatureId => "sigid",
        };
        token.to_owned()
    }

    /// Decodes a purpose token: succeeds exactly on the seven strings of
    /// the fixed table, and fails on every other string.
    pub fn from_str(s: &str) -> (r: Result<ArgumentPurpose, ()>)
        ensures
            match r {
                Ok(p) => purpose_decode(s@) == Some(p),
                Err(e) => purpose_decode(s@) is None,
            },
    {
        if str_eq(s, "normal") {
            Ok(ArgumentPurpose::Normal)
        } else if str_eq(s, "sret") {
            Ok(ArgumentPurpose::StructReturn)
        } else if str_eq(s, "link") {
            Ok(ArgumentPurpose::Link)
        } else if str_eq(s, "fp") {
            Ok(ArgumentPurpose::FramePointer)
        } else if str_eq(s, "csr") {
            Ok(ArgumentPurpose::CalleeSaved)
        } else if str_eq(s, "vmctx") {
            Ok(ArgumentPurpose::VMContext)
        } else if str_eq(s, "sigid") {
            Ok(ArgumentPurpose::SignatureId)
        } else {
            Err(())
        }
    }
}

/// Law: every purpose's token decodes back to the same purpose.
pub proof fn lemma_purpose_round_trip(p: ArgumentPurpose)
    ensures
        purpose_decode(purpose_token(p)) == Some(p),
{
    reveal_strlit("normal");
    reveal_strlit("sret");
    reveal_strlit("link");
    reveal_strlit("fp");
    reveal_strlit("csr");
    reveal_strlit("vmctx");
    reveal_strlit("sigid");
    assert("sret"@ != "normal"@) by {
        assert("sret"@.len() != "normal"@.len());
    }
    assert("link"@ != "normal"@) by {
        assert("link"@.len() != "normal"@.len());
    }
    assert("link"@ != "sret"@) by {
        assert("link"@[0] != "sret"@[0]);
    }
    assert("fp"@ != "normal"@) by {
        assert("fp"@.len() != "normal"@.len());
    }
    assert("fp"@ != "sret"@) by {
        assert("fp"@.len() != "sret"@.len());
    }
    assert("fp"@ != "link"@) by {
        assert("fp"@.len() != "link"@.len());
    }
    assert("csr"@ != "normal"@) by {
        assert("csr"@.len() != "normal"@.len());
    }
    assert("csr"@ != "sret"@) by {
        assert("csr"@.len() != "sret"@.len());
    }
    assert("csr"@ != "link"@) by {
        assert("csr"@.len() != "link"@.len());
    }
    assert("csr"@ != "fp"@) by {
        assert("csr"@.len() != "fp"@.len());
    }
    assert("vmctx"@ != "normal"@) by {
        assert("vmctx"@.len() != "normal"@.len());
    }
    assert("vmctx"@ != "sret"@) by {
        assert("vmctx"@.len() != "sret"@.len());
    }
    assert("vmctx"@ != "link"@) by {
        assert("vmctx"@.len() != "link"@.len());
    }
    assert("vmctx"@ != "fp"@) by {
        assert("vmctx"@.len() != "fp"@.len());
    }
    assert("vmctx"@ != "csr"@) by {
        assert("vmctx"@.len() != "csr"@.len());
    }
    assert("sigid"@ != "normal"@) by {
        assert("sigid"@.len() != "normal"@.len());
    }
    assert("sigid"@ != "sret"@) by {
        assert("sigid"@.len() != "sret"@.len());
    }
    assert("sigid"@ != "link"@) by {
        assert("sigid"@.len() != "link"@.len());
    }
    assert("sigid"@ != "fp"@) by {
        assert("sigid"@.len() != "fp"@.len());
    }
    assert("sigid"@ != "csr"@) by {
        assert("sigid"@.len() != "csr"@.len());
    }
    assert("sigid"@ != "vmctx"@) by {
        assert("sigid"@[0] != "vmctx"@[0]);
    }
}

/// Law: decoding succeeds only on the exact token of some purpose; any
/// string outside the fixed table is rejected.
pub proof fn lemma_purpose_decode_exact(s: Seq<char>)
    ensures
        match purpose_decode(s) {
            Some(p) => s == purpose_token(p),
            None => forall|p: ArgumentPurpose| s != #[trigger] purpose_token(p),
        },
{
    if purpose_decode(s) is None {
        assert forall|p: ArgumentPurpose| s != #[trigger] purpose_token(p) by {
            match p {
                ArgumentPurpose::Normal => assert(s != "normal"@),
                ArgumentPurpose::StructReturn => assert(s != "sret"@),
                ArgumentPurpose::Link => assert(s != "link"@),
                ArgumentPurpose::FramePointer => assert(s != "fp"@),
                ArgumentPurpose::CalleeSaved => assert(s != "csr"@),
                ArgumentPurpose::VMContext => assert(s != "vmctx"@),
                ArgumentPurpose::SignatureId => assert(s != "sigid"@),
            }
        }
    }
}

/// One function parameter or return value descriptor: the value type being
/// passed, together with the flags that affect how it is passed. Two
/// descriptors are equal exactly when all four fields are equal.
#[derive(Copy, Clone, Debug, PartialEq, Eq, Hash, Structural)]
pub struct AbiParam {
    /// The type of the argument value.
    pub value_type: ValueType,
    /// The special purpose of the argument, or `Normal`.
    pub purpose: ArgumentPurpose,
    /// How the argument is extended to a full register.
    pub extension: ArgumentExtension,
    /// The ABI-specific location of the argument, or `Unassigned` before
    /// legalization.
    pub location: ArgumentLoc,
}

/// The rendering of an extension flag after the value type: written only
/// when an extension is requested.
pub open spec fn extension_text(e: ArgumentExtension) -> Seq<char> {
    match e {
        ArgumentExtension::NoExtension => Seq::empty(),
        ArgumentExtension::Uext => " uext"@,
        ArgumentExtension::Sext => " sext"@,
    }
}

/// The rendering of one descriptor: the value type, then the extension
/// token when non-default, then the purpose token when not `Normal`, then
/// the location in brackets when assigned.
pub open spec fn param_text(p: AbiParam, names: Seq<Seq<char>>) -> Seq<char> {
    type_text(p.value_type) + extension_text(p.extension) + (if p.purpose is Normal {
        Seq::<char>::empty()
    } else {
        " "@ + purpose_token(p.purpose)
    }) + (if p.location is Unassigned {
        Seq::<char>::empty()
    } else {
        " ["@ + loc_text(p.location, names) + "]"@
    })
}

impl AbiParam {
    /// A `Normal`, unextended, unassigned descriptor for the given value
    /// type.
    pub fn new(vt: ValueType) -> (r: AbiParam)
        ensures
            r == (AbiParam {
                value_type: vt,
                purpose: ArgumentPurpose::Normal,
                extension: ArgumentExtension::NoExtension,
                location: ArgumentLoc::Unassigned,
            }),
    {
        AbiParam {
            value_type: vt,
            purpose: ArgumentPurpose::Normal,
            extension: ArgumentExtension::NoExtension,
            location: ArgumentLoc::Unassigned,
        }
    }

    /// A special-purpose descriptor that is not yet bound to a specific
    /// register.
    pub fn special(vt: ValueType, purpose: ArgumentPurpose) -> (r: AbiParam)
        ensures
            r == (AbiParam {
                value_type: vt,
                purpose,
                extension: ArgumentExtension::NoExtension,
                location: ArgumentLoc::Unassigned,
            }),
    {
        AbiParam {
            value_type: vt,
            purpose,
            extension: ArgumentExtension::NoExtension,
            location: ArgumentLoc::Unassigned,
        }
    }

    /// A special-purpose descriptor bound to a register whose physical
    /// location is fixed by the calling convention.
    pub fn special_reg(vt: ValueType, purpose: ArgumentPurpose, regunit: RegUnit) -> (r: AbiParam)
        ensures
            r == (AbiParam {
                value_type: vt,
                purpose,
                extension: ArgumentExtension::NoExtension,
                location: ArgumentLoc::Reg(regunit),
            }),
    {
        AbiParam {
            value_type: vt,
            purpose,
            extension: ArgumentExtension::NoExtension,
            location: ArgumentLoc::Reg(regunit),
        }
    }

    /// A copy of this descriptor with the `uext` flag set. Extension is
    /// meaningful only for scalar integer types, so any other value type is
    /// a programming error and is excluded here.
    pub fn uext(self) -> (r: AbiParam)
        requires
            self.value_type.is_int(),
        ensures
            r == (AbiParam { extension: ArgumentExtension::Uext, ..self }),
    {
        AbiParam { extension: ArgumentExtension::Uext, ..self }
    }

    /// A copy of this descriptor with the `sext` flag set. Extension is
    /// meaningful only for scalar integer types, so any other value type is
    /// a programming error and is excluded here.
    pub fn sext(self) -> (r: AbiParam)
        requires
            self.value_type.is_int(),
        ensures
            r == (AbiParam { extension: ArgumentExtension::Sext, ..self }),
    {
        AbiParam { extension: ArgumentExtension::Sext, ..self }
    }

    /// An object that renders `self` with correct register names.
    pub fn display<'a>(&'a self, regs: Option<&'a RegInfo>) -> (r: DisplayAbiParam<'a>)
        ensures
            r.0 == *self,
            r.1 == regs,
    {
        DisplayAbiParam(*self, regs)
    }

    /// Renders this descriptor with the generic register-name fallback.
    pub fn to_text(&self) -> (r: String)
        ensures
            r@ == param_text(*self, Seq::empty()),
    {
        self.display(None).to_text()
    }
}

/// Wrapper capable of rendering an `AbiParam` with correct register names.
pub struct DisplayAbiParam<'a>(pub AbiParam, pub Option<&'a RegInfo>);

impl<'a> DisplayAbiParam<'a> {
    /// Renders the descriptor: the value type, the extension token when
    /// non-default, the purpose token when not `Normal`, and the location
    /// in brackets when assigned.
    pub fn to_text(&self) -> (r: String)
        ensures
            r@ == param_text(self.0, reg_names_of(self.1)),
    {
        let mut s = self.0.value_type.to_text();
        match self.0.extension {
            ArgumentExtension::NoExtension => {},
            ArgumentExtension::Uext => s.append(" uext"),
            ArgumentExtension::Sext => s.append(" sext"),
        }
        if !(self.0.purpose == ArgumentPurpose::Normal) {
            s.append(" ");
            let token = self.0.purpose.to_text();
            s.append(token.as_str());
        }
        if self.0.location.is_assigned() {
            s.append(" [");
            let loc = self.0.location.to_text(self.1);
            s.append(loc.as_str());
            s.append("]");
        }
        proof {
            assert(s@ =~= param_text(self.0, reg_names_of(self.1)));
        }
        s
    }
}

/// The byte span one descriptor demands of the outgoing stack-argument
/// area: offset plus value-type byte size for a non-negative stack offset;
/// a register, an unassigned slot, or a negative stack offset demands none.
pub open spec fn stack_arg_end(p: AbiParam) -> int {
    match p.location {
        ArgumentLoc::Stack(offset) => if offset >= 0 {
            offset + type_bytes(p.value_type)
        } else {
            0
        },
        _ => 0,
    }
}

/// The stack-argument byte size of a parameter list: the maximum over all
/// parameters of the byte span each demands, and zero when none demands any.
pub open spec fn argument_bytes_spec(ps: Seq<AbiParam>) -> int
    decreases ps.len(),
{
    if ps.len() == 0 {
        0
    } else {
        let rest = argument_bytes_spec(ps.drop_last());
        if stack_arg_end(ps.last()) > rest {
            stack_arg_end(ps.last())
        } else {
            rest
        }
    }
}

/// Law: the stack-argument byte size is exactly the maximum demanded span:
/// it is non-negative, no parameter demands more, and unless it is zero it
/// is demanded by some parameter.
pub proof fn lemma_argument_bytes_is_max(ps: Seq<AbiParam>)
    ensures
        0 <= argument_bytes_spec(ps),
        forall|i: int|
            0 <= i < ps.len() ==> #[trigger] stack_arg_end(ps[i]) <= argument_bytes_spec(ps),
        argument_bytes_spec(ps) == 0 || exists|i: int|
            0 <= i < ps.len() && #[trigger] stack_arg_end(ps[i]) == argument_bytes_spec(ps),
    decreases ps.len(),
{
    if ps.len() > 0 {
        lemma_argument_bytes_is_max(ps.drop_last());
        assert(forall|i: int| 0 <= i < ps.len() - 1 ==> ps.drop_last()[i] == ps[i]);
        let rest = argument_bytes_spec(ps.drop_last());
        if argument_bytes_spec(ps) != 0 {
            if stack_arg_end(ps.last()) > rest {
                assert(stack_arg_end(ps[ps.len() - 1]) == argument_bytes_spec(ps));
            } else {
                let i = choose|i: int|
                    0 <= i < ps.drop_last().len() && #[trigger] stack_arg_end(ps.drop_last()[i])
                        == rest;
                assert(stack_arg_end(ps[i]) == argument_bytes_spec(ps));
            }
        }
    }
}

/// Law: the stack-argument byte size does not depend on the order in which
/// the parameters are listed; any two lists with the same descriptors give
/// the same size.
pub proof fn lemma_argument_bytes_order_independent(ps1: Seq<AbiParam>, ps2: Seq<AbiParam>)
    requires
        ps1.to_multiset() == ps2.to_multiset(),
    ensures
        argument_bytes_spec(ps1) == argument_bytes_spec(ps2),
{
    broadcast use vstd::seq_lib::group_to_multiset_ensures;

    lemma_argument_bytes_is_max(ps1);
    lemma_argument_bytes_is_max(ps2);
    if argument_bytes_spec(ps1) != 0 {
        let i = choose|i: int|
            0 <= i < ps1.len() && #[trigger] stack_arg_end(ps1[i]) == argument_bytes_spec(ps1);
        assert(ps1.contains(ps1[i]));
        assert(ps1.to_multiset().count(ps1[i]) > 0);
        assert(ps2.to_multiset().count(ps1[i]) > 0);
        assert(ps2.contains(ps1[i]));
        let j = choose|j: int| 0 <= j < ps2.len() && ps2[j] == ps1[i];
        assert(stack_arg_end(ps2[j]) <= argument_bytes_spec(ps2));
    }
    if argument_bytes_spec(ps2) != 0 {
        let i = choose|i: int|
            0 <= i < ps2.len() && #[trigger] stack_arg_end(ps2[i]) == argument_bytes_spec(ps2);
        assert(ps2.contains(ps2[i]));
        assert(ps2.to_multiset().count(ps2[i]) > 0);
        assert(ps1.to_multiset().count(ps2[i]) > 0);
        assert(ps1.contains(ps2[i]));
        let j = choose|j: int| 0 <= j < ps1.len() && ps1[j] == ps2[i];
        assert(stack_arg_end(ps1[j]) <= argument_bytes_spec(ps1));
    }
}

/// Law: a parameter at a negative stack offset contributes nothing to the
/// stack-argument byte size; removing it leaves the size unchanged.
pub proof fn lemma_negative_offset_excluded(ps: Seq<AbiParam>, i: int)
    requires
        0 <= i < ps.len(),
        ps[i].location matches ArgumentLoc::Stack(offset) && offset < 0,
    ensures
        argument_bytes_spec(ps) == argument_bytes_spec(ps.remove(i)),
    decreases ps.len(),
{
    lemma_argument_bytes_is_max(ps.drop_last());
    if i == ps.len() - 1 {
        assert(ps.remove(i) =~= ps.drop_last());
        assert(stack_arg_end(ps.last()) == 0);
    } else {
        lemma_negative_offset_excluded(ps.drop_last(), i);
        assert(ps.remove(i).drop_last() =~= ps.drop_last().remove(i));
        assert(ps.remove(i).last() == ps.last());
    }
}

/// A function signature: the types of the formal parameters and return
/// values, with the details needed to call the function correctly. A
/// signature may include ISA-specific ABI information once it has been
/// legalized.
#[derive(Clone, Debug, PartialEq, Eq, Hash)]
pub struct Signature {
    /// The arguments passed to the function, in positional calling order.
    pub params: Vec<AbiParam>,
    /// The values returned from the function, in positional order.
    pub returns: Vec<AbiParam>,
    /// The calling convention.
    pub call_conv: CallConv,
    /// Once the signature has been legalized to a specific ISA, the byte
    /// size of the argument array on the stack; before legalization,
    /// `None`. Holding `Some`, even `Some(0)`, marks the signature as
    /// legalized.
    pub argument_bytes: Option<u32>,
}

/// The rendering of a comma-separated descriptor list.
pub open spec fn params_text(ps: Seq<AbiParam>, names: Seq<Seq<char>>) -> Seq<char>
    decreases ps.len(),
{
    if ps.len() == 0 {
        Seq::empty()
    } else if ps.len() == 1 {
        param_text(ps[0], names)
    } else {
        params_text(ps.drop_last(), names) + ", "@ + param_text(ps.last(), names)
    }
}

/// The rendering of a whole signature: the parameter list in parentheses,
/// an arrow and the return list only when there are returns, then the
/// calling-convention token.
pub open spec fn signature_text(s: Signature, names: Seq<Seq<char>>) -> Seq<char> {
    "("@ + params_text(s.params@, names) + ")"@ + (if s.returns@.len() == 0 {
        Seq::<char>::empty()
    } else {
        " -> "@ + params_text(s.returns@, names)
    }) + " "@ + call_conv_token(s.call_conv)
}

/// Renders a comma-separated descriptor list.
fn write_list(args: &Vec<AbiParam>, regs: Option<&RegInfo>) -> (r: String)
    ensures
        r@ == params_text(args@, reg_names_of(regs)),
{
    let mut s = String::new();
    let mut i: usize = 0;
    let n = args.len();
    while i < n
        invariant
            i <= n,
            n == args@.len(),
            s@ == params_text(args@.take(i as int), reg_names_of(regs)),
        decreases n - i,
    {
        if i > 0 {
            s.append(", ");
        }
        let t = DisplayAbiParam(args[i], regs).to_text();
        s.append(t.as_str());
        proof {
            assert(args@.take(i as int + 1).drop_last() =~= args@.take(i as int));
            assert(args@.take(i as int + 1).last() == args@[i as int]);
            assert(args@.take(i as int + 1)[0] == args@[0]);
            assert(s@ =~= params_text(args@.take(i as int + 1), reg_names_of(regs)));
        }
        i += 1;
    }
    proof {
        assert(args@.take(n as int) =~= args@);
    }
    s
}

impl Signature {
    /// A new blank signature for the given calling convention: no
    /// parameters, no returns, not legalized.
    pub fn new(call_conv: CallConv) -> (r: Signature)
        ensures
            r.params@ == Seq::<AbiParam>::empty(),
            r.returns@ == Seq::<AbiParam>::empty(),
            r.call_conv == call_conv,
            r.argument_bytes is None,
    {
        Signature { params: Vec::new(), returns: Vec::new(), call_conv, argument_bytes: None }
    }

    /// Clears the signature so it is identical to a fresh one returned by
    /// `new` for the given calling convention.
    pub fn clear(&mut self, call_conv: CallConv)
        ensures
            final(self).params@ == Seq::<AbiParam>::empty(),
            final(self).returns@ == Seq::<AbiParam>::empty(),
            final(self).call_conv == call_conv,
            final(self).argument_bytes is None,
    {
        self.params.clear();
        self.returns.clear();
        self.call_conv = call_conv;
        self.argument_bytes = None;
    }

    /// Computes the byte size of the stack arguments and marks the
    /// signature as legalized: scans the parameters only, takes the
    /// maximum of offset plus byte size over those at non-negative stack
    /// offsets, and records it — `Some(0)` when no parameter is on the
    /// stack. The result is a function of the parameter list alone, so
    /// recomputing after no further location changes yields the same value.
    pub fn compute_argument_bytes(&mut self)
        ensures
            final(self).params == old(self).params,
            final(self).returns == old(self).returns,
            final(self).call_conv == old(self).call_conv,
            final(self).argument_bytes matches Some(b) && b as int == argument_bytes_spec(
                old(self).params@,
            ),
    {
        let n = self.params.len();
        let mut bytes: u32 = 0;
        let mut i: usize = 0;
        while i < n
            invariant
                i <= n,
                n == self.params@.len(),
                self.params == old(self).params,
                bytes as int == argument_bytes_spec(self.params@.take(i as int)),
            decreases n - i,
        {
            let p = self.params[i];
            match p.location {
                ArgumentLoc::Stack(offset) => {
                    if offset >= 0 {
                        let end = (offset as u32) + p.value_type.bytes();
                        if end > bytes {
                            bytes = end;
                        }
                    }
                },
                _ => {},
            }
            proof {
                assert(self.params@.take(i as int + 1).drop_last() =~= self.params@.take(i as int));
                assert(self.params@.take(i as int + 1).last() == self.params@[i as int]);
            }
            i += 1;
        }
        proof {
            assert(self.params@.take(n as int) =~= self.params@);
        }
        self.argument_bytes = Some(bytes);
    }

    /// The position of the last parameter carrying the given purpose, or
    /// `None` when no parameter does. At most one parameter should carry a
    /// given special purpose, but the data model does not enforce that;
    /// the last match wins deliberately, so callers that rely on "the"
    /// special parameter must keep it unique by construction.
    pub fn special_param_index(&self, purpose: ArgumentPurpose) -> (r: Option<usize>)
        ensures
            match r {
                Some(i) => i < self.params@.len() && self.params@[i as int].purpose == purpose
                    && forall|j: int|
                    i < j < self.params@.len() ==> (#[trigger] self.params@[j]).purpose != purpose,
                None => forall|j: int|
                    0 <= j < self.params@.len() ==> (#[trigger] self.params@[j]).purpose
                        != purpose,
            },
    {
        let mut i = self.params.len();
        while i > 0
            invariant
                i <= self.params@.len(),
                forall|j: int|
                    i <= j < self.params@.len() ==> (#[trigger] self.params@[j]).purpose
                        != purpose,
            decreases i,
        {
            i -= 1;
            if self.params[i].purpose == purpose {
                return Some(i);
            }
        }
        None
    }

    /// An object that renders `self` with correct register names.
    pub fn display<'a>(&'a self, regs: Option<&'a RegInfo>) -> (r: DisplaySignature<'a>)
        ensures
            r.0 == self,
            r.1 == regs,
    {
        DisplaySignature(self, regs)
    }

    /// Renders this signature with the generic register-name fallback.
    pub fn to_text(&self) -> (r: String)
        ensures
            r@ == signature_text(*self, Seq::empty()),
    {
        self.display(None).to_text()
    }
}

/// Wrapper capable of rendering a `Signature` with correct register names.
pub struct DisplaySignature<'a>(pub &'a Signature, pub Option<&'a RegInfo>);

impl<'a> DisplaySignature<'a> {
    /// Renders the signature: the parameter list in parentheses, an arrow
    /// and the return list only when there are returns, then the
    /// calling-convention token.
    pub fn to_text(&self) -> (r: String)
        ensures
            r@ == signature_text(*self.0, reg_names_of(self.1)),
    {
        let mut s = "(".to_owned();
        let plist = write_list(&self.0.params, self.1);
        s.append(plist.as_str());
        s.append(")");
        if self.0.returns.len() > 0 {
            s.append(" -> ");
            let rlist = write_list(&self.0.returns, self.1);
            s.append(rlist.as_str());
        }
        s.append(" ");
        let cc = self.0.call_conv.to_text();
        s.append(cc.as_str());
        proof {
            assert(s@ =~= signature_text(*self.0, reg_names_of(self.1)));
        }
        s
    }
}

/// An external function: a function that can be called directly with a
/// `call` instruction once declared in the preamble.
#[derive(Clone, Debug)]
pub struct ExtFuncData {
    /// The name of the external function.
    pub name: ExternalName,
    /// The call signature of the function.
    pub signature: SigRef,
    /// Whether the function is known to end up at link-stable proximity to
    /// its caller, so call-site code may skip indirection through a global
    /// offset or procedure-linkage table. A symbol meant to be preemptible
    /// must not be marked colocated; that is enforced by the producer of
    /// this value, not checked here.
    pub colocated: bool,
}

/// The rendering of an external-function reference: a `colocated ` prefix
/// only when the flag is set, then the name and the signature reference.
pub open spec fn ext_func_text(d: ExtFuncData) -> Seq<char> {
    (if d.colocated {
        "colocated "@
    } else {
        Seq::<char>::empty()
    }) + external_name_text(d.name) + " "@ + sig_ref_text(d.signature)
}

impl ExtFuncData {
    /// Renders this reference: the `colocated ` prefix appears only when
    /// the flag is set, with no trailing space or empty token otherwise.
    pub fn to_text(&self) -> (r: String)
        ensures
            r@ == ext_func_text(*self),
    {
        let mut s = if self.colocated {
            "colocated ".to_owned()
        } else {
            String::new()
        };
        let name = self.name.to_text();
        s.append(name.as_str());
        s.append(" ");
        let sig = self.signature.to_text();
        s.append(sig.as_str());
        proof {
            assert(s@ =~= ext_func_text(*self));
        }
        s
    }
}

} // verus!
