//! Calling conventions and their token codec.
//!
//! A calling convention is the agreed protocol between caller and callee for
//! a given target ABI. The model only carries it as a tag; what matters here
//! is its textual token, which must round-trip exactly for the textual IR.

use crate::text::str_eq;
use vstd::prelude::*;

verus! {

/// A supported calling convention.
#[derive(Copy, Clone, Debug, PartialEq, Eq, Hash, Structural)]
pub enum CallConv {
    /// Best performance, not ABI-stable.
    Fast,
    /// Smallest caller code size, not ABI-stable.
    Cold,
    /// The System V AMD64 ABI.
    SystemV,
    /// The Windows "fastcall" convention, also used for x64 and ARM.
    Fastcall,
    /// The SpiderMonkey WebAssembly convention.
    Baldrdash,
}

/// The canonical token of a calling convention.
pub open spec fn call_conv_token(cc: CallConv) -> Seq<char> {
    match cc {
        CallConv::Fast => "fast"@,
        CallConv::Cold => "cold"@,
        CallConv::SystemV => "system_v"@,
        CallConv::Fastcall => "fastcall"@,
        CallConv::Baldrdash => "baldrdash"@,
    }
}

/// The calling convention a token stands for: exact match against the fixed
/// table, or `None` for any other string.
pub open spec fn call_conv_decode(s: Seq<char>) -> Option<CallConv> {
    if s == "fast"@ {
        Some(CallConv::Fast)
    } else if s == "cold"@ {
        Some(CallConv::Cold)
    } else if s == "system_v"@ {
        Some(CallConv::SystemV)
    } else if s == "fastcall"@ {
        Some(CallConv::Fastcall)
    } else if s == "baldrdash"@ {
        Some(CallConv::Baldrdash)
    } else {
        None
    }
}

impl CallConv {
    /// The canonical token of this calling convention.
    pub fn to_text(&self) -> (r: String)
        ensures
            r@ == call_conv_token(*self),
    {
        let token: &str = match self {
            CallConv::Fast => "fast",
            CallConv::Cold => "cold",
            CallConv::SystemV => "system_v",
            CallConv::Fastcall => "fastcall",
            CallConv::Baldrdash => "baldrdash",
        };
        token.to_owned()
    }

    /// Decodes a calling-convention token: succeeds exactly on the five
    /// strings of the fixed table, and fails on every other string.
    pub fn from_str(s: &str) -> (r: Result<CallConv, ()>)
        ensures
            match r {
                Ok(cc) => call_conv_decode(s@) == Some(cc),
                Err(e) => call_conv_decode(s@) is None,
            },
    {
        if str_eq(s, "fast") {
            Ok(CallConv::Fast)
        } else if str_eq(s, "cold") {
            Ok(CallConv::Cold)
        } else if str_eq(s, "system_v") {
            Ok(CallConv::SystemV)
        } else if str_eq(s, "fastcall") {
            Ok(CallConv::Fastcall)
        } else if str_eq(s, "baldrdash") {
            Ok(CallConv::Baldrdash)
        } else {
            Err(())
        }
    }
}

/// Law: every calling convention's token decodes back to the same
/// convention.
pub proof fn lemma_call_conv_round_trip(cc: CallConv)
    ensures
        call_conv_decode(call_conv_token(cc)) == Some(cc),
{
    reveal_strlit("fast");
    reveal_strlit("cold");
    reveal_strlit("system_v");
    reveal_strlit("fastcall");
    reveal_strlit("baldrdash");
    assert("cold"@ != "fast"@) by {
        assert("cold"@[0] != "fast"@[0]);
    }
    assert("fastcall"@ != "fast"@) by {
        assert("fastcall"@.len() != "fast"@.len());
    }
    assert("fastcall"@ != "cold"@) by {
        assert("fastcall"@.len() != "cold"@.len());
    }
    assert("fastcall"@ != "system_v"@) by {
        assert("fastcall"@[0] != "system_v"@[0]);
    }
    assert("system_v"@ != "fast"@) by {
        assert("system_v"@.len() != "fast"@.len());
    }
    assert("system_v"@ != "cold"@) by {
        assert("system_v"@.len() != "cold"@.len());
    }
    assert("baldrdash"@ != "fast"@) by {
        assert("baldrdash"@.len() != "fast"@.len());
    }
    assert("baldrdash"@ != "cold"@) by {
        assert("baldrdash"@.len() != "cold"@.len());
    }
    assert("baldrdash"@ != "system_v"@) by {
        assert("baldrdash"@.len() != "system_v"@.len());
    }
    assert("baldrdash"@ != "fastcall"@) by {
        assert("baldrdash"@.len() != "fastcall"@.len());
    }
}

/// Law: decoding succeeds only on the exact token of some calling
/// convention; any string outside the fixed table is rejected.
pub proof fn lemma_call_conv_decode_exact(s: Seq<char>)
    ensures
        match call_conv_decode(s) {
            Some(cc) => s == call_conv_token(cc),
            None => forall|cc: CallConv| s != #[trigger] call_conv_token(cc),
        },
{
    if call_conv_decode(s) is None {
        assert forall|cc: CallConv| s != #[trigger] call_conv_token(cc) by {
            match cc {
                CallConv::Fast => assert(s != "fast"@),
                CallConv::Cold => assert(s != "cold"@),
                CallConv::SystemV => assert(s != "system_v"@),
                CallConv::Fastcall => assert(s != "fastcall"@),
                CallConv::Baldrdash => assert(s != "baldrdash"@),
            }
        }
    }
}

} // verus!
