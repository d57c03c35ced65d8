//! ABI contract model for a retargetable compiler backend.
//!
//! This crate describes how values cross a function boundary: which value
//! types are passed, in what order, with what sign- or zero-extension, under
//! which calling convention, and — once the backend has legalized a
//! signature — in which concrete register or stack slot. Every operation is
//! specified by a contract and verified.

pub mod abi;
pub mod callconv;
pub mod entities;
pub mod loc;
pub mod text;
pub mod types;

pub use crate::abi::AbiParam;
pub use crate::abi::ArgumentExtension;
pub use crate::abi::ArgumentPurpose;
pub use crate::abi::DisplayAbiParam;
pub use crate::abi::DisplaySignature;
pub use crate::abi::ExtFuncData;
pub use crate::abi::Signature;
pub use crate::callconv::CallConv;
pub use crate::entities::ExternalName;
pub use crate::entities::SigRef;
pub use crate::loc::ArgumentLoc;
pub use crate::loc::RegInfo;
pub use crate::loc::RegUnit;
pub use crate::types::LaneCount;
pub use crate::types::LaneType;
pub use crate::types::ValueType;

