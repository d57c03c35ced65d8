use extfunc::AbiParam;
use extfunc::ArgumentLoc;
use extfunc::ArgumentPurpose;
use extfunc::CallConv;
use extfunc::ExtFuncData;
use extfunc::ExternalName;
use extfunc::LaneCount;
use extfunc::LaneType;
use extfunc::RegInfo;
use extfunc::SigRef;
use extfunc::Signature;
use extfunc::ValueType;

#[test]
fn purpose_rejects_unknown_tokens() {
    for s in &["", "sri", "Normal", "SRET", "vmctx ", " sret", "fpx", "colocated"] {
        assert_eq!(Err(()), ArgumentPurpose::from_str(s));
    }
}

#[test]
fn call_conv_rejects_unknown_tokens() {
    for s in &["", "fastest", "system-v", "SystemV", "baldrdash ", "cc"] {
        assert_eq!(Err(()), CallConv::from_str(s));
    }
}

#[test]
fn call_conv_tokens() {
    assert_eq!(CallConv::Fast.to_text(), "fast");
    assert_eq!(CallConv::Cold.to_text(), "cold");
    assert_eq!(CallConv::SystemV.to_text(), "system_v");
    assert_eq!(CallConv::Fastcall.to_text(), "fastcall");
    assert_eq!(CallConv::Baldrdash.to_text(), "baldrdash");
    assert_eq!(Ok(ArgumentPurpose::SignatureId), ArgumentPurpose::from_str("sigid"));
    assert_eq!("sigid", ArgumentPurpose::SignatureId.to_text());
}

#[test]
fn value_type_queries() {
    let i32t = ValueType::scalar(LaneType::I32);
    assert_eq!(i32t.bytes(), 4);
    assert!(i32t.is_int());
    let f32t = ValueType::scalar(LaneType::F32);
    assert_eq!(f32t.bytes(), 4);
    assert!(!f32t.is_int());
    let b1t = ValueType::scalar(LaneType::B1);
    assert_eq!(b1t.bytes(), 1);
    let v = i32t.by_lanes(4).unwrap();
    assert_eq!(v.bytes(), 16);
    assert!(!v.is_int());
    assert_eq!(v.to_text(), "i32x4");
    assert_eq!(v.lanes, LaneCount::X4);
    // Lane counts that are not powers of two, or too large, are refused.
    assert_eq!(None, i32t.by_lanes(3));
    assert_eq!(None, i32t.by_lanes(0));
    assert_eq!(None, i32t.by_lanes(512));
    assert_eq!(None, v.by_lanes(128));
    // Multiplying an existing vector is allowed while in range.
    assert_eq!(v.by_lanes(2).unwrap().to_text(), "i32x8");
}

#[test]
fn special_parameters() {
    let i64t = ValueType::scalar(LaneType::I64);
    let p = AbiParam::special(i64t, ArgumentPurpose::VMContext);
    assert_eq!(p.to_text(), "i64 vmctx");
    assert_eq!(p.location, ArgumentLoc::Unassigned);
    let r = AbiParam::special_reg(i64t, ArgumentPurpose::FramePointer, 5);
    assert_eq!(r.location, ArgumentLoc::Reg(5));
    assert_eq!(r.to_text(), "i64 fp [%5]");
}

#[test]
fn register_names() {
    let regs = RegInfo::new(vec![
        "%rax".to_string(),
        "%rcx".to_string(),
        "%rdx".to_string(),
    ]);
    let i64t = ValueType::scalar(LaneType::I64);
    let p = AbiParam::special_reg(i64t, ArgumentPurpose::Link, 1);
    assert_eq!(p.display(Some(&regs)).to_text(), "i64 link [%rcx]");
    // A unit outside the table falls back to the generic rendering.
    let q = AbiParam::special_reg(i64t, ArgumentPurpose::Link, 17);
    assert_eq!(q.display(Some(&regs)).to_text(), "i64 link [%17]");
}

#[test]
fn negative_offsets_are_excluded() {
    let i32t = ValueType::scalar(LaneType::I32);
    let mut sig = Signature::new(CallConv::SystemV);
    let mut below = AbiParam::new(i32t);
    below.location = ArgumentLoc::Stack(-4);
    sig.params.push(below);
    sig.compute_argument_bytes();
    assert_eq!(sig.argument_bytes, Some(0));
    // A negative offset does not contribute even when numerically larger.
    let mut above = AbiParam::new(i32t);
    above.location = ArgumentLoc::Stack(4);
    sig.params.push(above);
    let mut big_below = AbiParam::new(i32t.by_lanes(16).unwrap());
    big_below.location = ArgumentLoc::Stack(-4);
    sig.params.push(big_below);
    sig.compute_argument_bytes();
    assert_eq!(sig.argument_bytes, Some(8));
    // The negative offset still renders.
    assert_eq!(
        sig.to_text(),
        "(i32 [-4], i32 [4], i32x16 [-4]) system_v"
    );
}

#[test]
fn compute_is_idempotent() {
    let i32t = ValueType::scalar(LaneType::I32);
    let mut sig = Signature::new(CallConv::Fast);
    let mut p = AbiParam::new(i32t);
    p.location = ArgumentLoc::Stack(12);
    sig.params.push(p);
    sig.compute_argument_bytes();
    assert_eq!(sig.argument_bytes, Some(16));
    sig.compute_argument_bytes();
    assert_eq!(sig.argument_bytes, Some(16));
}

#[test]
fn last_vmctx_wins() {
    let i64t = ValueType::scalar(LaneType::I64);
    let mut sig = Signature::new(CallConv::Fast);
    sig.params.push(AbiParam::special(i64t, ArgumentPurpose::VMContext));
    sig.params.push(AbiParam::new(i64t));
    sig.params.push(AbiParam::special(i64t, ArgumentPurpose::VMContext));
    assert_eq!(sig.special_param_index(ArgumentPurpose::VMContext), Some(2));
    assert_eq!(sig.special_param_index(ArgumentPurpose::Link), None);
    assert_eq!(sig.special_param_index(ArgumentPurpose::Normal), Some(1));
}

#[test]
fn clear_resets_to_blank() {
    let i32t = ValueType::scalar(LaneType::I32);
    let mut sig = Signature::new(CallConv::Fast);
    sig.params.push(AbiParam::new(i32t));
    sig.returns.push(AbiParam::new(i32t));
    sig.compute_argument_bytes();
    sig.clear(CallConv::Cold);
    assert_eq!(sig, Signature::new(CallConv::Cold));
    assert_eq!(sig.to_text(), "() cold");
}

#[test]
fn colocated_rendering() {
    let data = ExtFuncData {
        name: ExternalName::new("callee".to_string()),
        signature: SigRef::new(0),
        colocated: true,
    };
    assert_eq!(data.to_text(), "colocated %callee sig0");
    let far = ExtFuncData {
        name: ExternalName::new("callee".to_string()),
        signature: SigRef::new(13),
        colocated: false,
    };
    assert_eq!(far.to_text(), "%callee sig13");
}

#[test]
fn location_rendering() {
    assert_eq!(ArgumentLoc::Unassigned.to_text(None), "-");
    assert_eq!(ArgumentLoc::Reg(0).to_text(None), "%0");
    assert_eq!(ArgumentLoc::Stack(24).to_text(None), "24");
    assert_eq!(ArgumentLoc::Stack(-7).to_text(None), "-7");
    assert_eq!(ArgumentLoc::Stack(0).to_text(None), "0");
    let regs = RegInfo::new(vec!["%r0".to_string()]);
    assert_eq!(ArgumentLoc::Reg(0).to_text(Some(&regs)), "%r0");
    assert_eq!(ArgumentLoc::Reg(300).to_text(Some(&regs)), "%300");
    assert_eq!(regs.regunit_name(0), "%r0");
    assert!(ArgumentLoc::Reg(0).is_assigned());
    assert!(ArgumentLoc::Stack(-1).is_assigned());
    assert!(!ArgumentLoc::Unassigned.is_assigned());
}

#[test]
fn signature_display_with_registers() {
    let i64t = ValueType::scalar(LaneType::I64);
    let regs = RegInfo::new(vec!["%rax".to_string(), "%rcx".to_string()]);
    let mut sig = Signature::new(CallConv::SystemV);
    sig.params.push(AbiParam::special_reg(i64t, ArgumentPurpose::VMContext, 0));
    sig.returns.push(AbiParam::special_reg(i64t, ArgumentPurpose::Link, 1));
    assert_eq!(
        sig.display(Some(&regs)).to_text(),
        "(i64 vmctx [%rax]) -> i64 link [%rcx] system_v"
    );
    assert_eq!(sig.to_text(), "(i64 vmctx [%0]) -> i64 link [%1] system_v");
}
