use extfunc::AbiParam;
use extfunc::ArgumentLoc;
use extfunc::ArgumentPurpose;
use extfunc::CallConv;
use extfunc::LaneType;
use extfunc::Signature;
use extfunc::ValueType;

#[test]
fn argument_type() {
    let t = AbiParam::new(ValueType::scalar(LaneType::I32));
    assert_eq!(t.to_text(), "i32");
    let mut t = t.uext();
    assert_eq!(t.to_text(), "i32 uext");
    assert_eq!(t.sext().to_text(), "i32 sext");
    t.purpose = ArgumentPurpose::StructReturn;
    assert_eq!(t.to_text(), "i32 uext sret");
}

#[test]
fn argument_purpose() {
    let all_purpose = [
        ArgumentPurpose::Normal,
        ArgumentPurpose::StructReturn,
        ArgumentPurpose::Link,
        ArgumentPurpose::FramePointer,
        ArgumentPurpose::CalleeSaved,
        ArgumentPurpose::VMContext,
    ];
    let names = ["normal", "sret", "link", "fp", "csr", "vmctx"];
    for (&e, &n) in all_purpose.iter().zip(names.iter()) {
        assert_eq!(e.to_text(), n);
        assert_eq!(Ok(e), ArgumentPurpose::from_str(n));
    }
}

#[test]
fn call_conv() {
    for &cc in &[
        CallConv::Fast,
        CallConv::Cold,
        CallConv::SystemV,
        CallConv::Fastcall,
        CallConv::Baldrdash,
    ] {
        assert_eq!(Ok(cc), CallConv::from_str(cc.to_text().as_str()))
    }
}

#[test]
fn signatures() {
    let i32t = ValueType::scalar(LaneType::I32);
    let f32t = ValueType::scalar(LaneType::F32);
    let b8t = ValueType::scalar(LaneType::B8);
    let mut sig = Signature::new(CallConv::Baldrdash);
    assert_eq!(sig.to_text(), "() baldrdash");
    sig.params.push(AbiParam::new(i32t));
    assert_eq!(sig.to_text(), "(i32) baldrdash");
    sig.returns.push(AbiParam::new(f32t));
    assert_eq!(sig.to_text(), "(i32) -> f32 baldrdash");
    sig.params.push(AbiParam::new(i32t.by_lanes(4).unwrap()));
    assert_eq!(sig.to_text(), "(i32, i32x4) -> f32 baldrdash");
    sig.returns.push(AbiParam::new(b8t));
    assert_eq!(sig.to_text(), "(i32, i32x4) -> f32, b8 baldrdash");

    // Test the offset computation algorithm.
    assert_eq!(sig.argument_bytes, None);
    sig.params[1].location = ArgumentLoc::Stack(8);
    sig.compute_argument_bytes();
    // An `i32x4` at offset 8 requires a 24-byte argument array.
    assert_eq!(sig.argument_bytes, Some(24));
    // Order does not matter.
    sig.params[0].location = ArgumentLoc::Stack(24);
    sig.compute_argument_bytes();
    assert_eq!(sig.argument_bytes, Some(28));

    // Writing ABI-annotated signatures.
    assert_eq!(sig.to_text(), "(i32 [24], i32x4 [8]) -> f32, b8 baldrdash");
}
