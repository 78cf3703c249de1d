//! Unit tests of the leaves: tagged values, width conversions, the decoder,
//! segment classification, loading, and the catalog conversions.

use rush_core::alu::{checked_add, checked_sub};
use rush_core::bits::{extend_sign_8, extend_sign_16, truncate_8, truncate_16, word_of_bytes,
    bytes_of_word, i32_to_u32, u32_to_i32};
use rush_core::catalog::{ArgumentType, CompileYaml, InstructionType, InstructionYaml,
    ReadsRegisterType, RuntimeYaml};
use rush_core::constant::{MpConst, MpConstValue, MpConstValueLoc, Position};
use rush_core::decode::decode;
use rush_core::error::{Error, RushError, RuntimeError};
use rush_core::layout::{GlobalRange, MemoryLayout, StackRange, TextRange};
use rush_core::register::Register;
use rush_core::runtime::{Binary, Runtime, PRINTF_ADDR};
use rush_core::safe::{Safe, TruncImm};
use rush_core::segment::{get_segment, Segment, DATA_BOT, GLOBAL_BOT, KDATA_BOT, KTEXT_BOT,
    STACK_BOT, STACK_TOP, TEXT_BOT, TEXT_TOP};
use rush_core::signature::{RuntimeSignature, SigArgumentType, SigReadsRegisterType};

fn layout() -> MemoryLayout {
    MemoryLayout {
        text: TextRange { start: 0x0040_0000, end: 0x004F_FFFF },
        data_bot: 0x1001_0000,
        global: GlobalRange { bot: 0x1000_0000, ptr: 0x1000_8000 },
        stack: StackRange { bot: 0x7FF0_0000, top: 0x7FFF_F000 },
    }
}

#[test]
fn safe_projections() {
    let v: Safe<i32> = Safe::valid(7);
    assert_eq!(v.as_option(), Some(&7));
    assert_eq!(v.into_option(), Some(7));
    let u: Safe<i32> = Safe::Uninitialised;
    assert_eq!(u.as_option(), None);
    assert_eq!(u.into_option(), None);
    let d: Safe<i32> = Default::default();
    assert_eq!(d, Safe::Uninitialised);
    assert_eq!(Safe::Valid(1), Safe::Valid(1));
    assert_ne!(Safe::Valid(1), Safe::Valid(2));
    assert_ne!(Safe::Valid(1), Safe::Uninitialised);
}

#[test]
fn safe_width_conversions_preserve_tag() {
    assert_eq!(Safe::Valid(0xFFu8).extend_sign(), Safe::Valid(-1));
    assert_eq!(Safe::Valid(0xFFu8).extend_zero(), Safe::Valid(0xFF));
    assert_eq!(Safe::<u8>::Uninitialised.extend_sign(), Safe::Uninitialised);
    assert_eq!(Safe::Valid(0x8000u16).extend_sign(), Safe::Valid(-32768));
    assert_eq!(Safe::Valid(0x8000u16).extend_zero(), Safe::Valid(0x8000));
    assert_eq!(Safe::Valid(0xFFFF_FFFFu32).extend_sign(), Safe::Valid(-1));
    assert_eq!(Safe::Valid(0x1FFi32).truncate_byte(), Safe::Valid(0xFFu8));
    assert_eq!(Safe::Valid(-1i32).truncate_half(), Safe::Valid(0xFFFFu16));
    assert_eq!(Safe::Valid(-1i32).truncate_word(), Safe::Valid(0xFFFF_FFFFu32));
    assert_eq!(Safe::<i32>::Uninitialised.truncate_byte(), Safe::Uninitialised);
}

#[test]
fn trunc_imm_sign_extends_low_halfword() {
    assert_eq!((0x1234_8765i32).trunc_imm(), 0xFFFF_8765u32 as i32);
    assert_eq!((0x1234_0765i32).trunc_imm(), 0x0765);
    assert_eq!((0x1234_8765u32).trunc_imm(), 0xFFFF_8765u32);
    assert_eq!((0x1234_0765u32).trunc_imm(), 0x0765u32);
}

#[test]
fn width_helpers() {
    assert_eq!(extend_sign_8(0x80), -128);
    assert_eq!(extend_sign_8(0x7F), 127);
    assert_eq!(extend_sign_16(0xFFFF), -1);
    assert_eq!(truncate_8(-1), 0xFF);
    assert_eq!(truncate_16(0x12345), 0x2345);
    assert_eq!(i32_to_u32(-1), 0xFFFF_FFFF);
    assert_eq!(u32_to_i32(0x8000_0000), i32::MIN);
    assert_eq!(word_of_bytes(0x78, 0x56, 0x34, 0x12), 0x1234_5678);
    assert_eq!(bytes_of_word(0x1234_5678), (0x78, 0x56, 0x34, 0x12));
}

#[test]
fn checked_arithmetic_reports_overflow() {
    assert_eq!(checked_add(1, 2), Ok(3));
    assert_eq!(
        checked_add(i32::MAX, 1),
        Err(RushError::Runtime(RuntimeError::new(Error::IntegerOverflow)))
    );
    assert_eq!(checked_sub(1, 2), Ok(-1));
    assert_eq!(
        checked_sub(i32::MIN, 1),
        Err(RushError::Runtime(RuntimeError::new(Error::IntegerOverflow)))
    );
}

#[test]
fn decoder_splits_fields() {
    // ADD $t2,$t0,$t1 : opcode 0, rs 8, rt 9, rd 10, shamt 0, funct 0x20.
    let d = decode((8 << 21) | (9 << 16) | (10 << 11) | 0x20);
    assert_eq!(d.opcode, 0);
    assert_eq!(d.rs, 8);
    assert_eq!(d.rt, 9);
    assert_eq!(d.rd, 10);
    assert_eq!(d.shamt, 0);
    assert_eq!(d.funct, 0x20);
    // An I-type immediate and a J-type target.
    let d = decode((0x09 << 26) | (3 << 21) | (4 << 16) | 0x8001);
    assert_eq!(d.opcode, 0x09);
    assert_eq!(d.imm, 0x8001);
    let d = decode((0x02 << 26) | 0x03FF_FFFF);
    assert_eq!(d.jaddr, 0x03FF_FFFF);
}

#[test]
fn default_address_space_classification() {
    assert_eq!(get_segment(0), Segment::Unmapped);
    assert_eq!(get_segment(TEXT_BOT), Segment::Text);
    assert_eq!(get_segment(TEXT_TOP), Segment::Text);
    assert_eq!(get_segment(GLOBAL_BOT), Segment::Data);
    assert_eq!(get_segment(STACK_BOT - 1), Segment::Data);
    assert_eq!(get_segment(STACK_BOT), Segment::Stack);
    assert_eq!(get_segment(STACK_TOP), Segment::Stack);
    assert_eq!(get_segment(KTEXT_BOT), Segment::KText);
    assert_eq!(get_segment(KDATA_BOT), Segment::KData);
    assert_eq!(Segment::Text.get_lower_bound(), TEXT_BOT);
    assert_eq!(Segment::Data.get_lower_bound(), DATA_BOT);
    assert_eq!(Segment::Unmapped.get_lower_bound(), 0);
}

#[test]
fn runtime_classifier_follows_layout() {
    let rt = Runtime::new(&Binary { text: Vec::new(), data: Vec::new() }, layout());
    assert_eq!(rt.get_segment(0x0040_0000), Segment::Text);
    assert_eq!(rt.get_segment(0x1001_0000), Segment::Data);
    assert_eq!(rt.get_segment(0x7FF0_0000), Segment::Stack);
    assert_eq!(rt.get_segment(0x0030_0000), Segment::Unmapped);
    assert_eq!(rt.get_segment(0x9000_0000), Segment::Unmapped);
    assert_eq!(rt.get_pc_segment(), Segment::Text);
}

#[test]
fn loading_sets_pointers_and_memory() {
    let binary = Binary {
        text: vec![Safe::Valid(0x11), Safe::Uninitialised, Safe::Valid(0x33)],
        data: vec![Safe::Valid(0xAA), Safe::Uninitialised, Safe::Valid(0xCC)],
    };
    let rt = Runtime::new(&binary, layout());
    // SP and FP at stack.top - 0x30, GP at global.ptr.
    assert_eq!(rt.state().read_register(29).unwrap(), 0x7FFF_EFD0u32 as i32);
    assert_eq!(rt.state().read_register(30).unwrap(), 0x7FFF_EFD0u32 as i32);
    assert_eq!(rt.state().read_register(28).unwrap(), 0x1000_8000);
    // Text bytes land verbatim, holes stay unmapped.
    assert_eq!(rt.state().read_mem_byte(0x0040_0000).unwrap(), 0x11);
    assert!(rt.state().read_mem_byte(0x0040_0001).is_err());
    assert_eq!(rt.state().read_mem_byte(0x0040_0002).unwrap(), 0x33);
    // Data bytes land where valid.
    assert_eq!(rt.state().read_mem_byte(0x1001_0000).unwrap(), 0xAA);
    assert!(rt.state().read_mem_byte(0x1001_0001).is_err());
    assert_eq!(rt.state().read_mem_byte(0x1001_0002).unwrap(), 0xCC);
    // The program counter starts at the beginning of text.
    assert_eq!(rt.state().pc(), 0x0040_0000);
    // Register 0 reads as zero from the start.
    assert_eq!(rt.state().read_register(0).unwrap(), 0);
}

#[test]
fn memory_word_round_trip_through_state() {
    let mut rt = Runtime::new(&Binary { text: Vec::new(), data: Vec::new() }, layout());
    rt.state_mut().write_mem_word(0x1001_0000, 0xDEAD_BEEF).unwrap();
    assert_eq!(rt.state().read_mem_word(0x1001_0000).unwrap(), 0xDEAD_BEEF);
    assert_eq!(rt.state().read_mem_half(0x1001_0000).unwrap(), 0xBEEF);
    assert_eq!(rt.state().read_mem_byte(0x1001_0003).unwrap(), 0xDE);
    // An uninitialised store knocks the bytes back out.
    rt.state_mut().write_mem_word_uninit(0x1001_0000, Safe::Uninitialised).unwrap();
    assert!(rt.state().read_mem_word(0x1001_0000).is_err());
}

#[test]
fn read_mem_string_stops_at_nul() {
    let mut data = Vec::new();
    for b in b"abc" {
        data.push(Safe::Valid(*b));
    }
    data.push(Safe::Valid(0));
    let rt = Runtime::new(&Binary { text: Vec::new(), data }, layout());
    assert_eq!(rt.state().read_mem_string(0x1001_0000).unwrap(), b"abc".to_vec());
    assert_eq!(rt.state().read_mem_string(0x1001_0001).unwrap(), b"bc".to_vec());
    // Without a terminator the scan runs into the unmapped hole.
    let bare = vec![Safe::Valid(b'a'), Safe::Valid(b'b'), Safe::Valid(b'c')];
    let rt = Runtime::new(&Binary { text: Vec::new(), data: bare }, layout());
    assert!(rt.state().read_mem_string(0x1001_0000).is_err());
}

#[test]
fn catalog_entry_converts_to_signature() {
    let entry = InstructionYaml {
        name: "ADD".to_string(),
        desc_short: Some("add".to_string()),
        desc_long: None,
        compile: CompileYaml {
            format: vec![ArgumentType::Rd, ArgumentType::Rs, ArgumentType::Rt],
            relative_label: false,
        },
        runtime: RuntimeYaml {
            inst_type: InstructionType::R,
            opcode: None,
            funct: Some(0x20),
            shamt: None,
            rs: None,
            rt: None,
            rd: None,
            reads: vec![ReadsRegisterType::Rs, ReadsRegisterType::Rt],
        },
    };
    let sig = entry.to_signature();
    assert_eq!(sig.name, "add".to_string());
    assert_eq!(
        sig.compile.format,
        vec![SigArgumentType::Rd, SigArgumentType::Rs, SigArgumentType::Rt]
    );
    assert!(!sig.compile.relative_label);
    assert_eq!(
        sig.runtime,
        RuntimeSignature::R { opcode: 0, funct: 0x20, shamt: None, rs: None, rt: None, rd: None }
    );
    assert_eq!(
        sig.runtime_metadata.reads,
        vec![SigReadsRegisterType::Rs, SigReadsRegisterType::Rt]
    );
    assert_eq!(sig.metadata.desc_short, Some("add".to_string()));
    assert_eq!(sig.metadata.desc_long, None);
}

#[test]
fn itype_catalog_entry_keeps_opcode() {
    let runtime = RuntimeYaml {
        inst_type: InstructionType::I,
        opcode: Some(0x09),
        funct: None,
        shamt: None,
        rs: None,
        rt: Some(1),
        rd: None,
        reads: Vec::new(),
    };
    assert_eq!(
        runtime.to_runtime_signature(),
        RuntimeSignature::I { opcode: 0x09, rt: Some(1) }
    );
}

#[test]
fn named_constant_getters() {
    let value = MpConstValueLoc(
        MpConstValue::Sum(
            Box::new(MpConstValueLoc(
                MpConstValue::Value(1),
                Position { line: 1, col: 5, line_end: 1, col_end: 6 },
            )),
            Box::new(MpConstValueLoc(
                MpConstValue::Value(2),
                Position { line: 1, col: 9, line_end: 1, col_end: 10 },
            )),
        ),
        Position { line: 1, col: 5, line_end: 1, col_end: 10 },
    );
    let c = MpConst::new("SIZE".to_string(), value, 1, 1, 1, 10);
    assert_eq!(c.label(), "SIZE");
    assert_eq!(c.line(), 1);
    assert_eq!(c.col(), 1);
    assert_eq!(c.line_end(), 1);
    assert_eq!(c.col_end(), 10);
    match &c.value().0 {
        MpConstValue::Sum(a, b) => {
            assert_eq!(a.0, MpConstValue::Value(1));
            assert_eq!(b.0, MpConstValue::Value(2));
        }
        _ => panic!("expected a sum"),
    }
    let p = Position::from_positions(
        Position { line: 1, col: 2, line_end: 1, col_end: 3 },
        Position { line: 4, col: 5, line_end: 4, col_end: 6 },
    );
    assert_eq!(p, Position { line: 1, col: 2, line_end: 4, col_end: 6 });
}

#[test]
fn printf_hook_suppresses_jump() {
    let mut data = Vec::new();
    for b in b"count = %d" {
        data.push(Safe::Valid(*b));
    }
    data.push(Safe::Valid(0));
    let mut rt = Runtime::new(&Binary { text: Vec::new(), data }, layout());
    rt.state_mut().write_register(4, 0x1001_0000);
    rt.state_mut().write_register(5, 7);
    let pc = rt.state().pc();
    match rt.exec_inst((0x02 << 26) | (PRINTF_ADDR >> 2)) {
        Ok(Ok(rt)) => assert_eq!(rt.state().pc(), pc),
        _ => panic!("expected the hook to return"),
    }
}

#[test]
fn constant_expression_rendering() {
    let pos = Position { line: 1, col: 1, line_end: 1, col_end: 1 };
    let one = Box::new(MpConstValueLoc(MpConstValue::Value(1), pos));
    let two = Box::new(MpConstValueLoc(MpConstValue::Value(2), pos));
    assert_eq!(MpConstValue::Value(1234).render(), "1234");
    assert_eq!(MpConstValue::Value(0).render(), "0");
    assert_eq!(MpConstValue::Const("N".to_string()).render(), "N");
    assert_eq!(MpConstValue::Sum(one, two).render(), "1 + 2");
    let three = Box::new(MpConstValueLoc(MpConstValue::Value(3), pos));
    assert_eq!(MpConstValue::Minus(three).render(), "-3");
    let a = Box::new(MpConstValueLoc(MpConstValue::Value(5), pos));
    let b = Box::new(MpConstValueLoc(MpConstValue::Value(6), pos));
    assert_eq!(MpConstValue::Shl(a, b).render(), "5 << 6");
}

#[test]
fn register_numbers() {
    assert_eq!(Register::Zero.to_u32(), 0);
    assert_eq!(Register::V0.to_u32(), 2);
    assert_eq!(Register::A0.to_u32(), 4);
    assert_eq!(Register::Gp.to_u32(), 28);
    assert_eq!(Register::Sp.to_u32(), 29);
    assert_eq!(Register::Fp.to_u32(), 30);
    assert_eq!(Register::Ra.to_u32(), 31);
    assert_eq!(Register::T7.to_number(), 15);
}
