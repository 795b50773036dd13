use quanto::lexer::{
    string_literal_is_readable, string_literal_value, BinOp, CmpOp, MathBinOp, SourceLocation,
    TokenPosition,
};
use quanto::parser::Node;
use quanto::rt::quantum_simulator::{
    build_args_stack, check_status, decode, prepare_args, BuildArgsStackError, Error,
    QuantumResult, Tag, MAX_ARGS_BYTES_ON_STACK,
};
use quanto::value::quantum::{self, HardwareQubit, VirtualQubit};
use quanto::value::scalar::{self, Bit, Float32, Float64, UnsignedInteger};
use quanto::value::Value;
use quanto::Program;

const W: usize = std::mem::size_of::<usize>();

fn record(tag: Tag, bytes: &[u8]) -> QuantumResult {
    let mut value = [0u8; 16];
    value[..bytes.len()].copy_from_slice(bytes);
    QuantumResult { tag, value }
}

fn all_values() -> Vec<Value> {
    vec![
        Value::from(quantum::Value::from(VirtualQubit::One)),
        Value::from(quantum::Value::from(VirtualQubit::Zero)),
        Value::from(quantum::Value::from(HardwareQubit::One)),
        Value::from(quantum::Value::from(HardwareQubit::Zero)),
        Value::from(scalar::Value::from(true)),
        Value::from(scalar::Value::from(false)),
        Value::from(scalar::Value::from(0xABu8)),
        Value::from(scalar::Value::from(0xBEEFu16)),
        Value::from(scalar::Value::from(0xDEAD_BEEFu32)),
        Value::from(scalar::Value::from(0x0123_4567_89AB_CDEFu64)),
        Value::from(scalar::Value::from(u128::MAX - 5)),
        Value::from(scalar::Value::from(Float32((-0.0f32).to_bits()))),
        Value::from(scalar::Value::from(Float32(f32::NAN.to_bits() | 1))),
        Value::from(scalar::Value::from(Float64(1.5f64.to_bits()))),
    ]
}

fn tag_of(v: &Value) -> Tag {
    match v {
        Value::Quantum(quantum::Value::VirtualQubit(_)) => Tag::VirtualQubit,
        Value::Quantum(quantum::Value::HardwareQubit(_)) => Tag::HardwareQubit,
        Value::Scalar(scalar::Value::Bit(_)) => Tag::Boolean,
        Value::Scalar(scalar::Value::UInt8(_)) => Tag::Uint8,
        Value::Scalar(scalar::Value::UInt16(_)) => Tag::Uint16,
        Value::Scalar(scalar::Value::UInt32(_)) => Tag::Uint32,
        Value::Scalar(scalar::Value::UInt64(_)) => Tag::Uint64,
        Value::Scalar(scalar::Value::UInt128(_)) => Tag::Uint128,
        Value::Scalar(scalar::Value::Float32(_)) => Tag::Float32,
        Value::Scalar(scalar::Value::Float64(_)) => Tag::Float64,
        Value::Scalar(scalar::Value::Void(_)) => unreachable!(),
    }
}

#[test]
fn encode_size_is_sum_of_reference_and_value_widths() {
    let args = [
        ("a", Value::from(scalar::Value::from(true))),
        ("b", Value::from(scalar::Value::from(7u32))),
    ];
    let buf = build_args_stack(&args).unwrap();
    assert_eq!(buf.len(), (W + 1) + (W + 4));
    if W == 8 {
        assert_eq!(buf.len(), 21);
    }
    assert_eq!(&buf[..W], &(args[0].0.as_ptr() as usize).to_le_bytes()[..]);
    assert_eq!(buf[W], 1);
    assert_eq!(&buf[W + 1..2 * W + 1], &(args[1].0.as_ptr() as usize).to_le_bytes()[..]);
    assert_eq!(&buf[2 * W + 1..], &[7, 0, 0, 0]);
}

#[test]
fn encode_empty_list() {
    let buf = build_args_stack(&[]).unwrap();
    assert_eq!(buf.len(), 0);
}

#[test]
fn encode_every_width() {
    let values = all_values();
    let widths = [1usize, 1, 1, 1, 1, 1, 1, 2, 4, 8, 16, 4, 4, 8];
    for (v, w) in values.into_iter().zip(widths) {
        let args = [("x", v)];
        let buf = build_args_stack(&args).unwrap();
        assert_eq!(buf.len(), W + w);
    }
}

#[test]
fn encode_value_bytes_are_little_endian() {
    let args = [
        ("q", Value::from(quantum::Value::from(HardwareQubit::default()))),
        ("n", Value::from(scalar::Value::from(0x0102u16))),
        ("f", Value::from(scalar::Value::from(Float64(2.0f64.to_bits())))),
    ];
    let buf = build_args_stack(&args).unwrap();
    assert_eq!(buf[W], 2);
    assert_eq!(&buf[2 * W + 1..2 * W + 3], &[0x02, 0x01]);
    assert_eq!(&buf[3 * W + 3..], &2.0f64.to_bits().to_le_bytes()[..]);
}

#[test]
fn encode_above_inline_threshold() {
    let args: Vec<(&str, Value)> = (0..40u128)
        .map(|i| ("big", Value::from(scalar::Value::from(i))))
        .collect();
    let buf = build_args_stack(&args).unwrap();
    assert_eq!(buf.len(), 40 * (W + 16));
    assert!(buf.len() > MAX_ARGS_BYTES_ON_STACK);
    assert_eq!(&buf[buf.len() - 16..], &39u128.to_le_bytes()[..]);
}

#[test]
fn decode_each_tag() {
    assert_eq!(
        decode(&record(Tag::VirtualQubit, &[1])),
        Value::Quantum(quantum::Value::VirtualQubit(VirtualQubit::One))
    );
    assert_eq!(
        decode(&record(Tag::HardwareQubit, &[0])),
        Value::Quantum(quantum::Value::HardwareQubit(HardwareQubit::Zero))
    );
    assert_eq!(
        decode(&record(Tag::Boolean, &[1])),
        Value::Scalar(scalar::Value::Bit(Bit(true)))
    );
    assert_eq!(
        decode(&record(Tag::Uint8, &[200])),
        Value::Scalar(scalar::Value::UInt8(UnsignedInteger(200)))
    );
    assert_eq!(
        decode(&record(Tag::Uint16, &[0x34, 0x12])),
        Value::Scalar(scalar::Value::UInt16(UnsignedInteger(0x1234)))
    );
    assert_eq!(
        decode(&record(Tag::Uint32, &[0x78, 0x56, 0x34, 0x12])),
        Value::Scalar(scalar::Value::UInt32(UnsignedInteger(0x1234_5678)))
    );
    assert_eq!(
        decode(&record(Tag::Uint64, &7u64.to_le_bytes())),
        Value::Scalar(scalar::Value::UInt64(UnsignedInteger(7)))
    );
    assert_eq!(
        decode(&record(Tag::Uint128, &u128::MAX.to_le_bytes())),
        Value::Scalar(scalar::Value::UInt128(UnsignedInteger(u128::MAX)))
    );
    assert_eq!(
        decode(&record(Tag::Float32, &1.0f32.to_bits().to_le_bytes())),
        Value::Scalar(scalar::Value::Float32(Float32(1.0f32.to_bits())))
    );
    assert_eq!(
        decode(&record(Tag::Float64, &(-0.0f64).to_bits().to_le_bytes())),
        Value::Scalar(scalar::Value::Float64(Float64((-0.0f64).to_bits())))
    );
}

#[test]
fn decode_reads_only_the_tagged_width() {
    let mut value = [0xFFu8; 16];
    value[0] = 5;
    let r = QuantumResult { tag: Tag::Uint8, value };
    assert_eq!(decode(&r), Value::Scalar(scalar::Value::UInt8(UnsignedInteger(5))));
}

#[test]
fn decode_inverts_an_echoing_engine() {
    for v in all_values() {
        let tag = tag_of(&v);
        let args = [("v", v)];
        let buf = build_args_stack(&args).unwrap();
        let echoed = record(tag, &buf[W..]);
        assert_eq!(decode(&echoed), args[0].1);
    }
}

#[test]
fn tag_codes() {
    let tags = [
        Tag::VirtualQubit,
        Tag::HardwareQubit,
        Tag::Boolean,
        Tag::Uint8,
        Tag::Uint16,
        Tag::Uint32,
        Tag::Uint64,
        Tag::Uint128,
        Tag::Float32,
        Tag::Float64,
    ];
    for (i, t) in tags.iter().enumerate() {
        let code = (i + 1) as u8;
        assert_eq!(t.code(), code);
        assert_eq!(Tag::from_code(code), Some(*t));
    }
}

#[test]
fn unknown_tags_are_refused() {
    assert_eq!(Tag::from_code(0x0), None);
    assert_eq!(Tag::from_code(0xB), None);
    assert_eq!(Tag::from_code(0xFF), None);
}

#[test]
fn failure_status_is_reported() {
    assert!(matches!(check_status(1), Err(Error::Failure(1))));
    assert!(matches!(check_status(255), Err(Error::Failure(255))));
    assert!(matches!(check_status(0), Ok(())));
}

#[test]
fn bool_to_qubit() {
    assert_eq!(VirtualQubit::from(true), VirtualQubit::One);
    assert_eq!(VirtualQubit::from(false), VirtualQubit::Zero);
    assert_eq!(HardwareQubit::from(true), HardwareQubit::One);
    assert_eq!(HardwareQubit::from(false), HardwareQubit::Zero);
    assert_eq!(VirtualQubit::default(), VirtualQubit::Undefined);
    assert_eq!(HardwareQubit::default(), HardwareQubit::Undefined);
}

#[test]
fn bool_to_bit() {
    assert_eq!(Bit::from(true), Bit(true));
    assert_eq!(scalar::Value::from(false), scalar::Value::Bit(Bit(false)));
}

#[test]
fn integers_convert_to_matching_width() {
    assert_eq!(scalar::Value::from(3u8), scalar::Value::UInt8(UnsignedInteger(3)));
    assert_eq!(UnsignedInteger::<u64, 64>::from(9u64), UnsignedInteger(9));
    assert_eq!(
        scalar::Value::from(UnsignedInteger::<u16, 16>::from(65535u16)),
        scalar::Value::UInt16(UnsignedInteger(65535))
    );
}

#[test]
fn bound_program_arguments() {
    let args = [("x", Value::from(scalar::Value::from(1u8)))];
    let program = Program::<1>::parse("let y = x;").bind(&args);
    assert_eq!(program.src(), "let y = x;");
    assert_eq!(program.args().len(), 1);
    let buf = prepare_args(&program).unwrap();
    assert_eq!(buf.len(), W + 1);
    assert_eq!(buf[W], 1);
}

#[test]
fn error_messages() {
    assert_eq!(Error::Failure(3).message(), "execution failed with error code 3");
    assert_eq!(Error::Failure(1).message(), "execution failed with error code 1");
    assert_eq!(Error::Failure(42).message(), "execution failed with error code 42");
    assert_eq!(Error::Failure(100).message(), "execution failed with error code 100");
    assert_eq!(Error::Failure(255).message(), "execution failed with error code 255");
    assert_eq!(
        BuildArgsStackError::SizeOverflow.message(),
        "too many arguments cannot fit in memory"
    );
    assert_eq!(
        Error::BuildArgsStack(BuildArgsStackError::SizeOverflow).message(),
        "failed to build arguments stack"
    );
}

#[test]
fn string_literal_escapes() {
    assert_eq!(string_literal_value("\"a\\nb\""), "a\nb");
    assert_eq!(string_literal_value("\"\\t\\r\\0\\\\\""), "\t\r\0\\");
    assert_eq!(string_literal_value("\"\""), "");
    assert_eq!(string_literal_value("\"\\\"\""), "\"");
    assert_eq!(string_literal_value("\"say \\\"hi\\\"\""), "say \"hi\"");
    assert_eq!(string_literal_value("\"héllo\""), "héllo");
}

#[test]
fn node_holds_data_and_meta() {
    let n = Node::new(5u32, "meta");
    assert_eq!(*n.data(), 5);
    assert_eq!(*n.meta(), "meta");
}

#[test]
fn string_literal_readability() {
    assert!(string_literal_is_readable("\"a\\nb\""));
    assert!(string_literal_is_readable("\"a\\\"b\""));
    assert!(!string_literal_is_readable("\"a\\qb\""));
    assert!(!string_literal_is_readable("abc"));
    assert!(!string_literal_is_readable(""));
}

#[test]
fn payload_widths() {
    assert_eq!(Tag::Boolean.payload_width(), 1);
    assert_eq!(Tag::Uint16.payload_width(), 2);
    assert_eq!(Tag::Float32.payload_width(), 4);
    assert_eq!(Tag::Float64.payload_width(), 8);
    assert_eq!(Tag::Uint128.payload_width(), 16);
}

#[test]
fn token_kinds_and_positions() {
    assert_eq!(BinOp::Math(MathBinOp::Add), BinOp::Math(MathBinOp::Add));
    assert_ne!(BinOp::Cmp(CmpOp::Eq), BinOp::Cmp(CmpOp::Ne));
    assert_eq!(TokenPosition(3, 4), TokenPosition(3, 4));
    let loc = SourceLocation { code: "let x", span: 0..3 };
    assert_eq!(&loc.code[loc.span.clone()], "let");
}
