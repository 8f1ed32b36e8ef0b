use gpu::error::{ErrorKind, GpuError, Violation};
use gpu::expression::{parse, NAME_PATTERN, NAME_REPLACEMENT};
use gpu::names::{count_buffers, digit};
use gpu::source::{decimal_text, KernelSource, ENTRY_POINT, FILE_NAME};

const ENTRY: &str = "void main() {\n            uint idx = gl_GlobalInvocationID.x;\n            ";
const EXIT: &str = ";\n            }";

#[test]
fn parse_add_constant() {
    let source = parse("b0 += 4").unwrap();
    assert_eq!(source.buffer_count, 1);
    let expected = format!(
        "#version 450\nlayout(set = 0, binding = 0) buffer Data0 {{uint data[];}} b0;\n{}b0.data[idx] += 4{}",
        ENTRY, EXIT
    );
    assert_eq!(source.text, expected);
}

#[test]
fn parse_four_buffers() {
    let source = parse("b0 += b1 * b2 + b3 + 4").unwrap();
    assert_eq!(source.buffer_count, 4);
    let expected = format!(
        "#version 450\n\
         layout(set = 0, binding = 0) buffer Data0 {{uint data[];}} b0;\n\
         layout(set = 1, binding = 0) buffer Data1 {{uint data[];}} b1;\n\
         layout(set = 2, binding = 0) buffer Data2 {{uint data[];}} b2;\n\
         layout(set = 3, binding = 0) buffer Data3 {{uint data[];}} b3;\n\
         {}b0.data[idx] += b1.data[idx] * b2.data[idx] + b3.data[idx] + 4{}",
        ENTRY, EXIT
    );
    assert_eq!(source.text, expected);
}

#[test]
fn parse_identity() {
    let source = parse("b0 = b0").unwrap();
    assert_eq!(source.buffer_count, 1);
    assert!(source.text.ends_with("b0.data[idx] = b0.data[idx];\n            }"));
    assert_eq!(source.text.matches("layout(").count(), 1);
}

#[test]
fn parse_counts_each_buffer_once() {
    assert_eq!(parse("b0 = b1 + b1 * b1").unwrap().buffer_count, 2);
    assert_eq!(parse("b0 *= b0 + b0").unwrap().buffer_count, 1);
}

#[test]
fn parse_takes_names_in_any_order() {
    let source = parse("b0 -= b2 / b1").unwrap();
    assert_eq!(source.buffer_count, 3);
    assert!(source.text.contains("b0.data[idx] -= b2.data[idx] / b1.data[idx];"));
}

#[test]
fn parse_two_digit_names() {
    let source = parse("b0 = b1+b2+b3+b4+b5+b6+b7+b8+b9+b10").unwrap();
    assert_eq!(source.buffer_count, 11);
    assert!(source.text.contains("layout(set = 10, binding = 0) buffer Data10 {uint data[];} b10;\n"));
    assert!(source.text.contains("+b10.data[idx];"));
    assert!(source.text.contains("b1.data[idx]+b2.data[idx]"));
}

#[test]
fn parse_without_names_declares_nothing() {
    let source = parse("4").unwrap();
    assert_eq!(source.buffer_count, 0);
    assert_eq!(source.text, format!("#version 450\n{}4{}", ENTRY, EXIT));
}

#[test]
fn parse_leaves_other_text_alone() {
    let source = parse("b0 = (b1 + 2) * bx - b").unwrap();
    assert_eq!(source.buffer_count, 2);
    assert!(source.text.contains("b0.data[idx] = (b1.data[idx] + 2) * bx - b;"));
}

#[test]
fn parse_passes_text_beyond_ascii_through() {
    let source = parse("b0 = b1 \u{00d7} 2").unwrap();
    assert_eq!(source.buffer_count, 2);
    assert!(source.text.contains("b0.data[idx] = b1.data[idx] \u{00d7} 2;"));
    let source = parse("b0 = b\u{0661}").unwrap();
    assert_eq!(source.buffer_count, 1);
    assert!(source.text.contains("b0.data[idx] = b\u{0661};"));
}

#[test]
fn parse_refuses_a_gap() {
    let error = parse("b0 += b2").unwrap_err();
    assert_eq!(error, GpuError::Contract(Violation::BufferNames));
    assert_eq!(error.kind(), ErrorKind::ContractViolation);
}

#[test]
fn parse_refuses_a_missing_output() {
    assert_eq!(parse("b1 = 2").unwrap_err(), GpuError::Contract(Violation::BufferNames));
    assert_eq!(parse("b1 = b2").unwrap_err(), GpuError::Contract(Violation::BufferNames));
}

#[test]
fn parse_refuses_leading_zeros() {
    assert_eq!(parse("b0 = b01").unwrap_err(), GpuError::Contract(Violation::BufferNames));
    assert_eq!(parse("b00 = 1").unwrap_err(), GpuError::Contract(Violation::BufferNames));
}

#[test]
fn parse_refuses_a_number_past_all_bounds() {
    assert_eq!(
        parse("b0 = b99999999999999999999999999999999999999999").unwrap_err(),
        GpuError::Contract(Violation::BufferNames)
    );
    assert_eq!(parse("b0 = b4294967296").unwrap_err(), GpuError::Contract(Violation::BufferNames));
}

#[test]
fn count_buffers_on_bytes() {
    assert_eq!(count_buffers(b""), Ok(0));
    assert_eq!(count_buffers(b"b"), Ok(0));
    assert_eq!(count_buffers(b"b0"), Ok(1));
    assert_eq!(count_buffers(b"b0b1"), Ok(2));
    assert_eq!(count_buffers(b"b1b0"), Ok(2));
    assert_eq!(count_buffers(b"xb0y"), Ok(1));
    assert_eq!(count_buffers(b"b0 b1 b2 b1 b0"), Ok(3));
    assert_eq!(count_buffers(b"b1"), Err(Violation::BufferNames));
    assert_eq!(count_buffers(b"b0 b2"), Err(Violation::BufferNames));
    assert_eq!(count_buffers(b"b0 b1 b3"), Err(Violation::BufferNames));
    assert_eq!(count_buffers(b"b0 b01"), Err(Violation::BufferNames));
    assert_eq!(count_buffers(b"b0 b1 b02"), Err(Violation::BufferNames));
}

#[test]
fn digit_is_zero_to_nine() {
    assert!(digit(b'0'));
    assert!(digit(b'5'));
    assert!(digit(b'9'));
    assert!(!digit(b'/'));
    assert!(!digit(b':'));
    assert!(!digit(b'b'));
}

#[test]
fn decimal_text_writes_plain_decimal() {
    assert_eq!(decimal_text(0), "0");
    assert_eq!(decimal_text(7), "7");
    assert_eq!(decimal_text(9), "9");
    assert_eq!(decimal_text(10), "10");
    assert_eq!(decimal_text(11), "11");
    assert_eq!(decimal_text(123), "123");
    assert_eq!(decimal_text(4_294_967_295), "4294967295");
    assert_eq!(decimal_text(1_000_000), "1000000");
}

#[test]
fn assemble_puts_the_statement_in_the_entry_procedure() {
    let source = KernelSource::assemble(2, "b0.data[idx] = b1.data[idx]");
    assert_eq!(source.buffer_count, 2);
    let expected = format!(
        "#version 450\n\
         layout(set = 0, binding = 0) buffer Data0 {{uint data[];}} b0;\n\
         layout(set = 1, binding = 0) buffer Data1 {{uint data[];}} b1;\n\
         {}b0.data[idx] = b1.data[idx]{}",
        ENTRY, EXIT
    );
    assert_eq!(source.text, expected);
    let empty = KernelSource::assemble(0, "");
    assert_eq!(empty.text, format!("#version 450\n{}{}", ENTRY, EXIT));
}

#[test]
fn the_pattern_is_that_of_a_buffer_name() {
    assert_eq!(NAME_PATTERN, "(b[0-9]+)");
    assert_eq!(NAME_REPLACEMENT, "${1}.data[idx]");
    let pattern = regex::Regex::new(NAME_PATTERN).unwrap();
    assert!(pattern.is_match("b0"));
    assert!(pattern.is_match("b12"));
    assert!(!pattern.is_match("b"));
    assert!(!pattern.is_match("bx"));
}

#[test]
fn the_compiler_is_given_these_names() {
    assert_eq!(ENTRY_POINT, "main");
    assert_eq!(FILE_NAME, "shader.glsl");
    assert!(KernelSource::assemble(0, "").text.contains("void main() {"));
}
