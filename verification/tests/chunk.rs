use lox_rs::chunk::{constant, Chunk, OpCode};
use lox_rs::value::{Value, ValueArray, SIGN_BIT};

fn number(x: f64) -> Value {
    Value { bits: x.to_bits() }
}

fn show(value: Value) -> String {
    format!("{:?}", f64::from_bits(value.bits))
}

fn listed(chunk: &Chunk) -> Vec<OpCode> {
    chunk.iter().copied().collect()
}

#[test]
fn constant_holds_the_value() {
    assert_eq!(constant(number(1.5)), OpCode::Constant(number(1.5)));
}

#[test]
fn new_chunk_is_empty() {
    assert_eq!(Chunk::new().iter().count(), 0);
}

#[test]
fn write_appends_in_order() {
    let mut chunk = Chunk::new();
    chunk.write(constant(number(1.0)));
    chunk.write(OpCode::Negate);
    chunk.write(OpCode::Return);
    assert_eq!(
        listed(&chunk),
        vec![OpCode::Constant(number(1.0)), OpCode::Negate, OpCode::Return]
    );
}

#[test]
fn write_checks_nothing() {
    let mut chunk = Chunk::new();
    chunk.write(OpCode::Negate);
    chunk.write(OpCode::Add);
    assert_eq!(listed(&chunk), vec![OpCode::Negate, OpCode::Add]);
}

#[test]
fn iteration_can_be_restarted() {
    let chunk = Chunk::from(vec![
        constant(number(2.0)),
        constant(number(3.0)),
        OpCode::Multiply,
        OpCode::Return,
    ]);
    let first = listed(&chunk);
    let second = listed(&chunk);
    assert_eq!(first, second);
    assert_eq!(first.len(), 4);
    let mut half = chunk.iter();
    half.next();
    half.next();
    assert_eq!(listed(&chunk), first);
}

#[test]
fn from_keeps_the_order() {
    let ops = vec![OpCode::Add, constant(number(0.5)), OpCode::Divide, OpCode::Subtract];
    let chunk = Chunk::from(ops.clone());
    assert_eq!(listed(&chunk), ops);
    let mut written = Chunk::new();
    for op in &ops {
        written.write(*op);
    }
    assert_eq!(listed(&written), listed(&chunk));
}

#[test]
fn disassembly_of_an_empty_chunk_is_the_heading() {
    assert_eq!(Chunk::new().disassemble(show), vec!["== disassembled ==".to_string()]);
}

#[test]
fn disassembly_has_one_line_more_than_instructions() {
    for n in [0usize, 1, 2, 9, 10, 11, 100] {
        let mut chunk = Chunk::new();
        for _ in 0..n {
            chunk.write(OpCode::Add);
        }
        let lines = chunk.disassemble(show);
        assert_eq!(lines.len(), n + 1);
        for (i, line) in lines.iter().skip(1).enumerate() {
            assert_eq!(line, &format!("{: <4}  Add", i));
        }
    }
}

#[test]
fn disassembly_names_every_instruction() {
    let chunk = Chunk::from(vec![
        constant(number(1.0)),
        constant(number(-2.5)),
        OpCode::Add,
        OpCode::Subtract,
        OpCode::Multiply,
        OpCode::Divide,
        OpCode::Negate,
        OpCode::Return,
    ]);
    assert_eq!(
        chunk.disassemble(show),
        vec![
            "== disassembled ==",
            "0     Constant(1.0)",
            "1     Constant(-2.5)",
            "2     Add",
            "3     Subtract",
            "4     Multiply",
            "5     Divide",
            "6     Negate",
            "7     Return",
        ]
    );
}

#[test]
fn disassembly_pads_the_position_to_four_columns() {
    let mut chunk = Chunk::new();
    for _ in 0..10001 {
        chunk.write(OpCode::Return);
    }
    let lines = chunk.disassemble(show);
    assert_eq!(lines[1], "0     Return");
    assert_eq!(lines[10], "9     Return");
    assert_eq!(lines[11], "10    Return");
    assert_eq!(lines[100], "99    Return");
    assert_eq!(lines[101], "100   Return");
    assert_eq!(lines[1000], "999   Return");
    assert_eq!(lines[1001], "1000  Return");
    assert_eq!(lines[10000], "9999  Return");
    assert_eq!(lines[10001], "10000  Return");
}

#[test]
fn disassembly_shows_constants_as_the_caller_renders_them() {
    let chunk = Chunk::from(vec![constant(number(f64::NAN)), constant(number(1e100))]);
    assert_eq!(
        chunk.disassemble(show),
        vec!["== disassembled ==", "0     Constant(NaN)", "1     Constant(1e100)"]
    );
    assert_eq!(
        chunk.disassemble(|value| format!("{:#x}", value.bits)),
        vec![
            "== disassembled ==".to_string(),
            format!("0     Constant({:#x})", f64::NAN.to_bits()),
            format!("1     Constant({:#x})", 1e100f64.to_bits()),
        ]
    );
}

#[test]
fn disassembly_leaves_the_chunk_as_it_is() {
    let chunk = Chunk::from(vec![constant(number(1.0)), OpCode::Return]);
    let before = listed(&chunk);
    let first = chunk.disassemble(show);
    assert_eq!(chunk.disassemble(show), first);
    assert_eq!(listed(&chunk), before);
}

#[test]
fn sign_bit_is_the_top_bit() {
    assert_eq!(SIGN_BIT, 1u64 << 63);
    assert_eq!(SIGN_BIT, (-0.0f64).to_bits());
}

#[test]
fn value_array_takes_values() {
    let mut values = ValueArray::new();
    values.write(number(1.0));
    values.write(number(2.0));
}
