//! A chunk is a sequence of bytecode instructions.

use crate::value::Value;
use std::slice::Iter;
use vstd::prelude::*;
use vstd::std_specs::iter::IteratorSpec;
use vstd::string::StringExecFns;

verus! {

/// One instruction.
#[derive(Clone, Copy, Debug, PartialEq, Eq, Structural)]
pub enum OpCode {
    /// Produce a constant
    Constant(Value),
    /// Binary addition
    Add,
    /// Binary subtraction
    Subtract,
    /// Binary multiplication
    Multiply,
    /// Binary division
    Divide,
    /// Unary negation
    Negate,
    /// Return from the current function
    Return,
}

/// The instruction that pushes `val`.
pub fn constant(val: Value) -> (op: OpCode)
    ensures
        op == OpCode::Constant(val),
{
    OpCode::Constant(val)
}

/// A sequence of `OpCode`s, in the order in which they were written.
#[derive(Debug)]
pub struct Chunk {
    code: Vec<OpCode>,
}

impl View for Chunk {
    type V = Seq<OpCode>;

    closed spec fn view(&self) -> Seq<OpCode> {
        self.code@
    }
}

impl Chunk {
    /// A chunk without instructions.
    pub fn new() -> (chunk: Self)
        ensures
            chunk@ == Seq::<OpCode>::empty(),
    {
        Self { code: Vec::new() }
    }

    /// An iterator over the instructions, first written first. It borrows the
    /// chunk and leaves it as it is, so every call starts again from the front
    /// and walks the same sequence.
    pub fn iter(&self) -> (it: Iter<'_, OpCode>)
        ensures
            it.remaining() == self@.as_ref(),
            it.decrease() is Some,
            it.initial_value_relation(&it),
    {
        self.code.iter()
    }

    /// Appends `op_code` behind the instructions already written. Nothing is
    /// checked here: whether the operands of an instruction will be on the
    /// stack is known only when the chunk runs.
    pub fn write(&mut self, op_code: OpCode)
        ensures
            final(self)@ == old(self)@.push(op_code),
    {
        self.code.push(op_code);
    }
}

/// Iteration can be restarted: two iterators that were taken from one chunk
/// walk the same sequence, which is the instructions of the chunk in the order
/// in which they were written.
pub proof fn iteration_restarts<'a>(chunk: &'a Chunk, first: Iter<'a, OpCode>, second: Iter<'a, OpCode>)
    requires
        first.remaining() == chunk@.as_ref(),
        second.remaining() == chunk@.as_ref(),
    ensures
        first.remaining() == second.remaining(),
        first.remaining().unref() == chunk@,
        second.remaining().unref() == chunk@,
{
}

impl vstd::std_specs::convert::FromSpecImpl<Vec<OpCode>> for Chunk {
    open spec fn obeys_from_spec() -> bool {
        true
    }

    /// The chunk that holds the instructions of `value`.
    closed spec fn from_spec(value: Vec<OpCode>) -> Chunk {
        Chunk { code: value }
    }
}

impl From<Vec<OpCode>> for Chunk {
    /// The chunk that holds the instructions of `value`, in the same order.
    fn from(value: Vec<OpCode>) -> (chunk: Self)
        ensures
            chunk@ == value@,
    {
        Chunk { code: value }
    }
}

/// The decimal digit for `d`, where `d` is below ten.
pub open spec fn digit(d: nat) -> char {
    ('0' as u8 + d) as char
}

/// The decimal numeral of `n`, without leading zeros.
pub open spec fn decimal(n: nat) -> Seq<char>
    decreases n,
{
    if n < 10 {
        seq![digit(n)]
    } else {
        decimal(n / 10).push(digit(n % 10))
    }
}

/// `text`, and behind it the spaces that bring it to a length of `width`
/// where it is shorter.
pub open spec fn padded(text: Seq<char>, width: nat) -> Seq<char>
    decreases width - text.len(),
{
    if text.len() < width {
        padded(text.push(' '), width)
    } else {
        text
    }
}

/// The first line of every disassembly.
pub open spec fn heading() -> Seq<char> {
    "== disassembled =="@
}

/// What stands before the instruction on its line of a disassembly: the
/// position in the chunk, counted from zero and padded to four columns, and
/// two spaces.
pub open spec fn margin(position: nat) -> Seq<char> {
    padded(decimal(position), 4) + "  "@
}

/// The name of an instruction that carries no operand; for one that does,
/// what stands before the operand.
pub open spec fn mnemonic(op: OpCode) -> Seq<char> {
    match op {
        OpCode::Constant(_) => "Constant("@,
        OpCode::Add => "Add"@,
        OpCode::Subtract => "Subtract"@,
        OpCode::Multiply => "Multiply"@,
        OpCode::Divide => "Divide"@,
        OpCode::Negate => "Negate"@,
        OpCode::Return => "Return"@,
    }
}

/// Whether `line` is a line that a disassembly may hold for the instruction
/// `op` at `position`, where `show` renders the constants: the margin, the
/// instruction's name and, for a constant, a rendering of it in parentheses.
pub open spec fn describes<F: Fn(Value) -> String>(
    show: F,
    position: nat,
    op: OpCode,
    line: Seq<char>,
) -> bool {
    match op {
        OpCode::Constant(value) => exists|operand: String|
            #![auto]
            call_ensures(show, (value,), operand) && line == margin(position) + mnemonic(op)
                + operand@ + ")"@,
        _ => line == margin(position) + mnemonic(op),
    }
}

/// Padding adds to the end of a text and takes nothing away.
pub proof fn padded_keeps_the_text(text: Seq<char>, width: nat)
    ensures
        text.is_prefix_of(padded(text, width)),
        padded(text, width).len() == if text.len() < width {
            width
        } else {
            text.len()
        },
    decreases width - text.len(),
{
    if text.len() < width {
        padded_keeps_the_text(text.push(' '), width);
    }
}

/// Every line that describes an instruction starts with the position of the
/// instruction in the chunk, as a decimal numeral.
pub proof fn line_starts_with_position<F: Fn(Value) -> String>(
    show: F,
    position: nat,
    op: OpCode,
    line: Seq<char>,
)
    requires
        describes(show, position, op, line),
    ensures
        decimal(position).is_prefix_of(line),
{
    padded_keeps_the_text(decimal(position), 4);
}

/// Appends the decimal numeral of `n` to `text`.
fn push_decimal(text: &mut String, n: usize)
    ensures
        final(text)@ == old(text)@ + decimal(n as nat),
    decreases n,
{
    if n >= 10 {
        push_decimal(text, n / 10);
    }
    let d = (n % 10) as u8;
    text.push((48u8 + d) as char);
}

/// Appends spaces to `text` until it is `width` characters long.
fn pad(text: &mut String, width: usize)
    ensures
        final(text)@ == padded(old(text)@, width as nat),
{
    let mut n = text.as_str().unicode_len();
    while n < width
        invariant
            n == text@.len(),
            padded(text@, width as nat) == padded(old(text)@, width as nat),
        decreases width - n,
    {
        text.push(' ');
        n += 1;
    }
}

impl Chunk {
    /// The disassembly of the chunk, line by line: the heading, then one line
    /// for each instruction in order, with its position and its name. `show`
    /// renders the constants and must accept every value.
    pub fn disassemble<F: Fn(Value) -> String>(&self, show: F) -> (lines: Vec<String>)
        requires
            forall|value: Value| call_requires(show, (value,)),
        ensures
            lines@.len() == self@.len() + 1,
            lines@[0]@ == heading(),
            forall|i: int|
                0 <= i < self@.len() ==> describes(show, i as nat, self@[i], #[trigger] lines@[i + 1]@),
    {
        let mut lines: Vec<String> = Vec::new();
        lines.push(String::from_str("== disassembled =="));
        let mut position: usize = 0;
        while position < self.code.len()
            invariant
                forall|value: Value| call_requires(show, (value,)),
                position <= self.code.len(),
                lines@.len() == position + 1,
                lines@[0]@ == heading(),
                forall|i: int|
                    0 <= i < position ==> describes(
                        show,
                        i as nat,
                        self@[i],
                        #[trigger] lines@[i + 1]@,
                    ),
            decreases self.code.len() - position,
        {
            let op = self.code[position];
            let mut line = String::new();
            push_decimal(&mut line, position);
            pad(&mut line, 4);
            line.append("  ");
            match op {
                OpCode::Constant(value) => {
                    line.append("Constant(");
                    let operand = show(value);
                    line.append(operand.as_str());
                    line.append(")");
                    assert(line@ == margin(position as nat) + mnemonic(op) + operand@ + ")"@);
                },
                OpCode::Add => line.append("Add"),
                OpCode::Subtract => line.append("Subtract"),
                OpCode::Multiply => line.append("Multiply"),
                OpCode::Divide => line.append("Divide"),
                OpCode::Negate => line.append("Negate"),
                OpCode::Return => line.append("Return"),
            }
            lines.push(line);
            position += 1;
        }
        lines
    }
}

} // verus!
