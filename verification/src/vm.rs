//! A virtual machine that executes Lox instructions as bytecode.

use crate::chunk::{Chunk, OpCode};
use crate::value::Value;
use vstd::prelude::*;
use vstd::std_specs::iter::IteratorSpec;

verus! {

/// Why an interpretation stopped early.
#[derive(Clone, Copy, Debug, PartialEq, Eq, Structural)]
pub enum InterpretError {
    CompileError,
    RuntimeError,
}

/// The binary operations, which the machine leaves to its arithmetic unit.
#[derive(Clone, Copy, Debug, PartialEq, Eq, Structural)]
pub enum Operator {
    Add,
    Subtract,
    Multiply,
    Divide,
}

/// How many values an instruction takes from the stack.
pub open spec fn operands(op: OpCode) -> int {
    match op {
        OpCode::Constant(_) => 0,
        OpCode::Add | OpCode::Subtract | OpCode::Multiply | OpCode::Divide => 2,
        OpCode::Negate | OpCode::Return => 1,
    }
}

/// How many values an instruction puts on the stack.
pub open spec fn results(op: OpCode) -> int {
    match op {
        OpCode::Return => 0,
        _ => 1,
    }
}

/// The operation that a binary instruction stands for.
pub open spec fn operator_of(op: OpCode) -> Option<Operator> {
    match op {
        OpCode::Add => Some(Operator::Add),
        OpCode::Subtract => Some(Operator::Subtract),
        OpCode::Multiply => Some(Operator::Multiply),
        OpCode::Divide => Some(Operator::Divide),
        _ => None,
    }
}

/// How many instructions of `code` run on a stack that holds `depth` values:
/// the index of the first one that finds fewer values than it takes, or the
/// length of `code` where every one finds enough.
pub open spec fn executed(code: Seq<OpCode>, depth: int) -> int
    decreases code.len(),
{
    if code.len() == 0 || depth < operands(code[0]) {
        0
    } else {
        1 + executed(code.drop_first(), depth - operands(code[0]) + results(code[0]))
    }
}

/// Something the machine wrote while it ran.
#[derive(Debug)]
pub enum Output {
    /// The value that a `Return` took from the stack: the result of a program.
    Returned(Value),
    /// The whole stack just after a push, bottom first. Written only by a
    /// machine in debug mode.
    Stack(Vec<Value>),
}

/// An `Output` as a mathematical value.
pub enum Written {
    Returned(Value),
    Stack(Seq<Value>),
}

impl View for Output {
    type V = Written;

    open spec fn view(&self) -> Written {
        match self {
            Output::Returned(value) => Written::Returned(*value),
            Output::Stack(stack) => Written::Stack(stack@),
        }
    }
}

/// The mathematical values of a sequence of outputs, one for one.
pub open spec fn written(outputs: Seq<Output>) -> Seq<Written> {
    Seq::new(outputs.len(), |i: int| outputs[i]@)
}

/// The state of a machine as a mathematical value: the operand stack, bottom
/// first, and everything written so far and not yet taken out, oldest first.
pub struct Machine {
    pub stack: Seq<Value>,
    pub output: Seq<Written>,
}

impl Machine {
    /// The state after `value` is pushed: a machine in debug mode also writes
    /// the stack as it then stands.
    pub open spec fn push(self, debug: bool, value: Value) -> Machine {
        Machine {
            stack: self.stack.push(value),
            output: if debug {
                self.output.push(Written::Stack(self.stack.push(value)))
            } else {
                self.output
            },
        }
    }

    /// The state with the `count` topmost values gone.
    pub open spec fn without(self, count: int) -> Machine {
        Machine { stack: self.stack.take(self.stack.len() - count), output: self.output }
    }

    /// The value `below` places under the top of the stack.
    pub open spec fn peek(self, below: int) -> Value {
        self.stack[self.stack.len() - 1 - below]
    }

    /// Whether one instruction can take a machine from the state `self` to
    /// the state `next`, where `alu` does the arithmetic.
    ///
    /// A binary instruction takes the right-hand operand from the top of the
    /// stack and the left-hand one from below it, and pushes whatever `alu`
    /// may return for them. Every other instruction allows one next state.
    pub open spec fn steps<F: Fn(Operator, Value, Value) -> Value>(
        self,
        alu: F,
        debug: bool,
        op: OpCode,
        next: Machine,
    ) -> bool {
        &&& self.stack.len() >= operands(op)
        &&& match op {
            OpCode::Constant(value) => next == self.push(debug, value),
            OpCode::Negate => next == self.without(1).push(debug, self.peek(0).negated()),
            OpCode::Return => next == Machine {
                stack: self.without(1).stack,
                output: self.output.push(Written::Returned(self.peek(0))),
            },
            _ => {
                &&& next.stack.len() > 0
                &&& call_ensures(
                    alu,
                    (operator_of(op).unwrap(), self.peek(1), self.peek(0)),
                    next.stack.last(),
                )
                &&& next == self.without(2).push(debug, next.stack.last())
            },
        }
    }

    /// Whether running all of `code`, in order, can take a machine from the
    /// state `self` to the state `end`.
    pub open spec fn runs<F: Fn(Operator, Value, Value) -> Value>(
        self,
        alu: F,
        debug: bool,
        code: Seq<OpCode>,
        end: Machine,
    ) -> bool
        decreases code.len(),
    {
        if code.len() == 0 {
            end == self
        } else {
            exists|before: Machine|
                #![auto]
                self.runs(alu, debug, code.drop_last(), before) && before.steps(
                    alu,
                    debug,
                    code.last(),
                    end,
                )
        }
    }
}

/// The stack machine: an operand stack, a debug flag fixed at construction,
/// and the output written since it was last taken out.
#[derive(Debug)]
pub struct VM {
    debug: bool,
    stack: Vec<Value>,
    output: Vec<Output>,
}

impl View for VM {
    type V = Machine;

    closed spec fn view(&self) -> Machine {
        Machine { stack: self.stack@, output: written(self.output@) }
    }
}

impl Default for VM {
    /// A machine with an empty stack that is not in debug mode.
    fn default() -> (vm: Self)
        ensures
            !vm.debug(),
            vm@.stack.len() == 0,
            vm@.output.len() == 0,
    {
        Self { debug: false, stack: Vec::new(), output: Vec::new() }
    }
}

impl VM {
    /// Whether the machine is in debug mode.
    pub closed spec fn debug(&self) -> bool {
        self.debug
    }

    /// A machine with an empty stack.
    pub fn new(debug: bool) -> (vm: Self)
        ensures
            vm.debug() == debug,
            vm@.stack.len() == 0,
            vm@.output.len() == 0,
    {
        Self { debug, stack: Vec::new(), output: Vec::new() }
    }

    /// Runs the instructions of `chunk` in order, from the first, on the stack
    /// as the last call left it. `alu` does the arithmetic of the binary
    /// instructions and must accept every pair of operands.
    ///
    /// An instruction that finds fewer values on the stack than it takes stops
    /// the run with an error: it and the instructions behind it do nothing,
    /// and what those before it did stays done. Whether and where that happens
    /// depends on the instructions and on the depth of the stack alone.
    pub fn interpret<F>(&mut self, chunk: &Chunk, alu: F) -> (r: Result<(), InterpretError>) where
        F: Fn(Operator, Value, Value) -> Value,

        requires
            forall|operator: Operator, a: Value, b: Value| call_requires(alu, (operator, a, b)),
        ensures
            final(self).debug() == old(self).debug(),
            r is Ok <==> executed(chunk@, old(self)@.stack.len() as int) == chunk@.len(),
            r is Err ==> r == Err::<(), InterpretError>(InterpretError::CompileError),
            old(self)@.runs(
                alu,
                old(self).debug(),
                chunk@.take(executed(chunk@, old(self)@.stack.len() as int)),
                final(self)@,
            ),
    {
        let ghost code = chunk@;
        let ghost start = self@;
        let ghost debug = self.debug();
        assert(code.skip(0) == code);
        for op in it: chunk.iter()
            invariant
                forall|operator: Operator, a: Value, b: Value|
                    call_requires(alu, (operator, a, b)),
                code == chunk@,
                start == old(self)@,
                debug == old(self).debug(),
                self.debug() == debug,
                it.seq() == code.as_ref(),
                start.runs(alu, debug, code.take(it.index()), self@),
                executed(code, start.stack.len() as int) == it.index() + executed(
                    code.skip(it.index()),
                    self@.stack.len() as int,
                ),
        {
            let ghost before = self@;
            let ghost i = it.index();
            assert(code.skip(i).drop_first() == code.skip(i + 1));
            assert(code.take(i + 1).drop_last() == code.take(i));
            assert(code.take(i + 1).last() == code[i]);
            match op {
                OpCode::Constant(val) => {
                    self.push(*val);
                },
                OpCode::Add => {
                    let (a, b) = self.pop_pair()?;
                    self.push(alu(Operator::Add, a, b));
                },
                OpCode::Subtract => {
                    let (a, b) = self.pop_pair()?;
                    self.push(alu(Operator::Subtract, a, b));
                },
                OpCode::Multiply => {
                    let (a, b) = self.pop_pair()?;
                    self.push(alu(Operator::Multiply, a, b));
                },
                OpCode::Divide => {
                    let (a, b) = self.pop_pair()?;
                    self.push(alu(Operator::Divide, a, b));
                },
                OpCode::Negate => {
                    let value = self.pop()?;
                    self.push(value.negated());
                },
                OpCode::Return => {
                    let value = self.pop()?;
                    self.output.push(Output::Returned(value));
                    assert(self@.output == before.output.push(Written::Returned(value)));
                },
            }
            assert(before.steps(alu, debug, code[i], self@));
        }
        Ok(())
    }

    /// The operand stack, bottom first.
    pub fn stack(&self) -> (stack: &Vec<Value>)
        ensures
            stack@ == self@.stack,
    {
        &self.stack
    }

    /// Hands out what the machine has written since this was last called,
    /// oldest first, and forgets it. The stack stays as it is.
    pub fn take_output(&mut self) -> (outputs: Vec<Output>)
        ensures
            written(outputs@) == old(self)@.output,
            final(self).debug() == old(self).debug(),
            final(self)@.stack == old(self)@.stack,
            final(self)@.output.len() == 0,
    {
        let mut outputs: Vec<Output> = Vec::new();
        std::mem::swap(&mut outputs, &mut self.output);
        outputs
    }

    fn push(&mut self, value: Value)
        ensures
            final(self).debug() == old(self).debug(),
            final(self)@ == old(self)@.push(old(self).debug(), value),
    {
        self.stack.push(value);

        if self.debug {
            let mut copy: Vec<Value> = Vec::new();
            let mut i: usize = 0;
            while i < self.stack.len()
                invariant
                    i <= self.stack.len(),
                    copy@ == self.stack@.take(i as int),
                decreases self.stack.len() - i,
            {
                copy.push(self.stack[i]);
                i += 1;
            }
            assert(self.stack@.take(self.stack.len() as int) == self.stack@);
            self.output.push(Output::Stack(copy));
        }
        assert(self@.output == old(self)@.push(old(self).debug(), value).output);
    }

    /// Takes the two topmost values from the stack and returns them with the
    /// lower one first. On a stack that holds fewer than two this fails and
    /// changes nothing.
    fn pop_pair(&mut self) -> (r: Result<(Value, Value), InterpretError>)
        ensures
            final(self).debug() == old(self).debug(),
            old(self)@.stack.len() < 2 ==> r == Err::<(Value, Value), InterpretError>(
                InterpretError::CompileError,
            ) && final(self)@ == old(self)@,
            old(self)@.stack.len() >= 2 ==> r == Ok::<(Value, Value), InterpretError>(
                (old(self)@.peek(1), old(self)@.peek(0)),
            ) && final(self)@ == old(self)@.without(2),
    {
        if self.stack.len() < 2 {
            return Err(InterpretError::CompileError);
        }
        let b = self.pop()?;
        let a = self.pop()?;
        assert(self@.stack == old(self)@.without(2).stack);
        Ok((a, b))
    }

    /// Takes the top value from the stack. On an empty stack this fails and
    /// changes nothing.
    pub fn pop(&mut self) -> (r: Result<Value, InterpretError>)
        ensures
            final(self).debug() == old(self).debug(),
            old(self)@.stack.len() == 0 ==> r == Err::<Value, InterpretError>(
                InterpretError::CompileError,
            ) && final(self)@ == old(self)@,
            old(self)@.stack.len() > 0 ==> r == Ok::<Value, InterpretError>(old(self)@.peek(0))
                && final(self)@ == old(self)@.without(1),
    {
        match self.stack.pop() {
            Some(value) => Ok(value),
            None => Err(InterpretError::CompileError),
        }
    }
}

/// By how much running all of `code` changes the depth of the stack, where no
/// instruction underflows.
pub open spec fn net_effect(code: Seq<OpCode>) -> int
    decreases code.len(),
{
    if code.len() == 0 {
        0
    } else {
        net_effect(code.drop_last()) + results(code.last()) - operands(code.last())
    }
}

/// Running `code` and then `op` is running `code` to some state and taking
/// one step with `op` from there.
pub proof fn runs_then_steps<F: Fn(Operator, Value, Value) -> Value>(
    start: Machine,
    alu: F,
    debug: bool,
    code: Seq<OpCode>,
    op: OpCode,
    end: Machine,
)
    ensures
        start.runs(alu, debug, code.push(op), end) <==> exists|before: Machine|
            #![auto]
            start.runs(alu, debug, code, before) && before.steps(alu, debug, op, end),
{
    assert(code.push(op).drop_last() == code);
    assert(code.push(op).last() == op);
}

/// Every run changes the depth of the stack by the net effect of its
/// instructions, whatever the arithmetic unit returns.
pub proof fn run_changes_depth_by_net_effect<F: Fn(Operator, Value, Value) -> Value>(
    start: Machine,
    alu: F,
    debug: bool,
    code: Seq<OpCode>,
    end: Machine,
)
    requires
        start.runs(alu, debug, code, end),
    ensures
        end.stack.len() == start.stack.len() + net_effect(code),
    decreases code.len(),
{
    if code.len() > 0 {
        let before = choose|before: Machine|
            #![auto]
            start.runs(alu, debug, code.drop_last(), before) && before.steps(
                alu,
                debug,
                code.last(),
                end,
            );
        run_changes_depth_by_net_effect(start, alu, debug, code.drop_last(), before);
    }
}

/// The run stops at the first instruction that finds fewer values than it
/// takes: every instruction before the stop finds enough, the one at the stop
/// does not, and without such an instruction the whole chunk runs.
pub proof fn executed_is_first_underflow(code: Seq<OpCode>, depth: int)
    ensures
        0 <= executed(code, depth) <= code.len(),
        forall|k: int|
            0 <= k < executed(code, depth) ==> depth + net_effect(code.take(k)) >= operands(
                #[trigger] code[k],
            ),
        executed(code, depth) < code.len() ==> depth + net_effect(
            code.take(executed(code, depth)),
        ) < operands(code[executed(code, depth)]),
    decreases code.len(),
{
    if code.len() > 0 && depth >= operands(code[0]) {
        let rest = code.drop_first();
        let below = depth - operands(code[0]) + results(code[0]);
        executed_is_first_underflow(rest, below);
        assert forall|k: int| 0 <= k <= rest.len() implies depth + net_effect(code.take(k + 1))
            == below + net_effect(#[trigger] rest.take(k)) by {
            net_effect_behind_first(code, k + 1);
            assert(code.take(k + 1).drop_first() == rest.take(k));
        }
        assert forall|k: int| 0 <= k < executed(code, depth) implies depth + net_effect(
            code.take(k),
        ) >= operands(#[trigger] code[k]) by {
            if k > 0 {
                assert(code[k] == rest[k - 1]);
            }
        }
    }
}

/// The net effect of a prefix that is not empty is that of its first
/// instruction and that of the rest.
proof fn net_effect_behind_first(code: Seq<OpCode>, k: int)
    requires
        1 <= k <= code.len(),
    ensures
        net_effect(code.take(k)) == results(code[0]) - operands(code[0]) + net_effect(
            code.take(k).drop_first(),
        ),
    decreases k,
{
    let prefix = code.take(k);
    if k == 1 {
        assert(prefix.drop_last() == Seq::<OpCode>::empty());
        assert(prefix.drop_first() == Seq::<OpCode>::empty());
    } else {
        net_effect_behind_first(code, k - 1);
        assert(prefix.drop_last() == code.take(k - 1));
        assert(prefix.drop_first().drop_last() == code.take(k - 1).drop_first());
    }
}

/// Two constants and a binary instruction behind them never underflow. Their
/// run leaves the stack as it was with one value more on top: what the
/// arithmetic unit returns for the first constant as the left-hand operand and
/// the second as the right-hand one. On an empty stack that value is then the
/// only one. A machine that is not in debug mode writes nothing.
pub proof fn binary_instruction_combines_two_constants<F: Fn(Operator, Value, Value) -> Value>(
    start: Machine,
    alu: F,
    debug: bool,
    a: Value,
    b: Value,
    op: OpCode,
    end: Machine,
)
    requires
        operator_of(op) is Some,
        start.runs(alu, debug, seq![OpCode::Constant(a), OpCode::Constant(b), op], end),
    ensures
        executed(seq![OpCode::Constant(a), OpCode::Constant(b), op], start.stack.len() as int)
            == 3,
        end.stack.len() == start.stack.len() + 1,
        end.stack.drop_last() == start.stack,
        call_ensures(alu, (operator_of(op).unwrap(), a, b), end.stack.last()),
        !debug ==> end.output == start.output,
{
    let none = Seq::<OpCode>::empty();
    let one = seq![OpCode::Constant(a)];
    let two = seq![OpCode::Constant(a), OpCode::Constant(b)];
    let all = seq![OpCode::Constant(a), OpCode::Constant(b), op];
    assert(two == one.push(OpCode::Constant(b)));
    assert(all == two.push(op));
    runs_then_steps(start, alu, debug, two, op, end);
    let second = choose|m: Machine|
        #![auto]
        start.runs(alu, debug, two, m) && m.steps(alu, debug, op, end);
    runs_then_steps(start, alu, debug, one, OpCode::Constant(b), second);
    let first = choose|m: Machine|
        #![auto]
        start.runs(alu, debug, one, m) && m.steps(alu, debug, OpCode::Constant(b), second);
    runs_then_steps(start, alu, debug, none, OpCode::Constant(a), first);
    reveal_with_fuel(executed, 4);
}

/// A constant and a negation behind it never underflow. Their run leaves the
/// stack as it was with the negated constant on top.
pub proof fn negate_flips_a_constant<F: Fn(Operator, Value, Value) -> Value>(
    start: Machine,
    alu: F,
    debug: bool,
    a: Value,
    end: Machine,
)
    requires
        start.runs(alu, debug, seq![OpCode::Constant(a), OpCode::Negate], end),
    ensures
        executed(seq![OpCode::Constant(a), OpCode::Negate], start.stack.len() as int) == 2,
        end.stack == start.stack.push(a.negated()),
        !debug ==> end.output == start.output,
{
    let none = Seq::<OpCode>::empty();
    let one = seq![OpCode::Constant(a)];
    let all = seq![OpCode::Constant(a), OpCode::Negate];
    assert(all == one.push(OpCode::Negate));
    runs_then_steps(start, alu, debug, one, OpCode::Negate, end);
    let first = choose|m: Machine|
        #![auto]
        start.runs(alu, debug, one, m) && m.steps(alu, debug, OpCode::Negate, end);
    runs_then_steps(start, alu, debug, none, OpCode::Constant(a), first);
    reveal_with_fuel(executed, 3);
}

/// On an empty stack an instruction that takes operands stops the run at
/// once, and a binary instruction behind a single constant stops it there,
/// with the constant pushed and nothing more done.
pub proof fn missing_operands_stop_the_run<F: Fn(Operator, Value, Value) -> Value>(
    start: Machine,
    alu: F,
    debug: bool,
    a: Value,
    op: OpCode,
    end: Machine,
)
    requires
        operands(op) > 0,
        start.stack.len() == 0,
    ensures
        executed(seq![op], 0) == 0,
        start.runs(alu, debug, seq![op].take(0), end) <==> end == start,
        operands(op) == 2 ==> executed(seq![OpCode::Constant(a), op], 0) == 1,
        start.runs(alu, debug, seq![OpCode::Constant(a), op].take(1), end) <==> end == start.push(
            debug,
            a,
        ),
{
    let none = Seq::<OpCode>::empty();
    let both = seq![OpCode::Constant(a), op];
    assert(both.take(1) == none.push(OpCode::Constant(a)));
    runs_then_steps(start, alu, debug, none, OpCode::Constant(a), end);
    if end == start.push(debug, a) {
        assert(start.steps(alu, debug, OpCode::Constant(a), end));
    }
    reveal_with_fuel(executed, 3);
}

/// Debug mode changes what a machine writes and nothing else: whatever stack
/// a run in one mode can end with, a run of the same instructions in the other
/// mode, from the same stack and with the same arithmetic unit, can end with
/// too.
pub proof fn debug_mode_keeps_the_stack<F: Fn(Operator, Value, Value) -> Value>(
    start: Machine,
    other: Machine,
    alu: F,
    debug: bool,
    code: Seq<OpCode>,
    end: Machine,
)
    requires
        start.runs(alu, debug, code, end),
        other.stack == start.stack,
    ensures
        exists|same: Machine|
            #![auto]
            other.runs(alu, !debug, code, same) && same.stack == end.stack,
    decreases code.len(),
{
    if code.len() > 0 {
        let op = code.last();
        let before = choose|before: Machine|
            #![auto]
            start.runs(alu, debug, code.drop_last(), before) && before.steps(alu, debug, op, end);
        debug_mode_keeps_the_stack(start, other, alu, debug, code.drop_last(), before);
        let twin = choose|twin: Machine|
            #![auto]
            other.runs(alu, !debug, code.drop_last(), twin) && twin.stack == before.stack;
        let same = match op {
            OpCode::Return => Machine {
                stack: end.stack,
                output: twin.output.push(Written::Returned(twin.peek(0))),
            },
            _ => Machine { stack: end.stack, output: twin.output }.without(1).push(
                !debug,
                end.stack.last(),
            ),
        };
        assert(same.stack == end.stack);
        assert(twin.steps(alu, !debug, op, same));
    }
}

} // verus!
