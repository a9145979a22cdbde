use vstd::prelude::*;

use crate::opcode::{decode_spec, Opcode};
use crate::runtime::{is_default, Runtime, VmError};

verus! {

/// What one step of the interpreter ended in.
pub enum Step<V, E> {
    /// The instruction ran; the machine keeps going.
    Continue,
    /// `Halt` ran; it carries the value popped from the top of the stack, if
    /// the stack was not empty.
    Halt(Option<V>),
    /// The instruction failed with this error.
    Fail(E),
}

/// The abstract state of an interpreter: the runtime, the program, the
/// operand stack (top last) and the instruction pointer.
pub struct Machine<R: Runtime> {
    pub runtime: R,
    pub code: Seq<u8>,
    pub consts: Seq<R::Constant>,
    pub stack: Seq<R::Value>,
    pub ip: int,
}

impl<R: Runtime> Machine<R> {
    /// The same program and constants with a new runtime, stack and
    /// instruction pointer.
    pub open spec fn with(self, runtime: R, stack: Seq<R::Value>, ip: int) -> Machine<R> {
        Machine { runtime, code: self.code, consts: self.consts, stack, ip }
    }

    /// The machine after the instruction at `ip`, and how that step ended.
    pub open spec fn step(self) -> (Machine<R>, Step<R::Value, R::Error>) {
        if !(0 <= self.ip < self.code.len()) {
            (self, Step::Fail(R::Error::spec_decode_error()))
        } else {
            let next = self.ip + 1;
            let n = self.stack.len();
            match decode_spec(self.code[self.ip]) {
                None => (self.with(self.runtime, self.stack, next), Step::Fail(
                    R::Error::spec_decode_error(),
                )),
                Some(Opcode::Halt) => if n == 0 {
                    (self.with(self.runtime, self.stack, next), Step::Halt(None))
                } else {
                    (
                        self.with(self.runtime, self.stack.drop_last(), next),
                        Step::Halt(Some(self.stack.last())),
                    )
                },
                Some(Opcode::Add) => self.binary(false),
                Some(Opcode::Sub) => self.binary(true),
                Some(Opcode::Constant) => if next >= self.code.len() {
                    (self.with(self.runtime, self.stack, next), Step::Fail(
                        R::Error::spec_decode_error(),
                    ))
                } else {
                    let idx = self.code[next] as int;
                    if idx >= self.consts.len() {
                        (self.with(self.runtime, self.stack, next + 1), Step::Fail(
                            R::Error::spec_index_out_of_range(),
                        ))
                    } else {
                        let (rt, res) = self.runtime.spec_constant(self.consts[idx]);
                        match res {
                            Ok(v) => (self.with(rt, self.stack.push(v), next + 1), Step::Continue),
                            Err(e) => (self.with(rt, self.stack, next + 1), Step::Fail(e)),
                        }
                    }
                },
            }
        }
    }

    /// `Add` (or `Sub`, when `is_sub`) at `ip`: the top of the stack is the
    /// first operand, the value below it the second.
    pub open spec fn binary(self, is_sub: bool) -> (Machine<R>, Step<R::Value, R::Error>) {
        let next = self.ip + 1;
        let n = self.stack.len();
        if n < 2 {
            (self.with(self.runtime, self.stack, next), Step::Fail(
                R::Error::spec_stack_underflow(),
            ))
        } else {
            let a = self.stack[n - 1];
            let b = self.stack[n - 2];
            let rest = self.stack.subrange(0, n - 2);
            let (rt, res) = if is_sub {
                self.runtime.spec_sub(a, b)
            } else {
                self.runtime.spec_add(a, b)
            };
            match res {
                Ok(v) => (self.with(rt, rest.push(v), next), Step::Continue),
                Err(e) => (self.with(rt, rest, next), Step::Fail(e)),
            }
        }
    }

    /// Runs the machine until it halts or fails: the final runtime and either
    /// the top of the stack at `Halt` (`None` when it was empty) or the error.
    pub open spec fn run(self) -> (R, Result<Option<R::Value>, R::Error>)
        decreases self.code.len() - self.ip,
    {
        let (m, s) = self.step();
        match s {
            Step::Continue => m.run(),
            Step::Halt(top) => (m.runtime, Ok(top)),
            Step::Fail(e) => (m.runtime, Err(e)),
        }
    }
}


/// An interpreter over one program: it owns the runtime and the operand
/// stack, and borrows the bytecode and the constant table.
pub struct Vm<'a, T: Runtime> {
    runtime: T,
    bytecode: &'a [u8],
    stack: Vec<T::Value>,
    constant_table: &'a [T::Constant],
    ip: usize,
    sp: usize,
}

impl<'a, T: Runtime> View for Vm<'a, T> {
    type V = Machine<T>;

    closed spec fn view(&self) -> Machine<T> {
        Machine {
            runtime: self.runtime,
            code: self.bytecode@,
            consts: self.constant_table@,
            stack: self.stack@,
            ip: self.ip as int,
        }
    }
}

impl<'a, T: Runtime> Vm<'a, T> {
    /// The stack-pointer counter always equals the length of the stack.
    pub closed spec fn wf(&self) -> bool {
        self.sp == self.stack@.len()
    }

    /// The stack-pointer counter: the number of values on the stack.
    pub fn sp(&self) -> (r: usize)
        requires
            self.wf(),
        ensures
            r == self@.stack.len(),
    {
        self.sp
    }

    /// The position of the next byte to fetch.
    pub fn ip(&self) -> (r: usize)
        ensures
            r == self@.ip,
    {
        self.ip
    }

    /// An interpreter at the start of `bytecode`, with an empty stack.
    pub fn new(runtime: T, bytecode: &'a [u8], constant_table: &'a [T::Constant]) -> (r: Self)
        ensures
            r.wf(),
            r@ == (Machine {
                runtime,
                code: bytecode@,
                consts: constant_table@,
                stack: Seq::<T::Value>::empty(),
                ip: 0,
            }),
    {
        Vm { runtime, bytecode, constant_table, stack: Vec::new(), ip: 0, sp: 0 }
    }

    fn pop(&mut self) -> (r: Result<T::Value, T::Error>)
        requires
            old(self).wf(),
        ensures
            final(self).wf(),
            old(self)@.stack.len() == 0 ==> r == Err::<T::Value, T::Error>(
                T::Error::spec_stack_underflow(),
            ) && final(self)@ == old(self)@,
            old(self)@.stack.len() > 0 ==> r == Ok::<T::Value, T::Error>(old(self)@.stack.last())
                && final(self)@ == old(self)@.with(
                old(self)@.runtime,
                old(self)@.stack.drop_last(),
                old(self)@.ip,
            ),
    {
        match self.stack.pop() {
            Some(v) => {
                self.sp = self.stack.len();
                Ok(v)
            },
            None => Err(T::Error::stack_underflow()),
        }
    }

    fn push(&mut self, value: T::Value)
        requires
            old(self).wf(),
        ensures
            final(self).wf(),
            final(self)@ == old(self)@.with(
                old(self)@.runtime,
                old(self)@.stack.push(value),
                old(self)@.ip,
            ),
    {
        self.stack.push(value);
        self.sp = self.stack.len();
    }

    /// Fetches the byte at the instruction pointer and advances past it;
    /// `None`, with nothing changed, at the end of the bytecode.
    fn next_byte(&mut self) -> (r: Option<u8>)
        requires
            old(self).wf(),
        ensures
            final(self).wf(),
            old(self)@.ip < old(self)@.code.len() ==> r == Some(old(self)@.code[old(self)@.ip])
                && final(self)@ == old(self)@.with(
                old(self)@.runtime,
                old(self)@.stack,
                old(self)@.ip + 1,
            ),
            old(self)@.ip >= old(self)@.code.len() ==> r is None && final(self)@ == old(self)@,
    {
        if self.ip < self.bytecode.len() {
            let byte = self.bytecode[self.ip];
            self.ip = self.ip + 1;
            Some(byte)
        } else {
            None
        }
    }

    /// Fetches and decodes the opcode at the instruction pointer.
    fn next_instruction(&mut self) -> (r: Result<Opcode, T::Error>)
        requires
            old(self).wf(),
        ensures
            final(self).wf(),
            old(self)@.ip < old(self)@.code.len() ==> final(self)@ == old(self)@.with(
                old(self)@.runtime,
                old(self)@.stack,
                old(self)@.ip + 1,
            ) && r == match decode_spec(old(self)@.code[old(self)@.ip]) {
                Some(op) => Ok::<Opcode, T::Error>(op),
                None => Err(T::Error::spec_decode_error()),
            },
            old(self)@.ip >= old(self)@.code.len() ==> final(self)@ == old(self)@ && r == Err::<
                Opcode,
                T::Error,
            >(T::Error::spec_decode_error()),
    {
        match self.next_byte() {
            Some(byte) => match Opcode::decode(byte) {
                Some(op) => Ok(op),
                None => Err(T::Error::decode_error()),
            },
            None => Err(T::Error::decode_error()),
        }
    }

    /// Pops the two operands of `Add` or `Sub` (the top first), hands them to
    /// the runtime in that order and pushes the result. With fewer than two
    /// values on the stack it fails with a stack underflow and leaves the
    /// stack as it was.
    fn binary(&mut self, is_sub: bool) -> (r: Step<T::Value, T::Error>)
        requires
            old(self).wf(),
        ensures
            final(self).wf(),
            (final(self)@, r) == (Machine { ip: old(self)@.ip - 1, ..old(self)@ }).binary(is_sub),
    {
        if self.stack.len() < 2 {
            return Step::Fail(T::Error::stack_underflow());
        }
        let ghost s = self@.stack;
        let a = match self.pop() {
            Ok(v) => v,
            Err(e) => return Step::Fail(e),
        };
        let b = match self.pop() {
            Ok(v) => v,
            Err(e) => return Step::Fail(e),
        };
        assert(self@.stack =~= s.subrange(0, s.len() - 2));
        let res = if is_sub {
            self.runtime.sub(a, b)
        } else {
            self.runtime.add(a, b)
        };
        match res {
            Ok(v) => {
                self.push(v);
                Step::Continue
            },
            Err(e) => Step::Fail(e),
        }
    }

    /// Executes the instruction at the instruction pointer.
    pub fn step(&mut self) -> (r: Step<T::Value, T::Error>)
        requires
            old(self).wf(),
        ensures
            final(self).wf(),
            (final(self)@, r) == old(self)@.step(),
    {
        let op = match self.next_instruction() {
            Ok(op) => op,
            Err(e) => return Step::Fail(e),
        };
        match op {
            Opcode::Halt => {
                let top = self.stack.pop();
                self.sp = self.stack.len();
                Step::Halt(top)
            },
            Opcode::Add => self.binary(false),
            Opcode::Sub => self.binary(true),
            Opcode::Constant => {
                let idx = match self.next_byte() {
                    Some(b) => b as usize,
                    None => return Step::Fail(T::Error::decode_error()),
                };
                if idx >= self.constant_table.len() {
                    return Step::Fail(T::Error::index_out_of_range());
                }
                let res = self.runtime.constant(&self.constant_table[idx]);
                match res {
                    Ok(v) => {
                        self.push(v);
                        Step::Continue
                    },
                    Err(e) => Step::Fail(e),
                }
            },
        }
    }

    /// Runs the program until `Halt` or an error. At `Halt` the result is the
    /// top of the stack, or the value type's default when the stack is empty;
    /// any error ends the run and is returned unchanged.
    pub fn run(&mut self) -> (r: Result<T::Value, T::Error>)
        requires
            old(self).wf(),
        ensures
            final(self).wf(),
            final(self)@.runtime == old(self)@.run().0,
            match old(self)@.run().1 {
                Ok(Some(v)) => r == Ok::<T::Value, T::Error>(v),
                Ok(None) => r is Ok && is_default(r->Ok_0),
                Err(e) => r == Err::<T::Value, T::Error>(e),
            },
    {
        loop
            invariant
                self.wf(),
                self@.run() == old(self)@.run(),
            decreases self@.code.len() - self@.ip,
        {
            match self.step() {
                Step::Continue => {},
                Step::Halt(top) => {
                    return match top {
                        Some(v) => Ok(v),
                        None => Ok(T::Value::default()),
                    };
                },
                Step::Fail(e) => return Err(e),
            }
        }
    }
}


impl<R: Runtime> Machine<R> {
    /// The machine after `n` steps, each of which continued; `None` when the
    /// machine halted or failed before that.
    pub open spec fn steps(self, n: nat) -> Option<Machine<R>>
        decreases n,
    {
        if n == 0 {
            Some(self)
        } else {
            let (m, s) = self.step();
            match s {
                Step::Continue => m.steps((n - 1) as nat),
                _ => None,
            }
        }
    }

    /// The instruction at `ip` is the byte `b`.
    pub open spec fn at(self, b: u8) -> bool {
        0 <= self.ip < self.code.len() && self.code[self.ip] == b
    }
}

/// A run that reaches `Halt` with a non-empty stack ends with the value on top
/// of the stack at that moment.
pub proof fn lemma_halt_returns_top<R: Runtime>(m: Machine<R>, n: nat, h: Machine<R>)
    requires
        m.steps(n) == Some(h),
        h.at(0),
        h.stack.len() > 0,
    ensures
        m.run() == (h.runtime, Ok::<Option<R::Value>, R::Error>(Some(h.stack.last()))),
    decreases n,
{
    if n > 0 {
        let (m1, s) = m.step();
        lemma_halt_returns_top(m1, (n - 1) as nat, h);
    }
}

/// A program that is only `Halt` ends on an empty stack, so the run returns
/// the value type's default.
pub proof fn lemma_halt_only<R: Runtime>(runtime: R, consts: Seq<R::Constant>)
    ensures
        (Machine { runtime, code: seq![0u8], consts, stack: Seq::empty(), ip: 0 }).run() == (
            runtime,
            Ok::<Option<R::Value>, R::Error>(None),
        ),
{
    let m = Machine { runtime, code: seq![0u8], consts, stack: Seq::<R::Value>::empty(), ip: 0 };
    assert(decode_spec(m.code[0]) == Some(Opcode::Halt));
}

/// `Add` and `Sub` hand the most recently pushed value to the runtime as the
/// first operand and the value below it as the second.
pub proof fn lemma_operand_order<R: Runtime>(m: Machine<R>)
    requires
        m.at(1) || m.at(2),
        m.stack.len() >= 2,
    ensures
        ({
            let n = m.stack.len();
            let (rt, res) = if m.at(2) {
                m.runtime.spec_sub(m.stack[n - 1], m.stack[n - 2])
            } else {
                m.runtime.spec_add(m.stack[n - 1], m.stack[n - 2])
            };
            let rest = m.stack.subrange(0, n - 2);
            m.step() == match res {
                Ok(v) => (m.with(rt, rest.push(v), m.ip + 1), Step::<R::Value, R::Error>::Continue),
                Err(e) => (m.with(rt, rest, m.ip + 1), Step::Fail(e)),
            }
        }),
{
}

/// Pushing the constants `x` and then `y` and subtracting computes
/// `sub(y, x)`: the top of the stack is the left operand.
pub proof fn lemma_sub_program<R: Runtime>(
    runtime: R,
    consts: Seq<R::Constant>,
    i: u8,
    j: u8,
    rt1: R,
    x: R::Value,
    rt2: R,
    y: R::Value,
)
    requires
        i < consts.len(),
        j < consts.len(),
        runtime.spec_constant(consts[i as int]) == (rt1, Ok::<R::Value, R::Error>(x)),
        rt1.spec_constant(consts[j as int]) == (rt2, Ok::<R::Value, R::Error>(y)),
    ensures
        (Machine {
            runtime,
            code: seq![3u8, i, 3u8, j, 2u8, 0u8],
            consts,
            stack: Seq::empty(),
            ip: 0,
        }).run() == match rt2.spec_sub(y, x) {
            (rt3, Ok(v)) => (rt3, Ok::<Option<R::Value>, R::Error>(Some(v))),
            (rt3, Err(e)) => (rt3, Err(e)),
        },
{
    let code = seq![3u8, i, 3u8, j, 2u8, 0u8];
    let m0 = Machine { runtime, code, consts, stack: Seq::<R::Value>::empty(), ip: 0 };
    assert(decode_spec(code[0]) == Some(Opcode::Constant));
    assert(decode_spec(code[2]) == Some(Opcode::Constant));
    assert(decode_spec(code[4]) == Some(Opcode::Sub));
    assert(decode_spec(code[5]) == Some(Opcode::Halt));
    let m1 = m0.step().0;
    assert(m1.stack =~= seq![x]);
    let m2 = m1.step().0;
    assert(m2.stack =~= seq![x, y]);
    assert(m2.stack.subrange(0, 0) =~= Seq::<R::Value>::empty());
    let m3 = m2.step().0;
    let (rt3, res) = rt2.spec_sub(y, x);
    if let Ok(v) = res {
        assert(m3.stack =~= seq![v]);
        assert(m3.run() == (rt3, Ok::<Option<R::Value>, R::Error>(Some(v))));
    }
    assert(m1.run() == m2.run());
    assert(m0.run() == m1.run());
}

/// `Add` or `Sub` on fewer than two values fails with a stack underflow and
/// leaves the stack and the runtime as they were.
pub proof fn lemma_binary_underflow<R: Runtime>(m: Machine<R>)
    requires
        m.at(1) || m.at(2),
        m.stack.len() < 2,
    ensures
        m.step() == (
            m.with(m.runtime, m.stack, m.ip + 1),
            Step::<R::Value, R::Error>::Fail(R::Error::spec_stack_underflow()),
        ),
        m.run() == (m.runtime, Err::<Option<R::Value>, R::Error>(R::Error::spec_stack_underflow())),
{
}

/// A `Constant` whose operand is not an index of the constant table fails
/// with an index error and pushes nothing.
pub proof fn lemma_constant_out_of_range<R: Runtime>(m: Machine<R>)
    requires
        m.at(3),
        m.ip + 1 < m.code.len(),
        m.code[m.ip + 1] >= m.consts.len(),
    ensures
        m.step() == (
            m.with(m.runtime, m.stack, m.ip + 2),
            Step::<R::Value, R::Error>::Fail(R::Error::spec_index_out_of_range()),
        ),
        m.run() == (m.runtime, Err::<Option<R::Value>, R::Error>(
            R::Error::spec_index_out_of_range(),
        )),
{
}

/// A byte outside `0..=3` where an opcode is expected fails with a decode
/// error.
pub proof fn lemma_invalid_opcode<R: Runtime>(m: Machine<R>)
    requires
        0 <= m.ip < m.code.len(),
        m.code[m.ip] > 3,
    ensures
        m.step() == (
            m.with(m.runtime, m.stack, m.ip + 1),
            Step::<R::Value, R::Error>::Fail(R::Error::spec_decode_error()),
        ),
        m.run() == (m.runtime, Err::<Option<R::Value>, R::Error>(R::Error::spec_decode_error())),
{
}

} // verus!
