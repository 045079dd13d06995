//! Uniforms: the inputs of a shader that are uploaded into registers, and
//! the rule that keeps every upload inside the register bank of its kind.

use vstd::prelude::*;
use std::ops::Range;
use crate::command::Command;
use crate::math::{FVec4, IVec, Matrix4};
use crate::shader;
use crate::Instance;

verus! {

/// The position of a register among the uniform registers of one stage.
#[derive(Copy, Clone, Debug, PartialEq, Eq, Structural, PartialOrd, Ord)]
pub struct Index(pub u8);

impl View for Index {
    type V = int;

    open spec fn view(&self) -> int {
        self.0 as int
    }
}

impl From<u8> for Index {
    fn from(value: u8) -> (index: Index) {
        Index(value)
    }
}

impl vstd::std_specs::convert::FromSpecImpl<u8> for Index {
    open spec fn obeys_from_spec() -> bool {
        true
    }

    open spec fn from_spec(value: u8) -> Index {
        Index(value)
    }
}

impl From<Index> for i32 {
    fn from(value: Index) -> (number: i32) {
        value.0 as i32
    }
}

impl vstd::std_specs::convert::FromSpecImpl<Index> for i32 {
    open spec fn obeys_from_spec() -> bool {
        true
    }

    open spec fn from_spec(value: Index) -> i32 {
        value.0 as i32
    }
}

/// The three classes of uniform registers. Each class has a range of
/// positions of its own.
#[derive(Clone, Copy, Debug, PartialEq, Eq, Structural)]
pub enum Bank {
    /// Registers that hold four floating-point components.
    Float,
    /// Registers that hold four packed integer components.
    Int,
    /// Registers that hold one boolean.
    Bool,
}

impl Bank {
    /// The first position of the bank.
    pub open spec fn start(self) -> int {
        match self {
            Bank::Float => 0x00,
            Bank::Int => 0x60,
            Bank::Bool => 0x68,
        }
    }

    /// The position after the last one of the bank.
    pub open spec fn end(self) -> int {
        match self {
            Bank::Float => 0x60,
            Bank::Int => 0x64,
            Bank::Bool => 0x79,
        }
    }

    /// Whether `index` is a position of the bank.
    pub open spec fn contains(self, index: int) -> bool {
        self.start() <= index < self.end()
    }

    /// No position belongs to two banks.
    pub proof fn lemma_disjoint(a: Bank, b: Bank, index: int)
        requires
            a != b,
        ensures
            !(a.contains(index) && b.contains(index)),
    {
    }
}

/// Why a run of registers cannot be written.
#[derive(Clone, Copy, Debug, PartialEq, Eq, Structural)]
pub enum BindError {
    /// The first register lies outside the range.
    IndexOutOfRange,
    /// The first register lies inside the range and the last one would not.
    Overflow,
}

/// Whether `len` registers from `index` on all lie in `start..end`.
pub open spec fn span_fits(start: int, end: int, len: int, index: int) -> bool {
    start <= index < end && index + len <= end
}

/// What [`check_span`] answers for a run of `len` registers from `index` on
/// and the range `start..end`.
pub open spec fn span_check(start: int, end: int, len: int, index: int) -> Result<(), BindError> {
    if !(start <= index < end) {
        Err(BindError::IndexOutOfRange)
    } else if index + len > end {
        Err(BindError::Overflow)
    } else {
        Ok(())
    }
}

/// Tests whether `len` registers from `index` on all lie in `range`.
pub fn check_span(range: &Range<Index>, len: usize, index: Index) -> (result: Result<
    (),
    BindError,
>)
    ensures
        result == span_check(range.start@, range.end@, len as int, index@),
        result is Ok <==> span_fits(range.start@, range.end@, len as int, index@),
{
    if !(range.start.0 <= index.0 && index.0 < range.end.0) {
        Err(BindError::IndexOutOfRange)
    } else if len > (range.end.0 - index.0) as usize {
        Err(BindError::Overflow)
    } else {
        Ok(())
    }
}

/// A value that can be uploaded into the uniform registers of a shader.
///
/// Floating-point components are 32-bit words, as in [`crate::math`].
pub enum Uniform {
    /// One floating-point register.
    Float(FVec4),
    /// Two consecutive floating-point registers.
    Float2([FVec4; 2]),
    /// Three consecutive floating-point registers.
    Float3([FVec4; 3]),
    /// A matrix: four consecutive floating-point registers, one for each row.
    Float4(Matrix4),
    /// One boolean register.
    Bool(bool),
    /// One integer register.
    Int(IVec),
}

/// The write of the components of `value` into the floating-point register
/// `index` of `stage`.
pub open spec fn float_write(stage: shader::Type, index: int, value: FVec4) -> Command {
    Command::FloatUniform {
        stage,
        index: index as i32,
        x: value.x(),
        y: value.y(),
        z: value.z(),
        w: value.w(),
    }
}

/// The writes of `values` into consecutive floating-point registers of
/// `stage`, the first of them into the register `index`.
pub open spec fn float_writes(stage: shader::Type, index: int, values: Seq<FVec4>) -> Seq<Command> {
    Seq::new(values.len(), |k: int| float_write(stage, index + k, values[k]))
}

impl Uniform {
    /// The bank whose registers hold a value of this kind.
    pub open spec fn bank(&self) -> Bank {
        match self {
            Uniform::Float(_) | Uniform::Float2(_) | Uniform::Float3(_) | Uniform::Float4(_) => {
                Bank::Float
            },
            Uniform::Int(_) => Bank::Int,
            Uniform::Bool(_) => Bank::Bool,
        }
    }

    /// The number of registers that the value fills.
    pub open spec fn spec_len(&self) -> nat {
        match self {
            Uniform::Float(_) => 1,
            Uniform::Float2(_) => 2,
            Uniform::Float3(_) => 3,
            Uniform::Float4(_) => 4,
            Uniform::Bool(_) => 1,
            Uniform::Int(_) => 1,
        }
    }

    /// The values of the floating-point registers that the value fills, in
    /// the order of the registers. A matrix gives its rows, first row first.
    /// Empty for a boolean and for an integer value.
    pub open spec fn registers(&self) -> Seq<FVec4> {
        match self {
            Uniform::Float(f) => seq![*f],
            Uniform::Float2(fs) => fs@,
            Uniform::Float3(fs) => fs@,
            Uniform::Float4(m) => Seq::new(4, |k: int| m.row(k)),
            Uniform::Bool(_) => Seq::empty(),
            Uniform::Int(_) => Seq::empty(),
        }
    }

    /// Whether the value can be bound at `index`: the position belongs to the
    /// bank of the value, and so do the positions of all registers that the
    /// value fills.
    pub open spec fn accepts(&self, index: int) -> bool {
        span_fits(self.bank().start(), self.bank().end(), self.spec_len() as int, index)
    }

    /// The register writes that bind the value at `index` of `stage`, in the
    /// order in which they are issued.
    pub open spec fn writes(&self, stage: shader::Type, index: int) -> Seq<Command> {
        match self {
            Uniform::Bool(b) => seq![Command::BoolUniform { stage, index: index as i32, value: *b }],
            Uniform::Int(i) => seq![
                Command::IntUniform {
                    stage,
                    index: index as i32,
                    x: i.x() as i32,
                    y: i.y() as i32,
                    z: i.z() as i32,
                    w: i.w() as i32,
                },
            ],
            _ => float_writes(stage, index, self.registers()),
        }
    }

    /// A value can be bound exactly at the positions from the start of its
    /// bank up to the last one from which all its registers still lie in
    /// the bank.
    pub proof fn lemma_accepted_positions(&self, index: int)
        ensures
            self.accepts(index) <==> self.bank().start() <= index <= self.bank().end()
                - self.spec_len(),
    {
    }

    /// The last position from which all registers still lie in the bank set
    /// aside, a value can be bound exactly at the positions from the start
    /// of its bank up to that one.
    pub proof fn lemma_accepted_below_last(&self, index: int)
        requires
            index != self.bank().end() - self.spec_len(),
        ensures
            self.accepts(index) <==> self.bank().start() <= index < self.bank().end()
                - self.spec_len(),
    {
    }

    /// Binding issues one write for each register that the value fills. For
    /// a value of the floating-point bank, write `k` goes into the register
    /// `index + k` and carries the components of register value `k`; for a
    /// matrix that is row `k`. All these registers lie in the bank.
    pub proof fn lemma_one_write_per_register(&self, stage: shader::Type, index: int)
        requires
            self.accepts(index),
        ensures
            self.writes(stage, index).len() == self.spec_len(),
            self.bank() == Bank::Float ==> forall|k: int|
                0 <= k < self.spec_len() ==> {
                    &&& self.bank().contains(index + k)
                    &&& #[trigger] self.writes(stage, index)[k] == (Command::FloatUniform {
                        stage,
                        index: (index + k) as i32,
                        x: self.registers()[k].x(),
                        y: self.registers()[k].y(),
                        z: self.registers()[k].z(),
                        w: self.registers()[k].w(),
                    })
                },
            self matches Uniform::Float4(m) ==> forall|k: int|
                0 <= k < 4 ==> #[trigger] self.registers()[k] == m.row(k),
    {
    }

    /// The range of positions at which a value of this kind can start.
    pub fn index_range(&self) -> (range: Range<Index>)
        ensures
            range.start@ == self.bank().start(),
            range.end@ == self.bank().end(),
    {
        match self {
            Uniform::Float(_) | Uniform::Float2(_) | Uniform::Float3(_) | Uniform::Float4(_) => {
                Index(0)..Index(0x60)
            },
            Uniform::Int(_) => Index(0x60)..Index(0x64),
            // 0x64 to 0x67 belong to no bank
            Uniform::Bool(_) => Index(0x68)..Index(0x79),
        }
    }

    /// The number of registers that the value fills.
    pub fn len(&self) -> (len: usize)
        ensures
            len == self.spec_len(),
    {
        match self {
            Uniform::Float(_) => 1,
            Uniform::Float2(_) => 2,
            Uniform::Float3(_) => 3,
            Uniform::Float4(_) => 4,
            Uniform::Bool(_) | Uniform::Int(_) => 1,
        }
    }

    /// Tests whether the value can be bound at `index`, and says why not.
    pub fn check_index(&self, index: Index) -> (result: Result<(), BindError>)
        ensures
            result == span_check(
                self.bank().start(),
                self.bank().end(),
                self.spec_len() as int,
                index@,
            ),
            result is Ok <==> self.accepts(index@),
    {
        let range = self.index_range();
        check_span(&range, self.len(), index)
    }

    /// Binds the value at `index` of the stage `ty`: issues its register
    /// writes through `instance`, and nothing else.
    pub fn bind(self, instance: &mut Instance, ty: shader::Type, index: Index)
        requires
            self.accepts(index@),
        ensures
            final(instance)@ == old(instance)@.issue_all(self.writes(ty, index@)),
    {
        match self {
            Uniform::Bool(b) => {
                instance.issue(Command::BoolUniform { stage: ty, index: index.0 as i32, value: b });
                assert(instance@.commands =~= old(instance)@.commands + self.writes(ty, index@));
            },
            Uniform::Int(i) => {
                instance.issue(
                    Command::IntUniform {
                        stage: ty,
                        index: index.0 as i32,
                        x: i.x() as i32,
                        y: i.y() as i32,
                        z: i.z() as i32,
                        w: i.w() as i32,
                    },
                );
                assert(instance@.commands =~= old(instance)@.commands + self.writes(ty, index@));
            },
            Uniform::Float(f) => {
                let fs = [f];
                assert(fs@ =~= self.registers());
                set_fvs(instance, ty, index, &fs);
            },
            Uniform::Float2(fs) => {
                set_fvs(instance, ty, index, &fs);
            },
            Uniform::Float3(fs) => {
                set_fvs(instance, ty, index, &fs);
            },
            Uniform::Float4(m) => {
                let rows = m.rows_wzyx();
                assert(rows@ =~= self.registers());
                set_fvs(instance, ty, index, &rows);
            },
        }
    }

    /// Binds the value at `index` of the stage `ty` where it can be bound
    /// there, as [`Uniform::bind`] does. Where it cannot, nothing is issued
    /// and the result says why.
    pub fn try_bind(self, instance: &mut Instance, ty: shader::Type, index: Index) -> (result:
        Result<(), BindError>)
        ensures
            result == span_check(
                self.bank().start(),
                self.bank().end(),
                self.spec_len() as int,
                index@,
            ),
            result is Ok <==> self.accepts(index@),
            result is Ok ==> final(instance)@ == old(instance)@.issue_all(
                self.writes(ty, index@),
            ),
            result is Err ==> final(instance)@ == old(instance)@,
    {
        match self.check_index(index) {
            Ok(()) => {
                self.bind(instance, ty, index);
                Ok(())
            },
            Err(error) => Err(error),
        }
    }
}

impl From<Matrix4> for Uniform {
    fn from(value: Matrix4) -> (uniform: Uniform) {
        Uniform::Float4(value)
    }
}

impl vstd::std_specs::convert::FromSpecImpl<Matrix4> for Uniform {
    open spec fn obeys_from_spec() -> bool {
        true
    }

    open spec fn from_spec(value: Matrix4) -> Uniform {
        Uniform::Float4(value)
    }
}

impl From<[FVec4; 3]> for Uniform {
    fn from(value: [FVec4; 3]) -> (uniform: Uniform) {
        Uniform::Float3(value)
    }
}

impl vstd::std_specs::convert::FromSpecImpl<[FVec4; 3]> for Uniform {
    open spec fn obeys_from_spec() -> bool {
        true
    }

    open spec fn from_spec(value: [FVec4; 3]) -> Uniform {
        Uniform::Float3(value)
    }
}

impl From<[FVec4; 2]> for Uniform {
    fn from(value: [FVec4; 2]) -> (uniform: Uniform) {
        Uniform::Float2(value)
    }
}

impl vstd::std_specs::convert::FromSpecImpl<[FVec4; 2]> for Uniform {
    open spec fn obeys_from_spec() -> bool {
        true
    }

    open spec fn from_spec(value: [FVec4; 2]) -> Uniform {
        Uniform::Float2(value)
    }
}

impl From<FVec4> for Uniform {
    fn from(value: FVec4) -> (uniform: Uniform) {
        Uniform::Float(value)
    }
}

impl vstd::std_specs::convert::FromSpecImpl<FVec4> for Uniform {
    open spec fn obeys_from_spec() -> bool {
        true
    }

    open spec fn from_spec(value: FVec4) -> Uniform {
        Uniform::Float(value)
    }
}

impl From<IVec> for Uniform {
    fn from(value: IVec) -> (uniform: Uniform) {
        Uniform::Int(value)
    }
}

impl vstd::std_specs::convert::FromSpecImpl<IVec> for Uniform {
    open spec fn obeys_from_spec() -> bool {
        true
    }

    open spec fn from_spec(value: IVec) -> Uniform {
        Uniform::Int(value)
    }
}

impl From<bool> for Uniform {
    fn from(value: bool) -> (uniform: Uniform) {
        Uniform::Bool(value)
    }
}

impl vstd::std_specs::convert::FromSpecImpl<bool> for Uniform {
    open spec fn obeys_from_spec() -> bool {
        true
    }

    open spec fn from_spec(value: bool) -> Uniform {
        Uniform::Bool(value)
    }
}

impl From<&Matrix4> for Uniform {
    fn from(value: &Matrix4) -> (uniform: Uniform) {
        Uniform::Float4(*value)
    }
}

impl vstd::std_specs::convert::FromSpecImpl<&Matrix4> for Uniform {
    open spec fn obeys_from_spec() -> bool {
        true
    }

    open spec fn from_spec(value: &Matrix4) -> Uniform {
        Uniform::Float4(*value)
    }
}

/// Issues the writes of `fs` into consecutive floating-point registers, the
/// first of them into the register `index`.
fn set_fvs<const N: usize>(instance: &mut Instance, ty: shader::Type, index: Index, fs: &[FVec4; N])
    requires
        index@ + N <= i32::MAX,
    ensures
        final(instance)@ == old(instance)@.issue_all(float_writes(ty, index@, fs@)),
{
    let mut off: usize = 0;
    while off < N
        invariant
            off <= N,
            index@ + N <= i32::MAX,
            instance@ == old(instance)@.issue_all(float_writes(ty, index@, fs@.take(off as int))),
        decreases N - off,
    {
        let f = fs[off];
        instance.issue(
            Command::FloatUniform {
                stage: ty,
                index: (index.0 as usize + off) as i32,
                x: f.x(),
                y: f.y(),
                z: f.z(),
                w: f.w(),
            },
        );
        assert(float_writes(ty, index@, fs@.take(off as int)).push(
            float_write(ty, index@ + off, fs@[off as int]),
        ) =~= float_writes(ty, index@, fs@.take(off + 1)));
        assert(instance@.commands =~= old(instance)@.commands + float_writes(
            ty,
            index@,
            fs@.take(off + 1),
        ));
        off += 1;
    }
    assert(fs@.take(N as int) =~= fs@);
}

} // verus!
