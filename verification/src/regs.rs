//! The register model: classes, physical and virtual registers, and the
//! fixed caller-saved / callee-saved partition of this target's two
//! 32-register files.

use vstd::prelude::*;
use crate::types::Type;

verus! {

/// A register class. The integer and float files each hold 32 registers,
/// indexed by hardware encoding.
#[derive(Clone, Copy, PartialEq, Eq, Structural, Debug)]
pub enum RegClass {
    Int,
    Float,
}

impl RegClass {
    /// The class's position in the combined physical-register index space.
    pub open spec fn spec_index(self) -> int {
        match self {
            RegClass::Int => 0,
            RegClass::Float => 1,
        }
    }
}

/// The register class that carries values of a given type.
pub open spec fn spec_class_of_type(ty: Type) -> RegClass {
    if ty.spec_is_float() {
        RegClass::Float
    } else {
        RegClass::Int
    }
}

pub fn class_of_type(ty: Type) -> (r: RegClass)
    ensures
        r == spec_class_of_type(ty),
{
    if ty.is_float() {
        RegClass::Float
    } else {
        RegClass::Int
    }
}

/// The canonical full-width type for a register class.
pub open spec fn spec_canonical_type_for_class(class: RegClass) -> Type {
    match class {
        RegClass::Int => Type::I64,
        RegClass::Float => Type::F64,
    }
}

pub fn canonical_type_for_class(class: RegClass) -> (r: Type)
    ensures
        r == spec_canonical_type_for_class(class),
{
    match class {
        RegClass::Int => Type::I64,
        RegClass::Float => Type::F64,
    }
}

/// A physical register: a class and a hardware encoding below 32.
#[derive(Clone, Copy, PartialEq, Eq, Structural, Debug)]
pub struct RealReg {
    pub class: RegClass,
    pub enc: u8,
}

impl RealReg {
    pub open spec fn well_formed(self) -> bool {
        self.enc < 32
    }
}

/// A virtual register handed out while lowering one function.
#[derive(Clone, Copy, PartialEq, Eq, Structural, Debug)]
pub struct VirtualReg {
    pub class: RegClass,
    pub index: u32,
}

/// A register operand: either a physical register or a virtual one.
#[derive(Clone, Copy, PartialEq, Eq, Structural, Debug)]
pub enum Reg {
    Real(RealReg),
    Virtual(VirtualReg),
}

impl Reg {
    pub open spec fn spec_class(self) -> RegClass {
        match self {
            Reg::Real(r) => r.class,
            Reg::Virtual(v) => v.class,
        }
    }

    #[verifier::when_used_as_spec(spec_class)]
    pub fn class(self) -> (r: RegClass)
        ensures
            r == self.spec_class(),
    {
        match self {
            Reg::Real(r) => r.class,
            Reg::Virtual(v) => v.class,
        }
    }

    pub open spec fn spec_to_real_reg(self) -> Option<RealReg> {
        match self {
            Reg::Real(r) => Some(r),
            Reg::Virtual(_) => None,
        }
    }

    #[verifier::when_used_as_spec(spec_to_real_reg)]
    pub fn to_real_reg(self) -> (r: Option<RealReg>)
        ensures
            r == self.spec_to_real_reg(),
    {
        match self {
            Reg::Real(r) => Some(r),
            Reg::Virtual(_) => None,
        }
    }
}

/// A register an instruction writes.
#[derive(Clone, Copy, PartialEq, Eq, Structural, Debug)]
pub struct Writable<T> {
    pub reg: T,
}

impl<T: Copy> Writable<T> {
    pub fn from_reg(reg: T) -> (r: Writable<T>)
        ensures
            r == (Writable { reg }),
    {
        Writable { reg }
    }

    pub open spec fn spec_to_reg(self) -> T {
        self.reg
    }

    #[verifier::when_used_as_spec(spec_to_reg)]
    pub fn to_reg(self) -> (r: T)
        ensures
            r == self.reg,
    {
        self.reg
    }
}

pub open spec fn spec_x_reg(enc: int) -> Reg {
    Reg::Real(RealReg { class: RegClass::Int, enc: enc as u8 })
}

/// The integer register with the given hardware encoding.
pub fn x_reg(enc: u8) -> (r: Reg)
    requires
        enc < 32,
    ensures
        r == spec_x_reg(enc as int),
{
    Reg::Real(RealReg { class: RegClass::Int, enc })
}

pub open spec fn spec_f_reg(enc: int) -> Reg {
    Reg::Real(RealReg { class: RegClass::Float, enc: enc as u8 })
}

/// The float register with the given hardware encoding.
pub fn f_reg(enc: u8) -> (r: Reg)
    requires
        enc < 32,
    ensures
        r == spec_f_reg(enc as int),
{
    Reg::Real(RealReg { class: RegClass::Float, enc })
}

/// The always-zero register x0.
pub fn zero_reg() -> (r: Reg)
    ensures
        r == spec_x_reg(0),
{
    x_reg(0)
}

pub fn writable_zero_reg() -> (r: Writable<Reg>)
    ensures
        r.reg == spec_x_reg(0),
{
    Writable { reg: x_reg(0) }
}

/// The return-address register x1.
pub fn link_reg() -> (r: Reg)
    ensures
        r == spec_x_reg(1),
{
    x_reg(1)
}

pub fn writable_link_reg() -> (r: Writable<Reg>)
    ensures
        r.reg == spec_x_reg(1),
{
    Writable { reg: x_reg(1) }
}

/// The stack-pointer register x2.
pub fn stack_reg() -> (r: Reg)
    ensures
        r == spec_x_reg(2),
{
    x_reg(2)
}

/// The frame-pointer register x8.
pub fn fp_reg() -> (r: Reg)
    ensures
        r == spec_x_reg(8),
{
    x_reg(8)
}

pub fn writable_fp_reg() -> (r: Writable<Reg>)
    ensures
        r.reg == spec_x_reg(8),
{
    Writable { reg: x_reg(8) }
}

/// The first spill temporary, x31.
pub fn spilltmp_reg() -> (r: Reg)
    ensures
        r == spec_x_reg(31),
{
    x_reg(31)
}

/// The second spill temporary, x30.
pub fn spilltmp_reg2() -> (r: Reg)
    ensures
        r == spec_x_reg(30),
{
    x_reg(30)
}

pub fn writable_spilltmp_reg2() -> (r: Writable<Reg>)
    ensures
        r.reg == spec_x_reg(30),
{
    Writable { reg: x_reg(30) }
}

/// The first integer argument register, x10.
pub fn a0() -> (r: Reg)
    ensures
        r == spec_x_reg(10),
{
    x_reg(10)
}

pub fn writable_a0() -> (r: Writable<Reg>)
    ensures
        r.reg == spec_x_reg(10),
{
    Writable { reg: x_reg(10) }
}

pub fn writable_a1() -> (r: Writable<Reg>)
    ensures
        r.reg == spec_x_reg(11),
{
    Writable { reg: x_reg(11) }
}

pub fn writable_a2() -> (r: Writable<Reg>)
    ensures
        r.reg == spec_x_reg(12),
{
    Writable { reg: x_reg(12) }
}

/// Whether the integer register with this encoding is caller-saved:
/// x1, x5-x7, x10-x17, x28-x31.
pub open spec fn spec_caller_save_x(enc: int) -> bool {
    enc == 1 || (5 <= enc && enc <= 7) || (10 <= enc && enc <= 17) || (28 <= enc && enc <= 31)
}

pub fn caller_save_x(enc: u8) -> (r: bool)
    ensures
        r == spec_caller_save_x(enc as int),
{
    enc == 1 || (5 <= enc && enc <= 7) || (10 <= enc && enc <= 17) || (28 <= enc && enc <= 31)
}

/// Whether the integer register with this encoding is callee-saved:
/// x2, x8, x9, x18-x27.
pub open spec fn spec_callee_save_x(enc: int) -> bool {
    enc == 2 || enc == 8 || enc == 9 || (18 <= enc && enc <= 27)
}

pub fn callee_save_x(enc: u8) -> (r: bool)
    ensures
        r == spec_callee_save_x(enc as int),
{
    enc == 2 || enc == 8 || enc == 9 || (18 <= enc && enc <= 27)
}

/// Whether the float register with this encoding is caller-saved:
/// f0-f7, f9-f17, f28-f31.
pub open spec fn spec_caller_save_f(enc: int) -> bool {
    (0 <= enc && enc <= 7) || (9 <= enc && enc <= 17) || (28 <= enc && enc <= 31)
}

pub fn caller_save_f(enc: u8) -> (r: bool)
    ensures
        r == spec_caller_save_f(enc as int),
{
    enc <= 7 || (9 <= enc && enc <= 17) || (28 <= enc && enc <= 31)
}

/// Whether the float register with this encoding is callee-saved:
/// f8, f18-f27.
pub open spec fn spec_callee_save_f(enc: int) -> bool {
    enc == 8 || (18 <= enc && enc <= 27)
}

pub fn callee_save_f(enc: u8) -> (r: bool)
    ensures
        r == spec_callee_save_f(enc as int),
{
    enc == 8 || (18 <= enc && enc <= 27)
}

} // verus!
