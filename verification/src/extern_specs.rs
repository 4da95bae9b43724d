//! The boundary to the outside crates: the instruction and argument buffers
//! (smallvec), the physical-register clobber set (regalloc2), and the target
//! triple (target-lexicon). Everything here is trusted; each item's comment
//! names the outside function it relies on.

use vstd::prelude::*;
use crate::inst::Inst;
use crate::regs::RegClass;

verus! {

/// The per-function instruction buffer, an inline-capacity vector of the
/// outside collection crate. The buffer is opaque to the verifier; its
/// contents are reached only through `inst_seq` and the wrappers below.
#[verifier::external_body]
pub struct InstVec {
    buf: smallvec::SmallVec<[Inst; 4]>,
}

/// The elements an instruction buffer holds, in order.
pub uninterp spec fn inst_seq(v: InstVec) -> Seq<Inst>;

/// Relies on smallvec::SmallVec::new: a freshly created vector holds no
/// elements.
#[verifier::external_body]
pub fn inst_vec_new() -> (r: InstVec)
    ensures
        inst_seq(r) == Seq::<Inst>::empty(),
{
    InstVec { buf: smallvec::SmallVec::new() }
}

/// Relies on smallvec::SmallVec::push: appends the element at the back and
/// keeps the rest.
#[verifier::external_body]
pub fn inst_vec_push(v: &mut InstVec, inst: Inst)
    ensures
        inst_seq(*final(v)) == inst_seq(*old(v)).push(inst),
{
    v.buf.push(inst)
}

/// Relies on smallvec::SmallVec::append: moves every element of the second
/// buffer, in order, to the back of the first.
#[verifier::external_body]
pub fn inst_vec_append(dst: &mut InstVec, src: InstVec)
    ensures
        inst_seq(*final(dst)) == inst_seq(*old(dst)) + inst_seq(src),
{
    let mut other = src;
    dst.buf.append(&mut other.buf)
}

/// Relies on smallvec::SmallVec::into_vec: hands the elements out in order.
#[verifier::external_body]
pub fn inst_vec_into_vec(v: InstVec) -> (r: Vec<Inst>)
    ensures
        r@ == inst_seq(v),
{
    v.buf.into_vec()
}

/// The argument-location list of one signature, an inline-capacity vector
/// of the outside collection crate, opaque to the verifier as `InstVec` is.
#[verifier::external_body]
pub struct ArgVec {
    buf: smallvec::SmallVec<[crate::abi::ABIArg; 6]>,
}

/// The elements an argument-location list holds, in order.
pub uninterp spec fn arg_seq(v: ArgVec) -> Seq<crate::abi::ABIArg>;

/// Relies on smallvec::SmallVec::new: a freshly created vector holds no
/// elements.
#[verifier::external_body]
pub fn arg_vec_new() -> (r: ArgVec)
    ensures
        arg_seq(r) == Seq::<crate::abi::ABIArg>::empty(),
{
    ArgVec { buf: smallvec::SmallVec::new() }
}

/// Relies on smallvec::SmallVec::push: appends the element at the back and
/// keeps the rest.
#[verifier::external_body]
pub fn arg_vec_push(v: &mut ArgVec, arg: crate::abi::ABIArg)
    ensures
        arg_seq(*final(v)) == arg_seq(*old(v)).push(arg),
{
    v.buf.push(arg)
}

/// Relies on smallvec::SmallVec::len: the number of elements held.
#[verifier::external_body]
pub fn arg_vec_len(v: &ArgVec) -> (r: usize)
    ensures
        r == arg_seq(*v).len(),
{
    v.buf.len()
}

/// Relies on smallvec::SmallVec::into_vec: hands the elements out in order.
#[verifier::external_body]
pub fn arg_vec_into_vec(v: ArgVec) -> (r: Vec<crate::abi::ABIArg>)
    ensures
        r@ == arg_seq(v),
{
    v.buf.into_vec()
}

#[verifier::external_type_specification]
#[verifier::external_body]
pub struct ExPRegSet(regalloc2::PRegSet);

/// The (class position, hardware encoding) pairs a physical-register set
/// holds.
pub uninterp spec fn preg_set(s: regalloc2::PRegSet) -> Set<(int, int)>;

/// Relies on regalloc2's derived Clone for PRegSet, a Copy bitset: the clone
/// is the same set.
pub assume_specification[ <regalloc2::PRegSet as Clone>::clone ](s: &regalloc2::PRegSet) -> (r:
    regalloc2::PRegSet)
    ensures
        r == *s,
;

/// Relies on regalloc2::PRegSet::empty: the set with no registers.
#[verifier::external_body]
pub fn preg_set_empty() -> (r: regalloc2::PRegSet)
    ensures
        preg_set(r) == Set::<(int, int)>::empty(),
{
    regalloc2::PRegSet::empty()
}

/// Relies on regalloc2::PRegSet::add and regalloc2::PReg::new: inserts the
/// physical register with the given class and hardware encoding; every
/// register already present stays.
#[verifier::external_body]
pub fn preg_set_add(s: &mut regalloc2::PRegSet, class: RegClass, enc: u8)
    requires
        enc < 32,
    ensures
        preg_set(*final(s)) == preg_set(*old(s)).insert((class.spec_index(), enc as int)),
{
    let c = match class {
        RegClass::Int => regalloc2::RegClass::Int,
        RegClass::Float => regalloc2::RegClass::Float,
    };
    s.add(regalloc2::PReg::new(enc as usize, c))
}

#[verifier::external_type_specification]
#[verifier::external_body]
pub struct ExTriple(target_lexicon::Triple);

} // verus!
