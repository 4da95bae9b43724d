//! Scalar value types, parameter descriptors, and the small enums shared by
//! the ABI and lowering layers.

use vstd::prelude::*;

verus! {

/// The value types this backend routes: integers, booleans, references, and
/// the two floating-point widths. Float values are never computed on here;
/// the backend only assigns them to registers or stack slots.
#[derive(Clone, Copy, PartialEq, Eq, Structural, Debug)]
pub enum Type {
    I8,
    I16,
    I32,
    I64,
    I128,
    B1,
    B8,
    B16,
    B32,
    B64,
    B128,
    R32,
    R64,
    F32,
    F64,
}

impl Type {
    pub open spec fn spec_bits(self) -> u32 {
        match self {
            Type::I8 => 8,
            Type::I16 => 16,
            Type::I32 => 32,
            Type::I64 => 64,
            Type::I128 => 128,
            Type::B1 => 1,
            Type::B8 => 8,
            Type::B16 => 16,
            Type::B32 => 32,
            Type::B64 => 64,
            Type::B128 => 128,
            Type::R32 => 32,
            Type::R64 => 64,
            Type::F32 => 32,
            Type::F64 => 64,
        }
    }

    #[verifier::when_used_as_spec(spec_bits)]
    pub fn bits(self) -> (r: u32)
        ensures
            r == self.spec_bits(),
    {
        match self {
            Type::I8 => 8,
            Type::I16 => 16,
            Type::I32 => 32,
            Type::I64 => 64,
            Type::I128 => 128,
            Type::B1 => 1,
            Type::B8 => 8,
            Type::B16 => 16,
            Type::B32 => 32,
            Type::B64 => 64,
            Type::B128 => 128,
            Type::R32 => 32,
            Type::R64 => 64,
            Type::F32 => 32,
            Type::F64 => 64,
        }
    }

    pub open spec fn spec_is_float(self) -> bool {
        self == Type::F32 || self == Type::F64
    }

    #[verifier::when_used_as_spec(spec_is_float)]
    pub fn is_float(self) -> (r: bool)
        ensures
            r == self.spec_is_float(),
    {
        match self {
            Type::F32 | Type::F64 => true,
            _ => false,
        }
    }

    pub open spec fn spec_is_bool(self) -> bool {
        match self {
            Type::B1 | Type::B8 | Type::B16 | Type::B32 | Type::B64 | Type::B128 => true,
            _ => false,
        }
    }

    #[verifier::when_used_as_spec(spec_is_bool)]
    pub fn is_bool(self) -> (r: bool)
        ensures
            r == self.spec_is_bool(),
    {
        match self {
            Type::B1 | Type::B8 | Type::B16 | Type::B32 | Type::B64 | Type::B128 => true,
            _ => false,
        }
    }

    pub open spec fn spec_is_int(self) -> bool {
        match self {
            Type::I8 | Type::I16 | Type::I32 | Type::I64 | Type::I128 => true,
            _ => false,
        }
    }

    #[verifier::when_used_as_spec(spec_is_int)]
    pub fn is_int(self) -> (r: bool)
        ensures
            r == self.spec_is_int(),
    {
        match self {
            Type::I8 | Type::I16 | Type::I32 | Type::I64 | Type::I128 => true,
            _ => false,
        }
    }

    /// A reference type: pointer-sized opaque value.
    pub open spec fn spec_is_ref(self) -> bool {
        self == Type::R32 || self == Type::R64
    }

    #[verifier::when_used_as_spec(spec_is_ref)]
    pub fn is_ref(self) -> (r: bool)
        ensures
            r == self.spec_is_ref(),
    {
        match self {
            Type::R32 | Type::R64 => true,
            _ => false,
        }
    }
}

/// How a value narrower than a machine word is widened when placed in a
/// full register.
#[derive(Clone, Copy, PartialEq, Eq, Structural, Debug)]
pub enum ArgumentExtension {
    NoExtension,
    Uext,
    Sext,
}

/// The role a parameter or return value plays in a signature.
#[derive(Clone, Copy, PartialEq, Eq, Structural, Debug)]
pub enum ArgumentPurpose {
    Normal,
    StructArgument(u32),
    StructReturn,
    VMContext,
    SignatureId,
    StackLimit,
    CallerTLS,
    CalleeTLS,
}

impl ArgumentPurpose {
    /// The closed set of purposes the argument assigner accepts; any other
    /// purpose is an unsupported construct.
    pub open spec fn spec_supported(self) -> bool {
        match self {
            ArgumentPurpose::Normal
            | ArgumentPurpose::StructArgument(_)
            | ArgumentPurpose::StructReturn
            | ArgumentPurpose::VMContext
            | ArgumentPurpose::StackLimit => true,
            _ => false,
        }
    }

    #[verifier::when_used_as_spec(spec_supported)]
    pub fn supported(self) -> (r: bool)
        ensures
            r == self.spec_supported(),
    {
        match self {
            ArgumentPurpose::Normal
            | ArgumentPurpose::StructArgument(_)
            | ArgumentPurpose::StructReturn
            | ArgumentPurpose::VMContext
            | ArgumentPurpose::StackLimit => true,
            _ => false,
        }
    }
}

/// One parameter or return-value descriptor of a signature.
#[derive(Clone, Copy, PartialEq, Eq, Structural, Debug)]
pub struct AbiParam {
    pub value_type: Type,
    pub purpose: ArgumentPurpose,
    pub extension: ArgumentExtension,
}

impl AbiParam {
    pub fn new(value_type: Type) -> (r: AbiParam)
        ensures
            r == (AbiParam {
                value_type,
                purpose: ArgumentPurpose::Normal,
                extension: ArgumentExtension::NoExtension,
            }),
    {
        AbiParam { value_type, purpose: ArgumentPurpose::Normal, extension: ArgumentExtension::NoExtension }
    }
}

/// Whether a descriptor list describes arguments or return values.
#[derive(Clone, Copy, PartialEq, Eq, Structural, Debug)]
pub enum ArgsOrRets {
    Args,
    Rets,
}

/// Calling-convention identifier. Only the argument-register ranges and the
/// clobber-set membership may vary with it, and on this target they do not.
#[derive(Clone, Copy, PartialEq, Eq, Structural, Debug)]
pub enum CallConv {
    SystemV,
    Fast,
    Cold,
}

/// The recoverable failure of this layer: the argument/return stack area
/// would exceed the fixed implementation limit.
#[derive(Clone, Copy, PartialEq, Eq, Structural, Debug)]
pub enum CodegenError {
    ImplLimitExceeded,
}

/// Integer comparison kinds for conditional branches, traps and selects.
#[derive(Clone, Copy, PartialEq, Eq, Structural, Debug)]
pub enum IntCC {
    Equal,
    NotEqual,
    SignedLessThan,
    SignedGreaterThanOrEqual,
    SignedGreaterThan,
    SignedLessThanOrEqual,
    UnsignedLessThan,
    UnsignedGreaterThanOrEqual,
    UnsignedGreaterThan,
    UnsignedLessThanOrEqual,
    Overflow,
    NotOverflow,
}

/// Floating-point comparison kinds.
#[derive(Clone, Copy, PartialEq, Eq, Structural, Debug)]
pub enum FloatCC {
    Ordered,
    Unordered,
    Equal,
    NotEqual,
    OrderedNotEqual,
    UnorderedOrEqual,
    LessThan,
    LessThanOrEqual,
    GreaterThan,
    GreaterThanOrEqual,
    UnorderedOrLessThan,
    UnorderedOrLessThanOrEqual,
    UnorderedOrGreaterThan,
    UnorderedOrGreaterThanOrEqual,
}

/// Trap reasons attached to conditional trap instructions.
#[derive(Clone, Copy, PartialEq, Eq, Structural, Debug)]
pub enum TrapCode {
    StackOverflow,
}

/// Compilation flags read by this layer.
#[derive(Clone, Copy, PartialEq, Eq, Structural, Debug)]
pub struct Flags {
    /// Whether unwind directives are recorded alongside frame instructions.
    pub unwind_info: bool,
}

impl Flags {
    pub fn new(unwind_info: bool) -> (r: Flags)
        ensures
            r == (Flags { unwind_info }),
    {
        Flags { unwind_info }
    }
}

/// Target-specific flags; this backend currently reads none of them.
#[derive(Clone, Copy, PartialEq, Eq, Structural, Debug)]
pub struct RiscvFlags {
}

/// Memory-access flags attached to loads and stores.
#[derive(Clone, Copy, PartialEq, Eq, Structural, Debug)]
pub struct MemFlags {
    pub notrap: bool,
    pub aligned: bool,
}

impl MemFlags {
    /// Flags for an access that may trap and has no alignment claim.
    pub fn new() -> (r: MemFlags)
        ensures
            r == (MemFlags { notrap: false, aligned: false }),
    {
        MemFlags { notrap: false, aligned: false }
    }

    /// Flags for an access the compiler itself generated: never traps,
    /// always aligned.
    pub fn trusted() -> (r: MemFlags)
        ensures
            r == (MemFlags { notrap: true, aligned: true }),
    {
        MemFlags { notrap: true, aligned: true }
    }
}

/// A 32-bit signed addressing offset.
#[derive(Clone, Copy, PartialEq, Eq, Structural, Debug)]
pub struct Offset32 {
    pub value: i32,
}

impl Offset32 {
    pub fn new(value: i32) -> (r: Offset32)
        ensures
            r == (Offset32 { value }),
    {
        Offset32 { value }
    }
}

/// Whether a call target is reachable by a short direct encoding.
#[derive(Clone, Copy, PartialEq, Eq, Structural, Debug)]
pub enum RelocDistance {
    Near,
    Far,
}

/// A well-known runtime routine the backend may call.
#[derive(Clone, Copy, PartialEq, Eq, Structural, Debug)]
pub enum LibCall {
    Probestack,
    Memcpy,
}

/// A symbolic call destination.
#[derive(Clone, Copy, PartialEq, Eq, Structural, Debug)]
pub enum ExternalName {
    User { namespace: u32, index: u32 },
    LibCall(LibCall),
}

} // verus!
