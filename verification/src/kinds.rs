//! Kinds of the program representation that are lowered by name.
use vstd::prelude::*;
use crate::json::{json_kind, json_of, json_str, kind_only, Json};
use crate::lowered::{abi_name, float_name, int_name, mutability_name, uint_name};
use crate::types::{Abi, FloatTy, IntTy, Mutability, UintTy};

verus! {

/// How a place is borrowed. A mutable borrow is lowered by kind alone.
#[derive(Clone, Copy, Debug, PartialEq, Eq, Structural)]
pub enum BorrowKind {
    Shared,
    Shallow,
    Unique,
    Mut { allow_two_phase_borrow: bool },
}

#[derive(Clone, Copy, Debug, PartialEq, Eq, Structural)]
pub enum Unsafety {
    Unsafe,
    Normal,
}

/// A conversion between pointer types.
#[derive(Clone, Copy, Debug, PartialEq, Eq, Structural)]
pub enum PointerCast {
    ReifyFnPointer,
    UnsafeFnPointer,
    ClosureFnPointer(Unsafety),
    MutToConstPointer,
    ArrayToPointer,
    Unsize,
}

#[derive(Clone, Copy, Debug, PartialEq, Eq, Structural)]
pub enum CastKind {
    Misc,
    Pointer(PointerCast),
}

pub open spec fn borrow_kind_name(k: BorrowKind) -> Seq<char> {
    match k {
        BorrowKind::Shared => "Shared"@,
        BorrowKind::Shallow => "Shallow"@,
        BorrowKind::Unique => "Unique"@,
        BorrowKind::Mut { .. } => "Mut"@,
    }
}

pub open spec fn cast_kind_name(k: CastKind) -> Seq<char> {
    match k {
        CastKind::Misc => "Misc"@,
        CastKind::Pointer(PointerCast::ReifyFnPointer) => "Pointer(ReifyFnPointer)"@,
        CastKind::Pointer(PointerCast::UnsafeFnPointer) => "Pointer(UnsafeFnPointer)"@,
        CastKind::Pointer(PointerCast::ClosureFnPointer(Unsafety::Unsafe)) => "Pointer(ClosureFnPointer(Unsafe))"@,
        CastKind::Pointer(PointerCast::ClosureFnPointer(Unsafety::Normal)) => "Pointer(ClosureFnPointer(Normal))"@,
        CastKind::Pointer(PointerCast::MutToConstPointer) => "Pointer(MutToConstPointer)"@,
        CastKind::Pointer(PointerCast::ArrayToPointer) => "Pointer(ArrayToPointer)"@,
        CastKind::Pointer(PointerCast::Unsize) => "Pointer(Unsize)"@,
    }
}

impl BorrowKind {
    /// A borrow kind is lowered to its name.
    pub fn to_json(&self) -> (j: serde_json::Value)
        ensures
            json_of(j) == Json::Str(borrow_kind_name(*self)),
    {
        match self {
            BorrowKind::Shared => json_str("Shared"),
            BorrowKind::Shallow => json_str("Shallow"),
            BorrowKind::Unique => json_str("Unique"),
            BorrowKind::Mut { .. } => json_str("Mut"),
        }
    }
}

impl CastKind {
    pub fn name(&self) -> (s: &'static str)
        ensures
            s@ == cast_kind_name(*self),
    {
        match self {
            CastKind::Misc => "Misc",
            CastKind::Pointer(PointerCast::ReifyFnPointer) => "Pointer(ReifyFnPointer)",
            CastKind::Pointer(PointerCast::UnsafeFnPointer) => "Pointer(UnsafeFnPointer)",
            CastKind::Pointer(PointerCast::ClosureFnPointer(Unsafety::Unsafe)) => "Pointer(ClosureFnPointer(Unsafe))",
            CastKind::Pointer(PointerCast::ClosureFnPointer(Unsafety::Normal)) => "Pointer(ClosureFnPointer(Normal))",
            CastKind::Pointer(PointerCast::MutToConstPointer) => "Pointer(MutToConstPointer)",
            CastKind::Pointer(PointerCast::ArrayToPointer) => "Pointer(ArrayToPointer)",
            CastKind::Pointer(PointerCast::Unsize) => "Pointer(Unsize)",
        }
    }

    /// A cast kind is lowered to an object that holds its name.
    pub fn to_json(&self) -> (j: serde_json::Value)
        ensures
            json_of(j) == kind_only(cast_kind_name(*self)),
    {
        json_kind(self.name())
    }
}

impl IntTy {
    pub fn name(&self) -> (s: &'static str)
        ensures
            s@ == int_name(*self),
    {
        match self {
            IntTy::Isize => "Isize",
            IntTy::I8 => "I8",
            IntTy::I16 => "I16",
            IntTy::I32 => "I32",
            IntTy::I64 => "I64",
            IntTy::I128 => "I128",
        }
    }

    pub fn to_json(&self) -> (j: serde_json::Value)
        ensures
            json_of(j) == kind_only(int_name(*self)),
    {
        json_kind(self.name())
    }
}

impl UintTy {
    pub fn name(&self) -> (s: &'static str)
        ensures
            s@ == uint_name(*self),
    {
        match self {
            UintTy::Usize => "Usize",
            UintTy::U8 => "U8",
            UintTy::U16 => "U16",
            UintTy::U32 => "U32",
            UintTy::U64 => "U64",
            UintTy::U128 => "U128",
        }
    }

    pub fn to_json(&self) -> (j: serde_json::Value)
        ensures
            json_of(j) == kind_only(uint_name(*self)),
    {
        json_kind(self.name())
    }
}

impl FloatTy {
    pub fn name(&self) -> (s: &'static str)
        ensures
            s@ == float_name(*self),
    {
        match self {
            FloatTy::F32 => "F32",
            FloatTy::F64 => "F64",
        }
    }

    pub fn to_json(&self) -> (j: serde_json::Value)
        ensures
            json_of(j) == kind_only(float_name(*self)),
    {
        json_kind(self.name())
    }
}

impl Mutability {
    pub fn name(&self) -> (s: &'static str)
        ensures
            s@ == mutability_name(*self),
    {
        match self {
            Mutability::Mut => "Mut",
            Mutability::Not => "Not",
        }
    }

    pub fn to_json(&self) -> (j: serde_json::Value)
        ensures
            json_of(j) == kind_only(mutability_name(*self)),
    {
        json_kind(self.name())
    }
}

impl Abi {
    pub fn name(&self) -> (s: &'static str)
        ensures
            s@ == abi_name(*self),
    {
        match self {
            Abi::Rust => "Rust",
            Abi::C => "C",
            Abi::Cdecl => "Cdecl",
            Abi::Stdcall => "Stdcall",
            Abi::Fastcall => "Fastcall",
            Abi::Vectorcall => "Vectorcall",
            Abi::Thiscall => "Thiscall",
            Abi::Aapcs => "Aapcs",
            Abi::Win64 => "Win64",
            Abi::SysV64 => "SysV64",
            Abi::PtxKernel => "PtxKernel",
            Abi::Msp430Interrupt => "Msp430Interrupt",
            Abi::X86Interrupt => "X86Interrupt",
            Abi::AmdGpuKernel => "AmdGpuKernel",
            Abi::EfiApi => "EfiApi",
            Abi::RustIntrinsic => "RustIntrinsic",
            Abi::RustCall => "RustCall",
            Abi::PlatformIntrinsic => "PlatformIntrinsic",
            Abi::Unadjusted => "Unadjusted",
        }
    }

    pub fn to_json(&self) -> (j: serde_json::Value)
        ensures
            json_of(j) == kind_only(abi_name(*self)),
    {
        json_kind(self.name())
    }
}

} // verus!
