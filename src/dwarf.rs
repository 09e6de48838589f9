//! The three DWARF enumerations of the builder and their encodings in the
//! emitter's C interface: attribute flags, source languages and emission kinds.

use llvm_sys::debuginfo::{LLVMDIFlags, LLVMDWARFEmissionKind, LLVMDWARFSourceLanguage};
use vstd::prelude::*;

verus! {

#[verifier::external_type_specification]
pub struct ExLLVMDWARFSourceLanguage(LLVMDWARFSourceLanguage);

#[verifier::external_type_specification]
pub struct ExLLVMDWARFEmissionKind(LLVMDWARFEmissionKind);

/// One attribute of a debug-info node, as a value of the emitter's flag word.
#[derive(Clone, Copy, Debug, PartialEq, Eq, Hash, PartialOrd, Ord, Structural)]
pub enum DIFlags {
    Zero,
    Private,
    Protected,
    Public,
    FwdDecl,
    AppleBlock,
    ReservedBit4,
    Virtual,
    Artificial,
    Explicit,
    Prototyped,
    ObjcClassComplete,
    ObjectPointer,
    Vector,
    StaticMember,
    LValueReference,
    RValueReference,
    Reserved,
    SingleInheritance,
    MultipleInheritance,
    VirtualInheritance,
    IntroducedVirtual,
    BitField,
    NoReturn,
    TypePassByValue,
    TypePassByReference,
    EnumClass,
    Thunk,
    NonTrivial,
    BigEndian,
    LittleEndian,
    IndirectVirtualBase,
}

impl DIFlags {
    /// The value of this attribute in the emitter's flag word.
    pub open spec fn code(self) -> LLVMDIFlags {
        match self {
            DIFlags::Zero => 0,
            DIFlags::Private => 1,
            DIFlags::Protected => 2,
            DIFlags::Public => 3,
            DIFlags::FwdDecl => 4,
            DIFlags::AppleBlock => 8,
            DIFlags::ReservedBit4 => 16,
            DIFlags::Virtual => 32,
            DIFlags::Artificial => 64,
            DIFlags::Explicit => 128,
            DIFlags::Prototyped => 256,
            DIFlags::ObjcClassComplete => 512,
            DIFlags::ObjectPointer => 1024,
            DIFlags::Vector => 2048,
            DIFlags::StaticMember => 4096,
            DIFlags::LValueReference => 8192,
            DIFlags::RValueReference => 16384,
            DIFlags::Reserved => 32768,
            DIFlags::SingleInheritance => 65536,
            DIFlags::MultipleInheritance => 131072,
            DIFlags::VirtualInheritance => 196608,
            DIFlags::IntroducedVirtual => 262144,
            DIFlags::BitField => 524288,
            DIFlags::NoReturn => 1048576,
            DIFlags::TypePassByValue => 4194304,
            DIFlags::TypePassByReference => 8388608,
            DIFlags::EnumClass => 16777216,
            DIFlags::Thunk => 33554432,
            DIFlags::NonTrivial => 67108864,
            DIFlags::BigEndian => 134217728,
            DIFlags::LittleEndian => 268435456,
            DIFlags::IndirectVirtualBase => 36,
        }
    }

    /// Whether `v` is the flag-word value of one of the attributes.
    pub open spec fn is_code(v: LLVMDIFlags) -> bool {
        exists|f: DIFlags| f.code() == v
    }

    /// The attribute whose flag-word value is `v`.
    pub open spec fn from_code_spec(v: LLVMDIFlags) -> Self {
        match v {
            0 => DIFlags::Zero,
            1 => DIFlags::Private,
            2 => DIFlags::Protected,
            3 => DIFlags::Public,
            4 => DIFlags::FwdDecl,
            8 => DIFlags::AppleBlock,
            16 => DIFlags::ReservedBit4,
            32 => DIFlags::Virtual,
            64 => DIFlags::Artificial,
            128 => DIFlags::Explicit,
            256 => DIFlags::Prototyped,
            512 => DIFlags::ObjcClassComplete,
            1024 => DIFlags::ObjectPointer,
            2048 => DIFlags::Vector,
            4096 => DIFlags::StaticMember,
            8192 => DIFlags::LValueReference,
            16384 => DIFlags::RValueReference,
            32768 => DIFlags::Reserved,
            65536 => DIFlags::SingleInheritance,
            131072 => DIFlags::MultipleInheritance,
            196608 => DIFlags::VirtualInheritance,
            262144 => DIFlags::IntroducedVirtual,
            524288 => DIFlags::BitField,
            1048576 => DIFlags::NoReturn,
            4194304 => DIFlags::TypePassByValue,
            8388608 => DIFlags::TypePassByReference,
            16777216 => DIFlags::EnumClass,
            33554432 => DIFlags::Thunk,
            67108864 => DIFlags::NonTrivial,
            134217728 => DIFlags::BigEndian,
            268435456 => DIFlags::LittleEndian,
            36 => DIFlags::IndirectVirtualBase,
            _ => DIFlags::Zero,
        }
    }

    /// Converts to the emitter's flag word.
    pub fn to_llvm(self) -> (r: LLVMDIFlags)
        ensures
            r == self.code(),
    {
        match self {
            DIFlags::Zero => 0,
            DIFlags::Private => 1,
            DIFlags::Protected => 2,
            DIFlags::Public => 3,
            DIFlags::FwdDecl => 4,
            DIFlags::AppleBlock => 8,
            DIFlags::ReservedBit4 => 16,
            DIFlags::Virtual => 32,
            DIFlags::Artificial => 64,
            DIFlags::Explicit => 128,
            DIFlags::Prototyped => 256,
            DIFlags::ObjcClassComplete => 512,
            DIFlags::ObjectPointer => 1024,
            DIFlags::Vector => 2048,
            DIFlags::StaticMember => 4096,
            DIFlags::LValueReference => 8192,
            DIFlags::RValueReference => 16384,
            DIFlags::Reserved => 32768,
            DIFlags::SingleInheritance => 65536,
            DIFlags::MultipleInheritance => 131072,
            DIFlags::VirtualInheritance => 196608,
            DIFlags::IntroducedVirtual => 262144,
            DIFlags::BitField => 524288,
            DIFlags::NoReturn => 1048576,
            DIFlags::TypePassByValue => 4194304,
            DIFlags::TypePassByReference => 8388608,
            DIFlags::EnumClass => 16777216,
            DIFlags::Thunk => 33554432,
            DIFlags::NonTrivial => 67108864,
            DIFlags::BigEndian => 134217728,
            DIFlags::LittleEndian => 268435456,
            DIFlags::IndirectVirtualBase => 36,
        }
    }

    /// Reads an attribute back from the emitter's flag word. A word that is no
    /// attribute's value means an incompatible emitter, and is not admitted.
    pub fn from_llvm(v: LLVMDIFlags) -> (r: Self)
        requires
            Self::is_code(v),
        ensures
            r == Self::from_code_spec(v),
            r.code() == v,
    {
        match v {
            0 => DIFlags::Zero,
            1 => DIFlags::Private,
            2 => DIFlags::Protected,
            3 => DIFlags::Public,
            4 => DIFlags::FwdDecl,
            8 => DIFlags::AppleBlock,
            16 => DIFlags::ReservedBit4,
            32 => DIFlags::Virtual,
            64 => DIFlags::Artificial,
            128 => DIFlags::Explicit,
            256 => DIFlags::Prototyped,
            512 => DIFlags::ObjcClassComplete,
            1024 => DIFlags::ObjectPointer,
            2048 => DIFlags::Vector,
            4096 => DIFlags::StaticMember,
            8192 => DIFlags::LValueReference,
            16384 => DIFlags::RValueReference,
            32768 => DIFlags::Reserved,
            65536 => DIFlags::SingleInheritance,
            131072 => DIFlags::MultipleInheritance,
            196608 => DIFlags::VirtualInheritance,
            262144 => DIFlags::IntroducedVirtual,
            524288 => DIFlags::BitField,
            1048576 => DIFlags::NoReturn,
            4194304 => DIFlags::TypePassByValue,
            8388608 => DIFlags::TypePassByReference,
            16777216 => DIFlags::EnumClass,
            33554432 => DIFlags::Thunk,
            67108864 => DIFlags::NonTrivial,
            134217728 => DIFlags::BigEndian,
            268435456 => DIFlags::LittleEndian,
            36 => DIFlags::IndirectVirtualBase,
            _ => DIFlags::Zero,
        }
    }
}

/// The language a compile unit was written in, as debuggers are told of it.
#[derive(Clone, Copy, Debug, PartialEq, Eq, Hash, PartialOrd, Ord, Structural)]
pub enum DwarfSourceLanguage {
    C89,
    C,
    Ada83,
    CPlusPlus,
    Cobol74,
    Cobol85,
    Fortran77,
    Fortran90,
    Pascal83,
    Modula2,
    Java,
    C99,
    Ada95,
    Fortran95,
    PLI,
    ObjC,
    ObjCPlusPlus,
    UPC,
    D,
    Python,
    OpenCL,
    Go,
    Modula3,
    Haskell,
    CPlusPlus03,
    CPlusPlus11,
    OCaml,
    Rust,
    C11,
    Swift,
    Julia,
    Dylan,
    CPlusPlus14,
    Fortran03,
    Fortran08,
    RenderScript,
    BLISS,
    MipsAssembler,
    GoogleRenderScript,
    BorlandDelphi,
}

impl DwarfSourceLanguage {
    /// The emitter's enumerator for this language.
    pub open spec fn native_spec(self) -> LLVMDWARFSourceLanguage {
        match self {
            DwarfSourceLanguage::C89 => LLVMDWARFSourceLanguage::LLVMDWARFSourceLanguageC89,
            DwarfSourceLanguage::C => LLVMDWARFSourceLanguage::LLVMDWARFSourceLanguageC,
            DwarfSourceLanguage::Ada83 => LLVMDWARFSourceLanguage::LLVMDWARFSourceLanguageAda83,
            DwarfSourceLanguage::CPlusPlus => LLVMDWARFSourceLanguage::LLVMDWARFSourceLanguageC_plus_plus,
            DwarfSourceLanguage::Cobol74 => LLVMDWARFSourceLanguage::LLVMDWARFSourceLanguageCobol74,
            DwarfSourceLanguage::Cobol85 => LLVMDWARFSourceLanguage::LLVMDWARFSourceLanguageCobol85,
            DwarfSourceLanguage::Fortran77 => LLVMDWARFSourceLanguage::LLVMDWARFSourceLanguageFortran77,
            DwarfSourceLanguage::Fortran90 => LLVMDWARFSourceLanguage::LLVMDWARFSourceLanguageFortran90,
            DwarfSourceLanguage::Pascal83 => LLVMDWARFSourceLanguage::LLVMDWARFSourceLanguagePascal83,
            DwarfSourceLanguage::Modula2 => LLVMDWARFSourceLanguage::LLVMDWARFSourceLanguageModula2,
            DwarfSourceLanguage::Java => LLVMDWARFSourceLanguage::LLVMDWARFSourceLanguageJava,
            DwarfSourceLanguage::C99 => LLVMDWARFSourceLanguage::LLVMDWARFSourceLanguageC99,
            DwarfSourceLanguage::Ada95 => LLVMDWARFSourceLanguage::LLVMDWARFSourceLanguageAda95,
            DwarfSourceLanguage::Fortran95 => LLVMDWARFSourceLanguage::LLVMDWARFSourceLanguageFortran95,
            DwarfSourceLanguage::PLI => LLVMDWARFSourceLanguage::LLVMDWARFSourceLanguagePLI,
            DwarfSourceLanguage::ObjC => LLVMDWARFSourceLanguage::LLVMDWARFSourceLanguageObjC,
            DwarfSourceLanguage::ObjCPlusPlus => LLVMDWARFSourceLanguage::LLVMDWARFSourceLanguageObjC_plus_plus,
            DwarfSourceLanguage::UPC => LLVMDWARFSourceLanguage::LLVMDWARFSourceLanguageUPC,
            DwarfSourceLanguage::D => LLVMDWARFSourceLanguage::LLVMDWARFSourceLanguageD,
            DwarfSourceLanguage::Python => LLVMDWARFSourceLanguage::LLVMDWARFSourceLanguagePython,
            DwarfSourceLanguage::OpenCL => LLVMDWARFSourceLanguage::LLVMDWARFSourceLanguageOpenCL,
            DwarfSourceLanguage::Go => LLVMDWARFSourceLanguage::LLVMDWARFSourceLanguageGo,
            DwarfSourceLanguage::Modula3 => LLVMDWARFSourceLanguage::LLVMDWARFSourceLanguageModula3,
            DwarfSourceLanguage::Haskell => LLVMDWARFSourceLanguage::LLVMDWARFSourceLanguageHaskell,
            DwarfSourceLanguage::CPlusPlus03 => LLVMDWARFSourceLanguage::LLVMDWARFSourceLanguageC_plus_plus_03,
            DwarfSourceLanguage::CPlusPlus11 => LLVMDWARFSourceLanguage::LLVMDWARFSourceLanguageC_plus_plus_11,
            DwarfSourceLanguage::OCaml => LLVMDWARFSourceLanguage::LLVMDWARFSourceLanguageOCaml,
            DwarfSourceLanguage::Rust => LLVMDWARFSourceLanguage::LLVMDWARFSourceLanguageRust,
            DwarfSourceLanguage::C11 => LLVMDWARFSourceLanguage::LLVMDWARFSourceLanguageC11,
            DwarfSourceLanguage::Swift => LLVMDWARFSourceLanguage::LLVMDWARFSourceLanguageSwift,
            DwarfSourceLanguage::Julia => LLVMDWARFSourceLanguage::LLVMDWARFSourceLanguageJulia,
            DwarfSourceLanguage::Dylan => LLVMDWARFSourceLanguage::LLVMDWARFSourceLanguageDylan,
            DwarfSourceLanguage::CPlusPlus14 => LLVMDWARFSourceLanguage::LLVMDWARFSourceLanguageC_plus_plus_14,
            DwarfSourceLanguage::Fortran03 => LLVMDWARFSourceLanguage::LLVMDWARFSourceLanguageFortran03,
            DwarfSourceLanguage::Fortran08 => LLVMDWARFSourceLanguage::LLVMDWARFSourceLanguageFortran08,
            DwarfSourceLanguage::RenderScript => LLVMDWARFSourceLanguage::LLVMDWARFSourceLanguageRenderScript,
            DwarfSourceLanguage::BLISS => LLVMDWARFSourceLanguage::LLVMDWARFSourceLanguageBLISS,
            DwarfSourceLanguage::MipsAssembler => LLVMDWARFSourceLanguage::LLVMDWARFSourceLanguageMips_Assembler,
            DwarfSourceLanguage::GoogleRenderScript => LLVMDWARFSourceLanguage::LLVMDWARFSourceLanguageGOOGLE_RenderScript,
            DwarfSourceLanguage::BorlandDelphi => LLVMDWARFSourceLanguage::LLVMDWARFSourceLanguageBORLAND_Delphi,
        }
    }

    /// The language whose enumerator is `l`.
    pub open spec fn from_native_spec(l: LLVMDWARFSourceLanguage) -> Self {
        match l {
            LLVMDWARFSourceLanguage::LLVMDWARFSourceLanguageC89 => DwarfSourceLanguage::C89,
            LLVMDWARFSourceLanguage::LLVMDWARFSourceLanguageC => DwarfSourceLanguage::C,
            LLVMDWARFSourceLanguage::LLVMDWARFSourceLanguageAda83 => DwarfSourceLanguage::Ada83,
            LLVMDWARFSourceLanguage::LLVMDWARFSourceLanguageC_plus_plus => DwarfSourceLanguage::CPlusPlus,
            LLVMDWARFSourceLanguage::LLVMDWARFSourceLanguageCobol74 => DwarfSourceLanguage::Cobol74,
            LLVMDWARFSourceLanguage::LLVMDWARFSourceLanguageCobol85 => DwarfSourceLanguage::Cobol85,
            LLVMDWARFSourceLanguage::LLVMDWARFSourceLanguageFortran77 => DwarfSourceLanguage::Fortran77,
            LLVMDWARFSourceLanguage::LLVMDWARFSourceLanguageFortran90 => DwarfSourceLanguage::Fortran90,
            LLVMDWARFSourceLanguage::LLVMDWARFSourceLanguagePascal83 => DwarfSourceLanguage::Pascal83,
            LLVMDWARFSourceLanguage::LLVMDWARFSourceLanguageModula2 => DwarfSourceLanguage::Modula2,
            LLVMDWARFSourceLanguage::LLVMDWARFSourceLanguageJava => DwarfSourceLanguage::Java,
            LLVMDWARFSourceLanguage::LLVMDWARFSourceLanguageC99 => DwarfSourceLanguage::C99,
            LLVMDWARFSourceLanguage::LLVMDWARFSourceLanguageAda95 => DwarfSourceLanguage::Ada95,
            LLVMDWARFSourceLanguage::LLVMDWARFSourceLanguageFortran95 => DwarfSourceLanguage::Fortran95,
            LLVMDWARFSourceLanguage::LLVMDWARFSourceLanguagePLI => DwarfSourceLanguage::PLI,
            LLVMDWARFSourceLanguage::LLVMDWARFSourceLanguageObjC => DwarfSourceLanguage::ObjC,
            LLVMDWARFSourceLanguage::LLVMDWARFSourceLanguageObjC_plus_plus => DwarfSourceLanguage::ObjCPlusPlus,
            LLVMDWARFSourceLanguage::LLVMDWARFSourceLanguageUPC => DwarfSourceLanguage::UPC,
            LLVMDWARFSourceLanguage::LLVMDWARFSourceLanguageD => DwarfSourceLanguage::D,
            LLVMDWARFSourceLanguage::LLVMDWARFSourceLanguagePython => DwarfSourceLanguage::Python,
            LLVMDWARFSourceLanguage::LLVMDWARFSourceLanguageOpenCL => DwarfSourceLanguage::OpenCL,
            LLVMDWARFSourceLanguage::LLVMDWARFSourceLanguageGo => DwarfSourceLanguage::Go,
            LLVMDWARFSourceLanguage::LLVMDWARFSourceLanguageModula3 => DwarfSourceLanguage::Modula3,
            LLVMDWARFSourceLanguage::LLVMDWARFSourceLanguageHaskell => DwarfSourceLanguage::Haskell,
            LLVMDWARFSourceLanguage::LLVMDWARFSourceLanguageC_plus_plus_03 => DwarfSourceLanguage::CPlusPlus03,
            LLVMDWARFSourceLanguage::LLVMDWARFSourceLanguageC_plus_plus_11 => DwarfSourceLanguage::CPlusPlus11,
            LLVMDWARFSourceLanguage::LLVMDWARFSourceLanguageOCaml => DwarfSourceLanguage::OCaml,
            LLVMDWARFSourceLanguage::LLVMDWARFSourceLanguageRust => DwarfSourceLanguage::Rust,
            LLVMDWARFSourceLanguage::LLVMDWARFSourceLanguageC11 => DwarfSourceLanguage::C11,
            LLVMDWARFSourceLanguage::LLVMDWARFSourceLanguageSwift => DwarfSourceLanguage::Swift,
            LLVMDWARFSourceLanguage::LLVMDWARFSourceLanguageJulia => DwarfSourceLanguage::Julia,
            LLVMDWARFSourceLanguage::LLVMDWARFSourceLanguageDylan => DwarfSourceLanguage::Dylan,
            LLVMDWARFSourceLanguage::LLVMDWARFSourceLanguageC_plus_plus_14 => DwarfSourceLanguage::CPlusPlus14,
            LLVMDWARFSourceLanguage::LLVMDWARFSourceLanguageFortran03 => DwarfSourceLanguage::Fortran03,
            LLVMDWARFSourceLanguage::LLVMDWARFSourceLanguageFortran08 => DwarfSourceLanguage::Fortran08,
            LLVMDWARFSourceLanguage::LLVMDWARFSourceLanguageRenderScript => DwarfSourceLanguage::RenderScript,
            LLVMDWARFSourceLanguage::LLVMDWARFSourceLanguageBLISS => DwarfSourceLanguage::BLISS,
            LLVMDWARFSourceLanguage::LLVMDWARFSourceLanguageMips_Assembler => DwarfSourceLanguage::MipsAssembler,
            LLVMDWARFSourceLanguage::LLVMDWARFSourceLanguageGOOGLE_RenderScript => DwarfSourceLanguage::GoogleRenderScript,
            LLVMDWARFSourceLanguage::LLVMDWARFSourceLanguageBORLAND_Delphi => DwarfSourceLanguage::BorlandDelphi,
        }
    }

    /// Converts to the emitter's enumerator.
    pub fn to_llvm(self) -> (r: LLVMDWARFSourceLanguage)
        ensures
            r == self.native_spec(),
    {
        match self {
            DwarfSourceLanguage::C89 => LLVMDWARFSourceLanguage::LLVMDWARFSourceLanguageC89,
            DwarfSourceLanguage::C => LLVMDWARFSourceLanguage::LLVMDWARFSourceLanguageC,
            DwarfSourceLanguage::Ada83 => LLVMDWARFSourceLanguage::LLVMDWARFSourceLanguageAda83,
            DwarfSourceLanguage::CPlusPlus => LLVMDWARFSourceLanguage::LLVMDWARFSourceLanguageC_plus_plus,
            DwarfSourceLanguage::Cobol74 => LLVMDWARFSourceLanguage::LLVMDWARFSourceLanguageCobol74,
            DwarfSourceLanguage::Cobol85 => LLVMDWARFSourceLanguage::LLVMDWARFSourceLanguageCobol85,
            DwarfSourceLanguage::Fortran77 => LLVMDWARFSourceLanguage::LLVMDWARFSourceLanguageFortran77,
            DwarfSourceLanguage::Fortran90 => LLVMDWARFSourceLanguage::LLVMDWARFSourceLanguageFortran90,
            DwarfSourceLanguage::Pascal83 => LLVMDWARFSourceLanguage::LLVMDWARFSourceLanguagePascal83,
            DwarfSourceLanguage::Modula2 => LLVMDWARFSourceLanguage::LLVMDWARFSourceLanguageModula2,
            DwarfSourceLanguage::Java => LLVMDWARFSourceLanguage::LLVMDWARFSourceLanguageJava,
            DwarfSourceLanguage::C99 => LLVMDWARFSourceLanguage::LLVMDWARFSourceLanguageC99,
            DwarfSourceLanguage::Ada95 => LLVMDWARFSourceLanguage::LLVMDWARFSourceLanguageAda95,
            DwarfSourceLanguage::Fortran95 => LLVMDWARFSourceLanguage::LLVMDWARFSourceLanguageFortran95,
            DwarfSourceLanguage::PLI => LLVMDWARFSourceLanguage::LLVMDWARFSourceLanguagePLI,
            DwarfSourceLanguage::ObjC => LLVMDWARFSourceLanguage::LLVMDWARFSourceLanguageObjC,
            DwarfSourceLanguage::ObjCPlusPlus => LLVMDWARFSourceLanguage::LLVMDWARFSourceLanguageObjC_plus_plus,
            DwarfSourceLanguage::UPC => LLVMDWARFSourceLanguage::LLVMDWARFSourceLanguageUPC,
            DwarfSourceLanguage::D => LLVMDWARFSourceLanguage::LLVMDWARFSourceLanguageD,
            DwarfSourceLanguage::Python => LLVMDWARFSourceLanguage::LLVMDWARFSourceLanguagePython,
            DwarfSourceLanguage::OpenCL => LLVMDWARFSourceLanguage::LLVMDWARFSourceLanguageOpenCL,
            DwarfSourceLanguage::Go => LLVMDWARFSourceLanguage::LLVMDWARFSourceLanguageGo,
            DwarfSourceLanguage::Modula3 => LLVMDWARFSourceLanguage::LLVMDWARFSourceLanguageModula3,
            DwarfSourceLanguage::Haskell => LLVMDWARFSourceLanguage::LLVMDWARFSourceLanguageHaskell,
            DwarfSourceLanguage::CPlusPlus03 => LLVMDWARFSourceLanguage::LLVMDWARFSourceLanguageC_plus_plus_03,
            DwarfSourceLanguage::CPlusPlus11 => LLVMDWARFSourceLanguage::LLVMDWARFSourceLanguageC_plus_plus_11,
            DwarfSourceLanguage::OCaml => LLVMDWARFSourceLanguage::LLVMDWARFSourceLanguageOCaml,
            DwarfSourceLanguage::Rust => LLVMDWARFSourceLanguage::LLVMDWARFSourceLanguageRust,
            DwarfSourceLanguage::C11 => LLVMDWARFSourceLanguage::LLVMDWARFSourceLanguageC11,
            DwarfSourceLanguage::Swift => LLVMDWARFSourceLanguage::LLVMDWARFSourceLanguageSwift,
            DwarfSourceLanguage::Julia => LLVMDWARFSourceLanguage::LLVMDWARFSourceLanguageJulia,
            DwarfSourceLanguage::Dylan => LLVMDWARFSourceLanguage::LLVMDWARFSourceLanguageDylan,
            DwarfSourceLanguage::CPlusPlus14 => LLVMDWARFSourceLanguage::LLVMDWARFSourceLanguageC_plus_plus_14,
            DwarfSourceLanguage::Fortran03 => LLVMDWARFSourceLanguage::LLVMDWARFSourceLanguageFortran03,
            DwarfSourceLanguage::Fortran08 => LLVMDWARFSourceLanguage::LLVMDWARFSourceLanguageFortran08,
            DwarfSourceLanguage::RenderScript => LLVMDWARFSourceLanguage::LLVMDWARFSourceLanguageRenderScript,
            DwarfSourceLanguage::BLISS => LLVMDWARFSourceLanguage::LLVMDWARFSourceLanguageBLISS,
            DwarfSourceLanguage::MipsAssembler => LLVMDWARFSourceLanguage::LLVMDWARFSourceLanguageMips_Assembler,
            DwarfSourceLanguage::GoogleRenderScript => LLVMDWARFSourceLanguage::LLVMDWARFSourceLanguageGOOGLE_RenderScript,
            DwarfSourceLanguage::BorlandDelphi => LLVMDWARFSourceLanguage::LLVMDWARFSourceLanguageBORLAND_Delphi,
        }
    }

    /// Reads the language back from the emitter's enumerator.
    pub fn from_llvm(l: LLVMDWARFSourceLanguage) -> (r: Self)
        ensures
            r == Self::from_native_spec(l),
    {
        match l {
            LLVMDWARFSourceLanguage::LLVMDWARFSourceLanguageC89 => DwarfSourceLanguage::C89,
            LLVMDWARFSourceLanguage::LLVMDWARFSourceLanguageC => DwarfSourceLanguage::C,
            LLVMDWARFSourceLanguage::LLVMDWARFSourceLanguageAda83 => DwarfSourceLanguage::Ada83,
            LLVMDWARFSourceLanguage::LLVMDWARFSourceLanguageC_plus_plus => DwarfSourceLanguage::CPlusPlus,
            LLVMDWARFSourceLanguage::LLVMDWARFSourceLanguageCobol74 => DwarfSourceLanguage::Cobol74,
            LLVMDWARFSourceLanguage::LLVMDWARFSourceLanguageCobol85 => DwarfSourceLanguage::Cobol85,
            LLVMDWARFSourceLanguage::LLVMDWARFSourceLanguageFortran77 => DwarfSourceLanguage::Fortran77,
            LLVMDWARFSourceLanguage::LLVMDWARFSourceLanguageFortran90 => DwarfSourceLanguage::Fortran90,
            LLVMDWARFSourceLanguage::LLVMDWARFSourceLanguagePascal83 => DwarfSourceLanguage::Pascal83,
            LLVMDWARFSourceLanguage::LLVMDWARFSourceLanguageModula2 => DwarfSourceLanguage::Modula2,
            LLVMDWARFSourceLanguage::LLVMDWARFSourceLanguageJava => DwarfSourceLanguage::Java,
            LLVMDWARFSourceLanguage::LLVMDWARFSourceLanguageC99 => DwarfSourceLanguage::C99,
            LLVMDWARFSourceLanguage::LLVMDWARFSourceLanguageAda95 => DwarfSourceLanguage::Ada95,
            LLVMDWARFSourceLanguage::LLVMDWARFSourceLanguageFortran95 => DwarfSourceLanguage::Fortran95,
            LLVMDWARFSourceLanguage::LLVMDWARFSourceLanguagePLI => DwarfSourceLanguage::PLI,
            LLVMDWARFSourceLanguage::LLVMDWARFSourceLanguageObjC => DwarfSourceLanguage::ObjC,
            LLVMDWARFSourceLanguage::LLVMDWARFSourceLanguageObjC_plus_plus => DwarfSourceLanguage::ObjCPlusPlus,
            LLVMDWARFSourceLanguage::LLVMDWARFSourceLanguageUPC => DwarfSourceLanguage::UPC,
            LLVMDWARFSourceLanguage::LLVMDWARFSourceLanguageD => DwarfSourceLanguage::D,
            LLVMDWARFSourceLanguage::LLVMDWARFSourceLanguagePython => DwarfSourceLanguage::Python,
            LLVMDWARFSourceLanguage::LLVMDWARFSourceLanguageOpenCL => DwarfSourceLanguage::OpenCL,
            LLVMDWARFSourceLanguage::LLVMDWARFSourceLanguageGo => DwarfSourceLanguage::Go,
            LLVMDWARFSourceLanguage::LLVMDWARFSourceLanguageModula3 => DwarfSourceLanguage::Modula3,
            LLVMDWARFSourceLanguage::LLVMDWARFSourceLanguageHaskell => DwarfSourceLanguage::Haskell,
            LLVMDWARFSourceLanguage::LLVMDWARFSourceLanguageC_plus_plus_03 => DwarfSourceLanguage::CPlusPlus03,
            LLVMDWARFSourceLanguage::LLVMDWARFSourceLanguageC_plus_plus_11 => DwarfSourceLanguage::CPlusPlus11,
            LLVMDWARFSourceLanguage::LLVMDWARFSourceLanguageOCaml => DwarfSourceLanguage::OCaml,
            LLVMDWARFSourceLanguage::LLVMDWARFSourceLanguageRust => DwarfSourceLanguage::Rust,
            LLVMDWARFSourceLanguage::LLVMDWARFSourceLanguageC11 => DwarfSourceLanguage::C11,
            LLVMDWARFSourceLanguage::LLVMDWARFSourceLanguageSwift => DwarfSourceLanguage::Swift,
            LLVMDWARFSourceLanguage::LLVMDWARFSourceLanguageJulia => DwarfSourceLanguage::Julia,
            LLVMDWARFSourceLanguage::LLVMDWARFSourceLanguageDylan => DwarfSourceLanguage::Dylan,
            LLVMDWARFSourceLanguage::LLVMDWARFSourceLanguageC_plus_plus_14 => DwarfSourceLanguage::CPlusPlus14,
            LLVMDWARFSourceLanguage::LLVMDWARFSourceLanguageFortran03 => DwarfSourceLanguage::Fortran03,
            LLVMDWARFSourceLanguage::LLVMDWARFSourceLanguageFortran08 => DwarfSourceLanguage::Fortran08,
            LLVMDWARFSourceLanguage::LLVMDWARFSourceLanguageRenderScript => DwarfSourceLanguage::RenderScript,
            LLVMDWARFSourceLanguage::LLVMDWARFSourceLanguageBLISS => DwarfSourceLanguage::BLISS,
            LLVMDWARFSourceLanguage::LLVMDWARFSourceLanguageMips_Assembler => DwarfSourceLanguage::MipsAssembler,
            LLVMDWARFSourceLanguage::LLVMDWARFSourceLanguageGOOGLE_RenderScript => DwarfSourceLanguage::GoogleRenderScript,
            LLVMDWARFSourceLanguage::LLVMDWARFSourceLanguageBORLAND_Delphi => DwarfSourceLanguage::BorlandDelphi,
        }
    }
}

/// How much debug information the code generator emits.
#[derive(Clone, Copy, Debug, PartialEq, Eq, Hash, PartialOrd, Ord, Structural)]
pub enum DwarfEmissionKind {
    NoDebug,
    Full,
    LineTablesOnly,
}

impl DwarfEmissionKind {
    /// The emitter's enumerator for this kind.
    pub open spec fn native_spec(self) -> LLVMDWARFEmissionKind {
        match self {
            DwarfEmissionKind::NoDebug => LLVMDWARFEmissionKind::LLVMDWARFEmissionKindNone,
            DwarfEmissionKind::Full => LLVMDWARFEmissionKind::LLVMDWARFEmissionKindFull,
            DwarfEmissionKind::LineTablesOnly => LLVMDWARFEmissionKind::LLVMDWARFEmissionKindLineTablesOnly,
        }
    }

    /// The kind whose enumerator is `k`.
    pub open spec fn from_native_spec(k: LLVMDWARFEmissionKind) -> Self {
        match k {
            LLVMDWARFEmissionKind::LLVMDWARFEmissionKindNone => DwarfEmissionKind::NoDebug,
            LLVMDWARFEmissionKind::LLVMDWARFEmissionKindFull => DwarfEmissionKind::Full,
            LLVMDWARFEmissionKind::LLVMDWARFEmissionKindLineTablesOnly => DwarfEmissionKind::LineTablesOnly,
        }
    }

    /// Converts to the emitter's enumerator.
    pub fn to_llvm(self) -> (r: LLVMDWARFEmissionKind)
        ensures
            r == self.native_spec(),
    {
        match self {
            DwarfEmissionKind::NoDebug => LLVMDWARFEmissionKind::LLVMDWARFEmissionKindNone,
            DwarfEmissionKind::Full => LLVMDWARFEmissionKind::LLVMDWARFEmissionKindFull,
            DwarfEmissionKind::LineTablesOnly => LLVMDWARFEmissionKind::LLVMDWARFEmissionKindLineTablesOnly,
        }
    }

    /// Reads the kind back from the emitter's enumerator.
    pub fn from_llvm(k: LLVMDWARFEmissionKind) -> (r: Self)
        ensures
            r == Self::from_native_spec(k),
    {
        match k {
            LLVMDWARFEmissionKind::LLVMDWARFEmissionKindNone => DwarfEmissionKind::NoDebug,
            LLVMDWARFEmissionKind::LLVMDWARFEmissionKindFull => DwarfEmissionKind::Full,
            LLVMDWARFEmissionKind::LLVMDWARFEmissionKindLineTablesOnly => DwarfEmissionKind::LineTablesOnly,
        }
    }
}

/// A combination of attribute flags, held as the emitter's flag word: each
/// attribute contributes its value by bitwise or.
#[derive(Clone, Copy, Debug, PartialEq, Eq, Hash, Structural)]
pub struct DIFlagSet {
    bits: LLVMDIFlags,
}

impl DIFlagSet {
    /// The flag word.
    pub closed spec fn bits_spec(self) -> LLVMDIFlags {
        self.bits
    }

    /// Whether every bit of the attribute `f` is set.
    pub open spec fn contains_spec(self, f: DIFlags) -> bool {
        self.bits_spec() & f.code() == f.code()
    }

    /// The set with no attribute.
    pub fn empty() -> (r: Self)
        ensures
            r.bits_spec() == 0,
    {
        DIFlagSet { bits: 0 }
    }

    /// The set of the one attribute `f`.
    pub fn from_flag(f: DIFlags) -> (r: Self)
        ensures
            r.bits_spec() == f.code(),
    {
        DIFlagSet { bits: f.to_llvm() }
    }

    /// The attributes of either set.
    pub fn union(self, other: Self) -> (r: Self)
        ensures
            r.bits_spec() == self.bits_spec() | other.bits_spec(),
    {
        DIFlagSet { bits: self.bits | other.bits }
    }

    /// The attributes of both sets.
    pub fn intersection(self, other: Self) -> (r: Self)
        ensures
            r.bits_spec() == self.bits_spec() & other.bits_spec(),
    {
        DIFlagSet { bits: self.bits & other.bits }
    }

    /// Whether every bit of the attribute `f` is set.
    pub fn contains(self, f: DIFlags) -> (r: bool)
        ensures
            r == self.contains_spec(f),
    {
        self.bits & f.to_llvm() == f.to_llvm()
    }

    /// The flag word handed to the emitter.
    pub fn bits(self) -> (r: LLVMDIFlags)
        ensures
            r == self.bits_spec(),
    {
        self.bits
    }
}

/// A union holds every attribute of each of its two sets.
pub proof fn union_contains_both(a: DIFlagSet, b: DIFlagSet, f: DIFlags, r: DIFlagSet)
    requires
        r.bits_spec() == a.bits_spec() | b.bits_spec(),
        a.contains_spec(f) || b.contains_spec(f),
    ensures
        r.contains_spec(f),
{
    let x = a.bits_spec();
    let y = b.bits_spec();
    let c = f.code();
    assert((x & c == c || y & c == c) ==> ((x | y) & c == c)) by (bit_vector);
}

/// An intersection holds an attribute exactly when both of its sets hold it.
pub proof fn intersection_contains_iff_both(a: DIFlagSet, b: DIFlagSet, f: DIFlags, r: DIFlagSet)
    requires
        r.bits_spec() == a.bits_spec() & b.bits_spec(),
    ensures
        r.contains_spec(f) == (a.contains_spec(f) && b.contains_spec(f)),
{
    let x = a.bits_spec();
    let y = b.bits_spec();
    let c = f.code();
    assert(((x & y) & c == c) == (x & c == c && y & c == c)) by (bit_vector);
}

/// Every attribute flag converts to a flag word from which it reads back
/// unchanged: two attributes have the same word only when they are the same.
pub proof fn flag_codes_round_trip(f: DIFlags, g: DIFlags)
    ensures
        DIFlags::is_code(f.code()),
        DIFlags::from_code_spec(f.code()) == f,
        (f.code() == g.code()) == (f == g),
{
}

/// Every source language converts to an enumerator from which it reads back
/// unchanged, and every enumerator is the conversion of exactly one language.
pub proof fn language_codes_round_trip(
    l: DwarfSourceLanguage,
    m: DwarfSourceLanguage,
    n: LLVMDWARFSourceLanguage,
)
    ensures
        DwarfSourceLanguage::from_native_spec(l.native_spec()) == l,
        DwarfSourceLanguage::from_native_spec(n).native_spec() == n,
        (l.native_spec() == m.native_spec()) == (l == m),
{
}

/// Every emission kind converts to an enumerator from which it reads back
/// unchanged, and every enumerator is the conversion of exactly one kind.
pub proof fn emission_kind_codes_round_trip(
    k: DwarfEmissionKind,
    j: DwarfEmissionKind,
    n: LLVMDWARFEmissionKind,
)
    ensures
        DwarfEmissionKind::from_native_spec(k.native_spec()) == k,
        DwarfEmissionKind::from_native_spec(n).native_spec() == n,
        (k.native_spec() == j.native_spec()) == (k == j),
{
}

} // verus!
