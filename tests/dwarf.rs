use llvm_sys::debuginfo;
use dibuilder::dwarf::{DIFlagSet, DIFlags, DwarfEmissionKind, DwarfSourceLanguage};

fn all_flags() -> Vec<DIFlags> {
    vec![
        DIFlags::Zero,
        DIFlags::Private,
        DIFlags::Protected,
        DIFlags::Public,
        DIFlags::FwdDecl,
        DIFlags::AppleBlock,
        DIFlags::ReservedBit4,
        DIFlags::Virtual,
        DIFlags::Artificial,
        DIFlags::Explicit,
        DIFlags::Prototyped,
        DIFlags::ObjcClassComplete,
        DIFlags::ObjectPointer,
        DIFlags::Vector,
        DIFlags::StaticMember,
        DIFlags::LValueReference,
        DIFlags::RValueReference,
        DIFlags::Reserved,
        DIFlags::SingleInheritance,
        DIFlags::MultipleInheritance,
        DIFlags::VirtualInheritance,
        DIFlags::IntroducedVirtual,
        DIFlags::BitField,
        DIFlags::NoReturn,
        DIFlags::TypePassByValue,
        DIFlags::TypePassByReference,
        DIFlags::EnumClass,
        DIFlags::Thunk,
        DIFlags::NonTrivial,
        DIFlags::BigEndian,
        DIFlags::LittleEndian,
        DIFlags::IndirectVirtualBase,
    ]
}

fn all_languages() -> Vec<DwarfSourceLanguage> {
    vec![
        DwarfSourceLanguage::C89,
        DwarfSourceLanguage::C,
        DwarfSourceLanguage::Ada83,
        DwarfSourceLanguage::CPlusPlus,
        DwarfSourceLanguage::Cobol74,
        DwarfSourceLanguage::Cobol85,
        DwarfSourceLanguage::Fortran77,
        DwarfSourceLanguage::Fortran90,
        DwarfSourceLanguage::Pascal83,
        DwarfSourceLanguage::Modula2,
        DwarfSourceLanguage::Java,
        DwarfSourceLanguage::C99,
        DwarfSourceLanguage::Ada95,
        DwarfSourceLanguage::Fortran95,
        DwarfSourceLanguage::PLI,
        DwarfSourceLanguage::ObjC,
        DwarfSourceLanguage::ObjCPlusPlus,
        DwarfSourceLanguage::UPC,
        DwarfSourceLanguage::D,
        DwarfSourceLanguage::Python,
        DwarfSourceLanguage::OpenCL,
        DwarfSourceLanguage::Go,
        DwarfSourceLanguage::Modula3,
        DwarfSourceLanguage::Haskell,
        DwarfSourceLanguage::CPlusPlus03,
        DwarfSourceLanguage::CPlusPlus11,
        DwarfSourceLanguage::OCaml,
        DwarfSourceLanguage::Rust,
        DwarfSourceLanguage::C11,
        DwarfSourceLanguage::Swift,
        DwarfSourceLanguage::Julia,
        DwarfSourceLanguage::Dylan,
        DwarfSourceLanguage::CPlusPlus14,
        DwarfSourceLanguage::Fortran03,
        DwarfSourceLanguage::Fortran08,
        DwarfSourceLanguage::RenderScript,
        DwarfSourceLanguage::BLISS,
        DwarfSourceLanguage::MipsAssembler,
        DwarfSourceLanguage::GoogleRenderScript,
        DwarfSourceLanguage::BorlandDelphi,
    ]
}

fn all_kinds() -> Vec<DwarfEmissionKind> {
    vec![
        DwarfEmissionKind::NoDebug,
        DwarfEmissionKind::Full,
        DwarfEmissionKind::LineTablesOnly,
    ]
}

#[test]
fn flags_round_trip_through_flag_word() {
    let flags = all_flags();
    for f in &flags {
        assert_eq!(DIFlags::from_llvm(f.to_llvm()), *f);
    }
    for (i, f) in flags.iter().enumerate() {
        for g in &flags[i + 1..] {
            assert_ne!(f.to_llvm(), g.to_llvm());
        }
    }
}

#[test]
fn languages_round_trip_through_enumerator() {
    let langs = all_languages();
    assert_eq!(langs.len(), 40);
    for l in &langs {
        assert_eq!(DwarfSourceLanguage::from_llvm(l.to_llvm()), *l);
    }
    for (i, l) in langs.iter().enumerate() {
        for m in &langs[i + 1..] {
            assert_ne!(l.to_llvm() as u32, m.to_llvm() as u32);
        }
    }
}

#[test]
fn emission_kinds_round_trip_through_enumerator() {
    let kinds = all_kinds();
    for k in &kinds {
        assert_eq!(DwarfEmissionKind::from_llvm(k.to_llvm()), *k);
    }
    for (i, k) in kinds.iter().enumerate() {
        for j in &kinds[i + 1..] {
            assert_ne!(k.to_llvm() as u32, j.to_llvm() as u32);
        }
    }
}

#[test]
fn flag_words_have_their_emitter_values() {
    assert_eq!(DIFlags::Zero.to_llvm(), 0);
    assert_eq!(DIFlags::Private.to_llvm(), 1);
    assert_eq!(DIFlags::Public.to_llvm(), 3);
    assert_eq!(DIFlags::FwdDecl.to_llvm(), 4);
    assert_eq!(DIFlags::Prototyped.to_llvm(), 256);
    assert_eq!(DIFlags::MultipleInheritance.to_llvm(), 1 << 17);
    assert_eq!(DIFlags::VirtualInheritance.to_llvm(), 3 << 16);
    assert_eq!(DIFlags::NoReturn.to_llvm(), 1 << 20);
    assert_eq!(DIFlags::TypePassByValue.to_llvm(), 1 << 22);
    assert_eq!(DIFlags::LittleEndian.to_llvm(), 1 << 28);
    assert_eq!(DIFlags::IndirectVirtualBase.to_llvm(), 36);
    assert_eq!(DIFlags::from_llvm(36), DIFlags::IndirectVirtualBase);
    assert_eq!(DIFlags::from_llvm(1 << 19), DIFlags::BitField);
}

#[test]
fn enumerators_match_the_emitter() {
    assert_eq!(DwarfSourceLanguage::C89.to_llvm() as u32, 0);
    assert_eq!(DwarfSourceLanguage::Rust.to_llvm() as u32, 27);
    assert_eq!(DwarfSourceLanguage::BorlandDelphi.to_llvm() as u32, 39);
    assert_eq!(DwarfEmissionKind::NoDebug.to_llvm() as u32, 0);
    assert_eq!(DwarfEmissionKind::LineTablesOnly.to_llvm() as u32, 2);
}

#[test]
fn flag_sets_combine_by_bits() {
    let empty = DIFlagSet::empty();
    assert_eq!(empty.bits(), 0);
    assert!(!empty.contains(DIFlags::Public));
    assert!(empty.contains(DIFlags::Zero));
    let public = DIFlagSet::from_flag(DIFlags::Public);
    let proto = DIFlagSet::from_flag(DIFlags::Prototyped);
    let both = public.union(proto);
    assert_eq!(both.bits(), 3 | 256);
    assert!(both.contains(DIFlags::Public));
    assert!(both.contains(DIFlags::Prototyped));
    assert!(both.contains(DIFlags::Private));
    assert!(!both.contains(DIFlags::Artificial));
    let common = both.intersection(proto);
    assert_eq!(common.bits(), 256);
    assert!(!common.contains(DIFlags::Public));
    assert_eq!(public.intersection(proto).bits(), 0);
}

#[test]
fn flag_words_agree_with_the_emitter_constants() {
    let pairs = [
        (DIFlags::Zero, debuginfo::LLVMDIFlagZero),
        (DIFlags::Private, debuginfo::LLVMDIFlagPrivate),
        (DIFlags::Protected, debuginfo::LLVMDIFlagProtected),
        (DIFlags::Public, debuginfo::LLVMDIFlagPublic),
        (DIFlags::FwdDecl, debuginfo::LLVMDIFlagFwdDecl),
        (DIFlags::AppleBlock, debuginfo::LLVMDIFlagAppleBlock),
        (DIFlags::ReservedBit4, debuginfo::LLVMDIFlagReservedBit4),
        (DIFlags::Virtual, debuginfo::LLVMDIFlagVirtual),
        (DIFlags::Artificial, debuginfo::LLVMDIFlagArtificial),
        (DIFlags::Explicit, debuginfo::LLVMDIFlagExplicit),
        (DIFlags::Prototyped, debuginfo::LLVMDIFlagPrototyped),
        (DIFlags::ObjcClassComplete, debuginfo::LLVMDIFlagObjcClassComplete),
        (DIFlags::ObjectPointer, debuginfo::LLVMDIFlagObjectPointer),
        (DIFlags::Vector, debuginfo::LLVMDIFlagVector),
        (DIFlags::StaticMember, debuginfo::LLVMDIFlagStaticMember),
        (DIFlags::LValueReference, debuginfo::LLVMDIFlagLValueReference),
        (DIFlags::RValueReference, debuginfo::LLVMDIFlagRValueReference),
        (DIFlags::Reserved, debuginfo::LLVMDIFlagReserved),
        (DIFlags::SingleInheritance, debuginfo::LLVMDIFlagSingleInheritance),
        (DIFlags::MultipleInheritance, debuginfo::LLVMDIFlagMultipleInheritance),
        (DIFlags::VirtualInheritance, debuginfo::LLVMDIFlagVirtualInheritance),
        (DIFlags::IntroducedVirtual, debuginfo::LLVMDIFlagIntroducedVirtual),
        (DIFlags::BitField, debuginfo::LLVMDIFlagBitField),
        (DIFlags::NoReturn, debuginfo::LLVMDIFlagNoReturn),
        (DIFlags::TypePassByValue, debuginfo::LLVMDIFlagTypePassByValue),
        (DIFlags::TypePassByReference, debuginfo::LLVMDIFlagTypePassByReference),
        (DIFlags::EnumClass, debuginfo::LLVMDIFlagEnumClass),
        (DIFlags::Thunk, debuginfo::LLVMDIFlagThunk),
        (DIFlags::NonTrivial, debuginfo::LLVMDIFlagNonTrivial),
        (DIFlags::BigEndian, debuginfo::LLVMDIFlagBigendian),
        (DIFlags::LittleEndian, debuginfo::LLVMDIFlagLittleEndian),
        (DIFlags::IndirectVirtualBase, debuginfo::LLVMDIFlagIndirectVirtualBase),
    ];
    for (f, word) in pairs {
        assert_eq!(f.to_llvm(), word);
        assert_eq!(DIFlags::from_llvm(word), f);
    }
}
