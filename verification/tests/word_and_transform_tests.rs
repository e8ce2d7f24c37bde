use evm_core::dyn_host::{use_dyn_host, FnParam, FnSig, GenericParam, ParamType};
use evm_core::word::Word;

#[test]
fn word_from_u64_big_endian_bytes() {
    let w = Word::from_u64(0x0102030405060708);
    let b = w.to_bytes();
    assert_eq!(b.len(), 32);
    assert_eq!(&b[0..24], &[0u8; 24]);
    assert_eq!(&b[24..32], &[1, 2, 3, 4, 5, 6, 7, 8]);
}

#[test]
fn word_zero_is_zero() {
    assert!(Word::zero().is_zero());
    assert!(Word::from_u64(0).is_zero());
    assert!(!Word::from_u64(1).is_zero());
    assert!(Word::zero().eq_word(&Word::from_u64(0)));
}

#[test]
fn word_to_usize_roundtrip() {
    assert_eq!(Word::from_u64(12345).to_usize(), Some(12345));
    assert_eq!(Word::from_u64(0).to_usize(), Some(0));
    let mut big = vec![0u8; 32];
    big[23] = 1; // 2^64: too large for an address
    assert_eq!(Word::from_bytes(big).to_usize(), None);
}

#[test]
fn word_to_usize_saturates() {
    assert_eq!(Word::from_u64(77).to_usize_saturated(), 77);
    let mut big = vec![0xffu8; 32];
    big[0] = 0xff;
    assert_eq!(Word::from_bytes(big).to_usize_saturated(), usize::MAX);
}

#[test]
fn word_least_byte() {
    assert_eq!(Word::from_u64(0xab12).least_byte(), 0x12);
    assert_eq!(Word::zero().least_byte(), 0);
}

fn ident(s: &str) -> Vec<u8> {
    s.as_bytes().to_vec()
}

#[test]
fn transform_removes_host_param_and_adds_lifetime() {
    let sig = FnSig {
        name: ident("chainid"),
        generics: vec![
            GenericParam::TypeParam(ident("H")),
            GenericParam::ConstParam(ident("N")),
        ],
        params: vec![
            FnParam { name: ident("interpreter"), ty: ParamType::Opaque },
            FnParam { name: ident("host"), ty: ParamType::MutRefTo(ident("H")) },
        ],
    };
    let out = use_dyn_host(&sig);
    assert_eq!(out.name, ident("chainid"));
    assert_eq!(out.generics.len(), 2);
    assert!(matches!(&out.generics[0], GenericParam::ConstParam(n) if *n == ident("N")));
    assert!(matches!(&out.generics[1], GenericParam::Lifetime(n) if *n == ident("a")));
    assert_eq!(out.params.len(), 2);
    assert!(matches!(&out.params[0].ty, ParamType::Opaque));
    assert!(matches!(&out.params[1].ty, ParamType::DynHostRef(n) if *n == ident("a")));
    assert_eq!(out.params[1].name, ident("host"));
}

#[test]
fn transform_keeps_existing_lifetime() {
    let sig = FnSig {
        name: ident("mload"),
        generics: vec![
            GenericParam::Lifetime(ident("b")),
            GenericParam::TypeParam(ident("H")),
        ],
        params: vec![FnParam { name: ident("host"), ty: ParamType::MutRefTo(ident("H")) }],
    };
    let out = use_dyn_host(&sig);
    assert_eq!(out.generics.len(), 1);
    assert!(matches!(&out.generics[0], GenericParam::Lifetime(n) if *n == ident("b")));
}

#[test]
fn transform_leaves_other_references_alone() {
    let sig = FnSig {
        name: ident("timestamp"),
        generics: vec![GenericParam::TypeParam(ident("SPEC"))],
        params: vec![
            FnParam { name: ident("interpreter"), ty: ParamType::MutRefTo(ident("Interpreter")) },
        ],
    };
    let out = use_dyn_host(&sig);
    assert_eq!(out.generics.len(), 2);
    assert!(matches!(&out.generics[0], GenericParam::TypeParam(n) if *n == ident("SPEC")));
    assert!(matches!(&out.generics[1], GenericParam::Lifetime(n) if *n == ident("a")));
    assert!(
        matches!(&out.params[0].ty, ParamType::MutRefTo(n) if *n == ident("Interpreter"))
    );
}
