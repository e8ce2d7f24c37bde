//! The generic-to-uniform-signature transform: a handler is authored
//! against a compile-time-specialized host type parameter, and the
//! dispatch table needs the one uniform calling convention with a
//! dynamically-dispatched host reference. The transform rewrites only the
//! signature: it removes the host type parameter, binds a lifetime when
//! none is bound, and turns every `&mut` reference to the host type into
//! the dynamically-dispatched host reference. The body is untouched.

use crate::word::clone_bytes;
use vstd::prelude::*;

verus! {

/// One generic parameter of a handler signature, with its identifier.
pub enum GenericParam {
    Lifetime(Vec<u8>),
    TypeParam(Vec<u8>),
    ConstParam(Vec<u8>),
}

/// The abstract form of a generic parameter.
pub enum GenericParamModel {
    Lifetime(Seq<u8>),
    TypeParam(Seq<u8>),
    ConstParam(Seq<u8>),
}

impl View for GenericParam {
    type V = GenericParamModel;

    open spec fn view(&self) -> GenericParamModel {
        match self {
            GenericParam::Lifetime(n) => GenericParamModel::Lifetime(n@),
            GenericParam::TypeParam(n) => GenericParamModel::TypeParam(n@),
            GenericParam::ConstParam(n) => GenericParamModel::ConstParam(n@),
        }
    }
}

/// The type of one value parameter, as far as the transform reads it: a
/// mutable reference to a named type, the dynamically-dispatched host
/// reference with its lifetime, or anything else, left unchanged.
pub enum ParamType {
    MutRefTo(Vec<u8>),
    DynHostRef(Vec<u8>),
    Opaque,
}

/// The abstract form of a parameter type.
pub enum ParamTypeModel {
    MutRefTo(Seq<u8>),
    DynHostRef(Seq<u8>),
    Opaque,
}

impl View for ParamType {
    type V = ParamTypeModel;

    open spec fn view(&self) -> ParamTypeModel {
        match self {
            ParamType::MutRefTo(n) => ParamTypeModel::MutRefTo(n@),
            ParamType::DynHostRef(n) => ParamTypeModel::DynHostRef(n@),
            ParamType::Opaque => ParamTypeModel::Opaque,
        }
    }
}

/// One value parameter: its name and its type.
pub struct FnParam {
    pub name: Vec<u8>,
    pub ty: ParamType,
}

/// The abstract form of a value parameter.
pub struct FnParamModel {
    pub name: Seq<u8>,
    pub ty: ParamTypeModel,
}

impl View for FnParam {
    type V = FnParamModel;

    open spec fn view(&self) -> FnParamModel {
        FnParamModel { name: self.name@, ty: self.ty@ }
    }
}

/// A handler signature: its name, its generic parameters in order, and
/// its value parameters in order.
pub struct FnSig {
    pub name: Vec<u8>,
    pub generics: Vec<GenericParam>,
    pub params: Vec<FnParam>,
}

/// The abstract form of a handler signature.
#[verifier::ext_equal]
pub struct FnSigModel {
    pub name: Seq<u8>,
    pub generics: Seq<GenericParamModel>,
    pub params: Seq<FnParamModel>,
}

impl View for FnSig {
    type V = FnSigModel;

    open spec fn view(&self) -> FnSigModel {
        FnSigModel {
            name: self.name@,
            generics: self.generics@.map_values(|g: GenericParam| g@),
            params: self.params@.map_values(|p: FnParam| p@),
        }
    }
}

/// The identifier of the host type parameter the transform removes.
pub open spec fn host_ident() -> Seq<u8> {
    seq![72u8]
}

/// The identifier of the lifetime the transform binds when the signature
/// binds none.
pub open spec fn added_lifetime() -> Seq<u8> {
    seq![97u8]
}

/// Whether the transform removes this generic parameter: exactly the
/// host type parameter.
pub open spec fn spec_is_removed(g: GenericParamModel) -> bool {
    match g {
        GenericParamModel::TypeParam(n) => n == host_ident(),
        _ => false,
    }
}

/// The generic parameters that survive the transform, in order.
pub open spec fn spec_kept_generics(s: Seq<GenericParamModel>) -> Seq<GenericParamModel>
    decreases s.len(),
{
    if s.len() == 0 {
        Seq::empty()
    } else {
        let rest = spec_kept_generics(s.drop_last());
        if spec_is_removed(s.last()) {
            rest
        } else {
            rest.push(s.last())
        }
    }
}

/// Whether some generic parameter is a lifetime.
pub open spec fn spec_has_lifetime(s: Seq<GenericParamModel>) -> bool {
    exists|i: int| 0 <= i < s.len() && s[i] is Lifetime
}

/// What the transform does to one value parameter: a `&mut` reference to
/// the host type becomes the dynamically-dispatched host reference; every
/// other parameter is unchanged.
pub open spec fn spec_transform_param(p: FnParamModel) -> FnParamModel {
    match p.ty {
        ParamTypeModel::MutRefTo(n) => if n == host_ident() {
            FnParamModel { name: p.name, ty: ParamTypeModel::DynHostRef(added_lifetime()) }
        } else {
            p
        },
        _ => p,
    }
}

/// The transformed signature: host type parameter removed, a lifetime
/// bound when none was, host references made dynamic, everything else —
/// name, other generics, other parameters, their order — unchanged.
pub open spec fn spec_use_dyn_host(s: FnSigModel) -> FnSigModel {
    let kept = spec_kept_generics(s.generics);
    let generics = if spec_has_lifetime(kept) {
        kept
    } else {
        kept.push(GenericParamModel::Lifetime(added_lifetime()))
    };
    FnSigModel { name: s.name, generics, params: s.params.map_values(|p| spec_transform_param(p)) }
}

/// Whether a stored identifier is the host type identifier.
fn is_host_ident(v: &Vec<u8>) -> (r: bool)
    ensures
        r == (v@ == host_ident()),
{
    let r = v.len() == 1 && v[0] == 72;
    proof {
        if r {
            assert(v@ =~= host_ident());
        }
    }
    r
}

fn clone_generic(g: &GenericParam) -> (r: GenericParam)
    ensures
        r@ == g@,
{
    match g {
        GenericParam::Lifetime(n) => GenericParam::Lifetime(clone_bytes(n)),
        GenericParam::TypeParam(n) => GenericParam::TypeParam(clone_bytes(n)),
        GenericParam::ConstParam(n) => GenericParam::ConstParam(clone_bytes(n)),
    }
}

/// Rewrites a handler signature to the uniform, dynamically-dispatched
/// calling convention.
pub fn use_dyn_host(sig: &FnSig) -> (r: FnSig)
    ensures
        r@ == spec_use_dyn_host(sig@),
{
    let ghost gv = sig@.generics;
    let mut generics: Vec<GenericParam> = Vec::new();
    let mut has_lifetime = false;
    let mut i: usize = 0;
    while i < sig.generics.len()
        invariant
            i <= sig.generics.len(),
            gv == sig@.generics,
            gv.len() == sig.generics@.len(),
            forall|j: int| 0 <= j < gv.len() ==> gv[j] == sig.generics@[j]@,
            generics@.map_values(|g: GenericParam| g@) =~= spec_kept_generics(gv.take(i as int)),
            has_lifetime == spec_has_lifetime(spec_kept_generics(gv.take(i as int))),
        decreases sig.generics.len() - i,
    {
        let g = &sig.generics[i];
        proof {
            assert(g@ == gv[i as int]);
            assert(gv.take(i as int + 1).drop_last() =~= gv.take(i as int));
            assert(gv.take(i as int + 1).last() == gv[i as int]);
        }
        let keep = match g {
            GenericParam::TypeParam(n) => !is_host_ident(n),
            _ => true,
        };
        if keep {
            let is_lt = match g {
                GenericParam::Lifetime(_) => true,
                _ => false,
            };
            generics.push(clone_generic(g));
            if is_lt {
                has_lifetime = true;
            }
            proof {
                let kept_old = spec_kept_generics(gv.take(i as int));
                let kept = spec_kept_generics(gv.take(i as int + 1));
                assert(kept =~= kept_old.push(gv[i as int]));
                assert(generics@.map_values(|g2: GenericParam| g2@) =~= kept);
                if gv[i as int] is Lifetime {
                    assert(kept[kept.len() - 1] is Lifetime);
                } else {
                    assert(spec_has_lifetime(kept) == spec_has_lifetime(kept_old)) by {
                        if spec_has_lifetime(kept_old) {
                            let w = choose|j: int|
                                0 <= j < kept_old.len() && kept_old[j] is Lifetime;
                            assert(kept[w] is Lifetime);
                        }
                        if spec_has_lifetime(kept) {
                            let w = choose|j: int| 0 <= j < kept.len() && kept[j] is Lifetime;
                            assert(w != kept.len() - 1);
                            assert(kept_old[w] is Lifetime);
                        }
                    }
                }
            }
        } else {
            proof {
                assert(spec_kept_generics(gv.take(i as int + 1)) =~= spec_kept_generics(
                    gv.take(i as int),
                ));
            }
        }
        i += 1;
    }
    proof {
        assert(gv.take(gv.len() as int) =~= gv);
    }
    if !has_lifetime {
        let mut lt: Vec<u8> = Vec::new();
        lt.push(97);
        proof {
            assert(lt@ =~= added_lifetime());
        }
        generics.push(GenericParam::Lifetime(lt));
        proof {
            assert(generics@.map_values(|g: GenericParam| g@) =~= spec_kept_generics(gv).push(
                GenericParamModel::Lifetime(added_lifetime()),
            ));
        }
    }
    let mut params: Vec<FnParam> = Vec::new();
    let mut k: usize = 0;
    while k < sig.params.len()
        invariant
            k <= sig.params.len(),
            forall|j: int| 0 <= j < sig.params@.len() ==> sig@.params[j] == sig.params@[j]@,
            sig@.params.len() == sig.params@.len(),
            params@.len() == k,
            forall|j: int|
                0 <= j < k ==> (#[trigger] params@[j])@ == spec_transform_param(sig@.params[j]),
        decreases sig.params.len() - k,
    {
        let p = &sig.params[k];
        let name = clone_bytes(&p.name);
        let transformed = match &p.ty {
            ParamType::MutRefTo(n) => {
                if is_host_ident(n) {
                    let mut lt: Vec<u8> = Vec::new();
                    lt.push(97);
                    proof {
                        assert(lt@ =~= added_lifetime());
                    }
                    FnParam { name, ty: ParamType::DynHostRef(lt) }
                } else {
                    FnParam { name, ty: ParamType::MutRefTo(clone_bytes(n)) }
                }
            },
            ParamType::DynHostRef(n) => FnParam { name, ty: ParamType::DynHostRef(clone_bytes(n)) },
            ParamType::Opaque => FnParam { name, ty: ParamType::Opaque },
        };
        proof {
            assert(p@ == sig@.params[k as int]);
            assert(transformed@ == spec_transform_param(sig@.params[k as int]));
        }
        params.push(transformed);
        k += 1;
    }
    proof {
        assert(params@.map_values(|p2: FnParam| p2@) =~= sig@.params.map_values(
            |p2: FnParamModel| spec_transform_param(p2),
        ));
    }
    let r = FnSig { name: clone_bytes(&sig.name), generics, params };
    proof {
        assert(r@ =~~= spec_use_dyn_host(sig@));
    }
    r
}

} // verus!
