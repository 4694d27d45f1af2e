//! The signature lowerer: turns a function or method declaration into the
//! foreign-callable signature. The receiver becomes an explicit pointer
//! parameter named for the wrapped instance, string parameters become
//! character pointers, opaque parameters become pointer parameters, and
//! primitives pass through unchanged. The lowered name is derived
//! deterministically from the declaration's identifier.

use vstd::prelude::*;

use crate::decl::{has_receiver, opt_str_view, ret_is_self, Error, FnDecl, FnDeclV, Param, ParamV};
use crate::strutil::str_eq;
use crate::ty::{classify, spec_classify, TypeClass, TypeRef, TypeRefV};

verus! {

/// The exported name of a generated function: the reserved prefix, a role
/// tag, an underscore, then the logical name.
pub open spec fn spec_swig_fn(name: Seq<char>, fn_tag: Seq<char>) -> Seq<char> {
    "__SWIG_INJECT_"@ + fn_tag + "_"@ + name
}

/// Mangle the exported name for `name` under the role tag `fn_name`.
pub fn swig_fn(name: &str, fn_name: &str) -> (r: String)
    ensures
        r@ == spec_swig_fn(name@, fn_name@),
{
    let mut s = String::from_str("__SWIG_INJECT_");
    s.append(fn_name);
    s.append("_");
    s.append(name);
    proof {
        assert(s@ =~= spec_swig_fn(name@, fn_name@));
    }
    s
}

/// The name of the pointer-freeing function for a type.
pub fn swig_free(name: &str) -> (r: String)
    ensures
        r@ == spec_swig_fn(name@, "free"@),
{
    swig_fn(name, "free")
}

/// One parameter of the lowered, foreign-callable signature.
#[derive(Debug)]
pub enum ForeignParam {
    /// The rewritten receiver: `wrapped_self` as a pointer to the base type,
    /// constant when the original took `&self`, owning when it took `self`.
    SelfPtr { is_const: bool, base: String },
    /// A string parameter lowered to a constant character pointer.
    CharPtr { name: String },
    /// An opaque parameter lowered to a constant pointer to its type;
    /// `by_ref` records how the original parameter was declared, which
    /// decides whether the wrapper borrows or moves the pointee.
    OpaquePtr { name: String, ty: String, by_ref: bool },
    /// An owning pointer parameter, used by the pointer-freeing function.
    MutPtr { name: String, ty: String },
    /// A primitive parameter, passed through unchanged.
    Plain { name: String, ty: TypeRef },
}

pub enum ForeignParamV {
    SelfPtr { is_const: bool, base: Seq<char> },
    CharPtr { name: Seq<char> },
    OpaquePtr { name: Seq<char>, ty: Seq<char>, by_ref: bool },
    MutPtr { name: Seq<char>, ty: Seq<char> },
    Plain { name: Seq<char>, ty: TypeRefV },
}

impl View for ForeignParam {
    type V = ForeignParamV;

    open spec fn view(&self) -> ForeignParamV {
        match self {
            ForeignParam::SelfPtr { is_const, base } => ForeignParamV::SelfPtr {
                is_const: *is_const,
                base: base@,
            },
            ForeignParam::CharPtr { name } => ForeignParamV::CharPtr { name: name@ },
            ForeignParam::OpaquePtr { name, ty, by_ref } => ForeignParamV::OpaquePtr {
                name: name@,
                ty: ty@,
                by_ref: *by_ref,
            },
            ForeignParam::MutPtr { name, ty } => ForeignParamV::MutPtr { name: name@, ty: ty@ },
            ForeignParam::Plain { name, ty } => ForeignParamV::Plain { name: name@, ty: ty@ },
        }
    }
}

/// The return type of the lowered signature.
#[derive(Debug)]
pub enum ForeignRet {
    /// No return type.
    Unit,
    /// A primitive return type, passed through unchanged.
    Plain { ty: TypeRef },
    /// A string return lowered to an owned character pointer.
    CharPtr,
    /// An opaque return lowered to an owning pointer.
    OwnedPtr { ty: String },
}

pub enum ForeignRetV {
    Unit,
    Plain { ty: TypeRefV },
    CharPtr,
    OwnedPtr { ty: Seq<char> },
}

impl View for ForeignRet {
    type V = ForeignRetV;

    open spec fn view(&self) -> ForeignRetV {
        match self {
            ForeignRet::Unit => ForeignRetV::Unit,
            ForeignRet::Plain { ty } => ForeignRetV::Plain { ty: ty@ },
            ForeignRet::CharPtr => ForeignRetV::CharPtr,
            ForeignRet::OwnedPtr { ty } => ForeignRetV::OwnedPtr { ty: ty@ },
        }
    }
}

/// The lowered, foreign-callable signature: mangled name, transformed
/// parameters in declaration order, and transformed return type.
#[derive(Debug)]
pub struct ForeignSignature {
    pub name: String,
    pub params: Vec<ForeignParam>,
    pub ret: ForeignRet,
}

pub struct ForeignSignatureV {
    pub name: Seq<char>,
    pub params: Seq<ForeignParamV>,
    pub ret: ForeignRetV,
}

impl View for ForeignSignature {
    type V = ForeignSignatureV;

    open spec fn view(&self) -> ForeignSignatureV {
        ForeignSignatureV {
            name: self.name@,
            params: self.params@.map_values(|p: ForeignParam| p@),
            ret: self.ret@,
        }
    }
}

/// The base name, where one was supplied.
pub open spec fn some_or_empty(o: Option<Seq<char>>) -> Seq<char> {
    match o {
        Some(s) => s,
        None => Seq::empty(),
    }
}

/// How one declared parameter lowers.
pub open spec fn spec_convert_arg(name: Seq<char>, ty: TypeRefV) -> ForeignParamV {
    match spec_classify(ty.name) {
        TypeClass::Primitive => ForeignParamV::Plain { name, ty },
        TypeClass::StringLike => ForeignParamV::CharPtr { name },
        TypeClass::Opaque => ForeignParamV::OpaquePtr { name, ty: ty.name, by_ref: ty.is_ref },
    }
}

/// How one parameter of the declaration lowers, the receiver included.
pub open spec fn spec_lower_param(p: ParamV, base: Option<Seq<char>>) -> ForeignParamV {
    match p {
        ParamV::Receiver { by_ref } => ForeignParamV::SelfPtr {
            is_const: by_ref,
            base: some_or_empty(base),
        },
        ParamV::Named { name, ty } => spec_convert_arg(name, ty),
    }
}

/// How the declared return type lowers.
pub open spec fn spec_convert_ret(ret: Option<TypeRefV>, base: Option<Seq<char>>) -> ForeignRetV {
    match ret {
        None => ForeignRetV::Unit,
        Some(t) => match spec_classify(t.name) {
            TypeClass::Primitive => ForeignRetV::Plain { ty: t },
            TypeClass::StringLike => ForeignRetV::CharPtr,
            TypeClass::Opaque => if t.name == "Self"@ {
                ForeignRetV::OwnedPtr { ty: some_or_empty(base) }
            } else {
                ForeignRetV::OwnedPtr { ty: t.name }
            },
        },
    }
}

/// Lowering succeeds exactly when every use of the base type name has one.
pub open spec fn spec_lower_ok(d: FnDeclV, base: Option<Seq<char>>) -> bool {
    !(base is None && (has_receiver(d) || ret_is_self(d)))
}

/// The lowered signature of a declaration, defined when `spec_lower_ok`.
pub open spec fn spec_lower(d: FnDeclV, base: Option<Seq<char>>) -> ForeignSignatureV {
    ForeignSignatureV {
        name: spec_swig_fn(d.ident, "ffi"@),
        params: d.inputs.map_values(|p: ParamV| spec_lower_param(p, base)),
        ret: spec_convert_ret(d.output, base),
    }
}

/// Whether the declaration's parameter list holds a receiver.
pub fn decl_has_receiver(d: &FnDecl) -> (r: bool)
    ensures
        r == has_receiver(d@),
{
    let mut i: usize = 0;
    while i < d.inputs.len()
        invariant
            i <= d.inputs.len(),
            forall|j: int| 0 <= j < i ==> !(d@.inputs[j] is Receiver),
        decreases d.inputs.len() - i,
    {
        match &d.inputs[i] {
            Param::Receiver { .. } => {
                proof {
                    assert(d@.inputs[i as int] is Receiver);
                }
                return true;
            },
            _ => {
                proof {
                    assert(!(d@.inputs[i as int] is Receiver));
                }
            },
        }
        i += 1;
    }
    false
}

/// Whether the declared return type is `Self`.
pub fn decl_ret_is_self(d: &FnDecl) -> (r: bool)
    ensures
        r == ret_is_self(d@),
{
    match &d.output {
        Some(t) => str_eq(t.name.as_str(), "Self"),
        None => false,
    }
}

/// Rewrite the receiver as an explicit pointer parameter typed for the base.
pub fn convert_self_type(arg: &Param, base: &Option<String>) -> (r: ForeignParam)
    requires
        arg@ is Receiver,
        opt_str_view(base) is Some,
    ensures
        r@ == spec_lower_param(arg@, opt_str_view(base)),
{
    let by_ref = match arg {
        Param::Receiver { by_ref } => *by_ref,
        _ => false,
    };
    match base {
        Some(b) => ForeignParam::SelfPtr { is_const: by_ref, base: b.clone() },
        None => vstd::pervasive::unreached(),
    }
}

/// Lower one named parameter according to its classification.
pub fn convert_arg_type(name: &str, ty: &TypeRef) -> (r: ForeignParam)
    ensures
        r@ == spec_convert_arg(name@, ty@),
{
    match classify(ty) {
        TypeClass::Primitive => ForeignParam::Plain {
            name: String::from_str(name),
            ty: TypeRef { is_ref: ty.is_ref, name: ty.name.clone() },
        },
        TypeClass::StringLike => ForeignParam::CharPtr { name: String::from_str(name) },
        TypeClass::Opaque => ForeignParam::OpaquePtr {
            name: String::from_str(name),
            ty: ty.name.clone(),
            by_ref: ty.is_ref,
        },
    }
}

/// Lower the declared return type according to its classification.
pub fn convert_ret_type(rty: &Option<TypeRef>, base: &Option<String>) -> (r: ForeignRet)
    requires
        !(opt_str_view(base) is None && (match rty {
            Some(t) => t.name@ == "Self"@,
            None => false,
        })),
    ensures
        r@ == spec_convert_ret(
            match rty {
                Some(t) => Some(t@),
                None => None,
            },
            opt_str_view(base),
        ),
{
    match rty {
        None => ForeignRet::Unit,
        Some(t) => {
            match classify(t) {
                TypeClass::Primitive => ForeignRet::Plain {
                    ty: TypeRef { is_ref: t.is_ref, name: t.name.clone() },
                },
                TypeClass::StringLike => ForeignRet::CharPtr,
                TypeClass::Opaque => {
                    if str_eq(t.name.as_str(), "Self") {
                        match base {
                            Some(b) => ForeignRet::OwnedPtr { ty: b.clone() },
                            None => vstd::pervasive::unreached(),
                        }
                    } else {
                        ForeignRet::OwnedPtr { ty: t.name.clone() }
                    }
                },
            }
        },
    }
}

/// Lower a declaration to its foreign-callable signature. Fails with a
/// missing-base-type error exactly when the declaration needs a base type
/// name (a receiver parameter or a `Self` return type) and none was given.
pub fn lower(decl: &FnDecl, base: &Option<String>) -> (r: Result<ForeignSignature, Error>)
    ensures
        r is Ok <==> spec_lower_ok(decl@, opt_str_view(base)),
        (r matches Ok(sig) ==> sig@ == spec_lower(decl@, opt_str_view(base))),
        (r matches Err(e) ==> e == Error::MissingBaseType),
{
    let ghost dv = decl@;
    let ghost bv = opt_str_view(base);
    let needs_base = decl_has_receiver(decl) || decl_ret_is_self(decl);
    if base.is_none() && needs_base {
        return Err(Error::MissingBaseType);
    }
    let mut params: Vec<ForeignParam> = Vec::new();
    assert(params@.map_values(|p: ForeignParam| p@) =~= dv.inputs.take(0).map_values(
        |p: ParamV| spec_lower_param(p, bv),
    ));
    let mut i: usize = 0;
    while i < decl.inputs.len()
        invariant
            dv == decl@,
            bv == opt_str_view(base),
            spec_lower_ok(dv, bv),
            i <= decl.inputs.len(),
            params@.map_values(|p: ForeignParam| p@) == dv.inputs.take(i as int).map_values(
                |p: ParamV| spec_lower_param(p, bv),
            ),
        decreases decl.inputs.len() - i,
    {
        let fp = match &decl.inputs[i] {
            Param::Receiver { .. } => {
                proof {
                    assert(dv.inputs[i as int] is Receiver);
                    assert(has_receiver(dv));
                }
                convert_self_type(&decl.inputs[i], base)
            },
            Param::Named { name, ty } => convert_arg_type(name.as_str(), ty),
        };
        proof {
            assert(fp@ == spec_lower_param(dv.inputs[i as int], bv));
        }
        let ghost pv = params@;
        params.push(fp);
        proof {
            let lhs = params@.map_values(|p: ForeignParam| p@);
            let rhs = dv.inputs.take(i + 1).map_values(|p: ParamV| spec_lower_param(p, bv));
            assert(params@ == pv.push(fp));
            assert(pv.map_values(|p: ForeignParam| p@).len() == pv.len());
            assert(pv.len() == i);
            assert(lhs.len() == i + 1);
            assert(rhs.len() == i + 1);
            assert forall|k: int| 0 <= k < lhs.len() implies lhs[k] == rhs[k] by {
                assert(rhs[k] == spec_lower_param(dv.inputs[k], bv));
                if k < i {
                    assert(params@[k] == pv[k]);
                    assert(lhs[k] == pv.map_values(|p: ForeignParam| p@)[k]);
                    assert(pv.map_values(|p: ForeignParam| p@)[k] == dv.inputs.take(
                        i as int,
                    ).map_values(|p: ParamV| spec_lower_param(p, bv))[k]);
                } else {
                    assert(params@[k] == fp);
                }
            }
            assert(lhs =~= rhs);
        }
        i += 1;
    }
    proof {
        assert(dv.inputs.take(decl.inputs.len() as int) =~= dv.inputs);
    }
    let ret = convert_ret_type(&decl.output, base);
    let name = swig_fn(decl.ident.as_str(), "ffi");
    let sig = ForeignSignature { name, params, ret };
    proof {
        assert(sig@.params =~= spec_lower(dv, bv).params);
    }
    Ok(sig)
}

} // verus!
