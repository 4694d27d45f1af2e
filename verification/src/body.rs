//! The wrapper body synthesizer: from a lowered signature it builds the
//! marshaling body of the foreign-callable wrapper. Every pointer input is
//! recovered by a null-checked dereference (borrowing or moving as the
//! original parameter was declared), string inputs are decoded from their
//! character-pointer form, and the body then performs exactly one call into
//! the original declaration, boxing the result when it is owned or opaque.

use vstd::prelude::*;

use crate::decl::{opt_str_view, FnDecl, FnDeclV};
use crate::lower::{ForeignParam, ForeignParamV, ForeignRetV, ForeignSignature, ForeignSignatureV};

verus! {

/// How one parameter's value is recovered before the call.
#[derive(Debug)]
pub enum MarshalOp {
    /// Assert the pointer non-null, then borrow the pointee.
    DerefBorrow { name: String },
    /// Assert the pointer non-null, then move the pointee out.
    DerefMove { name: String },
    /// Decode the character pointer into the host string type.
    DecodeString { name: String },
    /// Pass the value through unchanged.
    PassValue { name: String },
}

pub enum MarshalOpV {
    DerefBorrow { name: Seq<char> },
    DerefMove { name: Seq<char> },
    DecodeString { name: Seq<char> },
    PassValue { name: Seq<char> },
}

impl View for MarshalOp {
    type V = MarshalOpV;

    open spec fn view(&self) -> MarshalOpV {
        match self {
            MarshalOp::DerefBorrow { name } => MarshalOpV::DerefBorrow { name: name@ },
            MarshalOp::DerefMove { name } => MarshalOpV::DerefMove { name: name@ },
            MarshalOp::DecodeString { name } => MarshalOpV::DecodeString { name: name@ },
            MarshalOp::PassValue { name } => MarshalOpV::PassValue { name: name@ },
        }
    }
}

/// What the wrapper does with the result of the single original call.
#[derive(Clone, Copy, PartialEq, Eq, Structural, Debug)]
pub enum RetOp {
    /// Heap-allocate the result and return the raw address.
    BoxRaw,
    /// Hand the string result to the caller as an owned character pointer.
    StrRaw,
    /// Return the value directly.
    Direct,
}

/// The synthesized wrapper body: the marshal steps in parameter order, the
/// one call into the original declaration, and the return handling. The
/// original logic is always called, never duplicated.
#[derive(Debug)]
pub struct WrapperBody {
    pub marshal: Vec<MarshalOp>,
    pub call_base: Option<String>,
    pub call_name: String,
    pub call_args: Vec<String>,
    pub ret_op: RetOp,
}

pub struct WrapperBodyV {
    pub marshal: Seq<MarshalOpV>,
    pub call_base: Option<Seq<char>>,
    pub call_name: Seq<char>,
    pub call_args: Seq<Seq<char>>,
    pub ret_op: RetOp,
}

impl View for WrapperBody {
    type V = WrapperBodyV;

    open spec fn view(&self) -> WrapperBodyV {
        WrapperBodyV {
            marshal: self.marshal@.map_values(|m: MarshalOp| m@),
            call_base: opt_str_view(&self.call_base),
            call_name: self.call_name@,
            call_args: self.call_args.deep_view(),
            ret_op: self.ret_op,
        }
    }
}

/// The body of one generated foreign function.
#[derive(Debug)]
pub enum FnBody {
    /// A marshaling wrapper around the original declaration.
    Call(WrapperBody),
    /// Assert the pointer non-null, then drop the pointee.
    FreePointee,
}

pub enum FnBodyV {
    Call(WrapperBodyV),
    FreePointee,
}

impl View for FnBody {
    type V = FnBodyV;

    open spec fn view(&self) -> FnBodyV {
        match self {
            FnBody::Call(b) => FnBodyV::Call(b@),
            FnBody::FreePointee => FnBodyV::FreePointee,
        }
    }
}

/// One generated foreign-callable function: its lowered signature and its
/// marshaling body.
#[derive(Debug)]
pub struct ForeignFn {
    pub sig: ForeignSignature,
    pub body: FnBody,
}

pub struct ForeignFnV {
    pub sig: ForeignSignatureV,
    pub body: FnBodyV,
}

impl View for ForeignFn {
    type V = ForeignFnV;

    open spec fn view(&self) -> ForeignFnV {
        ForeignFnV { sig: self.sig@, body: self.body@ }
    }
}

/// The name under which a lowered parameter's recovered value is bound, and
/// under which the call passes it on.
pub open spec fn spec_call_arg(p: ForeignParamV) -> Seq<char> {
    match p {
        ForeignParamV::SelfPtr { .. } => "wrapped_self"@,
        ForeignParamV::CharPtr { name } => name,
        ForeignParamV::OpaquePtr { name, .. } => name,
        ForeignParamV::MutPtr { name, .. } => name,
        ForeignParamV::Plain { name, .. } => name,
    }
}

/// The marshal step for one lowered parameter: pointers to borrowed
/// receivers and by-reference opaques are borrowed, owned receivers and
/// by-value opaques are moved out, strings are decoded, primitives pass.
pub open spec fn spec_marshal_op(p: ForeignParamV) -> MarshalOpV {
    match p {
        ForeignParamV::SelfPtr { is_const, .. } => if is_const {
            MarshalOpV::DerefBorrow { name: "wrapped_self"@ }
        } else {
            MarshalOpV::DerefMove { name: "wrapped_self"@ }
        },
        ForeignParamV::CharPtr { name } => MarshalOpV::DecodeString { name },
        ForeignParamV::OpaquePtr { name, by_ref, .. } => if by_ref {
            MarshalOpV::DerefBorrow { name }
        } else {
            MarshalOpV::DerefMove { name }
        },
        ForeignParamV::MutPtr { name, .. } => MarshalOpV::DerefMove { name },
        ForeignParamV::Plain { name, .. } => MarshalOpV::PassValue { name },
    }
}

/// The return handling for a lowered return type.
pub open spec fn spec_ret_op(r: ForeignRetV) -> RetOp {
    match r {
        ForeignRetV::Unit => RetOp::Direct,
        ForeignRetV::Plain { .. } => RetOp::Direct,
        ForeignRetV::CharPtr => RetOp::StrRaw,
        ForeignRetV::OwnedPtr { .. } => RetOp::BoxRaw,
    }
}

/// The body synthesized for a lowered signature of a declaration.
pub open spec fn spec_synthesize_body(
    sig: ForeignSignatureV,
    decl: FnDeclV,
    base: Option<Seq<char>>,
) -> WrapperBodyV {
    WrapperBodyV {
        marshal: sig.params.map_values(|p: ForeignParamV| spec_marshal_op(p)),
        call_base: base,
        call_name: decl.ident,
        call_args: sig.params.map_values(|p: ForeignParamV| spec_call_arg(p)),
        ret_op: spec_ret_op(sig.ret),
    }
}

/// The marshal step for one parameter, as a value.
fn marshal_op_of(p: &ForeignParam) -> (r: MarshalOp)
    ensures
        r@ == spec_marshal_op(p@),
{
    match p {
        ForeignParam::SelfPtr { is_const, .. } => {
            if *is_const {
                MarshalOp::DerefBorrow { name: String::from_str("wrapped_self") }
            } else {
                MarshalOp::DerefMove { name: String::from_str("wrapped_self") }
            }
        },
        ForeignParam::CharPtr { name } => MarshalOp::DecodeString { name: name.clone() },
        ForeignParam::OpaquePtr { name, by_ref, .. } => {
            if *by_ref {
                MarshalOp::DerefBorrow { name: name.clone() }
            } else {
                MarshalOp::DerefMove { name: name.clone() }
            }
        },
        ForeignParam::MutPtr { name, .. } => MarshalOp::DerefMove { name: name.clone() },
        ForeignParam::Plain { name, .. } => MarshalOp::PassValue { name: name.clone() },
    }
}

/// The argument name one parameter contributes to the call.
fn call_arg_of(p: &ForeignParam) -> (r: String)
    ensures
        r@ == spec_call_arg(p@),
{
    match p {
        ForeignParam::SelfPtr { .. } => String::from_str("wrapped_self"),
        ForeignParam::CharPtr { name } => name.clone(),
        ForeignParam::OpaquePtr { name, .. } => name.clone(),
        ForeignParam::MutPtr { name, .. } => name.clone(),
        ForeignParam::Plain { name, .. } => name.clone(),
    }
}

/// Build the marshaling body for a lowered signature: recover every
/// parameter in order, call the original declaration once with the recovered
/// arguments, and box, hand over, or return the result as its classification
/// demands.
pub fn synthesize_body(sig: &ForeignSignature, decl: &FnDecl, base: &Option<String>) -> (r:
    WrapperBody)
    ensures
        r@ == spec_synthesize_body(sig@, decl@, opt_str_view(base)),
{
    let ghost sv = sig@;
    let mut marshal: Vec<MarshalOp> = Vec::new();
    let mut call_args: Vec<String> = Vec::new();
    assert(marshal@.map_values(|m: MarshalOp| m@) =~= sv.params.take(0).map_values(
        |p: ForeignParamV| spec_marshal_op(p),
    ));
    assert(call_args.deep_view() =~= sv.params.take(0).map_values(
        |p: ForeignParamV| spec_call_arg(p),
    ));
    let mut i: usize = 0;
    while i < sig.params.len()
        invariant
            sv == sig@,
            i <= sig.params.len(),
            marshal@.map_values(|m: MarshalOp| m@) == sv.params.take(i as int).map_values(
                |p: ForeignParamV| spec_marshal_op(p),
            ),
            call_args.deep_view() == sv.params.take(i as int).map_values(
                |p: ForeignParamV| spec_call_arg(p),
            ),
        decreases sig.params.len() - i,
    {
        let m = marshal_op_of(&sig.params[i]);
        let a = call_arg_of(&sig.params[i]);
        let ghost mv = marshal@;
        let ghost av = call_args@;
        let ghost adv = call_args.deep_view();
        let ghost aw = a@;
        marshal.push(m);
        call_args.push(a);
        proof {
            let mlhs = marshal@.map_values(|m: MarshalOp| m@);
            let mrhs = sv.params.take(i + 1).map_values(|p: ForeignParamV| spec_marshal_op(p));
            assert(marshal@ == mv.push(m));
            assert(mv.map_values(|m: MarshalOp| m@).len() == mv.len());
            assert(mlhs.len() == i + 1);
            assert(mrhs.len() == i + 1);
            assert forall|k: int| 0 <= k < mlhs.len() implies mlhs[k] == mrhs[k] by {
                assert(mrhs[k] == spec_marshal_op(sv.params[k]));
                if k < i {
                    assert(marshal@[k] == mv[k]);
                    assert(mlhs[k] == mv.map_values(|m: MarshalOp| m@)[k]);
                    assert(mv.map_values(|m: MarshalOp| m@)[k] == sv.params.take(
                        i as int,
                    ).map_values(|p: ForeignParamV| spec_marshal_op(p))[k]);
                } else {
                    assert(marshal@[k] == m);
                }
            }
            assert(mlhs =~= mrhs);

            let alhs = call_args.deep_view();
            let arhs = sv.params.take(i + 1).map_values(|p: ForeignParamV| spec_call_arg(p));
            assert(call_args@ == av.push(a));
            assert(adv.len() == av.len());
            assert(av.len() == i);
            assert(alhs.len() == av.len() + 1);
            assert(arhs.len() == i + 1);
            assert forall|k: int| 0 <= k < alhs.len() implies alhs[k] == arhs[k] by {
                assert(arhs[k] == spec_call_arg(sv.params[k]));
                if k < i {
                    assert(call_args@[k] == av[k]);
                    assert(alhs[k] == adv[k]);
                } else {
                    assert(call_args@[k] == a);
                    assert(alhs[k] == aw);
                }
            }
            assert(alhs =~~= arhs);
        }
        i += 1;
    }
    proof {
        assert(sv.params.take(sig.params.len() as int) =~= sv.params);
    }
    let call_base = match base {
        Some(b) => Some(b.clone()),
        None => None,
    };
    let ret_op = match &sig.ret {
        crate::lower::ForeignRet::Unit => RetOp::Direct,
        crate::lower::ForeignRet::Plain { .. } => RetOp::Direct,
        crate::lower::ForeignRet::CharPtr => RetOp::StrRaw,
        crate::lower::ForeignRet::OwnedPtr { .. } => RetOp::BoxRaw,
    };
    WrapperBody {
        marshal,
        call_base,
        call_name: decl.ident.clone(),
        call_args,
        ret_op,
    }
}

} // verus!
