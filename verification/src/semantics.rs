//! An abstract execution model of the generated wrappers, and the proof
//! that a synthesized wrapper is behaviorally equivalent to a direct call of
//! the original declaration: given valid non-null pointers and values, the
//! wrapper recovers exactly the dereferenced arguments in declaration
//! order, performs the one call into the original, and what its caller
//! observes of the result equals the original's result.

use vstd::prelude::*;

use crate::body::{spec_call_arg, spec_marshal_op, spec_ret_op, spec_synthesize_body, MarshalOpV,
    RetOp, WrapperBodyV};
use crate::decl::{FnDeclV, ParamV};
use crate::lower::{spec_lower, spec_lower_ok, spec_lower_param};
use crate::ty::{spec_classify, TypeClass};

verus! {

/// A value as it crosses the foreign boundary: a machine number, a pointer,
/// or a null-terminated character pointer.
pub enum ForeignVal {
    Num(int),
    Ptr(int),
    CStr(Seq<char>),
}

/// A value of the host language: a number, an opaque object, or a string.
pub enum HostVal {
    Num(int),
    Obj(int),
    Str(Seq<char>),
}

/// What one marshal step recovers from a foreign value, against a heap
/// mapping each live pointer to its pointee. `None` stands for the fatal
/// null-check abort of the generated code.
pub open spec fn marshal_eval(op: MarshalOpV, v: ForeignVal, heap: Map<int, HostVal>) -> Option<
    HostVal,
> {
    match op {
        MarshalOpV::DerefBorrow { .. } => match v {
            ForeignVal::Ptr(p) => if p != 0 && heap.dom().contains(p) {
                Some(heap[p])
            } else {
                None
            },
            _ => None,
        },
        MarshalOpV::DerefMove { .. } => match v {
            ForeignVal::Ptr(p) => if p != 0 && heap.dom().contains(p) {
                Some(heap[p])
            } else {
                None
            },
            _ => None,
        },
        MarshalOpV::DecodeString { .. } => match v {
            ForeignVal::CStr(s) => Some(HostVal::Str(s)),
            _ => None,
        },
        MarshalOpV::PassValue { .. } => match v {
            ForeignVal::Num(n) => Some(HostVal::Num(n)),
            _ => None,
        },
    }
}

/// What a direct call of the original declaration receives for one declared
/// parameter: the receiver and opaque parameters are the pointees of their
/// pointers, strings are decoded, primitives pass through.
pub open spec fn direct_eval(p: ParamV, v: ForeignVal, heap: Map<int, HostVal>) -> Option<
    HostVal,
> {
    match p {
        ParamV::Receiver { .. } => match v {
            ForeignVal::Ptr(q) => if q != 0 && heap.dom().contains(q) {
                Some(heap[q])
            } else {
                None
            },
            _ => None,
        },
        ParamV::Named { name, ty } => match spec_classify(ty.name) {
            TypeClass::Primitive => match v {
                ForeignVal::Num(n) => Some(HostVal::Num(n)),
                _ => None,
            },
            TypeClass::StringLike => match v {
                ForeignVal::CStr(s) => Some(HostVal::Str(s)),
                _ => None,
            },
            TypeClass::Opaque => match v {
                ForeignVal::Ptr(q) => if q != 0 && heap.dom().contains(q) {
                    Some(heap[q])
                } else {
                    None
                },
                _ => None,
            },
        },
    }
}

/// The dereferenced arguments of a direct call, in declaration order.
pub open spec fn direct_args(
    params: Seq<ParamV>,
    vs: Seq<ForeignVal>,
    heap: Map<int, HostVal>,
) -> Option<Seq<HostVal>>
    decreases params.len(),
{
    if params.len() == 0 {
        Some(Seq::empty())
    } else {
        match direct_eval(params[0], vs[0], heap) {
            None => None,
            Some(h) => match direct_args(params.skip(1), vs.skip(1), heap) {
                None => None,
                Some(rest) => Some(seq![h] + rest),
            },
        }
    }
}

/// The name a marshal step binds its recovered value to.
pub open spec fn op_name(op: MarshalOpV) -> Seq<char> {
    match op {
        MarshalOpV::DerefBorrow { name } => name,
        MarshalOpV::DerefMove { name } => name,
        MarshalOpV::DecodeString { name } => name,
        MarshalOpV::PassValue { name } => name,
    }
}

/// The name a declared parameter's recovered value is bound to in the
/// wrapper body.
pub open spec fn param_name(p: ParamV) -> Seq<char> {
    match p {
        ParamV::Receiver { .. } => "wrapped_self"@,
        ParamV::Named { name, .. } => name,
    }
}

/// Run the marshal steps in order over the foreign arguments, binding each
/// recovered value to its name.
pub open spec fn bind_all(
    ops: Seq<MarshalOpV>,
    vs: Seq<ForeignVal>,
    heap: Map<int, HostVal>,
    env: Map<Seq<char>, HostVal>,
) -> Option<Map<Seq<char>, HostVal>>
    decreases ops.len(),
{
    if ops.len() == 0 {
        Some(env)
    } else {
        match marshal_eval(ops[0], vs[0], heap) {
            None => None,
            Some(h) => bind_all(ops.skip(1), vs.skip(1), heap, env.insert(op_name(ops[0]), h)),
        }
    }
}

/// Evaluate the call's argument names in the bound environment.
pub open spec fn eval_args(names: Seq<Seq<char>>, env: Map<Seq<char>, HostVal>) -> Option<
    Seq<HostVal>,
>
    decreases names.len(),
{
    if names.len() == 0 {
        Some(Seq::empty())
    } else if env.dom().contains(names[0]) {
        match eval_args(names.skip(1), env) {
            None => None,
            Some(rest) => Some(seq![env[names[0]]] + rest),
        }
    } else {
        None
    }
}

/// What the wrapper's caller observes of the returned value: a boxed result
/// observed through its returned address, a string handed over as a
/// character pointer, or the value itself.
pub open spec fn observe_ret(op: RetOp, res: HostVal) -> Option<HostVal> {
    match op {
        RetOp::BoxRaw => Some(res),
        RetOp::Direct => Some(res),
        RetOp::StrRaw => match res {
            HostVal::Str(s) => Some(HostVal::Str(s)),
            _ => None,
        },
    }
}

/// The observed result of running a wrapper body: marshal every foreign
/// argument, evaluate the call's argument names, call the original's
/// semantics once, and observe the returned value.
pub open spec fn wrapper_observed(
    b: WrapperBodyV,
    vs: Seq<ForeignVal>,
    heap: Map<int, HostVal>,
    orig: spec_fn(Seq<HostVal>) -> HostVal,
) -> Option<HostVal> {
    match bind_all(b.marshal, vs, heap, Map::empty()) {
        None => None,
        Some(env) => match eval_args(b.call_args, env) {
            None => None,
            Some(args) => observe_ret(b.ret_op, orig(args)),
        },
    }
}

/// The names the parameters bind are pairwise distinct.
pub open spec fn distinct_param_names(params: Seq<ParamV>) -> bool {
    forall|i: int, j: int|
        0 <= i < j < params.len() ==> param_name(params[i]) != param_name(params[j])
}

/// The marshal step synthesized for a lowered parameter recovers exactly
/// what a direct call receives for the declared parameter, and binds it
/// under the parameter's name.
pub proof fn lemma_marshal_matches_direct(
    p: ParamV,
    base: Option<Seq<char>>,
    v: ForeignVal,
    heap: Map<int, HostVal>,
)
    ensures
        marshal_eval(spec_marshal_op(spec_lower_param(p, base)), v, heap) == direct_eval(
            p,
            v,
            heap,
        ),
        op_name(spec_marshal_op(spec_lower_param(p, base))) == param_name(p),
        spec_call_arg(spec_lower_param(p, base)) == param_name(p),
{
}

/// Binding marshal steps that recover what the direct call receives, and
/// then evaluating the call's argument names, yields exactly the direct
/// call's arguments, whatever the environment already held under other
/// names.
proof fn lemma_bind_then_eval(
    ops: Seq<MarshalOpV>,
    names: Seq<Seq<char>>,
    params: Seq<ParamV>,
    vs: Seq<ForeignVal>,
    heap: Map<int, HostVal>,
    env0: Map<Seq<char>, HostVal>,
    hvals: Seq<HostVal>,
)
    requires
        ops.len() == params.len(),
        names.len() == params.len(),
        vs.len() == params.len(),
        forall|i: int|
            0 <= i < params.len() ==> marshal_eval(ops[i], vs[i], heap) == direct_eval(
                params[i],
                vs[i],
                heap,
            ),
        forall|i: int| 0 <= i < params.len() ==> op_name(ops[i]) == names[i],
        forall|i: int, j: int| 0 <= i < j < params.len() ==> names[i] != names[j],
        direct_args(params, vs, heap) == Some(hvals),
    ensures
        bind_all(ops, vs, heap, env0) is Some,
        ({
            let env = bind_all(ops, vs, heap, env0)->Some_0;
            &&& eval_args(names, env) == Some(hvals)
            &&& forall|k: Seq<char>|
                !names.contains(k) ==> (env.dom().contains(k) == env0.dom().contains(k) && (
                env0.dom().contains(k) ==> env[k] == env0[k]))
        }),
    decreases params.len(),
{
    if params.len() == 0 {
        assert(bind_all(ops, vs, heap, env0) == Some(env0));
        assert(hvals =~= Seq::<HostVal>::empty());
        assert(eval_args(names, env0) == Some(Seq::<HostVal>::empty()));
    } else {
        let n0 = names[0];
        let h0 = direct_eval(params[0], vs[0], heap)->Some_0;
        assert(direct_eval(params[0], vs[0], heap) is Some);
        assert(marshal_eval(ops[0], vs[0], heap) == Some(h0));
        let rest_hvals = direct_args(params.skip(1), vs.skip(1), heap)->Some_0;
        assert(direct_args(params.skip(1), vs.skip(1), heap) is Some);
        assert(hvals == seq![h0] + rest_hvals);
        let env1 = env0.insert(n0, h0);
        assert(op_name(ops[0]) == n0);
        assert forall|i: int|
            0 <= i < params.skip(1).len() implies marshal_eval(
            ops.skip(1)[i],
            vs.skip(1)[i],
            heap,
        ) == direct_eval(params.skip(1)[i], vs.skip(1)[i], heap) && op_name(ops.skip(1)[i])
            == names.skip(1)[i] by {
            assert(ops.skip(1)[i] == ops[i + 1]);
            assert(vs.skip(1)[i] == vs[i + 1]);
            assert(params.skip(1)[i] == params[i + 1]);
            assert(names.skip(1)[i] == names[i + 1]);
        }
        assert forall|i: int, j: int|
            0 <= i < j < params.skip(1).len() implies names.skip(1)[i] != names.skip(1)[j] by {
            assert(names.skip(1)[i] == names[i + 1]);
            assert(names.skip(1)[j] == names[j + 1]);
        }
        lemma_bind_then_eval(
            ops.skip(1),
            names.skip(1),
            params.skip(1),
            vs.skip(1),
            heap,
            env1,
            rest_hvals,
        );
        let env = bind_all(ops.skip(1), vs.skip(1), heap, env1)->Some_0;
        assert(bind_all(ops, vs, heap, env0) == Some(env));
        assert(!names.skip(1).contains(n0)) by {
            assert forall|i: int| 0 <= i < names.skip(1).len() implies names.skip(1)[i] != n0 by {
                assert(names.skip(1)[i] == names[i + 1]);
            }
        }
        assert(env.dom().contains(n0) && env[n0] == h0);
        assert(eval_args(names.skip(1), env) == Some(rest_hvals));
        assert(eval_args(names, env) == Some(seq![env[n0]] + rest_hvals));
        assert(seq![env[n0]] + rest_hvals =~= hvals);
        assert forall|k: Seq<char>|
            !names.contains(k) implies (env.dom().contains(k) == env0.dom().contains(k) && (
        env0.dom().contains(k) ==> env[k] == env0[k])) by {
            assert(k != n0) by {
                if k == n0 {
                    assert(names[0] == k);
                    assert(names.contains(k));
                }
            }
            assert(!names.skip(1).contains(k)) by {
                if names.skip(1).contains(k) {
                    let i = choose|i: int|
                        0 <= i < names.skip(1).len() && names.skip(1)[i] == k;
                    assert(names[i + 1] == k);
                    assert(names.contains(k));
                }
            }
            assert(env.dom().contains(k) == env1.dom().contains(k) && (env1.dom().contains(k)
                ==> env[k] == env1[k]));
            assert(env1.dom().contains(k) == env0.dom().contains(k));
            assert(env0.dom().contains(k) ==> env1[k] == env0[k]);
        }
    }
}

/// Behavioral equivalence of the synthesized wrapper: for every declaration
/// that lowers, every assignment of valid foreign arguments (non-null live
/// pointers where pointers are due), and every semantics of the original
/// declaration, running the synthesized body marshals exactly the
/// dereferenced arguments in declaration order, calls the original once
/// with them, and the observed result equals the original's own result on
/// those arguments.
pub proof fn lemma_wrapper_behavioral_equivalence(
    d: FnDeclV,
    base: Option<Seq<char>>,
    vs: Seq<ForeignVal>,
    heap: Map<int, HostVal>,
    orig: spec_fn(Seq<HostVal>) -> HostVal,
    hvals: Seq<HostVal>,
)
    requires
        spec_lower_ok(d, base),
        distinct_param_names(d.inputs),
        vs.len() == d.inputs.len(),
        direct_args(d.inputs, vs, heap) == Some(hvals),
        spec_ret_op(spec_lower(d, base).ret) == RetOp::StrRaw ==> orig(hvals) is Str,
    ensures
        wrapper_observed(
            spec_synthesize_body(spec_lower(d, base), d, base),
            vs,
            heap,
            orig,
        ) == Some(orig(hvals)),
{
    let sig = spec_lower(d, base);
    let b = spec_synthesize_body(sig, d, base);
    assert(b.marshal.len() == d.inputs.len());
    assert(b.call_args.len() == d.inputs.len());
    assert forall|i: int|
        0 <= i < d.inputs.len() implies b.marshal[i] == spec_marshal_op(
        spec_lower_param(d.inputs[i], base),
    ) && b.call_args[i] == param_name(d.inputs[i]) by {
        assert(sig.params[i] == spec_lower_param(d.inputs[i], base));
        lemma_marshal_matches_direct(d.inputs[i], base, vs[i], heap);
    }
    assert forall|i: int|
        0 <= i < d.inputs.len() implies marshal_eval(b.marshal[i], vs[i], heap) == direct_eval(
        d.inputs[i],
        vs[i],
        heap,
    ) && op_name(b.marshal[i]) == b.call_args[i] by {
        lemma_marshal_matches_direct(d.inputs[i], base, vs[i], heap);
    }
    assert forall|i: int, j: int|
        0 <= i < j < d.inputs.len() implies b.call_args[i] != b.call_args[j] by {
        assert(param_name(d.inputs[i]) != param_name(d.inputs[j]));
    }
    lemma_bind_then_eval(b.marshal, b.call_args, d.inputs, vs, heap, Map::empty(), hvals);
    let env = bind_all(b.marshal, vs, heap, Map::empty())->Some_0;
    assert(eval_args(b.call_args, env) == Some(hvals));
    let res = orig(hvals);
    match b.ret_op {
        RetOp::BoxRaw => {},
        RetOp::Direct => {},
        RetOp::StrRaw => {
            assert(res is Str);
        },
    }
}

} // verus!
