//! The expansion entry points: for an annotated struct or method they
//! combine the signature lowerer, the body synthesizer and the descriptor
//! renderer, and attach the rendered text to a reserved-prefixed carrier.
//! The generated names depend on the declaration alone, so repeated
//! generation from identical input is idempotent.

use vstd::prelude::*;

use crate::body::{
    spec_synthesize_body, synthesize_body, FnBody, FnBodyV, ForeignFn, ForeignFnV, WrapperBodyV,
};
use crate::decl::{
    has_receiver, opt_str_view, ret_is_self, spec_get_derives, AttributeV, DeriveInput,
    DeriveInputV, Error, FnDecl, FnDeclV, ImplBlock, InternalFn, InternalFnV,
};
use crate::envelope::{Carrier, CarrierV};
use crate::lower::{
    lower, spec_lower, spec_lower_ok, spec_swig_fn, swig_fn, swig_free, ForeignParam,
    ForeignParamV, ForeignRet, ForeignRetV, ForeignSignature, ForeignSignatureV,
};
use crate::strutil::str_eq;
use crate::swig::{spec_fn_swig, spec_struct_swig, ToSwig};
use crate::tag::SwigTag;

verus! {

/// A type implementing `AsExtern` expands into foreign-callable functions.
pub trait AsExtern {
    /// When the expansion is defined.
    spec fn extern_wf(&self) -> bool;

    /// The foreign functions the expansion emits, in order.
    spec fn extern_spec(&self) -> Seq<ForeignFnV>;

    /// Emit the foreign-callable functions for this declaration.
    fn as_extern(&self) -> (r: Vec<ForeignFn>)
        requires
            self.extern_wf(),
        ensures
            r@.map_values(|f: ForeignFn| f@) == self.extern_spec(),
    ;
}

/// The pointer-freeing foreign function of a struct: it takes an owning
/// pointer, asserts it non-null, and drops the pointee.
pub open spec fn spec_free_fn(name: Seq<char>) -> ForeignFnV {
    ForeignFnV {
        sig: ForeignSignatureV {
            name: spec_swig_fn(name, "free"@),
            params: seq![ForeignParamV::MutPtr { name: "arg"@, ty: name }],
            ret: ForeignRetV::Unit,
        },
        body: FnBodyV::FreePointee,
    }
}

/// The zero-argument default-constructor foreign function of a struct: it
/// calls the type's default constructor and returns the boxed result's raw
/// address.
pub open spec fn spec_default_fn(name: Seq<char>) -> ForeignFnV {
    ForeignFnV {
        sig: ForeignSignatureV {
            name: spec_swig_fn(name, "default"@),
            params: Seq::empty(),
            ret: ForeignRetV::OwnedPtr { ty: name },
        },
        body: FnBodyV::Call(
            WrapperBodyV {
                marshal: Seq::empty(),
                call_base: Some(name),
                call_name: "default"@,
                call_args: Seq::empty(),
                ret_op: crate::body::RetOp::BoxRaw,
            },
        ),
    }
}

/// The extra foreign functions contributed by the recognized capability
/// tags, in order; unrecognized names contribute nothing.
pub open spec fn spec_derive_extra(name: Seq<char>, caps: Seq<Seq<char>>) -> Seq<ForeignFnV>
    decreases caps.len(),
{
    if caps.len() == 0 {
        Seq::empty()
    } else {
        (if caps[0] == "Default"@ {
            seq![spec_default_fn(name)]
        } else {
            Seq::empty()
        }) + spec_derive_extra(name, caps.skip(1))
    }
}

/// `spec_derive_extra` walks a concatenation left part first.
pub proof fn lemma_derive_extra_concat(name: Seq<char>, a: Seq<Seq<char>>, b: Seq<Seq<char>>)
    ensures
        spec_derive_extra(name, a + b) == spec_derive_extra(name, a) + spec_derive_extra(name, b),
    decreases a.len(),
{
    if a.len() == 0 {
        assert(a + b =~= b);
        assert(spec_derive_extra(name, a) + spec_derive_extra(name, b) =~= spec_derive_extra(
            name,
            b,
        ));
    } else {
        assert((a + b)[0] == a[0]);
        assert((a + b).skip(1) =~= a.skip(1) + b);
        lemma_derive_extra_concat(name, a.skip(1), b);
        assert(spec_derive_extra(name, a + b) =~= spec_derive_extra(name, a) + spec_derive_extra(
            name,
            b,
        ));
    }
}

/// Build the pointer-freeing foreign function of a struct.
fn make_free_fn(name: &str) -> (r: ForeignFn)
    ensures
        r@ == spec_free_fn(name@),
{
    let mut params: Vec<ForeignParam> = Vec::new();
    params.push(
        ForeignParam::MutPtr { name: String::from_str("arg"), ty: String::from_str(name) },
    );
    let f = ForeignFn {
        sig: ForeignSignature { name: swig_free(name), params, ret: ForeignRet::Unit },
        body: FnBody::FreePointee,
    };
    proof {
        assert(f.sig@.params =~= spec_free_fn(name@).sig.params);
    }
    f
}

/// Build the default-constructor foreign function of a struct.
fn make_default_fn(name: &str) -> (r: ForeignFn)
    ensures
        r@ == spec_default_fn(name@),
{
    let f = ForeignFn {
        sig: ForeignSignature {
            name: swig_fn(name, "default"),
            params: Vec::new(),
            ret: ForeignRet::OwnedPtr { ty: String::from_str(name) },
        },
        body: FnBody::Call(
            crate::body::WrapperBody {
                marshal: Vec::new(),
                call_base: Some(String::from_str(name)),
                call_name: String::from_str("default"),
                call_args: Vec::new(),
                ret_op: crate::body::RetOp::BoxRaw,
            },
        ),
    };
    proof {
        assert(f.sig@.params =~= spec_default_fn(name@).sig.params);
        assert(f@.body->Call_0.marshal =~= spec_default_fn(name@).body->Call_0.marshal);
        assert(f@.body->Call_0.call_args =~= spec_default_fn(name@).body->Call_0.call_args);
    }
    f
}

impl AsExtern for DeriveInput {
    /// Struct expansion is always defined.
    open spec fn extern_wf(&self) -> bool {
        true
    }

    /// A pointer-freeing function, then one constructor function per
    /// recognized capability.
    open spec fn extern_spec(&self) -> Seq<ForeignFnV> {
        seq![spec_free_fn(self@.ident)] + spec_derive_extra(
            self@.ident,
            spec_get_derives(self@.attrs),
        )
    }

    fn as_extern(&self) -> (r: Vec<ForeignFn>) {
        let ghost dv = self@;
        let ghost caps = spec_get_derives(dv.attrs);
        let mut out: Vec<ForeignFn> = Vec::new();
        out.push(make_free_fn(self.ident.as_str()));
        proof {
            assert(caps.take(0) =~= Seq::<Seq<char>>::empty());
            assert(out@.map_values(|f: ForeignFn| f@) =~= seq![spec_free_fn(dv.ident)]
                + spec_derive_extra(dv.ident, caps.take(0)));
        }
        let derivs = crate::decl::get_derives(&self.attrs);
        let mut j: usize = 0;
        while j < derivs.len()
            invariant
                derivs.deep_view() == caps,
                j <= derivs.len(),
                dv == self@,
                out@.map_values(|f: ForeignFn| f@) == seq![spec_free_fn(dv.ident)]
                    + spec_derive_extra(dv.ident, caps.take(j as int)),
            decreases derivs.len() - j,
        {
            let ghost o0 = out@;
            let ghost l0 = out@.map_values(|f: ForeignFn| f@);
            if str_eq(derivs[j].as_str(), "Default") {
                let df = make_default_fn(self.ident.as_str());
                let ghost dfv = df@;
                out.push(df);
                proof {
                    assert(out@ == o0.push(df));
                    let lhs = out@.map_values(|f: ForeignFn| f@);
                    assert(l0.len() == o0.len());
                    assert(lhs.len() == o0.len() + 1);
                    assert forall|k: int| 0 <= k < lhs.len() implies lhs[k] == (l0 + seq![dfv])[k]
                    by {
                        if k < o0.len() {
                            assert(out@[k] == o0[k]);
                            assert(lhs[k] == l0[k]);
                        } else {
                            assert(out@[k] == df);
                        }
                    }
                    assert(lhs =~= l0 + seq![dfv]);
                }
            }
            proof {
                let x = caps[j as int];
                assert(x == derivs@[j as int]@);
                assert(caps.take(j + 1) =~= caps.take(j as int) + seq![x]);
                lemma_derive_extra_concat(dv.ident, caps.take(j as int), seq![x]);
                let tail = seq![x].skip(1);
                assert(tail =~= Seq::<Seq<char>>::empty());
                assert(spec_derive_extra(dv.ident, tail) == Seq::<ForeignFnV>::empty());
                assert(spec_derive_extra(dv.ident, seq![x]) =~= (if x == "Default"@ {
                    seq![spec_default_fn(dv.ident)]
                } else {
                    Seq::<ForeignFnV>::empty()
                }));
                assert(out@.map_values(|f: ForeignFn| f@) =~= seq![spec_free_fn(dv.ident)]
                    + spec_derive_extra(dv.ident, caps.take(j + 1)));
            }
            j += 1;
        }
        proof {
            assert(caps.take(derivs.len() as int) =~= caps);
        }
        out
    }
}

impl<'a> AsExtern for InternalFn<'a> {
    /// Method expansion needs the base name wherever the declaration uses
    /// it.
    open spec fn extern_wf(&self) -> bool {
        spec_lower_ok(self@.fn_def, self@.base)
    }

    /// The one marshaling wrapper around the declaration.
    open spec fn extern_spec(&self) -> Seq<ForeignFnV> {
        seq![
            ForeignFnV {
                sig: spec_lower(self@.fn_def, self@.base),
                body: FnBodyV::Call(
                    spec_synthesize_body(
                        spec_lower(self@.fn_def, self@.base),
                        self@.fn_def,
                        self@.base,
                    ),
                ),
            },
        ]
    }

    fn as_extern(&self) -> (r: Vec<ForeignFn>) {
        let sig = match lower(self.fn_def, self.base) {
            Ok(sig) => sig,
            Err(_) => vstd::pervasive::unreached(),
        };
        let body = synthesize_body(&sig, self.fn_def, self.base);
        let mut out: Vec<ForeignFn> = Vec::new();
        out.push(ForeignFn { sig, body: FnBody::Call(body) });
        proof {
            assert(out@.map_values(|f: ForeignFn| f@) =~= self.extern_spec());
        }
        out
    }
}

/// The expansion of one annotated struct: its carrier declaration with the
/// descriptor text, and its foreign functions.
#[derive(Debug)]
pub struct ExpandedStruct {
    pub carrier: Carrier,
    pub fns: Vec<ForeignFn>,
}

pub struct ExpandedStructV {
    pub carrier: CarrierV,
    pub fns: Seq<ForeignFnV>,
}

impl View for ExpandedStruct {
    type V = ExpandedStructV;

    open spec fn view(&self) -> ExpandedStructV {
        ExpandedStructV { carrier: self.carrier@, fns: self.fns@.map_values(|f: ForeignFn| f@) }
    }
}

/// The expansion of a struct declaration: the carrier bears the reserved
/// prefix before the struct's own name and carries the rendered descriptor.
pub open spec fn spec_impl_extern_it(d: DeriveInputV) -> ExpandedStructV {
    ExpandedStructV {
        carrier: CarrierV {
            name: SwigTag::SwigInject.spec_str() + d.ident,
            doc: spec_struct_swig(d),
        },
        fns: seq![spec_free_fn(d.ident)] + spec_derive_extra(d.ident, spec_get_derives(d.attrs)),
    }
}

/// Generate the foreign functions and descriptor carrier for a struct
/// annotated for wrapper generation.
pub fn impl_extern_it(ast: &DeriveInput) -> (r: ExpandedStruct)
    ensures
        r@ == spec_impl_extern_it(ast@),
{
    let comment = ast.to_swig();
    let mut cname = String::from_str(SwigTag::SwigInject.to_str());
    cname.append(ast.ident.as_str());
    let fns = ast.as_extern();
    ExpandedStruct { carrier: Carrier { name: cname, doc: comment }, fns }
}

/// The expansion of one annotated function or method: the inert carrier
/// with the descriptor text, and the marshaling foreign function.
#[derive(Debug)]
pub struct ExpandedFn {
    pub carrier: Carrier,
    pub foreign: ForeignFn,
}

pub struct ExpandedFnV {
    pub carrier: CarrierV,
    pub foreign: ForeignFnV,
}

impl View for ExpandedFn {
    type V = ExpandedFnV;

    open spec fn view(&self) -> ExpandedFnV {
        ExpandedFnV { carrier: self.carrier@, foreign: self.foreign@ }
    }
}

/// A declaration needs a base type name when its parameters hold a
/// receiver, when its return type is the receiver placeholder, or when it
/// bears the conventional constructor name.
pub open spec fn requires_base(d: FnDeclV) -> bool {
    has_receiver(d) || ret_is_self(d) || d.ident == "new"@
}

/// The expansion of a function or method declaration, defined when the
/// declaration does not need a base name it lacks.
pub open spec fn spec_impl_extern_fn(d: FnDeclV, base: Option<Seq<char>>) -> ExpandedFnV {
    ExpandedFnV {
        carrier: CarrierV {
            name: spec_swig_fn(d.ident, "hidden_ffi"@),
            doc: spec_fn_swig(InternalFnV { base, fn_def: d }),
        },
        foreign: ForeignFnV {
            sig: spec_lower(d, base),
            body: FnBodyV::Call(spec_synthesize_body(spec_lower(d, base), d, base)),
        },
    }
}

/// Generate the foreign function and descriptor carrier for an annotated
/// function or method. Fails with a missing-base-type error exactly when
/// the declaration needs a base type name and none was given.
pub fn impl_extern_fn(base_name: &Option<String>, ast: &FnDecl) -> (r: Result<ExpandedFn, Error>)
    ensures
        r is Ok <==> !(opt_str_view(base_name) is None && requires_base(ast@)),
        (r matches Ok(e) ==> e@ == spec_impl_extern_fn(ast@, opt_str_view(base_name))),
        (r matches Err(e) ==> e == Error::MissingBaseType),
{
    let needs_base = crate::lower::decl_has_receiver(ast) || crate::lower::decl_ret_is_self(ast)
        || str_eq(ast.ident.as_str(), "new");
    if base_name.is_none() && needs_base {
        return Err(Error::MissingBaseType);
    }
    let ifn = InternalFn { base: base_name, fn_def: ast };
    let comment = ifn.to_swig();
    let hidden = swig_fn(ast.ident.as_str(), "hidden_ffi");
    let mut fns = ifn.as_extern();
    let ghost fv = fns@;
    proof {
        assert(fv.map_values(|f: ForeignFn| f@).len() == fv.len());
        assert(fv.len() == 1);
    }
    let foreign = match fns.pop() {
        Some(f) => f,
        None => vstd::pervasive::unreached(),
    };
    proof {
        assert(foreign == fv[0]);
        assert(foreign@ == fv.map_values(|f: ForeignFn| f@)[0]);
        assert(foreign@ == ifn.extern_spec()[0]);
    }
    Ok(ExpandedFn { carrier: Carrier { name: hidden, doc: comment }, foreign })
}

/// The base name a method's attributes select: the last `swiggen(...)`
/// attribute with at least one word wins.
pub open spec fn spec_scan_base(attrs: Seq<AttributeV>, acc: Option<Seq<char>>) -> Option<
    Seq<char>,
>
    decreases attrs.len(),
{
    if attrs.len() == 0 {
        acc
    } else {
        let a = attrs[0];
        spec_scan_base(
            attrs.skip(1),
            if a.name == "swiggen"@ && a.words.len() > 0 {
                Some(a.words[0])
            } else {
                acc
            },
        )
    }
}

/// `spec_scan_base` walks a concatenation left part first.
pub proof fn lemma_scan_base_concat(a: Seq<AttributeV>, b: Seq<AttributeV>, acc: Option<Seq<char>>)
    ensures
        spec_scan_base(a + b, acc) == spec_scan_base(b, spec_scan_base(a, acc)),
    decreases a.len(),
{
    if a.len() == 0 {
        assert(a + b =~= b);
    } else {
        assert((a + b)[0] == a[0]);
        assert((a + b).skip(1) =~= a.skip(1) + b);
        let x = a[0];
        lemma_scan_base_concat(
            a.skip(1),
            b,
            if x.name == "swiggen"@ && x.words.len() > 0 {
                Some(x.words[0])
            } else {
                acc
            },
        );
    }
}

/// Read the base name from a method's `swiggen(...)` attribute, if any.
fn scan_base(attrs: &Vec<crate::decl::Attribute>) -> (r: Option<String>)
    ensures
        opt_str_view(&r) == spec_scan_base(attrs@.map_values(|a: crate::decl::Attribute| a@), None),
{
    let ghost av = attrs@.map_values(|a: crate::decl::Attribute| a@);
    let mut acc: Option<String> = None;
    proof {
        assert(av.take(0) =~= Seq::<AttributeV>::empty());
    }
    let mut i: usize = 0;
    while i < attrs.len()
        invariant
            av == attrs@.map_values(|a: crate::decl::Attribute| a@),
            i <= attrs.len(),
            opt_str_view(&acc) == spec_scan_base(av.take(i as int), None),
        decreases attrs.len() - i,
    {
        let ghost acc0 = opt_str_view(&acc);
        let a = &attrs[i];
        if str_eq(a.name.as_str(), "swiggen") && a.words.len() > 0 {
            acc = Some(a.words[0].clone());
        }
        proof {
            let x = av[i as int];
            assert(x == attrs@[i as int]@);
            assert(av.take(i + 1) =~= av.take(i as int) + seq![x]);
            lemma_scan_base_concat(av.take(i as int), seq![x], None);
            let tail = seq![x].skip(1);
            assert(tail =~= Seq::<AttributeV>::empty());
            let step = if x.name == "swiggen"@ && x.words.len() > 0 {
                Some(x.words[0])
            } else {
                acc0
            };
            assert(spec_scan_base(tail, step) == step);
            assert(spec_scan_base(seq![x], acc0) == step);
            assert(opt_str_view(&acc) == step);
        }
        i += 1;
    }
    proof {
        assert(av.take(attrs.len() as int) =~= av);
    }
    acc
}

/// The expansions contributed by an impl block's methods, in order: a
/// method already declared with the foreign calling convention passes
/// through untouched and contributes nothing; a method whose attributes
/// select a base name is expanded against it.
pub open spec fn spec_split_out_externs(methods: Seq<crate::decl::ImplMethodV>) -> Seq<ExpandedFnV>
    decreases methods.len(),
{
    if methods.len() == 0 {
        Seq::empty()
    } else {
        let m = methods[0];
        (if !m.abi_is_c && spec_scan_base(m.attrs, None) is Some {
            seq![spec_impl_extern_fn(m.decl, spec_scan_base(m.attrs, None))]
        } else {
            Seq::empty()
        }) + spec_split_out_externs(methods.skip(1))
    }
}

/// `spec_split_out_externs` walks a concatenation left part first.
pub proof fn lemma_split_concat(a: Seq<crate::decl::ImplMethodV>, b: Seq<crate::decl::ImplMethodV>)
    ensures
        spec_split_out_externs(a + b) == spec_split_out_externs(a) + spec_split_out_externs(b),
    decreases a.len(),
{
    if a.len() == 0 {
        assert(a + b =~= b);
        assert(spec_split_out_externs(a) + spec_split_out_externs(b) =~= spec_split_out_externs(b));
    } else {
        assert((a + b)[0] == a[0]);
        assert((a + b).skip(1) =~= a.skip(1) + b);
        lemma_split_concat(a.skip(1), b);
        assert(spec_split_out_externs(a + b) =~= spec_split_out_externs(a)
            + spec_split_out_externs(b));
    }
}

/// Walk an impl block and expand every method whose `swiggen(...)`
/// attribute names a base type; the impl block itself passes through to the
/// host compiler unchanged.
pub fn split_out_externs(ast: &ImplBlock) -> (r: Vec<ExpandedFn>)
    ensures
        r@.map_values(|e: ExpandedFn| e@) == spec_split_out_externs(
            ast@.methods,
        ),
{
    let ghost mv = ast@.methods;
    let mut out: Vec<ExpandedFn> = Vec::new();
    proof {
        assert(mv.take(0) =~= Seq::<crate::decl::ImplMethodV>::empty());
        assert(out@.map_values(|e: ExpandedFn| e@) =~= spec_split_out_externs(mv.take(0)));
    }
    let mut i: usize = 0;
    while i < ast.methods.len()
        invariant
            mv == ast@.methods,
            i <= ast.methods.len(),
            out@.map_values(|e: ExpandedFn| e@) == spec_split_out_externs(mv.take(i as int)),
        decreases ast.methods.len() - i,
    {
        let m = &ast.methods[i];
        let ghost o0 = out@;
        proof {
            assert(mv[i as int] == ast.methods@[i as int]@);
        }
        if !m.abi_is_c {
            let base = scan_base(&m.attrs);
            if base.is_some() {
                let e = match impl_extern_fn(&base, &m.decl) {
                    Ok(e) => e,
                    Err(_) => vstd::pervasive::unreached(),
                };
                out.push(e);
            }
        }
        proof {
            let x = mv[i as int];
            assert(mv.take(i + 1) =~= mv.take(i as int) + seq![x]);
            lemma_split_concat(mv.take(i as int), seq![x]);
            let tail = seq![x].skip(1);
            assert(tail =~= Seq::<crate::decl::ImplMethodV>::empty());
            assert(spec_split_out_externs(tail) == Seq::<ExpandedFnV>::empty());
            assert(spec_split_out_externs(seq![x]) =~= (if !x.abi_is_c && spec_scan_base(
                x.attrs,
                None,
            ) is Some {
                seq![spec_impl_extern_fn(x.decl, spec_scan_base(x.attrs, None))]
            } else {
                Seq::<ExpandedFnV>::empty()
            }));
            if !x.abi_is_c && spec_scan_base(x.attrs, None) is Some {
                assert(out@ == o0.push(out@[o0.len() as int]));
                assert(out@[o0.len() as int]@ == spec_impl_extern_fn(
                    x.decl,
                    spec_scan_base(x.attrs, None),
                ));
            }
            assert(out@.map_values(|e: ExpandedFn| e@) =~= spec_split_out_externs(mv.take(i + 1)));
        }
        i += 1;
    }
    proof {
        assert(mv.take(ast.methods.len() as int) =~= mv);
    }
    out
}

/// Generation is a pure function of the declaration: the expansion of a
/// function declaration, its foreign-function name and its descriptor text
/// included, is determined by the declaration and base name alone, so
/// generating twice from byte-identical input yields byte-identical output.
pub proof fn lemma_generation_idempotent(
    d1: FnDeclV,
    d2: FnDeclV,
    b1: Option<Seq<char>>,
    b2: Option<Seq<char>>,
)
    requires
        d1 == d2,
        b1 == b2,
    ensures
        spec_impl_extern_fn(d1, b1) == spec_impl_extern_fn(d2, b2),
{
}

/// The struct expansion is likewise a pure function of its declaration.
pub proof fn lemma_struct_generation_idempotent(d1: DeriveInputV, d2: DeriveInputV)
    requires
        d1 == d2,
    ensures
        spec_impl_extern_it(d1) == spec_impl_extern_it(d2),
{
}

} // verus!
