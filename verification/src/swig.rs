//! The descriptor renderer: produces, as a code and header text pair, the
//! wrapper as seen from the interface-description language. A free function
//! gets a definition in the code block and a declaration in the header; a
//! method gets a class-extension stanza in the header instead. A method
//! named `new` is rewritten into constructor syntax. A struct renders a
//! pointer-holding wrapper class. The whole descriptor is returned already
//! bracketed in its sentinel envelope.

use vstd::prelude::*;

use crate::decl::{
    opt_str_view, ret_is_self, spec_get_derives, AttributeV, DeriveInput, FnDeclV, InternalFn,
    Param, ParamV,
};
use crate::envelope::{encode_envelope, spec_envelope};
use crate::lower::{some_or_empty, spec_swig_fn, swig_fn, swig_free};
use crate::strutil::{
    contains_seq, lemma_occurs_concat_left, lemma_occurs_concat_right, lemma_occurs_middle,
    occurs_at, str_eq,
};
use crate::tag::SwigTag;
use crate::ty::{c_name, classify, spec_c_name, spec_classify, TypeClass, TypeRef, TypeRefV};

verus! {

/// A type implementing `ToSwig` renders itself as interface-description
/// text, bracketed in the sentinel envelope.
pub trait ToSwig {
    /// When the rendering is defined: a declaration that resolves the
    /// receiver placeholder or renames a constructor needs a base name.
    spec fn swig_wf(&self) -> bool;

    /// The rendered envelope text.
    spec fn swig_spec(&self) -> Seq<char>;

    /// Render the SWIG wrapper text for this declaration.
    fn to_swig(&self) -> (r: String)
        requires
            self.swig_wf(),
        ensures
            r@ == self.swig_spec(),
    ;
}

/// The argument text of one named parameter in the interface-description
/// language: primitives use their C names, strings become constant
/// character pointers, opaque types are written by value or as constant
/// pointers as they were declared.
pub open spec fn spec_c_arg(name: Seq<char>, ty: TypeRefV) -> Seq<char> {
    match spec_classify(ty.name) {
        TypeClass::Primitive => spec_c_name(ty.name) + " "@ + name,
        TypeClass::StringLike => "const char *"@ + name,
        TypeClass::Opaque => if ty.is_ref {
            "const "@ + ty.name + " *"@ + name
        } else {
            ty.name + " "@ + name
        },
    }
}

/// Render the argument text of one named parameter.
pub fn render_c_arg(name: &str, ty: &TypeRef) -> (r: String)
    ensures
        r@ == spec_c_arg(name@, ty@),
{
    match classify(ty) {
        TypeClass::Primitive => {
            let mut s = c_name(ty.name.as_str());
            s.append(" ");
            s.append(name);
            s
        },
        TypeClass::StringLike => {
            let mut s = String::from_str("const char *");
            s.append(name);
            s
        },
        TypeClass::Opaque => {
            if ty.is_ref {
                let mut s = String::from_str("const ");
                s.append(ty.name.as_str());
                s.append(" *");
                s.append(name);
                s
            } else {
                let mut s = String::from_str(ty.name.as_str());
                s.append(" ");
                s.append(name);
                s
            }
        },
    }
}

/// One step of building the argument list and the call-site argument text:
/// the receiver contributes `$self->self` to the call alone; a named
/// parameter contributes its C argument text and its name. A comma is put
/// before a contribution whenever its list is nonempty.
pub open spec fn spec_arg_step(args: Seq<char>, caller: Seq<char>, p: ParamV) -> (
    Seq<char>,
    Seq<char>,
) {
    match p {
        ParamV::Receiver { .. } => (
            args,
            (if caller.len() > 0 {
                caller + ", "@
            } else {
                caller
            }) + "$self->self"@,
        ),
        ParamV::Named { name, ty } => (
            (if args.len() > 0 {
                args + ", "@
            } else {
                args
            }) + spec_c_arg(name, ty),
            (if caller.len() > 0 {
                caller + ", "@
            } else {
                caller
            }) + name,
        ),
    }
}

/// The argument list and call-site text accumulated over the parameters.
pub open spec fn spec_fold_args(inputs: Seq<ParamV>, args: Seq<char>, caller: Seq<char>) -> (
    Seq<char>,
    Seq<char>,
)
    decreases inputs.len(),
{
    if inputs.len() == 0 {
        (args, caller)
    } else {
        let s = spec_arg_step(args, caller, inputs[0]);
        spec_fold_args(inputs.skip(1), s.0, s.1)
    }
}

/// `spec_fold_args` walks a concatenation left part first.
pub proof fn lemma_fold_args_concat(
    a: Seq<ParamV>,
    b: Seq<ParamV>,
    args: Seq<char>,
    caller: Seq<char>,
)
    ensures
        spec_fold_args(a + b, args, caller) == spec_fold_args(
            b,
            spec_fold_args(a, args, caller).0,
            spec_fold_args(a, args, caller).1,
        ),
    decreases a.len(),
{
    if a.len() == 0 {
        assert(a + b =~= b);
    } else {
        assert((a + b)[0] == a[0]);
        assert((a + b).skip(1) =~= a.skip(1) + b);
        let s = spec_arg_step(args, caller, a[0]);
        lemma_fold_args_concat(a.skip(1), b, s.0, s.1);
    }
}

/// Build the argument list and call-site argument text for a declaration.
pub fn render_args_caller(inputs: &Vec<Param>) -> (r: (String, String))
    ensures
        r.0@ == spec_fold_args(
            inputs@.map_values(|p: Param| p@),
            Seq::empty(),
            Seq::empty(),
        ).0,
        r.1@ == spec_fold_args(
            inputs@.map_values(|p: Param| p@),
            Seq::empty(),
            Seq::empty(),
        ).1,
{
    let ghost iv = inputs@.map_values(|p: Param| p@);
    let mut args = String::new();
    let mut caller = String::new();
    proof {
        assert(iv.take(0) =~= Seq::<ParamV>::empty());
    }
    let mut i: usize = 0;
    while i < inputs.len()
        invariant
            iv == inputs@.map_values(|p: Param| p@),
            i <= inputs.len(),
            args@ == spec_fold_args(iv.take(i as int), Seq::empty(), Seq::empty()).0,
            caller@ == spec_fold_args(iv.take(i as int), Seq::empty(), Seq::empty()).1,
        decreases inputs.len() - i,
    {
        let ghost a0 = args@;
        let ghost c0 = caller@;
        match &inputs[i] {
            Param::Receiver { .. } => {
                if caller.as_str().unicode_len() > 0 {
                    caller.append(", ");
                }
                caller.append("$self->self");
            },
            Param::Named { name, ty } => {
                if args.as_str().unicode_len() > 0 {
                    args.append(", ");
                }
                if caller.as_str().unicode_len() > 0 {
                    caller.append(", ");
                }
                let ca = render_c_arg(name.as_str(), ty);
                args.append(ca.as_str());
                caller.append(name.as_str());
            },
        }
        proof {
            let x = iv[i as int];
            assert(x == inputs@[i as int]@);
            let s = spec_arg_step(a0, c0, x);
            assert(args@ == s.0);
            assert(caller@ == s.1);
            assert(iv.take(i + 1) =~= iv.take(i as int) + seq![x]);
            lemma_fold_args_concat(iv.take(i as int), seq![x], Seq::empty(), Seq::empty());
            let tail = seq![x].skip(1);
            assert(tail =~= Seq::<ParamV>::empty());
            assert(spec_fold_args(tail, s.0, s.1) == (s.0, s.1));
            assert(spec_fold_args(seq![x], a0, c0) == (s.0, s.1));
        }
        i += 1;
    }
    proof {
        assert(iv.take(inputs.len() as int) =~= iv);
    }
    (args, caller)
}

/// The return type text in the interface-description language: no return
/// type renders as `void`, the receiver placeholder resolves to the base
/// name, a string-like return renders as the external character-pointer
/// type, primitives use their C names, and any other opaque type keeps its
/// name.
pub open spec fn spec_c_ret(output: Option<TypeRefV>, base: Option<Seq<char>>) -> Seq<char> {
    match output {
        None => "void"@,
        Some(t) => match spec_classify(t.name) {
            TypeClass::Primitive => spec_c_name(t.name),
            TypeClass::StringLike => "char *"@,
            TypeClass::Opaque => if t.name == "Self"@ {
                some_or_empty(base)
            } else {
                t.name
            },
        },
    }
}

/// Render the return type text.
pub fn render_c_ret(output: &Option<TypeRef>, base: &Option<String>) -> (r: String)
    requires
        !(opt_str_view(base) is None && (match output {
            Some(t) => t.name@ == "Self"@,
            None => false,
        })),
    ensures
        r@ == spec_c_ret(
            match output {
                Some(t) => Some(t@),
                None => None,
            },
            opt_str_view(base),
        ),
{
    match output {
        None => String::from_str("void"),
        Some(t) => {
            match classify(t) {
                TypeClass::Primitive => c_name(t.name.as_str()),
                TypeClass::StringLike => String::from_str("char *"),
                TypeClass::Opaque => {
                    if str_eq(t.name.as_str(), "Self") {
                        match base {
                            Some(b) => b.clone(),
                            None => vstd::pervasive::unreached(),
                        }
                    } else {
                        t.name.clone()
                    }
                },
            }
        },
    }
}

/// The cast target of the rendered call: a method named `new` renders with
/// the constructor-allocation idiom prefixed.
pub open spec fn spec_fn_out(f: crate::decl::InternalFnV) -> Seq<char> {
    if f.fn_def.ident == "new"@ {
        "new PKG_NAME::"@ + spec_c_ret(f.fn_def.output, f.base)
    } else {
        spec_c_ret(f.fn_def.output, f.base)
    }
}

/// The return type the rendered function declares: a constructor omits it.
pub open spec fn spec_fn_ret_out(f: crate::decl::InternalFnV) -> Seq<char> {
    if f.fn_def.ident == "new"@ {
        Seq::empty()
    } else {
        spec_c_ret(f.fn_def.output, f.base)
    }
}

/// The name the rendered function bears: a method named `new` is renamed to
/// the base type's own name, producing constructor syntax; every other
/// identifier passes through verbatim.
pub open spec fn spec_fn_disp_name(f: crate::decl::InternalFnV) -> Seq<char> {
    if f.fn_def.ident == "new"@ {
        some_or_empty(f.base)
    } else {
        f.fn_def.ident
    }
}

/// The argument list text of the rendered function.
pub open spec fn spec_fn_args(f: crate::decl::InternalFnV) -> Seq<char> {
    spec_fold_args(f.fn_def.inputs, Seq::empty(), Seq::empty()).0
}

/// The call-site argument text of the rendered function.
pub open spec fn spec_fn_caller(f: crate::decl::InternalFnV) -> Seq<char> {
    spec_fold_args(f.fn_def.inputs, Seq::empty(), Seq::empty()).1
}

/// The code fragment of a function descriptor: a free-standing definition
/// that calls the foreign wrapper and casts its result; empty for a method,
/// whose rendering lives in the header's class extension instead.
pub open spec fn spec_fn_code(f: crate::decl::InternalFnV) -> Seq<char> {
    if f.base is None {
        spec_fn_ret_out(f) + " "@ + spec_fn_disp_name(f) + "("@ + spec_fn_args(f)
            + ") {\n                    return ("@ + spec_fn_out(f) + ")(ffi::"@ + spec_swig_fn(
            f.fn_def.ident,
            "ffi"@,
        ) + "("@ + spec_fn_caller(f) + "));\n                }"@
    } else {
        Seq::empty()
    }
}

/// The header fragment of a function descriptor: a class-extension stanza
/// for a method, a plain declaration for a free function.
pub open spec fn spec_fn_hdr(f: crate::decl::InternalFnV) -> Seq<char> {
    match f.base {
        Some(b) => "\n                %extend "@ + b + " {\n                    "@
            + spec_fn_ret_out(f) + " "@ + spec_fn_disp_name(f) + "("@ + spec_fn_args(f)
            + ") {\n                        return ("@ + spec_fn_out(f) + ")(ffi::"@
            + spec_swig_fn(f.fn_def.ident, "ffi"@) + "("@ + spec_fn_caller(f)
            + "));\n                    }\n                };\n"@,
        None => spec_fn_out(f) + " "@ + spec_fn_disp_name(f) + "("@ + spec_fn_args(f) + ");"@,
    }
}

/// The whole function descriptor, bracketed in its envelope.
pub open spec fn spec_fn_swig(f: crate::decl::InternalFnV) -> Seq<char> {
    spec_envelope(spec_fn_code(f), spec_fn_hdr(f))
}

impl<'a> ToSwig for InternalFn<'a> {
    /// Rendering needs the base name to resolve a `Self` return type or to
    /// rename a constructor.
    open spec fn swig_wf(&self) -> bool {
        !(self@.base is None && (ret_is_self(self@.fn_def) || self@.fn_def.ident == "new"@))
    }

    open spec fn swig_spec(&self) -> Seq<char> {
        spec_fn_swig(self@)
    }

    fn to_swig(&self) -> (r: String) {
        let ghost fv = self@;
        let ac = render_args_caller(&self.fn_def.inputs);
        let args = ac.0;
        let caller = ac.1;
        let out0 = render_c_ret(&self.fn_def.output, self.base);
        let is_new = str_eq(self.fn_def.ident.as_str(), "new");
        let ext_name = swig_fn(self.fn_def.ident.as_str(), "ffi");
        let ret_out = if is_new {
            String::new()
        } else {
            out0.clone()
        };
        let out = if is_new {
            let mut s = String::from_str("new PKG_NAME::");
            s.append(out0.as_str());
            s
        } else {
            out0
        };
        let disp_name = if is_new {
            match self.base {
                Some(b) => b.clone(),
                None => vstd::pervasive::unreached(),
            }
        } else {
            self.fn_def.ident.clone()
        };
        proof {
            assert(args@ == spec_fn_args(fv));
            assert(caller@ == spec_fn_caller(fv));
            assert(out@ == spec_fn_out(fv));
            assert(ret_out@ == spec_fn_ret_out(fv));
            assert(disp_name@ == spec_fn_disp_name(fv));
            assert(ext_name@ == spec_swig_fn(fv.fn_def.ident, "ffi"@));
        }
        let code = match self.base {
            None => {
                let mut s = String::from_str(ret_out.as_str());
                s.append(" ");
                s.append(disp_name.as_str());
                s.append("(");
                s.append(args.as_str());
                s.append(") {\n                    return (");
                s.append(out.as_str());
                s.append(")(ffi::");
                s.append(ext_name.as_str());
                s.append("(");
                s.append(caller.as_str());
                s.append("));\n                }");
                s
            },
            Some(_) => String::new(),
        };
        let hdr = match self.base {
            Some(b) => {
                let mut s = String::from_str("\n                %extend ");
                s.append(b.as_str());
                s.append(" {\n                    ");
                s.append(ret_out.as_str());
                s.append(" ");
                s.append(disp_name.as_str());
                s.append("(");
                s.append(args.as_str());
                s.append(") {\n                        return (");
                s.append(out.as_str());
                s.append(")(ffi::");
                s.append(ext_name.as_str());
                s.append("(");
                s.append(caller.as_str());
                s.append("));\n                    }\n                };\n");
                s
            },
            None => {
                let mut s = String::from_str(out.as_str());
                s.append(" ");
                s.append(disp_name.as_str());
                s.append("(");
                s.append(args.as_str());
                s.append(");");
                s
            },
        };
        proof {
            assert(code@ == spec_fn_code(fv));
            assert(hdr@ == spec_fn_hdr(fv));
        }
        encode_envelope(code.as_str(), hdr.as_str())
    }
}

/// One zero-argument constructor line of the wrapper class body, calling
/// the default-constructor foreign function.
pub open spec fn spec_ctor_code_line(name: Seq<char>) -> Seq<char> {
    name + "() { self = "@ + spec_swig_fn(name, "default"@) + "(); };\n"@
}

/// The constructor declaration line of the wrapper class header.
pub open spec fn spec_ctor_hdr_line(name: Seq<char>) -> Seq<char> {
    name + "();\n"@
}

/// The constructor lines contributed by the recognized capabilities, in
/// order; unrecognized capability names contribute nothing.
pub open spec fn spec_ctor_code_lines(name: Seq<char>, caps: Seq<Seq<char>>) -> Seq<char>
    decreases caps.len(),
{
    if caps.len() == 0 {
        Seq::empty()
    } else {
        (if caps[0] == "Default"@ {
            spec_ctor_code_line(name)
        } else {
            Seq::empty()
        }) + spec_ctor_code_lines(name, caps.skip(1))
    }
}

/// The header counterparts of `spec_ctor_code_lines`.
pub open spec fn spec_ctor_hdr_lines(name: Seq<char>, caps: Seq<Seq<char>>) -> Seq<char>
    decreases caps.len(),
{
    if caps.len() == 0 {
        Seq::empty()
    } else {
        (if caps[0] == "Default"@ {
            spec_ctor_hdr_line(name)
        } else {
            Seq::empty()
        }) + spec_ctor_hdr_lines(name, caps.skip(1))
    }
}

/// Both constructor-line builders walk a concatenation left part first.
pub proof fn lemma_ctor_lines_concat(name: Seq<char>, a: Seq<Seq<char>>, b: Seq<Seq<char>>)
    ensures
        spec_ctor_code_lines(name, a + b) == spec_ctor_code_lines(name, a) + spec_ctor_code_lines(
            name,
            b,
        ),
        spec_ctor_hdr_lines(name, a + b) == spec_ctor_hdr_lines(name, a) + spec_ctor_hdr_lines(
            name,
            b,
        ),
    decreases a.len(),
{
    if a.len() == 0 {
        assert(a + b =~= b);
        assert(spec_ctor_code_lines(name, a) + spec_ctor_code_lines(name, b) =~= spec_ctor_code_lines(name, b));
        assert(spec_ctor_hdr_lines(name, a) + spec_ctor_hdr_lines(name, b) =~= spec_ctor_hdr_lines(name, b));
    } else {
        assert((a + b)[0] == a[0]);
        assert((a + b).skip(1) =~= a.skip(1) + b);
        lemma_ctor_lines_concat(name, a.skip(1), b);
        assert(spec_ctor_code_lines(name, a + b) =~= spec_ctor_code_lines(name, a)
            + spec_ctor_code_lines(name, b));
        assert(spec_ctor_hdr_lines(name, a + b) =~= spec_ctor_hdr_lines(name, a)
            + spec_ctor_hdr_lines(name, b));
    }
}

/// The head of the wrapper class definition: the class holds a pointer to
/// the wrapped object, a pointer-taking constructor, and a destructor that
/// calls the pointer-freeing foreign function.
pub open spec fn spec_struct_code_head(name: Seq<char>) -> Seq<char> {
    "// Wrapper for Rust class "@ + name + "\nclass "@ + name + " {\n    public:\n        ffi::"@
        + name + " *self;\n        "@ + name + "(ffi::"@ + name
        + " *ptr) {\n            self = ptr;\n        };\n        ~"@ + name
        + "(){\n            ffi::"@ + spec_swig_fn(name, "free"@)
        + "(self);\n            self = NULL;\n        };\n    "@
}

/// The head of the wrapper class forward declaration.
pub open spec fn spec_struct_hdr_head(name: Seq<char>) -> Seq<char> {
    "// Wrapper for Rust class "@ + name + "\nclass "@ + name + " {\n    ffi::"@ + name
        + " *self;\n    public:\n        ~"@ + name + "();\n    "@
}

/// The code fragment of a struct descriptor.
pub open spec fn spec_struct_code(name: Seq<char>, caps: Seq<Seq<char>>) -> Seq<char> {
    spec_struct_code_head(name) + spec_ctor_code_lines(name, caps) + "};\n"@
}

/// The header fragment of a struct descriptor.
pub open spec fn spec_struct_hdr(name: Seq<char>, caps: Seq<Seq<char>>) -> Seq<char> {
    spec_struct_hdr_head(name) + spec_ctor_hdr_lines(name, caps) + "};\n"@
}

/// The whole struct descriptor, bracketed in its envelope.
pub open spec fn spec_struct_swig(d: crate::decl::DeriveInputV) -> Seq<char> {
    spec_envelope(
        spec_struct_code(d.ident, spec_get_derives(d.attrs)),
        spec_struct_hdr(d.ident, spec_get_derives(d.attrs)),
    )
}

impl ToSwig for DeriveInput {
    /// A struct descriptor is always defined.
    open spec fn swig_wf(&self) -> bool {
        true
    }

    open spec fn swig_spec(&self) -> Seq<char> {
        spec_struct_swig(self@)
    }

    fn to_swig(&self) -> (r: String) {
        let ghost dv = self@;
        let name = self.ident.as_str();
        let free_name = swig_free(name);
        let default_name = swig_fn(name, "default");
        let mut swigged = String::from_str("// Wrapper for Rust class ");
        swigged.append(name);
        swigged.append("\nclass ");
        swigged.append(name);
        swigged.append(" {\n    public:\n        ffi::");
        swigged.append(name);
        swigged.append(" *self;\n        ");
        swigged.append(name);
        swigged.append("(ffi::");
        swigged.append(name);
        swigged.append(" *ptr) {\n            self = ptr;\n        };\n        ~");
        swigged.append(name);
        swigged.append("(){\n            ffi::");
        swigged.append(free_name.as_str());
        swigged.append("(self);\n            self = NULL;\n        };\n    ");
        let mut swigged_h = String::from_str("// Wrapper for Rust class ");
        swigged_h.append(name);
        swigged_h.append("\nclass ");
        swigged_h.append(name);
        swigged_h.append(" {\n    ffi::");
        swigged_h.append(name);
        swigged_h.append(" *self;\n    public:\n        ~");
        swigged_h.append(name);
        swigged_h.append("();\n    ");
        proof {
            assert(swigged@ == spec_struct_code_head(dv.ident));
            assert(swigged_h@ == spec_struct_hdr_head(dv.ident));
        }
        let derivs = crate::decl::get_derives(&self.attrs);
        let ghost caps = spec_get_derives(dv.attrs);
        proof {
            assert(derivs.deep_view() == caps);
            assert(caps.take(0) =~= Seq::<Seq<char>>::empty());
            assert(swigged@ =~= spec_struct_code_head(dv.ident) + spec_ctor_code_lines(
                dv.ident,
                caps.take(0),
            ));
            assert(swigged_h@ =~= spec_struct_hdr_head(dv.ident) + spec_ctor_hdr_lines(
                dv.ident,
                caps.take(0),
            ));
        }
        let mut j: usize = 0;
        while j < derivs.len()
            invariant
                derivs.deep_view() == caps,
                j <= derivs.len(),
                dv == self@,
                free_name@ == spec_swig_fn(dv.ident, "free"@),
                default_name@ == spec_swig_fn(dv.ident, "default"@),
                swigged@ == spec_struct_code_head(dv.ident) + spec_ctor_code_lines(
                    dv.ident,
                    caps.take(j as int),
                ),
                swigged_h@ == spec_struct_hdr_head(dv.ident) + spec_ctor_hdr_lines(
                    dv.ident,
                    caps.take(j as int),
                ),
            decreases derivs.len() - j,
        {
            let ghost s0 = swigged@;
            let ghost h0 = swigged_h@;
            if str_eq(derivs[j].as_str(), "Default") {
                let mut line = String::from_str(self.ident.as_str());
                line.append("() { self = ");
                line.append(default_name.as_str());
                line.append("(); };\n");
                swigged.append(line.as_str());
                let mut hline = String::from_str(self.ident.as_str());
                hline.append("();\n");
                swigged_h.append(hline.as_str());
                proof {
                    assert(caps[j as int] == derivs@[j as int]@);
                    assert(caps[j as int] == "Default"@);
                    assert(line@ == spec_ctor_code_line(dv.ident));
                    assert(hline@ == spec_ctor_hdr_line(dv.ident));
                }
            } else {
                proof {
                    assert(caps[j as int] == derivs@[j as int]@);
                    assert(caps[j as int] != "Default"@);
                }
            }
            proof {
                assert(caps.take(j + 1) =~= caps.take(j as int) + seq![caps[j as int]]);
                lemma_ctor_lines_concat(dv.ident, caps.take(j as int), seq![caps[j as int]]);
                let tail = seq![caps[j as int]].skip(1);
                assert(tail =~= Seq::<Seq<char>>::empty());
                assert(spec_ctor_code_lines(dv.ident, tail) == Seq::<char>::empty());
                assert(spec_ctor_hdr_lines(dv.ident, tail) == Seq::<char>::empty());
                assert(spec_ctor_code_lines(dv.ident, seq![caps[j as int]]) =~= (if caps[j as int]
                    == "Default"@ {
                    spec_ctor_code_line(dv.ident)
                } else {
                    Seq::<char>::empty()
                }));
                assert(spec_ctor_hdr_lines(dv.ident, seq![caps[j as int]]) =~= (if caps[j as int]
                    == "Default"@ {
                    spec_ctor_hdr_line(dv.ident)
                } else {
                    Seq::<char>::empty()
                }));
                assert(swigged@ =~= spec_struct_code_head(dv.ident) + spec_ctor_code_lines(
                    dv.ident,
                    caps.take(j + 1),
                ));
                assert(swigged_h@ =~= spec_struct_hdr_head(dv.ident) + spec_ctor_hdr_lines(
                    dv.ident,
                    caps.take(j + 1),
                ));
            }
            j += 1;
        }
        proof {
            assert(caps.take(derivs.len() as int) =~= caps);
        }
        swigged.append("};\n");
        swigged_h.append("};\n");
        proof {
            assert(swigged@ =~= spec_struct_code(dv.ident, caps));
            assert(swigged_h@ =~= spec_struct_hdr(dv.ident, caps));
        }
        encode_envelope(swigged.as_str(), swigged_h.as_str())
    }
}

/// The constructor lines of a capability list holding the
/// default-construction tag hold the zero-argument constructor line.
pub proof fn lemma_ctor_lines_contain_default(name: Seq<char>, caps: Seq<Seq<char>>)
    requires
        caps.contains("Default"@),
    ensures
        contains_seq(spec_ctor_code_lines(name, caps), spec_ctor_code_line(name)),
    decreases caps.len(),
{
    let line = spec_ctor_code_line(name);
    if caps[0] == "Default"@ {
        assert(occurs_at(line, line, 0)) by {
            assert(line.subrange(0, line.len() as int) =~= line);
        }
        lemma_occurs_concat_left(line, spec_ctor_code_lines(name, caps.skip(1)), line, 0);
    } else {
        let i = choose|i: int| 0 <= i < caps.len() && caps[i] == "Default"@;
        assert(caps.skip(1)[i - 1] == caps[i]);
        assert(caps.skip(1).contains("Default"@));
        lemma_ctor_lines_contain_default(name, caps.skip(1));
        let rest = spec_ctor_code_lines(name, caps.skip(1));
        let k = choose|k: int| occurs_at(rest, line, k);
        assert(spec_ctor_code_lines(name, caps) =~= rest);
    }
}

/// The code fragment emitted for a struct carrying the default-construction
/// capability holds a zero-argument constructor that calls the emitted
/// default-constructor foreign function name exactly.
pub proof fn lemma_default_ctor_rendered(d: crate::decl::DeriveInputV)
    requires
        spec_get_derives(d.attrs).contains("Default"@),
    ensures
        contains_seq(
            spec_struct_code(d.ident, spec_get_derives(d.attrs)),
            spec_ctor_code_line(d.ident),
        ),
{
    let caps = spec_get_derives(d.attrs);
    let line = spec_ctor_code_line(d.ident);
    let head = spec_struct_code_head(d.ident);
    let lines = spec_ctor_code_lines(d.ident, caps);
    lemma_ctor_lines_contain_default(d.ident, caps);
    let k = choose|k: int| occurs_at(lines, line, k);
    lemma_occurs_concat_right(head, lines, line, k);
    lemma_occurs_concat_left(head + lines, "};\n"@, line, head.len() + k);
    assert(spec_struct_code(d.ident, caps) == head + lines + "};\n"@);
    assert((head + lines) + "};\n"@ =~= head + lines + "};\n"@);
}

/// A declaration with a string-like return type renders with its foreign
/// return value cast to the external character-pointer type: the cast
/// target is `char *`, never a pointer-to-struct type, and the descriptor
/// holds the cast verbatim. (A method bearing the constructor name renders
/// with the allocation idiom instead and is left out here.)
pub proof fn lemma_string_return_cast(f: crate::decl::InternalFnV)
    requires
        f.fn_def.output matches Some(t) && spec_classify(t.name) == TypeClass::StringLike,
        f.fn_def.ident != "new"@,
    ensures
        spec_c_ret(f.fn_def.output, f.base) == "char *"@,
        contains_seq(spec_fn_swig(f), "("@ + "char *"@ + ")(ffi::"@),
{
    let pat = "("@ + "char *"@ + ")(ffi::"@;
    let out = spec_fn_out(f);
    assert(out == "char *"@);
    let ext = spec_swig_fn(f.fn_def.ident, "ffi"@);
    reveal_strlit("(");
    reveal_strlit("char *");
    reveal_strlit(")(ffi::");
    reveal_strlit(") {\n                    return (");
    reveal_strlit(") {\n                    return ");
    reveal_strlit(") {\n                        return (");
    reveal_strlit(") {\n                        return ");
    assert(") {\n                    return ("@ =~= ") {\n                    return "@ + "("@);
    assert(") {\n                        return ("@ =~= ") {\n                        return "@
        + "("@);
    match f.base {
        None => {
            let code = spec_fn_code(f);
            let x = spec_fn_ret_out(f) + " "@ + spec_fn_disp_name(f) + "("@ + spec_fn_args(f)
                + ") {\n                    return "@;
            let y = ext + "("@ + spec_fn_caller(f) + "));\n                }"@;
            assert(code =~= x + pat + y);
            lemma_occurs_middle(x, pat, y);
            let whole = spec_fn_swig(f);
            assert(whole =~= (SwigTag::CodeStart.spec_str() + x) + pat + (y
                + SwigTag::CodeEnd.spec_str() + SwigTag::HdrStart.spec_str() + spec_fn_hdr(f)
                + SwigTag::HdrEnd.spec_str()));
            lemma_occurs_middle(
                SwigTag::CodeStart.spec_str() + x,
                pat,
                y + SwigTag::CodeEnd.spec_str() + SwigTag::HdrStart.spec_str() + spec_fn_hdr(f)
                    + SwigTag::HdrEnd.spec_str(),
            );
        },
        Some(b) => {
            let hdr = spec_fn_hdr(f);
            let x = "\n                %extend "@ + b + " {\n                    "@
                + spec_fn_ret_out(f) + " "@ + spec_fn_disp_name(f) + "("@ + spec_fn_args(f)
                + ") {\n                        return "@;
            let y = ext + "("@ + spec_fn_caller(f) + "));\n                    }\n                };\n"@;
            assert(hdr =~= x + pat + y);
            lemma_occurs_middle(x, pat, y);
            let whole = spec_fn_swig(f);
            assert(whole =~= (SwigTag::CodeStart.spec_str() + spec_fn_code(f)
                + SwigTag::CodeEnd.spec_str() + SwigTag::HdrStart.spec_str() + x) + pat + (y
                + SwigTag::HdrEnd.spec_str()));
            lemma_occurs_middle(
                SwigTag::CodeStart.spec_str() + spec_fn_code(f) + SwigTag::CodeEnd.spec_str()
                    + SwigTag::HdrStart.spec_str() + x,
                pat,
                y + SwigTag::HdrEnd.spec_str(),
            );
        },
    }
}

} // verus!
