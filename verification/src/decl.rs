//! The declaration model: the unit of transformation is either a struct
//! declaration with capability tags or a function/method declaration with an
//! optional base type name. A dedicated parsing step (outside this crate)
//! produces these values once; all later logic works on them and never
//! re-inspects raw syntax.

use vstd::prelude::*;

verus! {

/// The generation-time errors: a method-shaped declaration without a base
/// type name, and an envelope missing one of its sentinel delimiters.
#[derive(Clone, Copy, PartialEq, Eq, Structural, Debug)]
pub enum Error {
    MissingBaseType,
    MalformedEnvelope,
}

impl Error {
    /// A fixed description of the error.
    pub fn describe(&self) -> (r: &'static str)
        ensures
            r@ == self.spec_describe(),
    {
        match self {
            Error::MissingBaseType => "cannot convert a `self` argument or `Self` return type without a provided base name",
            Error::MalformedEnvelope => "binding text envelope is missing a sentinel delimiter",
        }
    }

    pub open spec fn spec_describe(self) -> Seq<char> {
        match self {
            Error::MissingBaseType => "cannot convert a `self` argument or `Self` return type without a provided base name"@,
            Error::MalformedEnvelope => "binding text envelope is missing a sentinel delimiter"@,
        }
    }
}

/// One attribute attached to a declaration, reduced to its name and the list
/// of plain words inside its parentheses.
#[derive(Clone, Debug)]
pub struct Attribute {
    pub name: String,
    pub words: Vec<String>,
}

pub struct AttributeV {
    pub name: Seq<char>,
    pub words: Seq<Seq<char>>,
}

impl View for Attribute {
    type V = AttributeV;

    open spec fn view(&self) -> AttributeV {
        AttributeV { name: self.name@, words: self.words.deep_view() }
    }
}

/// One parameter of a function or method declaration: either the receiver
/// (`self`, by reference or by value) or a named parameter with its type.
#[derive(Clone, Debug)]
pub enum Param {
    Receiver { by_ref: bool },
    Named { name: String, ty: crate::ty::TypeRef },
}

pub enum ParamV {
    Receiver { by_ref: bool },
    Named { name: Seq<char>, ty: crate::ty::TypeRefV },
}

impl View for Param {
    type V = ParamV;

    open spec fn view(&self) -> ParamV {
        match self {
            Param::Receiver { by_ref } => ParamV::Receiver { by_ref: *by_ref },
            Param::Named { name, ty } => ParamV::Named { name: name@, ty: ty@ },
        }
    }
}

/// A function or method declaration: its identifier, its parameters in
/// order, and its return type (`None` for no return type).
#[derive(Clone, Debug)]
pub struct FnDecl {
    pub ident: String,
    pub inputs: Vec<Param>,
    pub output: Option<crate::ty::TypeRef>,
}

pub struct FnDeclV {
    pub ident: Seq<char>,
    pub inputs: Seq<ParamV>,
    pub output: Option<crate::ty::TypeRefV>,
}

impl View for FnDecl {
    type V = FnDeclV;

    open spec fn view(&self) -> FnDeclV {
        FnDeclV {
            ident: self.ident@,
            inputs: self.inputs@.map_values(|p: Param| p@),
            output: match self.output {
                Some(t) => Some(t@),
                None => None,
            },
        }
    }
}

/// A struct declaration annotated for wrapper generation: its identifier and
/// its attributes, from which the derive capabilities are read.
#[derive(Clone, Debug)]
pub struct DeriveInput {
    pub ident: String,
    pub attrs: Vec<Attribute>,
}

pub struct DeriveInputV {
    pub ident: Seq<char>,
    pub attrs: Seq<AttributeV>,
}

impl View for DeriveInput {
    type V = DeriveInputV;

    open spec fn view(&self) -> DeriveInputV {
        DeriveInputV { ident: self.ident@, attrs: self.attrs@.map_values(|a: Attribute| a@) }
    }
}

/// A method declaration inside an impl block carries an additional base
/// variable: the name of the implementing type, when one was supplied.
#[derive(Clone, Copy, Debug)]
pub struct InternalFn<'a> {
    pub base: &'a Option<String>,
    pub fn_def: &'a FnDecl,
}

pub struct InternalFnV {
    pub base: Option<Seq<char>>,
    pub fn_def: FnDeclV,
}

impl<'a> View for InternalFn<'a> {
    type V = InternalFnV;

    open spec fn view(&self) -> InternalFnV {
        InternalFnV { base: opt_str_view(self.base), fn_def: self.fn_def@ }
    }
}

/// The view of an optional name.
pub open spec fn opt_str_view(o: &Option<String>) -> Option<Seq<char>> {
    match o {
        Some(s) => Some(s@),
        None => None,
    }
}

/// One method of an impl block, with its attributes and whether it was
/// already declared with the foreign calling convention.
#[derive(Clone, Debug)]
pub struct ImplMethod {
    pub decl: FnDecl,
    pub abi_is_c: bool,
    pub attrs: Vec<Attribute>,
}

pub struct ImplMethodV {
    pub decl: FnDeclV,
    pub abi_is_c: bool,
    pub attrs: Seq<AttributeV>,
}

impl View for ImplMethod {
    type V = ImplMethodV;

    open spec fn view(&self) -> ImplMethodV {
        ImplMethodV {
            decl: self.decl@,
            abi_is_c: self.abi_is_c,
            attrs: self.attrs@.map_values(|a: Attribute| a@),
        }
    }
}

/// An impl block reduced to the name of the implementing type and its
/// methods.
#[derive(Clone, Debug)]
pub struct ImplBlock {
    pub self_ty: String,
    pub methods: Vec<ImplMethod>,
}

pub struct ImplBlockV {
    pub self_ty: Seq<char>,
    pub methods: Seq<ImplMethodV>,
}

impl View for ImplBlock {
    type V = ImplBlockV;

    open spec fn view(&self) -> ImplBlockV {
        ImplBlockV {
            self_ty: self.self_ty@,
            methods: self.methods@.map_values(|m: ImplMethod| m@),
        }
    }
}

/// Whether the parameter list begins with (or anywhere holds) a receiver.
pub open spec fn has_receiver(d: FnDeclV) -> bool {
    exists|i: int| 0 <= i < d.inputs.len() && d.inputs[i] is Receiver
}

/// Whether the declared return type is the receiver placeholder `Self`.
pub open spec fn ret_is_self(d: FnDeclV) -> bool {
    match d.output {
        Some(t) => t.name == "Self"@,
        None => false,
    }
}

/// The capability tags named in `swig_derive(...)` attributes, in order.
pub open spec fn spec_get_derives(attrs: Seq<AttributeV>) -> Seq<Seq<char>>
    decreases attrs.len(),
{
    if attrs.len() == 0 {
        Seq::empty()
    } else {
        let head = if attrs[0].name == "swig_derive"@ {
            attrs[0].words
        } else {
            Seq::empty()
        };
        head + spec_get_derives(attrs.skip(1))
    }
}

/// `spec_get_derives` distributes over concatenation.
pub proof fn lemma_get_derives_concat(a: Seq<AttributeV>, b: Seq<AttributeV>)
    ensures
        spec_get_derives(a + b) == spec_get_derives(a) + spec_get_derives(b),
    decreases a.len(),
{
    if a.len() == 0 {
        assert(a + b =~= b);
        assert(spec_get_derives(a) + spec_get_derives(b) =~= spec_get_derives(b));
    } else {
        assert((a + b).skip(1) =~= a.skip(1) + b);
        lemma_get_derives_concat(a.skip(1), b);
        assert((a + b)[0] == a[0]);
        assert(spec_get_derives(a + b) =~= spec_get_derives(a) + spec_get_derives(b));
    }
}

/// Extract the capability tags from any `swig_derive(...)` attributes.
pub fn get_derives(attrs: &Vec<Attribute>) -> (r: Vec<String>)
    ensures
        r.deep_view() == spec_get_derives(attrs@.map_values(|a: Attribute| a@)),
{
    let ghost attrs_v = attrs@.map_values(|a: Attribute| a@);
    let mut out: Vec<String> = Vec::new();
    assert(out.deep_view() =~= spec_get_derives(attrs_v.take(0)));
    let mut i: usize = 0;
    while i < attrs.len()
        invariant
            attrs_v == attrs@.map_values(|a: Attribute| a@),
            i <= attrs.len(),
            out.deep_view() == spec_get_derives(attrs_v.take(i as int)),
        decreases attrs.len() - i,
    {
        let attr = &attrs[i];
        if crate::strutil::str_eq(attr.name.as_str(), "swig_derive") {
            let mut j: usize = 0;
            let ghost prev = out.deep_view();
            while j < attr.words.len()
                invariant
                    0 <= i < attrs.len(),
                    attr == attrs[i as int],
                    j <= attr.words.len(),
                    out.deep_view() == prev + attr.words.deep_view().take(j as int),
                decreases attr.words.len() - j,
            {
                let w = attr.words[j].clone();
                proof {
                    assert(w@ == attr.words@[j as int]@);
                }
                let ghost ov = out@;
                let ghost odv = out.deep_view();
                out.push(w);
                proof {
                    let rhs = prev + attr.words.deep_view().take(j + 1);
                    assert(out@ == ov.push(w));
                    assert(out.deep_view().len() == out@.len());
                    assert(out@.len() == ov.len() + 1);
                    assert(ov.len() == odv.len());
                    assert(odv.len() == prev.len() + j);
                    assert(attr.words.deep_view().len() == attr.words@.len());
                    assert(j < attr.words@.len());
                    assert(rhs.len() == prev.len() + j + 1);
                    assert(out.deep_view().len() == rhs.len());
                    assert forall|k: int| 0 <= k < rhs.len() implies out.deep_view()[k] == rhs[k] by {
                        if k < odv.len() {
                            assert(out@[k] == ov[k]);
                            assert(out.deep_view()[k] == odv[k]);
                        } else {
                            assert(out@[k] == w);
                            assert(out.deep_view()[k] == w@);
                            assert(rhs[k] == attr.words.deep_view()[j as int]);
                        }
                    }
                    assert(out.deep_view() =~~= rhs);
                }
                j += 1;
            }
            assert(attr.words.deep_view().take(attr.words.len() as int) =~= attr.words.deep_view());
        }
        proof {
            assert(attrs_v.take(i + 1) =~= attrs_v.take(i as int) + seq![attrs_v[i as int]]);
            lemma_get_derives_concat(attrs_v.take(i as int), seq![attrs_v[i as int]]);
            assert(spec_get_derives(seq![attrs_v[i as int]].skip(1)) =~= Seq::<Seq<char>>::empty());
            assert(attrs_v[i as int] == attrs[i as int]@);
            assert(out.deep_view() =~= spec_get_derives(attrs_v.take(i + 1)));
        }
        i += 1;
    }
    assert(attrs_v.take(attrs.len() as int) =~= attrs_v);
    out
}

} // verus!
