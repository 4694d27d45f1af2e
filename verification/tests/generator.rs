//! Scenario tests for the expansion entry points: struct expansion, method
//! expansion, naming, and the missing-base-type error.

use swiggen::body::{FnBody, MarshalOp, RetOp};
use swiggen::decl::{Attribute, DeriveInput, Error, FnDecl, ImplBlock, ImplMethod, Param};
use swiggen::expand::{impl_extern_fn, impl_extern_it, split_out_externs};
use swiggen::lower::{lower, swig_fn, swig_free, ForeignParam, ForeignRet};
use swiggen::ty::TypeRef;

fn named(name: &str, ty: &str) -> Param {
    Param::Named {
        name: name.to_string(),
        ty: TypeRef { is_ref: false, name: ty.to_string() },
    }
}

fn point_struct() -> DeriveInput {
    DeriveInput {
        ident: "Point".to_string(),
        attrs: vec![Attribute {
            name: "swig_derive".to_string(),
            words: vec!["Default".to_string()],
        }],
    }
}

#[test]
fn struct_with_default_emits_free_and_default_foreign_fns() {
    let expanded = impl_extern_it(&point_struct());
    assert_eq!(expanded.fns.len(), 2);
    assert_eq!(expanded.fns[0].sig.name, "__SWIG_INJECT_free_Point");
    assert_eq!(expanded.fns[1].sig.name, "__SWIG_INJECT_default_Point");
    assert!(matches!(expanded.fns[0].body, FnBody::FreePointee));
    match &expanded.fns[1].body {
        FnBody::Call(b) => {
            assert_eq!(b.call_base.as_deref(), Some("Point"));
            assert_eq!(b.call_name, "default");
            assert!(b.call_args.is_empty());
            assert_eq!(b.ret_op, RetOp::BoxRaw);
        }
        _ => panic!("default constructor should call Point::default"),
    }
    assert_eq!(expanded.carrier.name, "__SWIG_INJECT_Point");
}

#[test]
fn struct_descriptor_declares_wrapper_class() {
    let expanded = impl_extern_it(&point_struct());
    let doc = &expanded.carrier.doc;
    assert!(doc.contains("class Point {"));
    assert!(doc.contains("ffi::Point *self;"));
    assert!(doc.contains("Point(ffi::Point *ptr)"));
    assert!(doc.contains("~Point()"));
    assert!(doc.contains("ffi::__SWIG_INJECT_free_Point(self);"));
    assert!(doc.contains("Point() { self = __SWIG_INJECT_default_Point(); };"));
    assert!(doc.contains("~Point();"));
    assert!(doc.contains("Point();"));
}

#[test]
fn unknown_capability_is_ignored() {
    let d = DeriveInput {
        ident: "Point".to_string(),
        attrs: vec![Attribute {
            name: "swig_derive".to_string(),
            words: vec!["Frobnicate".to_string()],
        }],
    };
    let expanded = impl_extern_it(&d);
    assert_eq!(expanded.fns.len(), 1);
    assert_eq!(expanded.fns[0].sig.name, "__SWIG_INJECT_free_Point");
    assert!(!expanded.carrier.doc.contains("Frobnicate"));
}

#[test]
fn new_method_renders_constructor_form() {
    let decl = FnDecl {
        ident: "new".to_string(),
        inputs: vec![named("field", "u32")],
        output: Some(TypeRef { is_ref: false, name: "Self".to_string() }),
    };
    let base = Some("Point".to_string());
    let expanded = impl_extern_fn(&base, &decl).expect("expansion should succeed");
    assert_eq!(expanded.carrier.name, "__SWIG_INJECT_hidden_ffi_new");
    assert_eq!(expanded.foreign.sig.name, "__SWIG_INJECT_ffi_new");
    let doc = &expanded.carrier.doc;
    // Constructor form: named after the base, no declared return type, and
    // the body allocates through the constructor idiom.
    assert!(doc.contains(" Point(uint32_t field) {"));
    assert!(doc.contains("return (new PKG_NAME::Point)(ffi::__SWIG_INJECT_ffi_new(field));"));
    assert!(doc.contains("%extend Point {"));
    assert!(!doc.contains("Self"));
}

#[test]
fn self_method_without_base_fails_with_missing_base_type() {
    let decl = FnDecl {
        ident: "get_field".to_string(),
        inputs: vec![Param::Receiver { by_ref: true }, named("scale", "u32")],
        output: Some(TypeRef { is_ref: false, name: "u32".to_string() }),
    };
    assert_eq!(lower(&decl, &None).unwrap_err(), Error::MissingBaseType);
    assert_eq!(impl_extern_fn(&None, &decl).unwrap_err(), Error::MissingBaseType);
}

#[test]
fn self_return_without_base_fails_with_missing_base_type() {
    let decl = FnDecl {
        ident: "clone_it".to_string(),
        inputs: vec![],
        output: Some(TypeRef { is_ref: false, name: "Self".to_string() }),
    };
    assert_eq!(lower(&decl, &None).unwrap_err(), Error::MissingBaseType);
}

#[test]
fn free_function_lowering_keeps_primitives_and_boxes_opaques() {
    let decl = FnDecl {
        ident: "build".to_string(),
        inputs: vec![
            named("count", "u32"),
            named("label", "str"),
            Param::Named {
                name: "origin".to_string(),
                ty: TypeRef { is_ref: true, name: "Point".to_string() },
            },
        ],
        output: Some(TypeRef { is_ref: false, name: "Point".to_string() }),
    };
    let sig = lower(&decl, &None).expect("lowering should succeed");
    assert_eq!(sig.name, "__SWIG_INJECT_ffi_build");
    assert_eq!(sig.params.len(), 3);
    match &sig.params[0] {
        ForeignParam::Plain { name, ty } => {
            assert_eq!(name, "count");
            assert_eq!(ty.name, "u32");
        }
        _ => panic!("primitive parameter should pass through"),
    }
    match &sig.params[1] {
        ForeignParam::CharPtr { name } => assert_eq!(name, "label"),
        _ => panic!("string parameter should become a character pointer"),
    }
    match &sig.params[2] {
        ForeignParam::OpaquePtr { name, ty, by_ref } => {
            assert_eq!(name, "origin");
            assert_eq!(ty, "Point");
            assert!(*by_ref);
        }
        _ => panic!("opaque parameter should become a pointer"),
    }
    match &sig.ret {
        ForeignRet::OwnedPtr { ty } => assert_eq!(ty, "Point"),
        _ => panic!("opaque return should become an owning pointer"),
    }
}

#[test]
fn synthesized_body_calls_original_once_with_recovered_args() {
    let decl = FnDecl {
        ident: "get_field".to_string(),
        inputs: vec![Param::Receiver { by_ref: true }],
        output: Some(TypeRef { is_ref: false, name: "u32".to_string() }),
    };
    let base = Some("Test".to_string());
    let expanded = impl_extern_fn(&base, &decl).expect("expansion should succeed");
    match &expanded.foreign.body {
        FnBody::Call(b) => {
            assert_eq!(b.marshal.len(), 1);
            match &b.marshal[0] {
                MarshalOp::DerefBorrow { name } => assert_eq!(name, "wrapped_self"),
                _ => panic!("a borrowed receiver should be null-checked and borrowed"),
            }
            assert_eq!(b.call_base.as_deref(), Some("Test"));
            assert_eq!(b.call_name, "get_field");
            assert_eq!(b.call_args, vec!["wrapped_self".to_string()]);
            assert_eq!(b.ret_op, RetOp::Direct);
        }
        _ => panic!("a method expansion should synthesize a marshaling call"),
    }
}

#[test]
fn by_value_receiver_and_string_return_marshal_accordingly() {
    let decl = FnDecl {
        ident: "into_name".to_string(),
        inputs: vec![Param::Receiver { by_ref: false }],
        output: Some(TypeRef { is_ref: false, name: "String".to_string() }),
    };
    let base = Some("Test".to_string());
    let expanded = impl_extern_fn(&base, &decl).expect("expansion should succeed");
    assert!(matches!(expanded.foreign.sig.ret, ForeignRet::CharPtr));
    match &expanded.foreign.body {
        FnBody::Call(b) => {
            assert!(matches!(&b.marshal[0], MarshalOp::DerefMove { name } if name == "wrapped_self"));
            assert_eq!(b.ret_op, RetOp::StrRaw);
        }
        _ => panic!("a method expansion should synthesize a marshaling call"),
    }
}

#[test]
fn generation_is_idempotent() {
    let decl = FnDecl {
        ident: "new".to_string(),
        inputs: vec![named("field", "u32")],
        output: Some(TypeRef { is_ref: false, name: "Self".to_string() }),
    };
    let base = Some("Point".to_string());
    let a = impl_extern_fn(&base, &decl).expect("expansion should succeed");
    let b = impl_extern_fn(&base, &decl).expect("expansion should succeed");
    assert_eq!(a.carrier.name, b.carrier.name);
    assert_eq!(a.carrier.doc, b.carrier.doc);
    assert_eq!(a.foreign.sig.name, b.foreign.sig.name);
    let s1 = impl_extern_it(&point_struct());
    let s2 = impl_extern_it(&point_struct());
    assert_eq!(s1.carrier.doc, s2.carrier.doc);
    assert_eq!(s1.carrier.name, s2.carrier.name);
}

#[test]
fn naming_is_collision_free_across_roles() {
    assert_eq!(swig_fn("Point", "default"), "__SWIG_INJECT_default_Point");
    assert_eq!(swig_free("Point"), "__SWIG_INJECT_free_Point");
    assert_eq!(swig_fn("new", "ffi"), "__SWIG_INJECT_ffi_new");
    assert_eq!(swig_fn("new", "hidden_ffi"), "__SWIG_INJECT_hidden_ffi_new");
    assert_ne!(swig_fn("Point", "free"), swig_fn("Point", "default"));
}

#[test]
fn split_out_externs_expands_annotated_methods_only() {
    let swiggen_attr = Attribute {
        name: "swiggen".to_string(),
        words: vec!["Test".to_string()],
    };
    let block = ImplBlock {
        self_ty: "Test".to_string(),
        methods: vec![
            ImplMethod {
                decl: FnDecl {
                    ident: "new".to_string(),
                    inputs: vec![named("field", "u32")],
                    output: Some(TypeRef { is_ref: false, name: "Self".to_string() }),
                },
                abi_is_c: false,
                attrs: vec![swiggen_attr.clone()],
            },
            ImplMethod {
                decl: FnDecl {
                    ident: "get_field".to_string(),
                    inputs: vec![Param::Receiver { by_ref: true }],
                    output: Some(TypeRef { is_ref: false, name: "u32".to_string() }),
                },
                abi_is_c: false,
                attrs: vec![swiggen_attr],
            },
            ImplMethod {
                decl: FnDecl { ident: "helper".to_string(), inputs: vec![], output: None },
                abi_is_c: false,
                attrs: vec![],
            },
            ImplMethod {
                decl: FnDecl { ident: "raw".to_string(), inputs: vec![], output: None },
                abi_is_c: true,
                attrs: vec![],
            },
        ],
    };
    let expanded = split_out_externs(&block);
    assert_eq!(expanded.len(), 2);
    assert_eq!(expanded[0].foreign.sig.name, "__SWIG_INJECT_ffi_new");
    assert_eq!(expanded[1].foreign.sig.name, "__SWIG_INJECT_ffi_get_field");
}
