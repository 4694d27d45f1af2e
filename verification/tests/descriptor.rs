//! Exact-text tests of the descriptor renderer, classifier tests, the tag
//! values, the string utilities, the manifest name normalization, and the
//! sample library.

use swiggen::decl::{Attribute, DeriveInput, FnDecl, Param};
use swiggen::expand::impl_extern_fn;
use swiggen::manifest::{Manifest, Package};
use swiggen::sample::{test2_func, test_function, test_value, Test};
use swiggen::strutil::{contains_sub, ends_with_str, find_sub, replace_all, starts_with_str, str_eq};
use swiggen::swig::ToSwig;
use swiggen::tag::SwigTag;
use swiggen::ty::{c_name, classify, needs_ref, TypeClass, TypeRef};

fn ty(name: &str) -> TypeRef {
    TypeRef { is_ref: false, name: name.to_string() }
}

#[test]
fn free_function_descriptor_exact_text() {
    let decl = FnDecl {
        ident: "test_function".to_string(),
        inputs: vec![],
        output: Some(ty("Test")),
    };
    let expanded = impl_extern_fn(&None, &decl).expect("expansion should succeed");
    assert_eq!(
        expanded.carrier.doc,
        "__SWIG_CODE\nTest test_function() {\n                    return (Test)(ffi::__SWIG_INJECT_ffi_test_function());\n                }__SWIG_END_CODE\n__SWIG_HDR\nTest test_function();__SWIG_END_HDR\n"
    );
    assert_eq!(expanded.carrier.name, "__SWIG_INJECT_hidden_ffi_test_function");
}

#[test]
fn method_descriptor_exact_text() {
    let decl = FnDecl {
        ident: "get_field".to_string(),
        inputs: vec![Param::Receiver { by_ref: true }],
        output: Some(ty("u32")),
    };
    let base = Some("Test".to_string());
    let expanded = impl_extern_fn(&base, &decl).expect("expansion should succeed");
    assert_eq!(
        expanded.carrier.doc,
        "__SWIG_CODE\n__SWIG_END_CODE\n__SWIG_HDR\n\n                %extend Test {\n                    uint32_t get_field() {\n                        return (uint32_t)(ffi::__SWIG_INJECT_ffi_get_field($self->self));\n                    }\n                };\n__SWIG_END_HDR\n"
    );
}

#[test]
fn method_with_mixed_args_orders_them_with_commas() {
    let decl = FnDecl {
        ident: "scale".to_string(),
        inputs: vec![
            Param::Receiver { by_ref: true },
            Param::Named { name: "factor".to_string(), ty: ty("u32") },
            Param::Named { name: "label".to_string(), ty: ty("str") },
        ],
        output: None,
    };
    let base = Some("Test".to_string());
    let expanded = impl_extern_fn(&base, &decl).expect("expansion should succeed");
    let doc = &expanded.carrier.doc;
    assert!(doc.contains("void scale(uint32_t factor, const char *label)"));
    assert!(doc.contains("(ffi::__SWIG_INJECT_ffi_scale($self->self, factor, label));"));
}

#[test]
fn string_return_casts_to_char_pointer() {
    let decl = FnDecl {
        ident: "greeting".to_string(),
        inputs: vec![],
        output: Some(ty("String")),
    };
    let expanded = impl_extern_fn(&None, &decl).expect("expansion should succeed");
    let doc = &expanded.carrier.doc;
    assert!(doc.contains("return (char *)(ffi::__SWIG_INJECT_ffi_greeting());"));
    assert!(!doc.contains("(String)"));
}

#[test]
fn struct_to_swig_matches_envelope_shape() {
    let d = DeriveInput {
        ident: "Test".to_string(),
        attrs: vec![Attribute {
            name: "swig_derive".to_string(),
            words: vec!["Default".to_string()],
        }],
    };
    let doc = d.to_swig();
    assert!(doc.starts_with("__SWIG_CODE\n"));
    assert!(doc.ends_with("__SWIG_END_HDR\n"));
    assert!(doc.contains("__SWIG_END_CODE\n__SWIG_HDR\n"));
    assert!(doc.contains("// Wrapper for Rust class Test\n"));
}

#[test]
fn classifier_distinguishes_the_three_kinds() {
    assert_eq!(classify(&ty("u32")), TypeClass::Primitive);
    assert_eq!(classify(&ty("bool")), TypeClass::Primitive);
    assert_eq!(classify(&ty("isize")), TypeClass::Primitive);
    assert_eq!(classify(&ty("String")), TypeClass::StringLike);
    assert_eq!(classify(&ty("str")), TypeClass::StringLike);
    assert_eq!(classify(&TypeRef { is_ref: true, name: "str".to_string() }), TypeClass::StringLike);
    assert_eq!(classify(&ty("Point")), TypeClass::Opaque);
    assert_eq!(classify(&ty("Self")), TypeClass::Opaque);
    assert!(!needs_ref(&ty("u32")));
    assert!(needs_ref(&ty("Point")));
    assert!(needs_ref(&ty("String")));
}

#[test]
fn c_names_of_primitives() {
    assert_eq!(c_name("u8"), "uint8_t");
    assert_eq!(c_name("u32"), "uint32_t");
    assert_eq!(c_name("i64"), "int64_t");
    assert_eq!(c_name("usize"), "uintptr_t");
    assert_eq!(c_name("bool"), "bool");
    assert_eq!(c_name("Point"), "Point");
}

#[test]
fn tags_have_their_fixed_text_and_lengths() {
    assert_eq!(SwigTag::CodeStart.to_str(), "__SWIG_CODE\n");
    assert_eq!(SwigTag::CodeEnd.to_str(), "__SWIG_END_CODE\n");
    assert_eq!(SwigTag::HdrStart.to_str(), "__SWIG_HDR\n");
    assert_eq!(SwigTag::HdrEnd.to_str(), "__SWIG_END_HDR\n");
    assert_eq!(SwigTag::SwigInject.to_str(), "__SWIG_INJECT_");
    for tag in [
        SwigTag::CodeStart,
        SwigTag::CodeEnd,
        SwigTag::HdrStart,
        SwigTag::HdrEnd,
        SwigTag::SwigInject,
    ] {
        assert_eq!(tag.len(), tag.to_str().len());
    }
}

#[test]
fn string_utilities_behave() {
    assert_eq!(find_sub("abcabc", "ca"), Some(2));
    assert_eq!(find_sub("abcabc", "zz"), None);
    assert_eq!(find_sub("aaa", ""), Some(0));
    assert!(contains_sub("hello world", "o w"));
    assert!(!contains_sub("hello", "world"));
    assert!(starts_with_str("__SWIG_INJECT_free_Point", "__SWIG_INJECT_"));
    assert!(!starts_with_str("free_Point", "__SWIG_INJECT_"));
    assert!(ends_with_str("&str", "str"));
    assert!(!ends_with_str("String", "str"));
    assert!(str_eq("abc", "abc"));
    assert!(!str_eq("abc", "abd"));
    assert!(!str_eq("abc", "ab"));
    assert_eq!(replace_all("a-b-c", "-", "_"), "a_b_c");
    assert_eq!(replace_all("aaa", "aa", "b"), "ba");
    assert_eq!(replace_all("none", "x", "y"), "none");
}

#[test]
fn manifest_module_name_replaces_dashes() {
    let m = Manifest { package: Package { name: "swig-derive-test".to_string() } };
    assert_eq!(m.module_name(), "swig_derive_test");
    let plain = Manifest { package: Package { name: "swiggen".to_string() } };
    assert_eq!(plain.module_name(), "swiggen");
}

#[test]
fn sample_library_behaves() {
    let t = Test::new(7);
    assert_eq!(t.get_field(), 7);
    assert_eq!(Test::default().get_field(), 0);
    assert_eq!(test_function().get_field(), 5);
    assert_eq!(test_value(), 13);
    assert_eq!(test2_func().field, 12);
}
