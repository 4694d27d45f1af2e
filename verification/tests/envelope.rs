//! Tests of the sentinel envelope: encoding, decoding, the hard failure on
//! a missing delimiter, and the whole-program aggregation walk.

use swiggen::decl::Error;
use swiggen::envelope::{decode_envelope, encode_envelope, gen_swig, Carrier};

#[test]
fn encode_brackets_both_fragments() {
    let s = encode_envelope("CODE", "HDR");
    assert_eq!(
        s,
        "__SWIG_CODE\nCODE__SWIG_END_CODE\n__SWIG_HDR\nHDR__SWIG_END_HDR\n"
    );
}

#[test]
fn decode_recovers_both_fragments() {
    let s = encode_envelope("class Foo {};\n", "class Foo;\n");
    let f = decode_envelope(&s).expect("a freshly encoded envelope should decode");
    assert_eq!(f.code, "class Foo {};\n");
    assert_eq!(f.hdr, "class Foo;\n");
}

#[test]
fn decode_of_empty_fragments_round_trips() {
    let s = encode_envelope("", "");
    let f = decode_envelope(&s).expect("an empty envelope should decode");
    assert_eq!(f.code, "");
    assert_eq!(f.hdr, "");
}

#[test]
fn decode_missing_hdr_end_is_malformed_and_yields_nothing() {
    let text = "__SWIG_CODE\nCODE__SWIG_END_CODE\n__SWIG_HDR\nHDR";
    assert_eq!(decode_envelope(text).unwrap_err(), Error::MalformedEnvelope);
}

#[test]
fn decode_missing_each_delimiter_is_malformed() {
    assert_eq!(
        decode_envelope("CODE__SWIG_END_CODE\n__SWIG_HDR\nHDR__SWIG_END_HDR\n").unwrap_err(),
        Error::MalformedEnvelope
    );
    assert_eq!(
        decode_envelope("__SWIG_CODE\nCODE__SWIG_HDR\nHDR__SWIG_END_HDR\n").unwrap_err(),
        Error::MalformedEnvelope
    );
    assert_eq!(
        decode_envelope("__SWIG_CODE\nCODE__SWIG_END_CODE\nHDR__SWIG_END_HDR\n").unwrap_err(),
        Error::MalformedEnvelope
    );
}

#[test]
fn decode_out_of_order_delimiters_is_malformed() {
    let text = "__SWIG_END_CODE\n__SWIG_CODE\n__SWIG_HDR\n__SWIG_END_HDR\n";
    assert_eq!(decode_envelope(text).unwrap_err(), Error::MalformedEnvelope);
}

#[test]
fn error_description_names_the_envelope() {
    assert_eq!(
        Error::MalformedEnvelope.describe(),
        "binding text envelope is missing a sentinel delimiter"
    );
    assert_eq!(
        Error::MissingBaseType.describe(),
        "cannot convert a `self` argument or `Self` return type without a provided base name"
    );
}

#[test]
fn gen_swig_collects_prefixed_carriers_in_order() {
    let decls = vec![
        Carrier {
            name: "__SWIG_INJECT_Foo".to_string(),
            doc: encode_envelope("codeA;", "hdrA;"),
        },
        Carrier {
            name: "plain_function".to_string(),
            doc: "not an envelope at all".to_string(),
        },
        Carrier {
            name: "__SWIG_INJECT_hidden_ffi_bar".to_string(),
            doc: encode_envelope("codeB;", "hdrB;"),
        },
    ];
    let out = gen_swig(&decls).expect("well-formed carriers should aggregate");
    assert_eq!(out.code, "codeA;codeB;");
    assert_eq!(out.hdr, "hdrA;hdrB;");
}

#[test]
fn gen_swig_restores_escaped_line_breaks() {
    // The expanded program carries the envelope with literal backslash-n
    // pairs inside its documentation text.
    let escaped = "__SWIG_CODE\\nline one\\nline two__SWIG_END_CODE\\n__SWIG_HDR\\nhdr__SWIG_END_HDR\\n";
    let decls = vec![Carrier { name: "__SWIG_INJECT_Esc".to_string(), doc: escaped.to_string() }];
    let out = gen_swig(&decls).expect("escaped envelopes should decode after restoration");
    assert_eq!(out.code, "line one\nline two");
    assert_eq!(out.hdr, "hdr");
}

#[test]
fn gen_swig_fails_on_first_malformed_envelope() {
    let decls = vec![
        Carrier {
            name: "__SWIG_INJECT_Good".to_string(),
            doc: encode_envelope("ok;", "ok;"),
        },
        Carrier {
            name: "__SWIG_INJECT_Bad".to_string(),
            doc: "__SWIG_CODE\nonly a start tag".to_string(),
        },
    ];
    assert_eq!(gen_swig(&decls).unwrap_err(), Error::MalformedEnvelope);
}

#[test]
fn gen_swig_ignores_unprefixed_malformed_text() {
    let decls = vec![Carrier {
        name: "ordinary".to_string(),
        doc: "__SWIG_CODE\nbroken".to_string(),
    }];
    let out = gen_swig(&decls).expect("unprefixed declarations are skipped");
    assert_eq!(out.code, "");
    assert_eq!(out.hdr, "");
}
