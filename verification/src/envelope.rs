//! The sentinel envelope: the two rendered descriptor fragments are
//! concatenated between fixed delimiter tags and attached as documentation
//! text to an inert, reserved-prefixed carrier declaration. The decoder
//! recovers the fragments from such text; a missing delimiter is a hard
//! error, never a silent skip.

use vstd::prelude::*;

use crate::decl::Error;
use crate::strutil::{
    find_sub, first_occ_at, is_prefix, lemma_first_occ_unique, occurs_at, replace_all,
    spec_replace, starts_with_str,
};
use crate::tag::SwigTag;

verus! {

/// The envelope text: `code` then `hdr`, each bracketed by its start and end
/// tags.
pub open spec fn spec_envelope(code: Seq<char>, hdr: Seq<char>) -> Seq<char> {
    SwigTag::CodeStart.spec_str() + code + SwigTag::CodeEnd.spec_str()
        + SwigTag::HdrStart.spec_str() + hdr + SwigTag::HdrEnd.spec_str()
}

/// Bracket the two fragments between the sentinel delimiters.
pub fn encode_envelope(code: &str, hdr: &str) -> (r: String)
    ensures
        r@ == spec_envelope(code@, hdr@),
{
    let mut s = String::from_str(SwigTag::CodeStart.to_str());
    s.append(code);
    s.append(SwigTag::CodeEnd.to_str());
    s.append(SwigTag::HdrStart.to_str());
    s.append(hdr);
    s.append(SwigTag::HdrEnd.to_str());
    s
}

/// The two text blocks recovered from one envelope.
#[derive(Debug)]
pub struct Fragment {
    pub code: String,
    pub hdr: String,
}

pub struct FragmentV {
    pub code: Seq<char>,
    pub hdr: Seq<char>,
}

impl View for Fragment {
    type V = FragmentV;

    open spec fn view(&self) -> FragmentV {
        FragmentV { code: self.code@, hdr: self.hdr@ }
    }
}

/// A well-formed envelope: all four delimiters are present, and the first
/// occurrence of each end tag does not precede the text opened by its start
/// tag.
pub open spec fn spec_decode_ok(doc: Seq<char>) -> bool {
    &&& (exists|i: int| first_occ_at(doc, SwigTag::CodeStart.spec_str(), i))
    &&& (exists|i: int| first_occ_at(doc, SwigTag::CodeEnd.spec_str(), i))
    &&& (exists|i: int| first_occ_at(doc, SwigTag::HdrStart.spec_str(), i))
    &&& (exists|i: int| first_occ_at(doc, SwigTag::HdrEnd.spec_str(), i))
    &&& {
        let i1 = choose|i: int| first_occ_at(doc, SwigTag::CodeStart.spec_str(), i);
        let i2 = choose|i: int| first_occ_at(doc, SwigTag::CodeEnd.spec_str(), i);
        let i3 = choose|i: int| first_occ_at(doc, SwigTag::HdrStart.spec_str(), i);
        let i4 = choose|i: int| first_occ_at(doc, SwigTag::HdrEnd.spec_str(), i);
        i1 + SwigTag::CodeStart.spec_str().len() <= i2 && i3 + SwigTag::HdrStart.spec_str().len()
            <= i4
    }
}

/// The code block of a well-formed envelope: the text between the first
/// occurrence of the code start tag and the first occurrence of the code end
/// tag.
pub open spec fn spec_code_slice(doc: Seq<char>) -> Seq<char> {
    let i1 = choose|i: int| first_occ_at(doc, SwigTag::CodeStart.spec_str(), i);
    let i2 = choose|i: int| first_occ_at(doc, SwigTag::CodeEnd.spec_str(), i);
    doc.subrange(i1 + SwigTag::CodeStart.spec_str().len(), i2)
}

/// The header block of a well-formed envelope.
pub open spec fn spec_hdr_slice(doc: Seq<char>) -> Seq<char> {
    let i3 = choose|i: int| first_occ_at(doc, SwigTag::HdrStart.spec_str(), i);
    let i4 = choose|i: int| first_occ_at(doc, SwigTag::HdrEnd.spec_str(), i);
    doc.subrange(i3 + SwigTag::HdrStart.spec_str().len(), i4)
}

/// Recover the two fragments from envelope text. Fails with a
/// malformed-envelope error exactly when a delimiter is missing or the
/// delimiters stand out of order; a partial fragment is never returned.
pub fn decode_envelope(doc: &str) -> (r: Result<Fragment, Error>)
    ensures
        r is Ok <==> spec_decode_ok(doc@),
        (r matches Ok(f) ==> f.code@ == spec_code_slice(doc@) && f.hdr@ == spec_hdr_slice(doc@)),
        (r matches Err(e) ==> e == Error::MalformedEnvelope),
{
    let i1 = match find_sub(doc, SwigTag::CodeStart.to_str()) {
        Some(i) => i,
        None => {
            proof {
                assert(!spec_decode_ok(doc@));
            }
            return Err(Error::MalformedEnvelope);
        },
    };
    let i2 = match find_sub(doc, SwigTag::CodeEnd.to_str()) {
        Some(i) => i,
        None => {
            proof {
                assert(!spec_decode_ok(doc@));
            }
            return Err(Error::MalformedEnvelope);
        },
    };
    let i3 = match find_sub(doc, SwigTag::HdrStart.to_str()) {
        Some(i) => i,
        None => {
            proof {
                assert(!spec_decode_ok(doc@));
            }
            return Err(Error::MalformedEnvelope);
        },
    };
    let i4 = match find_sub(doc, SwigTag::HdrEnd.to_str()) {
        Some(i) => i,
        None => {
            proof {
                assert(!spec_decode_ok(doc@));
            }
            return Err(Error::MalformedEnvelope);
        },
    };
    let hl = doc.unicode_len();
    let cs_len = SwigTag::CodeStart.len();
    let hs_len = SwigTag::HdrStart.len();
    proof {
        assert(occurs_at(doc@, SwigTag::CodeStart.spec_str(), i1 as int));
        assert(occurs_at(doc@, SwigTag::HdrStart.spec_str(), i3 as int));
        assert(i1 + cs_len <= hl);
        assert(i3 + hs_len <= hl);
        let j1 = choose|i: int| first_occ_at(doc@, SwigTag::CodeStart.spec_str(), i);
        let j2 = choose|i: int| first_occ_at(doc@, SwigTag::CodeEnd.spec_str(), i);
        let j3 = choose|i: int| first_occ_at(doc@, SwigTag::HdrStart.spec_str(), i);
        let j4 = choose|i: int| first_occ_at(doc@, SwigTag::HdrEnd.spec_str(), i);
        lemma_first_occ_unique(doc@, SwigTag::CodeStart.spec_str(), i1 as int, j1);
        lemma_first_occ_unique(doc@, SwigTag::CodeEnd.spec_str(), i2 as int, j2);
        lemma_first_occ_unique(doc@, SwigTag::HdrStart.spec_str(), i3 as int, j3);
        lemma_first_occ_unique(doc@, SwigTag::HdrEnd.spec_str(), i4 as int, j4);
    }
    if i1 + cs_len > i2 || i3 + hs_len > i4 {
        proof {
            assert(!spec_decode_ok(doc@));
        }
        return Err(Error::MalformedEnvelope);
    }
    let code = doc.substring_char(i1 + cs_len, i2);
    let hdr = doc.substring_char(i3 + hs_len, i4);
    Ok(Fragment { code: String::from_str(code), hdr: String::from_str(hdr) })
}

/// A text without the closing header delimiter is no envelope: decoding it
/// fails with a malformed-envelope error and never returns a partial
/// fragment. The same holds of each of the other three delimiters.
pub proof fn lemma_decode_missing_hdr_end(doc: Seq<char>)
    requires
        forall|i: int| !occurs_at(doc, SwigTag::HdrEnd.spec_str(), i),
    ensures
        !spec_decode_ok(doc),
{
    assert(forall|i: int| !first_occ_at(doc, SwigTag::HdrEnd.spec_str(), i));
}

/// An inert carrier declaration: its reserved-prefixed identifier and the
/// documentation text attached to it.
#[derive(Debug)]
pub struct Carrier {
    pub name: String,
    pub doc: String,
}

pub struct CarrierV {
    pub name: Seq<char>,
    pub doc: Seq<char>,
}

impl View for Carrier {
    type V = CarrierV;

    open spec fn view(&self) -> CarrierV {
        CarrierV { name: self.name@, doc: self.doc@ }
    }
}

/// The concatenated code and header fragments of the whole program, built by
/// walking the declarations in order: every carrier whose identifier bears
/// the reserved prefix contributes its decoded fragments, after its escaped
/// line breaks are restored; the first malformed envelope aborts.
pub open spec fn spec_gen_swig(
    decls: Seq<CarrierV>,
    code_acc: Seq<char>,
    hdr_acc: Seq<char>,
) -> Result<(Seq<char>, Seq<char>), Error>
    decreases decls.len(),
{
    if decls.len() == 0 {
        Ok((code_acc, hdr_acc))
    } else {
        let d = decls[0];
        if is_prefix(d.name, SwigTag::SwigInject.spec_str()) {
            let u = spec_replace(d.doc, "\\n"@, "\n"@);
            if spec_decode_ok(u) {
                spec_gen_swig(
                    decls.skip(1),
                    code_acc + spec_code_slice(u),
                    hdr_acc + spec_hdr_slice(u),
                )
            } else {
                Err(Error::MalformedEnvelope)
            }
        } else {
            spec_gen_swig(decls.skip(1), code_acc, hdr_acc)
        }
    }
}

/// `spec_gen_swig` walks a concatenation left part first.
pub proof fn lemma_gen_swig_concat(
    a: Seq<CarrierV>,
    b: Seq<CarrierV>,
    code_acc: Seq<char>,
    hdr_acc: Seq<char>,
    code_mid: Seq<char>,
    hdr_mid: Seq<char>,
)
    requires
        spec_gen_swig(a, code_acc, hdr_acc) == Ok::<_, Error>((code_mid, hdr_mid)),
    ensures
        spec_gen_swig(a + b, code_acc, hdr_acc) == spec_gen_swig(b, code_mid, hdr_mid),
    decreases a.len(),
{
    if a.len() == 0 {
        assert(a + b =~= b);
    } else {
        assert((a + b)[0] == a[0]);
        assert((a + b).skip(1) =~= a.skip(1) + b);
        let d = a[0];
        if is_prefix(d.name, SwigTag::SwigInject.spec_str()) {
            let u = spec_replace(d.doc, "\\n"@, "\n"@);
            lemma_gen_swig_concat(
                a.skip(1),
                b,
                code_acc + spec_code_slice(u),
                hdr_acc + spec_hdr_slice(u),
                code_mid,
                hdr_mid,
            );
        } else {
            lemma_gen_swig_concat(a.skip(1), b, code_acc, hdr_acc, code_mid, hdr_mid);
        }
    }
}

/// The aggregated output: all code fragments, and all header fragments.
#[derive(Debug)]
pub struct SwigOutput {
    pub code: String,
    pub hdr: String,
}

pub struct SwigOutputV {
    pub code: Seq<char>,
    pub hdr: Seq<char>,
}

impl View for SwigOutput {
    type V = SwigOutputV;

    open spec fn view(&self) -> SwigOutputV {
        SwigOutputV { code: self.code@, hdr: self.hdr@ }
    }
}

/// Walk the declarations of a fully expanded program and collect the binding
/// text smuggled through the reserved-prefixed carriers: each such carrier's
/// documentation text has its escaped line breaks restored and its envelope
/// decoded, and the fragments are concatenated in declaration order. A
/// malformed envelope aborts the walk; nothing is dropped silently.
pub fn gen_swig(decls: &Vec<Carrier>) -> (r: Result<SwigOutput, Error>)
    ensures
        r is Ok <==> spec_gen_swig(decls@.map_values(|d: Carrier| d@), Seq::empty(), Seq::empty())
            is Ok,
        (r matches Ok(o) ==> spec_gen_swig(
            decls@.map_values(|d: Carrier| d@),
            Seq::empty(),
            Seq::empty(),
        ) == Ok::<_, Error>((o.code@, o.hdr@))),
        (r matches Err(e) ==> e == Error::MalformedEnvelope),
{
    let ghost dv = decls@.map_values(|d: Carrier| d@);
    let mut code = String::new();
    let mut hdr = String::new();
    proof {
        assert(dv.take(0) =~= Seq::<CarrierV>::empty());
    }
    let mut i: usize = 0;
    while i < decls.len()
        invariant
            dv == decls@.map_values(|d: Carrier| d@),
            i <= decls.len(),
            spec_gen_swig(dv.take(i as int), Seq::empty(), Seq::empty()) == Ok::<_, Error>(
                (code@, hdr@),
            ),
        decreases decls.len() - i,
    {
        let d = &decls[i];
        let ghost c0 = code@;
        let ghost h0 = hdr@;
        proof {
            assert(dv[i as int] == decls@[i as int]@);
        }
        if starts_with_str(d.name.as_str(), SwigTag::SwigInject.to_str()) {
            proof {
                reveal_strlit("\\n");
            }
            let u = replace_all(d.doc.as_str(), "\\n", "\n");
            match decode_envelope(u.as_str()) {
                Ok(f) => {
                    code.append(f.code.as_str());
                    hdr.append(f.hdr.as_str());
                    proof {
                        let x = dv[i as int];
                        let tail = seq![x].skip(1);
                        assert(tail =~= Seq::<CarrierV>::empty());
                        let uv = spec_replace(x.doc, "\\n"@, "\n"@);
                        assert(u@ == uv);
                        assert(spec_decode_ok(uv));
                        assert(spec_gen_swig(
                            tail,
                            c0 + spec_code_slice(uv),
                            h0 + spec_hdr_slice(uv),
                        ) == Ok::<_, Error>((c0 + spec_code_slice(uv), h0 + spec_hdr_slice(uv))));
                        assert(code@ == c0 + spec_code_slice(uv));
                        assert(hdr@ == h0 + spec_hdr_slice(uv));
                        assert(spec_gen_swig(seq![x], c0, h0) == Ok::<_, Error>((code@, hdr@)));
                    }
                },
                Err(e) => {
                    proof {
                        assert(dv =~= dv.take(i as int) + dv.skip(i as int));
                        lemma_gen_swig_concat(
                            dv.take(i as int),
                            dv.skip(i as int),
                            Seq::empty(),
                            Seq::empty(),
                            c0,
                            h0,
                        );
                        assert(dv.skip(i as int)[0] == dv[i as int]);
                        assert(spec_gen_swig(dv.skip(i as int), c0, h0) == Err::<
                            (Seq<char>, Seq<char>),
                            _,
                        >(Error::MalformedEnvelope));
                    }
                    return Err(e);
                },
            }
        } else {
            proof {
                let x = dv[i as int];
                let tail = seq![x].skip(1);
                assert(!is_prefix(x.name, SwigTag::SwigInject.spec_str()));
                assert(tail =~= Seq::<CarrierV>::empty());
                assert(spec_gen_swig(tail, c0, h0) == Ok::<_, Error>((c0, h0)));
                assert(spec_gen_swig(seq![x], c0, h0) == Ok::<_, Error>((code@, hdr@)));
            }
        }
        proof {
            assert(dv.take(i + 1) =~= dv.take(i as int) + seq![dv[i as int]]);
            lemma_gen_swig_concat(dv.take(i as int), seq![dv[i as int]], Seq::empty(), Seq::empty(), c0, h0);
            assert(spec_gen_swig(dv.take(i + 1), Seq::empty(), Seq::empty()) == Ok::<_, Error>(
                (code@, hdr@),
            ));
        }
        i += 1;
    }
    proof {
        assert(dv.take(decls.len() as int) =~= dv);
    }
    Ok(SwigOutput { code, hdr })
}

} // verus!
