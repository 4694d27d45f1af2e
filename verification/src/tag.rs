//! The fixed sentinel tags that bracket generated binding text, and the
//! reserved prefix that marks generated declarations.

use vstd::prelude::*;

verus! {

/// Tags used to indicate SWIG binding code injected into the generated
/// source, plus the reserved prefix for generated identifiers.
#[derive(Clone, Copy, PartialEq, Eq, Structural, Debug)]
pub enum SwigTag {
    CodeStart,
    CodeEnd,
    HdrStart,
    HdrEnd,
    SwigInject,
}

impl SwigTag {
    /// The text of this tag.
    pub open spec fn spec_str(self) -> Seq<char> {
        match self {
            SwigTag::CodeStart => "__SWIG_CODE\n"@,
            SwigTag::CodeEnd => "__SWIG_END_CODE\n"@,
            SwigTag::HdrStart => "__SWIG_HDR\n"@,
            SwigTag::HdrEnd => "__SWIG_END_HDR\n"@,
            SwigTag::SwigInject => "__SWIG_INJECT_"@,
        }
    }

    pub fn to_str(&self) -> (r: &'static str)
        ensures
            r@ == self.spec_str(),
    {
        match self {
            SwigTag::CodeStart => "__SWIG_CODE\n",
            SwigTag::CodeEnd => "__SWIG_END_CODE\n",
            SwigTag::HdrStart => "__SWIG_HDR\n",
            SwigTag::HdrEnd => "__SWIG_END_HDR\n",
            SwigTag::SwigInject => "__SWIG_INJECT_",
        }
    }

    pub fn len(&self) -> (n: usize)
        ensures
            n == self.spec_str().len(),
    {
        proof {
            reveal_strlit("__SWIG_CODE\n");
            reveal_strlit("__SWIG_END_CODE\n");
            reveal_strlit("__SWIG_HDR\n");
            reveal_strlit("__SWIG_END_HDR\n");
            reveal_strlit("__SWIG_INJECT_");
        }
        match self {
            SwigTag::CodeStart => 12,
            SwigTag::CodeEnd => 16,
            SwigTag::HdrStart => 11,
            SwigTag::HdrEnd => 15,
            SwigTag::SwigInject => 14,
        }
    }
}

} // verus!
