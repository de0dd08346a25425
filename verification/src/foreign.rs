//! The values handed to the C side: a foreign string is either the null
//! sentinel or an owned, null-terminated buffer; a foreign string array is a
//! sequence of them in the order of the texts it was made from.

use crate::cstring::{
    contains_nul, has_nul, lemma_until_nul_of_terminated, read_until_nul, terminate, terminated,
    until_nul,
};
use crate::text::{has_nul_char, lemma_nul_byte_iff_nul_char};
use vstd::prelude::*;
use vstd::utf8::encode_utf8;

verus! {

/// A string as the C side receives it.
#[derive(Debug, Clone, PartialEq, Eq)]
pub enum ForeignString {
    /// The null sentinel: "no string". Empty text is handed over as this.
    Null,
    /// An owned buffer: the bytes of the text, then one zero byte.
    Buffer(Vec<u8>),
}

impl View for ForeignString {
    type V = Option<Seq<u8>>;

    open spec fn view(&self) -> Option<Seq<u8>> {
        match self {
            ForeignString::Null => None,
            ForeignString::Buffer(buf) => Some(buf@),
        }
    }
}

/// A buffer that C can read as a string: it ends in a zero byte and holds no
/// other.
pub open spec fn is_c_string(buf: Seq<u8>) -> bool {
    &&& buf.len() > 0
    &&& buf.last() == 0u8
    &&& !has_nul(buf.drop_last())
}

/// The foreign string that stands for `text`: the null sentinel for empty
/// text, else the UTF-8 bytes of `text` followed by a zero byte.
pub open spec fn foreign_of(text: Seq<char>) -> Option<Seq<u8>> {
    if text.len() == 0 {
        None
    } else {
        Some(terminated(encode_utf8(text)))
    }
}

/// The bytes that the C side reads from a foreign string: none from the null
/// sentinel, else those before the first zero byte.
pub open spec fn read_back(s: Option<Seq<u8>>) -> Seq<u8> {
    match s {
        None => Seq::empty(),
        Some(buf) => until_nul(buf),
    }
}

impl ForeignString {
    /// Either the null sentinel, or a buffer that is a C string.
    pub open spec fn wf(&self) -> bool {
        match self {
            ForeignString::Null => true,
            ForeignString::Buffer(buf) => is_c_string(buf@),
        }
    }

    /// Whether this is the null sentinel.
    pub fn is_null(&self) -> (r: bool)
        ensures
            r == (self@ is None),
    {
        match self {
            ForeignString::Null => true,
            ForeignString::Buffer(_) => false,
        }
    }

    /// The bytes that a reader on the C side gets: it reads nothing from the
    /// null sentinel, and stops at the first zero byte of a buffer.
    pub fn to_bytes(&self) -> (r: Vec<u8>)
        ensures
            r@ == read_back(self@),
    {
        match self {
            ForeignString::Null => Vec::new(),
            ForeignString::Buffer(buf) => read_until_nul(buf.as_slice()),
        }
    }
}

/// Whether the bytes of `a` hold a zero byte, in which case `a` cannot be
/// handed over as a foreign string. That is so exactly when `a` holds a NUL
/// character.
pub fn has_interior_nul(a: &str) -> (r: bool)
    ensures
        r == has_nul(encode_utf8(a@)),
        r == has_nul_char(a@),
{
    proof {
        lemma_nul_byte_iff_nul_char(a@);
    }
    contains_nul(a.as_bytes())
}

/// The null sentinel, typed as a foreign string.
pub fn string_null() -> (r: ForeignString)
    ensures
        r == ForeignString::Null,
        r@ is None,
        r.wf(),
{
    ForeignString::Null
}

/// Converts `a` to a foreign string: the null sentinel where `a` is empty,
/// else a fresh buffer with the bytes of `a` and a terminating zero byte.
///
/// Text with a zero byte in it has no such representation and is excluded.
pub fn string_to_c_char(a: &str) -> (r: ForeignString)
    requires
        !has_nul(encode_utf8(a@)),
    ensures
        r@ == foreign_of(a@),
        r.wf(),
        read_back(r@) == encode_utf8(a@),
{
    if a.is_empty() {
        return string_null();
    }
    let buf = terminate(a.as_bytes());
    proof {
        assert(buf@.drop_last() =~= encode_utf8(a@));
    }
    ForeignString::Buffer(buf)
}

/// Converts each of `strs` as `string_to_c_char` does, keeping their number
/// and order.
pub fn string_to_c_chars(strs: Vec<String>) -> (r: Vec<ForeignString>)
    requires
        forall|i: int| 0 <= i < strs@.len() ==> !has_nul(encode_utf8(#[trigger] strs@[i]@)),
    ensures
        r@.len() == strs@.len(),
        forall|i: int| 0 <= i < r@.len() ==> (#[trigger] r@[i])@ == foreign_of(strs@[i]@),
        forall|i: int| 0 <= i < r@.len() ==> (#[trigger] r@[i]).wf(),
        forall|i: int|
            0 <= i < r@.len() ==> read_back((#[trigger] r@[i])@) == encode_utf8(strs@[i]@),
{
    let mut out: Vec<ForeignString> = Vec::new();
    let mut i: usize = 0;
    while i < strs.len()
        invariant
            0 <= i <= strs@.len(),
            out@.len() == i,
            forall|j: int| 0 <= j < strs@.len() ==> !has_nul(encode_utf8(#[trigger] strs@[j]@)),
            forall|j: int| 0 <= j < i ==> (#[trigger] out@[j])@ == foreign_of(strs@[j]@),
            forall|j: int| 0 <= j < i ==> (#[trigger] out@[j]).wf(),
            forall|j: int|
                0 <= j < i ==> read_back((#[trigger] out@[j])@) == encode_utf8(strs@[j]@),
        decreases strs@.len() - i,
    {
        let s = string_to_c_char(strs[i].as_str());
        out.push(s);
        i += 1;
    }
    out
}

/// Handing text over and reading it back gives the bytes of the text, for
/// every text without a zero byte. For non-empty text what is handed over is
/// a buffer, not the null sentinel.
pub proof fn lemma_round_trip(text: Seq<char>)
    requires
        !has_nul(encode_utf8(text)),
    ensures
        read_back(foreign_of(text)) == encode_utf8(text),
        text.len() > 0 ==> foreign_of(text) is Some,
        text.len() > 0 ==> is_c_string(foreign_of(text).unwrap()),
{
    if text.len() > 0 {
        let bytes = encode_utf8(text);
        lemma_until_nul_of_terminated(bytes);
        assert(terminated(bytes).drop_last() =~= bytes);
    }
}

} // verus!
