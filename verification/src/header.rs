//! Header names and header values as plain bytes.
//!
//! A name is kept in its normalized form: lower case, made only of the bytes
//! that a header name may hold. A value is any run of bytes without control
//! characters. Both rules are those of the `http` crate, so that every name
//! and value of this module can be stored in its `HeaderMap`.

use vstd::prelude::*;
use vstd::slice::slice_to_vec;
use vstd::string::StringSliceAdditionalSpecFns;
use vstd::utf8::is_ascii_chars;
use vstd::utf8::is_ascii_chars_encode_utf8;

verus! {

/// The longest header name, in bytes.
pub const MAX_HEADER_NAME_LEN: usize = 65535;

/// Whether `b` may stand in a normalized header name.
pub open spec fn is_header_name_byte(b: u8) -> bool {
    ||| 0x21 <= b <= 0x27
    ||| b == 0x2a
    ||| b == 0x2b
    ||| b == 0x2d
    ||| b == 0x2e
    ||| 0x30 <= b <= 0x39
    ||| 0x5e <= b <= 0x7a
    ||| b == 0x7c
    ||| b == 0x7e
}

/// The lower-case form of an ASCII letter; every other byte is unchanged.
pub open spec fn lower_byte(b: u8) -> u8 {
    if 0x41 <= b <= 0x5a {
        (b + 0x20) as u8
    } else {
        b
    }
}

/// Whether `s` is a header name in normalized form.
pub open spec fn is_header_name(s: Seq<u8>) -> bool {
    &&& 1 <= s.len() <= MAX_HEADER_NAME_LEN
    &&& forall|i: int| 0 <= i < s.len() ==> is_header_name_byte(#[trigger] s[i])
}

/// `s` with every ASCII letter in lower case.
pub open spec fn normalized(s: Seq<u8>) -> Seq<u8> {
    Seq::new(s.len(), |i: int| lower_byte(s[i]))
}

/// Whether `b` may stand in a header value.
pub open spec fn is_header_value_byte(b: u8) -> bool {
    (b >= 32 && b != 127) || b == 9
}

/// Whether `s` is a header value.
pub open spec fn is_header_value(s: Seq<u8>) -> bool {
    forall|i: int| 0 <= i < s.len() ==> is_header_value_byte(#[trigger] s[i])
}

/// Whether `b` is a printable ASCII character, a space or a tab.
pub open spec fn is_visible_ascii_byte(b: u8) -> bool {
    (32 <= b < 127) || b == 9
}

/// Whether `s` can be read as text: every byte is printable ASCII, a space
/// or a tab.
pub open spec fn is_visible_ascii(s: Seq<u8>) -> bool {
    forall|i: int| 0 <= i < s.len() ==> is_visible_ascii_byte(#[trigger] s[i])
}

/// Text that can be read as text is a header value.
pub proof fn lemma_visible_ascii_is_value(s: Seq<u8>)
    requires
        is_visible_ascii(s),
    ensures
        is_header_value(s),
{
    assert forall|i: int| 0 <= i < s.len() implies is_header_value_byte(#[trigger] s[i]) by {
        assert(is_visible_ascii_byte(s[i]));
    }
}

/// A name in normalized form is left as it is by normalizing.
pub proof fn lemma_normalized_name(s: Seq<u8>)
    requires
        is_header_name(s),
    ensures
        normalized(s) == s,
{
    assert forall|i: int| 0 <= i < s.len() implies lower_byte(s[i]) == s[i] by {
        assert(is_header_name_byte(s[i]));
    }
    assert(normalized(s) =~= s);
}

/// The bytes of ASCII text are its characters, one byte each.
pub proof fn lemma_ascii_text_bytes(text: &str)
    requires
        is_ascii_chars(text@),
    ensures
        text.spec_bytes().len() == text@.len(),
        forall|i: int| 0 <= i < text@.len() ==> #[trigger] text.spec_bytes()[i] == text@[i] as u8,
{
    is_ascii_chars_encode_utf8(text@);
}

/// The bytes given are no header name.
#[derive(Clone, Copy, Debug, PartialEq, Eq, Structural)]
pub struct InvalidFieldName {}

/// The bytes given are no header value.
#[derive(Clone, Copy, Debug, PartialEq, Eq, Structural)]
pub struct InvalidFieldValue {}

/// The name of a header, in lower case.
#[derive(Debug)]
pub struct FieldName {
    bytes: Vec<u8>,
}

impl View for FieldName {
    type V = Seq<u8>;

    closed spec fn view(&self) -> Seq<u8> {
        self.bytes@
    }
}

impl Clone for FieldName {
    fn clone(&self) -> (r: Self)
        ensures
            r@ == self@,
    {
        proof {
            use_type_invariant(self);
        }
        FieldName { bytes: slice_to_vec(self.bytes.as_slice()) }
    }
}

impl FieldName {
    #[verifier::type_invariant]
    spec fn inv(self) -> bool {
        is_header_name(self.bytes@)
    }

    /// Reads a header name, turning upper-case letters into lower case.
    /// Fails on the empty name, on one longer than 65535 bytes and on one
    /// that holds a byte outside the alphabet of header names.
    pub fn from_bytes(src: &[u8]) -> (r: Result<FieldName, InvalidFieldName>)
        ensures
            r is Ok <==> is_header_name(normalized(src@)),
            r matches Ok(name) ==> name@ == normalized(src@),
    {
        let n = src.len();
        if n == 0 || n > MAX_HEADER_NAME_LEN {
            return Err(InvalidFieldName {});
        }
        let mut bytes: Vec<u8> = Vec::new();
        let mut i: usize = 0;
        while i < n
            invariant
                n == src@.len(),
                i <= n,
                bytes@.len() == i,
                forall|j: int| 0 <= j < i ==> bytes@[j] == lower_byte(#[trigger] src@[j]),
                forall|j: int| 0 <= j < i ==> is_header_name_byte(#[trigger] bytes@[j]),
            decreases n - i,
        {
            let b = src[i];
            let lower: u8 = if 0x41 <= b && b <= 0x5a {
                b + 0x20
            } else {
                b
            };
            if !is_name_byte(lower) {
                proof {
                    assert(normalized(src@)[i as int] == lower);
                }
                return Err(InvalidFieldName {});
            }
            bytes.push(lower);
            i = i + 1;
        }
        proof {
            assert(bytes@ =~= normalized(src@));
        }
        Ok(FieldName { bytes })
    }

    /// Reads a header name from text, as [`FieldName::from_bytes`] does
    /// from its bytes.
    pub fn from_str(src: &str) -> (r: Result<FieldName, InvalidFieldName>)
        ensures
            r is Ok <==> is_header_name(normalized(src.spec_bytes())),
            r matches Ok(name) ==> name@ == normalized(src.spec_bytes()),
    {
        FieldName::from_bytes(src.as_bytes())
    }

    /// The name written as `text`, which is in normalized form already.
    pub fn from_static(text: &'static str) -> (r: FieldName)
        requires
            is_header_name(text.spec_bytes()),
        ensures
            r@ == text.spec_bytes(),
    {
        proof {
            lemma_normalized_name(text.spec_bytes());
        }
        match FieldName::from_bytes(text.as_bytes()) {
            Ok(name) => name,
            Err(_) => vstd::pervasive::unreached(),
        }
    }

    /// The bytes of the name.
    pub fn as_bytes(&self) -> (r: &[u8])
        ensures
            r@ == self@,
            is_header_name(r@),
    {
        proof {
            use_type_invariant(self);
        }
        self.bytes.as_slice()
    }

    /// Whether two names are the same.
    pub fn same(&self, other: &FieldName) -> (r: bool)
        ensures
            r == (self@ == other@),
    {
        bytes_equal(self.bytes.as_slice(), other.bytes.as_slice())
    }
}

/// Whether `b` may stand in a normalized header name.
fn is_name_byte(b: u8) -> (r: bool)
    ensures
        r == is_header_name_byte(b),
{
    (0x21 <= b && b <= 0x27) || b == 0x2a || b == 0x2b || b == 0x2d || b == 0x2e || (0x30 <= b
        && b <= 0x39) || (0x5e <= b && b <= 0x7a) || b == 0x7c || b == 0x7e
}

/// Whether `bytes` can be read as text: every byte is printable ASCII, a
/// space or a tab.
pub fn is_text(bytes: &[u8]) -> (r: bool)
    ensures
        r == is_visible_ascii(bytes@),
{
    let n = bytes.len();
    let mut i: usize = 0;
    while i < n
        invariant
            n == bytes@.len(),
            i <= n,
            forall|j: int| 0 <= j < i ==> is_visible_ascii_byte(#[trigger] bytes@[j]),
        decreases n - i,
    {
        let b = bytes[i];
        if !((32 <= b && b < 127) || b == 9) {
            return false;
        }
        i = i + 1;
    }
    true
}

/// Whether two runs of bytes are the same.
pub fn bytes_equal(a: &[u8], b: &[u8]) -> (r: bool)
    ensures
        r == (a@ == b@),
{
    if a.len() != b.len() {
        return false;
    }
    let n = a.len();
    let mut i: usize = 0;
    while i < n
        invariant
            n == a@.len(),
            n == b@.len(),
            i <= n,
            forall|j: int| 0 <= j < i ==> a@[j] == b@[j],
        decreases n - i,
    {
        if a[i] != b[i] {
            return false;
        }
        i = i + 1;
    }
    proof {
        assert(a@ =~= b@);
    }
    true
}

/// The value of a header.
#[derive(Debug)]
pub struct FieldValue {
    bytes: Vec<u8>,
}

impl View for FieldValue {
    type V = Seq<u8>;

    closed spec fn view(&self) -> Seq<u8> {
        self.bytes@
    }
}

impl Clone for FieldValue {
    fn clone(&self) -> (r: Self)
        ensures
            r@ == self@,
    {
        proof {
            use_type_invariant(self);
        }
        FieldValue { bytes: slice_to_vec(self.bytes.as_slice()) }
    }
}

impl FieldValue {
    #[verifier::type_invariant]
    spec fn inv(self) -> bool {
        is_header_value(self.bytes@)
    }

    /// Reads a header value. Fails on a control character other than a tab.
    pub fn from_bytes(src: &[u8]) -> (r: Result<FieldValue, InvalidFieldValue>)
        ensures
            r is Ok <==> is_header_value(src@),
            r matches Ok(value) ==> value@ == src@,
    {
        let n = src.len();
        let mut i: usize = 0;
        while i < n
            invariant
                n == src@.len(),
                i <= n,
                forall|j: int| 0 <= j < i ==> is_header_value_byte(#[trigger] src@[j]),
            decreases n - i,
        {
            let b = src[i];
            if !((b >= 32 && b != 127) || b == 9) {
                return Err(InvalidFieldValue {});
            }
            i = i + 1;
        }
        Ok(FieldValue { bytes: slice_to_vec(src) })
    }

    /// Reads a header value from text, as [`FieldValue::from_bytes`] does
    /// from its bytes.
    pub fn from_str(src: &str) -> (r: Result<FieldValue, InvalidFieldValue>)
        ensures
            r is Ok <==> is_header_value(src.spec_bytes()),
            r matches Ok(value) ==> value@ == src.spec_bytes(),
    {
        FieldValue::from_bytes(src.as_bytes())
    }

    /// The value written as `text`.
    pub fn from_static(text: &'static str) -> (r: FieldValue)
        requires
            is_header_value(text.spec_bytes()),
        ensures
            r@ == text.spec_bytes(),
    {
        match FieldValue::from_bytes(text.as_bytes()) {
            Ok(value) => value,
            Err(_) => vstd::pervasive::unreached(),
        }
    }

    /// The bytes of the value.
    pub fn as_bytes(&self) -> (r: &[u8])
        ensures
            r@ == self@,
            is_header_value(r@),
    {
        proof {
            use_type_invariant(self);
        }
        self.bytes.as_slice()
    }

    /// Whether the value can be read as text: every byte is printable ASCII,
    /// a space or a tab.
    pub fn is_text(&self) -> (r: bool)
        ensures
            r == is_visible_ascii(self@),
    {
        is_text(self.bytes.as_slice())
    }

    /// Whether the value holds exactly the bytes of `text`.
    pub fn equals_text(&self, text: &str) -> (r: bool)
        ensures
            r == (self@ == text.spec_bytes()),
    {
        bytes_equal(self.bytes.as_slice(), text.as_bytes())
    }
}

/// The name `accept`.
pub open spec fn accept_name() -> Seq<u8> {
    "accept".spec_bytes()
}

/// The name `referer`.
pub open spec fn referer_name() -> Seq<u8> {
    "referer".spec_bytes()
}

/// The name `location`.
pub open spec fn location_name() -> Seq<u8> {
    "location".spec_bytes()
}

/// The name `content-type`.
pub open spec fn content_type_name() -> Seq<u8> {
    "content-type".spec_bytes()
}

/// The name of the `Accept` header.
pub fn accept() -> (r: FieldName)
    ensures
        r@ == accept_name(),
{
    proof {
        reveal_strlit("accept");
        lemma_ascii_text_bytes("accept");
    }
    FieldName::from_static("accept")
}

/// The name of the `Referer` header.
pub fn referer() -> (r: FieldName)
    ensures
        r@ == referer_name(),
{
    proof {
        reveal_strlit("referer");
        lemma_ascii_text_bytes("referer");
    }
    FieldName::from_static("referer")
}

/// The name of the `Location` header.
pub fn location() -> (r: FieldName)
    ensures
        r@ == location_name(),
{
    proof {
        reveal_strlit("location");
        lemma_ascii_text_bytes("location");
    }
    FieldName::from_static("location")
}

/// The name of the `Content-Type` header.
pub fn content_type() -> (r: FieldName)
    ensures
        r@ == content_type_name(),
{
    proof {
        reveal_strlit("content-type");
        lemma_ascii_text_bytes("content-type");
    }
    FieldName::from_static("content-type")
}

} // verus!
