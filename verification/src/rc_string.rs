//! Dual string holder: one value that keeps a decoded text view for the
//! application and a nul-terminated byte view for native calls, always in
//! sync. Also the decoding of fixed-size C string buffers into that holder.

use vstd::prelude::*;
use vstd::slice::*;
use vstd::string::*;
use vstd::utf8::*;

verus! {

/// Bytes of `s` before its first nul byte; all of `s` when it has none.
/// This is the content a C consumer reads from a nul-terminated buffer.
pub open spec fn nul_prefix(s: Seq<u8>) -> Seq<u8>
    decreases s.len(),
{
    if s.len() == 0 {
        s
    } else if s[0] == 0 {
        Seq::empty()
    } else {
        seq![s[0]] + nul_prefix(s.drop_first())
    }
}

/// A buffer without nul bytes is its own nul prefix.
pub proof fn lemma_nul_prefix_clean(s: Seq<u8>)
    requires
        !s.contains(0),
    ensures
        nul_prefix(s) == s,
    decreases s.len(),
{
    if s.len() > 0 {
        if s[0] == 0 {
            assert(s.contains(0));
        }
        assert(!s.drop_first().contains(0)) by {
            if s.drop_first().contains(0) {
                let i = choose|i: int| 0 <= i < s.drop_first().len() && s.drop_first()[i] == 0;
                assert(s[i + 1] == 0);
            }
        }
        lemma_nul_prefix_clean(s.drop_first());
        assert(nul_prefix(s) =~= s);
    }
}

/// Appending the terminating nul does not change what a C consumer reads.
pub proof fn lemma_nul_prefix_terminated(s: Seq<u8>)
    requires
        !s.contains(0),
    ensures
        nul_prefix(s.push(0)) == s,
    decreases s.len(),
{
    if s.len() == 0 {
        assert(s.push(0)[0] == 0);
        assert(nul_prefix(s.push(0)) =~= s);
    } else {
        if s[0] == 0 {
            assert(s.contains(0));
        }
        assert(!s.drop_first().contains(0)) by {
            if s.drop_first().contains(0) {
                let i = choose|i: int| 0 <= i < s.drop_first().len() && s.drop_first()[i] == 0;
                assert(s[i + 1] == 0);
            }
        }
        lemma_nul_prefix_terminated(s.drop_first());
        assert(s.push(0).drop_first() =~= s.drop_first().push(0));
        assert(nul_prefix(s.push(0)) =~= s);
    }
}

/// The nul prefix ends before the nul byte found at index `i`.
pub proof fn lemma_nul_prefix_stops(s: Seq<u8>, i: int)
    requires
        0 <= i < s.len(),
        s[i] == 0,
        forall|j: int| 0 <= j < i ==> s[j] != 0,
    ensures
        nul_prefix(s) == s.take(i),
    decreases i,
{
    if i == 0 {
        assert(nul_prefix(s) =~= s.take(0));
    } else {
        lemma_nul_prefix_stops(s.drop_first(), i - 1);
        assert(nul_prefix(s) =~= s.take(i));
    }
}

/// The nul prefix itself holds no nul byte.
pub proof fn lemma_nul_prefix_no_nul(s: Seq<u8>)
    ensures
        !nul_prefix(s).contains(0),
    decreases s.len(),
{
    if s.len() > 0 && s[0] != 0 {
        lemma_nul_prefix_no_nul(s.drop_first());
        assert(!nul_prefix(s).contains(0)) by {
            if nul_prefix(s).contains(0) {
                let i = choose|i: int|
                    0 <= i < nul_prefix(s).len() && nul_prefix(s)[i] == 0;
                if i > 0 {
                    assert(nul_prefix(s.drop_first())[i - 1] == 0);
                    assert(nul_prefix(s.drop_first()).contains(0));
                }
            }
        }
    }
}

/// ASCII text without the nul character encodes to bytes without nul; how
/// callers discharge the no-nul obligation for literal titles and names.
pub proof fn lemma_ascii_no_nul(chars: Seq<char>)
    requires
        is_ascii_chars(chars),
        forall|i: int| 0 <= i < chars.len() ==> chars[i] != '\0',
    ensures
        !encode_utf8(chars).contains(0),
{
    is_ascii_chars_encode_utf8(chars);
    if encode_utf8(chars).contains(0) {
        let i = choose|i: int| 0 <= i < encode_utf8(chars).len() && encode_utf8(chars)[i] == 0;
        assert(chars[i] as u8 == 0);
        assert((chars[i] as nat) < 128) by {
            is_ascii_chars_nat_bound(chars);
        }
        assert(chars[i] as u32 == 0);
        char_u32_cast(chars[i], chars[i] as u32);
        assert(chars[i] == '\0');
    }
}

/// Whether the buffer holds a nul byte; what callers must rule out before
/// building a dual string holder from it.
pub fn contains_nul(s: &[u8]) -> (r: bool)
    ensures
        r == s@.contains(0),
{
    let mut i: usize = 0;
    while i < s.len()
        invariant
            i <= s@.len(),
            forall|j: int| 0 <= j < i ==> s@[j] != 0,
        decreases s@.len() - i,
    {
        if *slice_index_get(s, i) == 0 {
            return true;
        }
        i += 1;
    }
    false
}

/// Copy of the bytes of `buf` before its first nul, decoding one fixed-size
/// C string field.
pub fn c_buffer_prefix(buf: &[u8]) -> (r: Vec<u8>)
    ensures
        r@ == nul_prefix(buf@),
{
    let mut r: Vec<u8> = Vec::new();
    let mut i: usize = 0;
    while i < buf.len()
        invariant
            i <= buf@.len(),
            r@ == buf@.take(i as int),
            forall|j: int| 0 <= j < i ==> buf@[j] != 0,
        decreases buf@.len() - i,
    {
        let b = *slice_index_get(buf, i);
        if b == 0 {
            proof {
                lemma_nul_prefix_stops(buf@, i as int);
            }
            return r;
        }
        r.push(b);
        proof {
            assert(r@ =~= buf@.take(i + 1));
        }
        i += 1;
    }
    proof {
        if buf@.contains(0) {
            let j = choose|j: int| 0 <= j < buf@.len() && buf@[j] == 0;
            assert(buf@[j] != 0);
        }
        lemma_nul_prefix_clean(buf@);
        assert(r@ =~= buf@);
    }
    r
}

/// Relies on str::from_utf8: it returns Ok exactly when the bytes are valid
/// UTF-8, and the returned string slice has those bytes as its encoding.
#[verifier::external_body]
fn str_from_utf8<'a>(v: &'a [u8]) -> (r: Option<&'a str>)
    ensures
        r is Some <==> valid_utf8(v@),
        r matches Some(s) ==> s.spec_bytes() == v@,
{
    std::str::from_utf8(v).ok()
}

/// A string holder that keeps two representations of one text: the decoded
/// text itself, and a nul-terminated byte buffer ready for a native call.
pub struct RCString {
    c_string: Vec<u8>,
    r_string: String,
}

impl RCString {
    /// The text content, as the application reads it.
    pub closed spec fn text(&self) -> Seq<char> {
        self.r_string@
    }

    /// The byte buffer handed to native calls, terminating nul included.
    pub closed spec fn c_bytes(&self) -> Seq<u8> {
        self.c_string@
    }

    /// The two views stay in sync: the byte view is the UTF-8 encoding of
    /// the text view followed by one terminating nul, and the encoding
    /// itself holds no nul byte.
    pub open spec fn wf(&self) -> bool {
        &&& self.c_bytes() == encode_utf8(self.text()).push(0)
        &&& !encode_utf8(self.text()).contains(0)
    }

    pub fn from_rstr(s: &str) -> (r: RCString)
        requires
            !s.spec_bytes().contains(0),
        ensures
            r.wf(),
            r.text() == s@,
    {
        let mut c: Vec<u8> = s.as_bytes_vec();
        c.push(0);
        RCString { c_string: c, r_string: s.to_owned() }
    }

    /// Build the holder from the contents of a nul-terminated C buffer,
    /// the terminating nul itself excluded.
    pub fn from_cstr(c: &[u8]) -> (r: RCString)
        requires
            !c@.contains(0),
            valid_utf8(c@),
        ensures
            r.wf(),
            r.text() == decode_utf8(c@),
            encode_utf8(r.text()) == c@,
    {
        let s = str_from_utf8(c).unwrap();
        let mut bytes = slice_to_vec(c);
        bytes.push(0);
        let r = RCString { c_string: bytes, r_string: s.to_owned() };
        proof {
            encode_utf8_decode_utf8(r.text());
        }
        r
    }

    pub fn get_rstr(&self) -> (r: &str)
        ensures
            r@ == self.text(),
    {
        self.r_string.as_str()
    }

    pub fn get_cstr(&self) -> (r: &[u8])
        ensures
            r@ == self.c_bytes(),
    {
        self.c_string.as_slice()
    }

    /// Replace the content from a C buffer's contents; both views follow.
    pub fn set_cstr(&mut self, c: &[u8])
        requires
            !c@.contains(0),
            valid_utf8(c@),
        ensures
            final(self).wf(),
            final(self).text() == decode_utf8(c@),
            encode_utf8(final(self).text()) == c@,
    {
        let s = str_from_utf8(c).unwrap();
        let mut bytes = slice_to_vec(c);
        bytes.push(0);
        self.c_string = bytes;
        self.r_string = s.to_owned();
        proof {
            encode_utf8_decode_utf8(self.text());
        }
    }

    /// Replace the content from a text value; both views follow.
    pub fn set_rstr(&mut self, r_string: &str)
        requires
            !r_string.spec_bytes().contains(0),
        ensures
            final(self).wf(),
            final(self).text() == r_string@,
    {
        let mut c: Vec<u8> = r_string.as_bytes_vec();
        c.push(0);
        self.c_string = c;
        self.r_string = r_string.to_owned();
    }
}

impl Clone for RCString {
    fn clone(&self) -> (r: Self)
        ensures
            r.text() == self.text(),
            r.c_bytes() == self.c_bytes(),
            self.wf() ==> r.wf(),
    {
        RCString { c_string: self.c_string.clone(), r_string: self.r_string.clone() }
    }
}

/// The law the holder exists for: however the content was set, the two views
/// decode to identical text. Reading the byte view as a C consumer would,
/// up to the terminating nul, and decoding it as UTF-8 yields the text view.
pub proof fn lemma_views_agree(s: &RCString)
    requires
        s.wf(),
    ensures
        nul_prefix(s.c_bytes()) == encode_utf8(s.text()),
        decode_utf8(nul_prefix(s.c_bytes())) == s.text(),
{
    lemma_nul_prefix_terminated(encode_utf8(s.text()));
    encode_utf8_decode_utf8(s.text());
}

} // verus!
