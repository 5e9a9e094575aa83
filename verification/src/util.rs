use vstd::prelude::*;
use vstd::string::StringSliceAdditionalSpecFns;

verus! {

/// The bytes of `bytes` up to, and not including, its first NUL byte; all of
/// them when it holds none. This is what a C string made from `bytes` holds.
pub open spec fn until_nul(bytes: Seq<u8>) -> Seq<u8>
    decreases bytes.len(),
{
    if bytes.len() == 0 {
        Seq::empty()
    } else if bytes[0] == 0 {
        Seq::empty()
    } else {
        seq![bytes[0]] + until_nul(bytes.drop_first())
    }
}

/// `bytes` holds no NUL byte.
pub open spec fn nul_free(bytes: Seq<u8>) -> bool {
    forall|i: int| 0 <= i < bytes.len() ==> #[trigger] bytes[i] != 0
}

/// A fixed buffer of `n` C characters that starts with `content` (cut at `n`
/// bytes) and is filled with zeros after it.
pub open spec fn fixed_buffer(content: Seq<u8>, n: nat) -> Seq<i8> {
    Seq::new(n, |i: int| if i < content.len() { content[i] as i8 } else { 0i8 })
}

/// The bytes that a C reader finds in a fixed buffer: its characters up to the
/// first NUL.
pub open spec fn read_c_buffer(buffer: Seq<i8>) -> Seq<u8> {
    until_nul(buffer.map_values(|c: i8| c as u8))
}

/// The prefix of `bytes` before position `k` holds no NUL and `k` is its end or
/// a NUL: then `until_nul` keeps exactly that prefix.
pub proof fn lemma_until_nul_prefix(bytes: Seq<u8>, k: int)
    requires
        0 <= k <= bytes.len(),
        nul_free(bytes.take(k)),
        k == bytes.len() || bytes[k] == 0,
    ensures
        until_nul(bytes) == bytes.take(k),
    decreases k,
{
    if k == 0 {
        assert(bytes.take(0) =~= Seq::<u8>::empty());
    } else {
        assert(bytes.take(k)[0] == bytes[0]);
        let rest = bytes.drop_first();
        assert forall|i: int| 0 <= i < rest.take(k - 1).len() implies #[trigger] rest.take(k - 1)[i]
            != 0 by {
            assert(rest.take(k - 1)[i] == bytes.take(k)[i + 1]);
        }
        lemma_until_nul_prefix(rest, k - 1);
        assert(bytes.take(k) =~= seq![bytes[0]] + rest.take(k - 1));
    }
}

/// `until_nul` of NUL-free bytes is the bytes themselves.
pub proof fn lemma_until_nul_of_nul_free(bytes: Seq<u8>)
    requires
        nul_free(bytes),
    ensures
        until_nul(bytes) == bytes,
{
    assert(bytes.take(bytes.len() as int) =~= bytes);
    lemma_until_nul_prefix(bytes, bytes.len() as int);
}

/// The bytes a C string made from `s` holds: those before the first NUL. It
/// stops at the first NUL byte instead of failing on it.
pub fn safe_c_bytes(s: &str) -> (r: Vec<u8>)
    ensures
        r@ == until_nul(s.spec_bytes()),
        nul_free(r@),
{
    let bytes = s.as_bytes();
    let mut r: Vec<u8> = Vec::new();
    let mut i: usize = 0;
    while i < bytes.len() && bytes[i] != 0
        invariant
            i <= bytes@.len(),
            bytes@ == s.spec_bytes(),
            r@ == bytes@.take(i as int),
            nul_free(r@),
        decreases bytes@.len() - i,
    {
        r.push(bytes[i]);
        i = i + 1;
        assert(r@ =~= bytes@.take(i as int));
    }
    proof {
        lemma_until_nul_prefix(bytes@, i as int);
    }
    r
}

/// Copies `content` into a buffer of `n` C characters: each of the first
/// `min(content.len(), n)` bytes, then zeros.
pub fn fill_fixed_buffer(content: &[u8], n: usize) -> (r: Vec<i8>)
    ensures
        r@ == fixed_buffer(content@, n as nat),
{
    let mut r: Vec<i8> = Vec::new();
    let mut i: usize = 0;
    while i < n
        invariant
            i <= n,
            r@.len() == i,
            forall|j: int|
                0 <= j < i ==> #[trigger] r@[j] == (if j < content@.len() {
                    content@[j] as i8
                } else {
                    0i8
                }),
        decreases n - i,
    {
        if i < content.len() {
            r.push(content[i] as i8);
        } else {
            r.push(0i8);
        }
        i = i + 1;
    }
    assert(r@ =~= fixed_buffer(content@, n as nat));
    r
}

/// A fixed buffer read back by a C reader gives the content that was written,
/// provided the content holds no NUL and leaves room for the terminating zero.
pub proof fn lemma_fixed_buffer_round_trip(content: Seq<u8>, n: nat)
    requires
        nul_free(content),
        content.len() < n,
    ensures
        read_c_buffer(fixed_buffer(content, n)) == content,
{
    let buf = fixed_buffer(content, n);
    let raw = buf.map_values(|c: i8| c as u8);
    assert forall|i: int| 0 <= i < content.len() implies #[trigger] raw[i] == content[i] by {
        let b = content[i];
        assert((b as i8) as u8 == b) by (bit_vector);
    }
    assert(raw[content.len() as int] == 0);
    assert(raw.take(content.len() as int) =~= content);
    lemma_until_nul_prefix(raw, content.len() as int);
}

/// The UTF-16 code units of one character: itself below 0x10000, a surrogate
/// pair above.
pub open spec fn utf16_char(c: char) -> Seq<u16> {
    let v = c as u32;
    if v < 0x10000 {
        seq![v as u16]
    } else {
        let w = (v - 0x10000) as u32;
        seq![(0xD800 + w / 0x400) as u16, (0xDC00 + w % 0x400) as u16]
    }
}

/// The UTF-16 encoding of `s`, without terminator.
pub open spec fn utf16(s: Seq<char>) -> Seq<u16>
    decreases s.len(),
{
    if s.len() == 0 {
        Seq::empty()
    } else {
        utf16(s.drop_last()) + utf16_char(s.last())
    }
}

/// A character other than NUL has no zero unit in UTF-16.
proof fn lemma_utf16_char_nonzero(c: char)
    requires
        c != '\0',
    ensures
        forall|j: int| 0 <= j < utf16_char(c).len() ==> #[trigger] utf16_char(c)[j] != 0,
{
    let v = c as u32;
    assert(v != 0);
    if v < 0x10000 {
        assert((v as u16) as u32 == v) by (bit_vector)
            requires
                v < 0x10000,
        ;
    } else {
        let w = (v - 0x10000) as u32;
        assert(w <= 0xFFFFF);
        assert(0xD800 + w / 0x400 <= 0xDBFF);
        assert(0xDC00 + w % 0x400 <= 0xDFFF);
    }
}

/// A string without NUL has no zero unit in UTF-16, so it converts to a wide C
/// string.
pub proof fn lemma_utf16_nul_free(s: Seq<char>)
    requires
        forall|i: int| 0 <= i < s.len() ==> #[trigger] s[i] != '\0',
    ensures
        forall|j: int| 0 <= j < utf16(s).len() ==> #[trigger] utf16(s)[j] != 0,
        nul_only_at_end(utf16(s)),
    decreases s.len(),
{
    if s.len() > 0 {
        let init = s.drop_last();
        assert forall|i: int| 0 <= i < init.len() implies #[trigger] init[i] != '\0' by {
            assert(init[i] == s[i]);
        }
        lemma_utf16_nul_free(init);
        lemma_utf16_char_nonzero(s.last());
        let a = utf16(init);
        let b = utf16_char(s.last());
        assert forall|j: int| 0 <= j < utf16(s).len() implies #[trigger] utf16(s)[j] != 0 by {
            if j < a.len() {
                assert(utf16(s)[j] == a[j]);
            } else {
                assert(utf16(s)[j] == b[j - a.len()]);
            }
        }
    }
}

/// `units` holds no zero, except perhaps as its last unit.
pub open spec fn nul_only_at_end(units: Seq<u16>) -> bool {
    forall|i: int| 0 <= i < units.len() - 1 ==> #[trigger] units[i] != 0
}

/// `units` with a terminating zero, added when it does not already end in one.
pub open spec fn nul_terminated(units: Seq<u16>) -> Seq<u16> {
    if units.len() > 0 && units.last() == 0 {
        units
    } else {
        units.push(0)
    }
}

/// Calls `widestring::U16CString::from_str` and hands back its units with the
/// terminator (`into_vec_with_nul`). The crate encodes the string as UTF-16
/// and refuses it when a zero unit stands anywhere but last; otherwise it adds
/// the terminator unless the units already end in one.
#[verifier::external_body]
fn wide_c_string(s: &str) -> (r: Option<Vec<u16>>)
    ensures
        r is Some <==> nul_only_at_end(utf16(s@)),
        r matches Some(v) ==> v@ == nul_terminated(utf16(s@)),
{
    widestring::U16CString::from_str(s).ok().map(|w| w.into_vec_with_nul())
}

/// The wide C string handed to the engine for a path (the cookie jar and the
/// local storage paths): none when the path holds a NUL before its end.
pub fn wide_c_path(path: &str) -> (r: Option<Vec<u16>>)
    ensures
        r is Some <==> nul_only_at_end(utf16(path@)),
        r matches Some(v) ==> v@ == nul_terminated(utf16(path@)),
{
    wide_c_string(path)
}

/// The name and the value of an HTTP header field as wide C strings, as a
/// request takes them: none when either holds a NUL before its end.
pub fn header_field_units(name: &str, value: &str) -> (r: Option<
    (Vec<u16>, Vec<u16>),
>)
    ensures
        r is Some <==> (nul_only_at_end(utf16(name@)) && nul_only_at_end(
            utf16(value@),
        )),
        r matches Some((n, v)) ==> n@ == nul_terminated(utf16(name@)) && v@ == nul_terminated(
            utf16(value@),
        ),
{
    let n = wide_c_string(name);
    match n {
        None => None,
        Some(n) => {
            let v = wide_c_string(value);
            match v {
                None => None,
                Some(v) => Some((n, v)),
            }
        },
    }
}

/// A fixed buffer of `n` characters holds, at each position, the byte of the
/// content there while the content lasts, and zero after it; content longer
/// than the buffer is cut at `n` bytes, with no terminating zero.
pub proof fn lemma_fixed_buffer_contents(content: Seq<u8>, n: nat, i: int)
    requires
        0 <= i < n,
    ensures
        fixed_buffer(content, n).len() == n,
        i < content.len() ==> fixed_buffer(content, n)[i] == content[i] as i8,
        i >= content.len() ==> fixed_buffer(content, n)[i] == 0,
{
}

} // verus!
