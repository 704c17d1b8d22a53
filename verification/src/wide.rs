//! Conversions between Rust text and the encodings of the Windows API:
//! UTF-16 buffers filled by the API (module and image paths), nul-terminated
//! UTF-16 strings handed to it (window texts, the path given to
//! `LoadLibraryW`), and the nul-terminated byte names of the process list.
//!
//! The encoding work is done by the `widestring` crate and by std; their
//! results are stated over the specifications below.

use vstd::prelude::*;

verus! {

// ---------------------------------------------------------------------------
// UTF-16
// ---------------------------------------------------------------------------

pub open spec fn is_high_surrogate(u: u16) -> bool {
    0xD800 <= u <= 0xDBFF
}

pub open spec fn is_low_surrogate(u: u16) -> bool {
    0xDC00 <= u <= 0xDFFF
}

pub open spec fn is_surrogate(u: u16) -> bool {
    0xD800 <= u <= 0xDFFF
}

/// The character that a high and a low surrogate encode together.
pub open spec fn surrogate_pair_char(hi: u16, lo: u16) -> char {
    (0x10000 + (hi - 0xD800) * 0x400 + (lo - 0xDC00)) as char
}

/// Strict UTF-16 decoding: `None` as soon as a surrogate is unpaired.
pub open spec fn utf16_decode(u: Seq<u16>) -> Option<Seq<char>>
    decreases u.len(),
{
    if u.len() == 0 {
        Some(Seq::<char>::empty())
    } else if !is_surrogate(u[0]) {
        match utf16_decode(u.drop_first()) {
            Some(rest) => Some(seq![(u[0] as u32) as char] + rest),
            None => None,
        }
    } else if is_high_surrogate(u[0]) && u.len() >= 2 && is_low_surrogate(u[1]) {
        match utf16_decode(u.skip(2)) {
            Some(rest) => Some(seq![surrogate_pair_char(u[0], u[1])] + rest),
            None => None,
        }
    } else {
        None
    }
}

/// Lossy UTF-16 decoding: each unpaired surrogate becomes U+FFFD.
pub open spec fn utf16_decode_lossy(u: Seq<u16>) -> Seq<char>
    decreases u.len(),
{
    if u.len() == 0 {
        Seq::<char>::empty()
    } else if !is_surrogate(u[0]) {
        seq![(u[0] as u32) as char] + utf16_decode_lossy(u.drop_first())
    } else if is_high_surrogate(u[0]) && u.len() >= 2 && is_low_surrogate(u[1]) {
        seq![surrogate_pair_char(u[0], u[1])] + utf16_decode_lossy(u.skip(2))
    } else {
        seq!['\u{FFFD}'] + utf16_decode_lossy(u.drop_first())
    }
}

/// The UTF-16 code units of one character.
pub open spec fn char_utf16(c: char) -> Seq<u16> {
    let x = c as u32;
    if x < 0x10000 {
        seq![x as u16]
    } else {
        let y = x - 0x10000;
        seq![(0xD800 + y / 0x400) as u16, (0xDC00 + y % 0x400) as u16]
    }
}

/// UTF-16 encoding of a text (`str::encode_utf16`).
pub open spec fn utf16_encode(s: Seq<char>) -> Seq<u16>
    decreases s.len(),
{
    if s.len() == 0 {
        Seq::<u16>::empty()
    } else {
        char_utf16(s[0]) + utf16_encode(s.drop_first())
    }
}

/// The nul-terminated UTF-16 form of `s` that `U16CString::from_str` builds,
/// or `None` where the encoding holds a nul before its last unit.
pub open spec fn wide_nul(s: Seq<char>) -> Option<Seq<u16>> {
    let e = utf16_encode(s);
    if exists|i: int| 0 <= i < e.len() - 1 && e[i] == 0u16 {
        None
    } else if e.len() > 0 && e.last() == 0u16 {
        Some(e)
    } else {
        Some(e.push(0u16))
    }
}

/// The units of a C wide string held in `u`: a final nul is its terminator.
pub open spec fn without_terminator(u: Seq<u16>) -> Seq<u16> {
    if u.len() > 0 && u.last() == 0u16 {
        u.drop_last()
    } else {
        u
    }
}

/// Decoding of a C wide string built from the first `len` units of `buf`.
pub open spec fn c_wide_text(buf: Seq<u16>, len: int) -> Option<Seq<char>> {
    utf16_decode(without_terminator(buf.take(len)))
}

/// The path that the injectors read back from an image-name buffer.
pub open spec fn image_path_spec(buf: Seq<u16>, len: int) -> Option<Seq<char>> {
    if len == 0 {
        None
    } else {
        c_wide_text(buf, len)
    }
}

/// The path that the injected module reads back from its own module-name buffer.
pub open spec fn module_path_spec(buf: Seq<u16>, len: int) -> Option<Seq<char>> {
    if len == 0 || len >= buf.len() {
        None
    } else {
        c_wide_text(buf, len)
    }
}

// ---------------------------------------------------------------------------
// Nul-terminated byte names
// ---------------------------------------------------------------------------

/// The bytes before the first nul.
pub open spec fn c_byte_prefix(s: Seq<u8>) -> Seq<u8>
    decreases s.len(),
{
    if s.len() == 0 || s[0] == 0u8 {
        Seq::<u8>::empty()
    } else {
        seq![s[0]] + c_byte_prefix(s.drop_first())
    }
}

/// What `String::from_utf8_lossy` returns for the given bytes.
pub uninterp spec fn utf8_lossy(bytes: Seq<u8>) -> Seq<char>;

proof fn lemma_c_byte_prefix(s: Seq<u8>, i: int)
    requires
        0 <= i < s.len(),
        s[i] == 0u8,
        forall|k: int| 0 <= k < i ==> s[k] != 0u8,
    ensures
        c_byte_prefix(s) == s.take(i),
    decreases i,
{
    if i > 0 {
        lemma_c_byte_prefix(s.drop_first(), i - 1);
        assert(s.take(i) =~= seq![s[0]] + s.drop_first().take(i - 1));
    } else {
        assert(s.take(0) =~= Seq::<u8>::empty());
    }
}

// ---------------------------------------------------------------------------
// Trusted calls
// ---------------------------------------------------------------------------

/// Calls `widestring::U16Str::to_string`, which decodes with
/// `widestring::decode_utf16` and fails on the first unpaired surrogate. The
/// contract claims that the result is the strict decoding `utf16_decode`.
#[verifier::external_body]
fn decode_utf16_strict(units: &[u16]) -> (r: Option<String>)
    ensures
        match r {
            Some(s) => utf16_decode(units@) == Some(s@),
            None => utf16_decode(units@) is None,
        },
{
    match widestring::U16Str::from_slice(units).to_string() {
        Ok(s) => Some(s),
        Err(_) => None,
    }
}

/// Calls `String::from_utf16_lossy`; the contract claims that each unpaired
/// surrogate becomes U+FFFD and everything else decodes as UTF-16.
#[verifier::external_body]
fn decode_utf16_lossy(units: &[u16]) -> (r: String)
    ensures
        r@ == utf16_decode_lossy(units@),
{
    String::from_utf16_lossy(units)
}

/// Calls `String::from_utf8_lossy` and takes the owned text; the contract
/// names its result `utf8_lossy` of the bytes.
#[verifier::external_body]
fn decode_utf8_lossy(bytes: &[u8]) -> (r: String)
    ensures
        r@ == utf8_lossy(bytes@),
{
    String::from_utf8_lossy(bytes).into_owned()
}

/// Calls `widestring::U16CString::from_str` and, on success,
/// `into_vec_with_nul`. The contract claims the source's behaviour: the text is
/// encoded with `str::encode_utf16`, refused when a nul stands before the last
/// unit, and terminated with a nul unless it already ends with one.
#[verifier::external_body]
fn encode_wide_nul(s: &str) -> (r: Option<Vec<u16>>)
    ensures
        match r {
            Some(v) => wide_nul(s@) == Some(v@),
            None => wide_nul(s@) is None,
        },
{
    match widestring::U16CString::from_str(s) {
        Ok(w) => Some(w.into_vec_with_nul()),
        Err(_) => None,
    }
}

// ---------------------------------------------------------------------------
// Executable functions
// ---------------------------------------------------------------------------

/// The first `len` units of `buf`, with a final nul dropped.
fn c_wide_units(buf: &Vec<u16>, len: usize) -> (r: Vec<u16>)
    requires
        len <= buf.len(),
    ensures
        r@ == without_terminator(buf@.take(len as int)),
{
    let mut end: usize = len;
    if len > 0 && buf[len - 1] == 0 {
        end = len - 1;
    }
    let mut r: Vec<u16> = Vec::new();
    let mut i: usize = 0;
    while i < end
        invariant
            end <= len <= buf.len(),
            i <= end,
            r@ == buf@.take(i as int),
        decreases end - i,
    {
        r.push(buf[i]);
        i = i + 1;
        assert(r@ =~= buf@.take(i as int));
    }
    assert(r@ =~= without_terminator(buf@.take(len as int)));
    r
}

/// The nul-terminated UTF-16 form of `s`, as `U16CString::from_str` gives it,
/// with its terminator; `None` where `s` holds a nul before its end.
pub fn to_wide_nul(s: &str) -> (r: Option<Vec<u16>>)
    ensures
        match r {
            Some(v) => wide_nul(s@) == Some(v@),
            None => wide_nul(s@) is None,
        },
{
    encode_wide_nul(s)
}

/// What the injector writes into the game process for `LoadLibraryW`: the
/// path as nul-terminated UTF-16 and its size in bytes. `None` where the path
/// holds a nul before its end, or its size does not fit in a `usize`.
pub fn load_library_payload(path: &str) -> (r: Option<(Vec<u16>, usize)>)
    ensures
        match r {
            Some((v, n)) => wide_nul(path@) == Some(v@) && n == 2 * v.len(),
            None => wide_nul(path@) is None || (wide_nul(path@) matches Some(u) && 2 * u.len()
                > usize::MAX),
        },
{
    match encode_wide_nul(path) {
        Some(v) => {
            let len: usize = v.len();
            match len.checked_mul(2) {
                Some(n) => Some((v, n)),
                None => None,
            }
        },
        None => None,
    }
}

/// The text of the path that an injector reads from the image-name buffer
/// `buf` of which the API filled `len` units: `None` when nothing was filled
/// or the units are not valid UTF-16.
pub fn image_path_from_buffer(buf: &Vec<u16>, len: usize) -> (r: Option<String>)
    requires
        len <= buf.len(),
    ensures
        match r {
            Some(s) => image_path_spec(buf@, len as int) == Some(s@),
            None => image_path_spec(buf@, len as int) is None,
        },
{
    if len == 0 {
        return None;
    }
    let units: Vec<u16> = c_wide_units(buf, len);
    decode_utf16_strict(units.as_slice())
}

/// The text of the path that the graphical injector reads from the
/// image-name buffer: unpaired surrogates become U+FFFD; `None` when nothing
/// was filled.
pub fn image_path_from_buffer_lossy(buf: &Vec<u16>, len: usize) -> (r: Option<String>)
    requires
        len <= buf.len(),
    ensures
        len == 0 ==> r is None,
        len > 0 ==> (r matches Some(s) && s@ == utf16_decode_lossy(buf@.take(len as int))),
{
    if len == 0 {
        return None;
    }
    Some(text_from_units_lossy(buf, len))
}

/// The text of the first `len` units of `buf`, decoded as UTF-16 with each
/// unpaired surrogate replaced by U+FFFD (the text of a window control).
pub fn text_from_units_lossy(buf: &Vec<u16>, len: usize) -> (r: String)
    requires
        len <= buf.len(),
    ensures
        r@ == utf16_decode_lossy(buf@.take(len as int)),
{
    let mut units: Vec<u16> = Vec::new();
    let mut i: usize = 0;
    while i < len
        invariant
            len <= buf.len(),
            i <= len,
            units@ == buf@.take(i as int),
        decreases len - i,
    {
        units.push(buf[i]);
        i = i + 1;
        assert(units@ =~= buf@.take(i as int));
    }
    decode_utf16_lossy(units.as_slice())
}

/// The text of the path that the injected module reads from its module-name
/// buffer: `None` when nothing was filled, when the buffer was filled to its
/// end (the name was cut short), or when the units are not valid UTF-16.
pub fn module_path_from_buffer(buf: &Vec<u16>, len: usize) -> (r: Option<String>)
    ensures
        match r {
            Some(s) => module_path_spec(buf@, len as int) == Some(s@),
            None => module_path_spec(buf@, len as int) is None,
        },
{
    if len == 0 || len >= buf.len() {
        return None;
    }
    let units: Vec<u16> = c_wide_units(buf, len);
    decode_utf16_strict(units.as_slice())
}

/// The bytes of `raw` before its first nul.
pub fn c_byte_name(raw: &Vec<u8>) -> (r: Vec<u8>)
    requires
        exists|i: int| 0 <= i < raw.len() && raw[i] == 0u8,
    ensures
        r@ == c_byte_prefix(raw@),
{
    let mut r: Vec<u8> = Vec::new();
    let mut i: usize = 0;
    while raw[i] != 0
        invariant
            i < raw.len(),
            exists|j: int| i <= j < raw.len() && raw[j] == 0u8,
            forall|k: int| 0 <= k < i ==> raw[k] != 0u8,
            r@ == raw@.take(i as int),
        decreases raw.len() - i,
    {
        r.push(raw[i]);
        i = i + 1;
        assert(r@ =~= raw@.take(i as int));
    }
    proof {
        lemma_c_byte_prefix(raw@, i as int);
    }
    r
}

/// The executable name of a process-list entry: its bytes up to the first
/// nul, decoded as UTF-8 with invalid sequences replaced.
pub fn exe_name_from_bytes(raw: &Vec<u8>) -> (r: String)
    requires
        exists|i: int| 0 <= i < raw.len() && raw[i] == 0u8,
    ensures
        r@ == utf8_lossy(c_byte_prefix(raw@)),
{
    let name: Vec<u8> = c_byte_name(raw);
    decode_utf8_lossy(name.as_slice())
}

} // verus!
