//! C strings: text on its way into FreeSWITCH and text that comes back.

use vstd::prelude::*;
use vstd::string::StrSliceExecFns;
use vstd::utf8::{
    char_is_scalar, decode_utf8, decode_utf8_encode_utf8, encode_scalar, encode_utf8,
    encode_utf8_decode_utf8, encode_utf8_valid_utf8, has_width_1_encoding, valid_utf8,
};
use crate::framing::append_copy;
use crate::handle::{Address, NULL};
use crate::status::{generic_error, Result, SwitchError};

verus! {

/// Whether `text` can be handed over as a C string: it holds no NUL character.
pub open spec fn c_safe(text: Seq<char>) -> bool {
    forall|i: int| 0 <= i < text.len() ==> text[i] != '\0'
}

/// Whether no byte of `bytes` is zero.
pub open spec fn zero_free(bytes: Seq<u8>) -> bool {
    forall|i: int| 0 <= i < bytes.len() ==> bytes[i] != 0
}

/// The text that a nullable C string stands for: none for the null pointer and for bytes that are
/// not UTF-8.
pub open spec fn reply_text(reply: Option<Vec<u8>>) -> Option<Seq<char>> {
    match reply {
        Some(bytes) if valid_utf8(bytes@) => Some(decode_utf8(bytes@)),
        _ => None,
    }
}

/// Whether an optional string holds exactly the text `t`, and is absent exactly where `t` is.
pub open spec fn text_is(s: Option<String>, t: Option<Seq<char>>) -> bool {
    match (s, t) {
        (Some(s), Some(t)) => s@ == t,
        (None, None) => true,
        _ => false,
    }
}

/// The text of a C string: bytes without a zero among them, stored with the zero that ends them.
#[derive(Debug, PartialEq, Eq)]
pub struct CText {
    bytes: Vec<u8>,
}

impl Clone for CText {
    fn clone(&self) -> (r: CText)
        ensures
            r@ == self@,
    {
        proof {
            use_type_invariant(self);
        }
        let mut bytes: Vec<u8> = Vec::new();
        append_copy(&mut bytes, self.bytes.as_slice());
        proof {
            assert(bytes@ =~= self.bytes@);
        }
        CText { bytes }
    }
}

impl View for CText {
    type V = Seq<u8>;

    closed spec fn view(&self) -> Seq<u8> {
        self.bytes@.drop_last()
    }
}

impl CText {
    #[verifier::type_invariant]
    closed spec fn terminated(&self) -> bool {
        &&& self.bytes@.len() > 0
        &&& self.bytes@.last() == 0
        &&& zero_free(self.bytes@.drop_last())
    }

    /// Whether the bytes are the encoding of `text`.
    pub open spec fn spells(&self, text: Seq<char>) -> bool {
        self@ == encode_utf8(text)
    }

    /// The C string that starts at the head of `memory`: the bytes before the first zero, or all
    /// of them where there is none.
    pub fn from_memory(memory: &[u8]) -> (r: CText)
        ensures
            r@ == memory@.take(first_zero(memory@)),
    {
        let end: usize = nul_position(memory);
        let mut bytes: Vec<u8> = Vec::new();
        let mut i: usize = 0;
        while i < end
            invariant
                i <= end <= memory@.len(),
                end == first_zero(memory@),
                bytes@ == memory@.take(i as int),
            decreases end - i,
        {
            bytes.push(memory[i]);
            proof {
                assert(memory@.take(i + 1) =~= memory@.take(i as int).push(memory@[i as int]));
            }
            i = i + 1;
        }
        bytes.push(0);
        proof {
            first_zero_spec(memory@);
            assert(bytes@.drop_last() =~= memory@.take(end as int));
        }
        CText { bytes }
    }

    /// The bytes with the zero that ends them, as C reads them.
    pub fn as_bytes_with_nul(&self) -> (r: &[u8])
        ensures
            r@ == self@.push(0),
            zero_free(self@),
    {
        proof {
            use_type_invariant(self);
            assert(self.bytes@ =~= self.bytes@.drop_last().push(0));
        }
        self.bytes.as_slice()
    }

    /// The bytes without the zero that ends them.
    pub fn to_bytes(&self) -> (r: Vec<u8>)
        ensures
            r@ == self@,
            zero_free(r@),
    {
        proof {
            use_type_invariant(self);
        }
        let mut bytes: Vec<u8> = self.bytes.clone();
        proof {
            assert(bytes@ =~= self.bytes@);
        }
        let _ = bytes.pop();
        bytes
    }

    /// The text, where the bytes are UTF-8.
    pub fn to_str(&self) -> (r: Option<String>)
        ensures
            r is Some <==> valid_utf8(self@),
            r matches Some(s) ==> s@ == decode_utf8(self@),
    {
        utf8_text(self.to_bytes())
    }
}

/// The index of the first zero byte, or the length where there is none.
pub open spec fn first_zero(bytes: Seq<u8>) -> int
    decreases bytes.len(),
{
    if bytes.len() == 0 || bytes[0] == 0 {
        0
    } else {
        1 + first_zero(bytes.drop_first())
    }
}

/// The bytes before `first_zero` hold no zero, and the byte at it, if there is one, is zero.
pub proof fn first_zero_spec(bytes: Seq<u8>)
    ensures
        0 <= first_zero(bytes) <= bytes.len(),
        zero_free(bytes.take(first_zero(bytes))),
        first_zero(bytes) < bytes.len() ==> bytes[first_zero(bytes)] == 0,
        zero_free(bytes) ==> first_zero(bytes) == bytes.len(),
    decreases bytes.len(),
{
    if bytes.len() > 0 && bytes[0] != 0 {
        let rest = bytes.drop_first();
        first_zero_spec(rest);
        let n = first_zero(bytes);
        assert forall|i: int| 0 <= i < n implies bytes.take(n)[i] != 0 by {
            if i > 0 {
                assert(bytes.take(n)[i] == rest.take(n - 1)[i - 1]);
            }
        }
        if zero_free(bytes) {
            assert forall|i: int| 0 <= i < rest.len() implies rest[i] != 0 by {
                assert(rest[i] == bytes[i + 1]);
            }
        }
    }
}

/// A first zero is where it is found: at the index before which no byte is zero.
proof fn first_zero_at(bytes: Seq<u8>, n: int)
    requires
        0 <= n <= bytes.len(),
        zero_free(bytes.take(n)),
        n < bytes.len() ==> bytes[n] == 0,
    ensures
        first_zero(bytes) == n,
    decreases bytes.len(),
{
    if bytes.len() > 0 && n > 0 {
        assert(bytes.take(n)[0] != 0);
        let rest = bytes.drop_first();
        let head = rest.take(n - 1);
        assert forall|i: int| 0 <= i < head.len() implies head[i] != 0 by {
            assert(head[i] == bytes.take(n)[i + 1]);
        }
        first_zero_at(rest, n - 1);
    }
}

/// The length of the C string at the head of a buffer.
pub fn nul_position(memory: &[u8]) -> (r: usize)
    ensures
        r == first_zero(memory@),
        r <= memory@.len(),
{
    let mut i: usize = 0;
    while i < memory.len()
        invariant
            i <= memory@.len(),
            zero_free(memory@.take(i as int)),
        decreases memory@.len() - i,
    {
        if memory[i] == 0 {
            proof {
                first_zero_at(memory@, i as int);
            }
            return i;
        }
        proof {
            assert(memory@.take(i + 1) =~= memory@.take(i as int).push(memory@[i as int]));
        }
        i = i + 1;
    }
    proof {
        first_zero_at(memory@, i as int);
    }
    i
}

/// `String::from_utf8` of std: it accepts exactly the valid UTF-8 byte sequences, and the string
/// that it returns has those bytes.
#[verifier::external_body]
fn string_from_utf8(bytes: Vec<u8>) -> (r: Option<String>)
    ensures
        r is Some <==> valid_utf8(bytes@),
        r matches Some(s) ==> encode_utf8(s@) == bytes@,
{
    String::from_utf8(bytes).ok()
}

/// The text that `String::from_utf8_lossy` of std makes of bytes.
pub uninterp spec fn lossy_text(bytes: Seq<u8>) -> Seq<char>;

/// `String::from_utf8_lossy` of std: valid UTF-8 is read as it stands, and everything else is
/// replaced as that function does.
#[verifier::external_body]
pub(crate) fn lossy(bytes: Vec<u8>) -> (r: String)
    ensures
        r@ == lossy_text(bytes@),
        valid_utf8(bytes@) ==> r@ == decode_utf8(bytes@),
{
    String::from_utf8_lossy(&bytes).into_owned()
}

/// Reads bytes as text, where they are UTF-8.
pub fn utf8_text(bytes: Vec<u8>) -> (r: Option<String>)
    ensures
        r is Some <==> valid_utf8(bytes@),
        r matches Some(s) ==> s@ == decode_utf8(bytes@) && encode_utf8(s@) == bytes@,
{
    let r = string_from_utf8(bytes);
    proof {
        if r is Some {
            encode_utf8_decode_utf8(r->0@);
        }
    }
    r
}

/// One byte as the character with that number.
pub fn latin_text(byte: u8) -> (r: String)
    ensures
        r@ == seq![byte as char],
{
    let mut bytes: Vec<u8> = Vec::new();
    let ghost c = byte as char;
    let ghost v = c as u32;
    let wide: u32 = byte as u32;
    if byte < 0x80 {
        bytes.push(byte);
        proof {
            assert((wide & 0x7F) as u8 == wide) by (bit_vector)
                requires
                    wide < 0x80,
            ;
            assert(encode_scalar(v) =~= seq![byte]);
        }
    } else {
        bytes.push(0xC0 | ((wide >> 6) & 0x1F) as u8);
        bytes.push(0x80 | (wide & 0x3F) as u8);
        proof {
            assert(encode_scalar(v) =~= bytes@);
        }
    }
    proof {
        let text = seq![c];
        assert(text.drop_first() =~= Seq::<char>::empty());
        assert(encode_utf8(text.drop_first()) =~= Seq::<u8>::empty());
        assert(encode_utf8(text) =~= bytes@);
        encode_utf8_valid_utf8(text);
        encode_utf8_decode_utf8(text);
    }
    match utf8_text(bytes) {
        Some(text) => text,
        None => String::new(),
    }
}

/// The encoding of a character holds a zero byte only where the character is NUL.
proof fn scalar_zero(c: char)
    ensures
        c == '\0' ==> encode_scalar(c as u32) == seq![0u8],
        c != '\0' ==> zero_free(encode_scalar(c as u32)),
{
    let v = c as u32;
    char_is_scalar(c);
    if c == '\0' {
        assert(0u32 & 0x7F == 0u32) by (bit_vector);
        assert(encode_scalar(v) =~= seq![0u8]);
    } else {
        assert(v != 0);
        if has_width_1_encoding(v) {
            assert((v & 0x7F) as u8 != 0) by (bit_vector)
                requires
                    0 < v <= 0x7F,
            ;
        } else {
            assert(0x80u8 | (v & 0x3F) as u8 != 0) by (bit_vector);
            assert(0x80u8 | ((v >> 6) & 0x3F) as u8 != 0) by (bit_vector);
            assert(0x80u8 | ((v >> 12) & 0x3F) as u8 != 0) by (bit_vector);
            assert(0xC0u8 | ((v >> 6) & 0x1F) as u8 != 0) by (bit_vector);
            assert(0xE0u8 | ((v >> 12) & 0x0F) as u8 != 0) by (bit_vector);
            assert(0xF0u8 | ((v >> 18) & 0x7) as u8 != 0) by (bit_vector);
        }
    }
}

/// Text holds a NUL character exactly where its encoding holds a zero byte, so text that is
/// accepted as a C string is read back whole.
pub proof fn c_safe_is_zero_free(text: Seq<char>)
    ensures
        c_safe(text) <==> zero_free(encode_utf8(text)),
    decreases text.len(),
{
    if text.len() > 0 {
        let rest = text.drop_first();
        let head = encode_scalar(text[0] as u32);
        let tail = encode_utf8(rest);
        let all = encode_utf8(text);
        assert(all == head + tail);
        scalar_zero(text[0]);
        c_safe_is_zero_free(rest);
        if c_safe(text) {
            assert forall|i: int| 0 <= i < rest.len() implies rest[i] != '\0' by {
                assert(rest[i] == text[i + 1]);
            }
            assert forall|i: int| 0 <= i < all.len() implies all[i] != 0 by {
                if i >= head.len() {
                    assert(all[i] == tail[i - head.len()]);
                }
            }
        }
        if zero_free(all) {
            if text[0] == '\0' {
                assert(all[0] == head[0]);
            }
            assert forall|i: int| 0 <= i < tail.len() implies tail[i] != 0 by {
                assert(tail[i] == all[i + head.len()]);
            }
            assert forall|i: int| 0 <= i < text.len() implies text[i] != '\0' by {
                if i > 0 {
                    assert(text[i] == rest[i - 1]);
                }
            }
        }
    }
}

/// What is read back from a C string is the text that it was made of.
pub proof fn c_text_round_trip(c: CText, text: Seq<char>)
    requires
        c.spells(text),
    ensures
        valid_utf8(c@),
        decode_utf8(c@) == text,
{
    encode_utf8_valid_utf8(text);
    encode_utf8_decode_utf8(text);
}

/// Makes a C string of `text`. Text that holds a NUL character is refused.
pub fn cstring(text: &str) -> (r: Result<CText>)
    ensures
        !c_safe(text@) ==> r == Err::<CText, SwitchError>(generic_error()),
        c_safe(text@) ==> r is Ok,
        r matches Ok(c) ==> c.spells(text@),
{
    let source = text.as_bytes();
    let end: usize = nul_position(source);
    proof {
        c_safe_is_zero_free(text@);
        first_zero_spec(source@);
        if end == source@.len() {
            assert(source@.take(end as int) =~= source@);
        }
    }
    if end < source.len() {
        return Err(SwitchError::generic());
    }
    let c = CText::from_memory(source);
    Ok(c)
}

/// Makes a C string of `text` where there is one; an absent text becomes the null pointer.
pub fn optional_cstring(text: Option<&str>) -> (r: Result<Option<CText>>)
    ensures
        text matches Some(t) ==> (!c_safe(t@) ==> r == Err::<Option<CText>, SwitchError>(
            generic_error(),
        )),
        (text is None || c_safe(text->0@)) ==> r is Ok,
        r matches Ok(c) ==> (c is Some <==> text is Some) && (c matches Some(t) ==> t.spells(
            text->0@,
        )),
{
    match text {
        Some(t) => {
            let c = cstring(t)?;
            Ok(Some(c))
        },
        None => Ok(None),
    }
}

/// Whether an optional text can be handed over.
pub open spec fn optional_safe(text: Option<&str>) -> bool {
    text matches Some(t) ==> c_safe(t@)
}

/// Whether `c` is the C string of `text`, absent where `text` is.
pub open spec fn optional_spells(c: Option<&CText>, text: Option<&str>) -> bool {
    match (c, text) {
        (Some(c), Some(t)) => c.spells(t@),
        (None, None) => true,
        _ => false,
    }
}

/// Reads a nullable C string: `None` for the null pointer and for bytes that are not UTF-8.
pub fn borrowed_cstr_to_string(reply: Option<Vec<u8>>) -> (r: Option<String>)
    ensures
        text_is(r, reply_text(reply)),
{
    match reply {
        Some(bytes) => utf8_text(bytes),
        None => None,
    }
}

/// Hands a C string back to the allocator that it came from, unless the pointer is null.
pub fn free_cstr<F>(ptr: Address, free: F)
    where
        F: FnOnce(Address),
    requires
        ptr != NULL ==> free.requires((ptr,)),
    ensures
        ptr != NULL ==> free.ensures((ptr,), ()),
{
    if ptr != NULL {
        free(ptr);
    }
}

/// The text of a C string that the caller owns: `bytes` is what stands at `ptr`.
pub open spec fn owned_text(ptr: Address, bytes: Vec<u8>) -> Option<Seq<char>> {
    if ptr == NULL {
        None
    } else {
        reply_text(Some(bytes))
    }
}

/// Copies a C string that the caller owns and frees the original. `bytes` is what stands at `ptr`.
/// A string that is not UTF-8 is freed all the same.
pub fn strdup_to_string<F>(ptr: Address, bytes: Vec<u8>, free: F) -> (r: Option<String>)
    where
        F: FnOnce(Address),
    requires
        ptr != NULL ==> free.requires((ptr,)),
    ensures
        text_is(r, owned_text(ptr, bytes)),
        ptr != NULL ==> free.ensures((ptr,), ()),
{
    if ptr == NULL {
        return None;
    }
    let text = borrowed_cstr_to_string(Some(bytes));
    free_cstr(ptr, free);
    text
}

/// The characters that Unicode calls white space.
pub open spec fn white(c: char) -> bool {
    let v = c as u32;
    ||| 0x09 <= v <= 0x0D
    ||| v == 0x20
    ||| v == 0x85
    ||| v == 0xA0
    ||| v == 0x1680
    ||| 0x2000 <= v <= 0x200A
    ||| v == 0x2028
    ||| v == 0x2029
    ||| v == 0x202F
    ||| v == 0x205F
    ||| v == 0x3000
}

/// Whether `c` is white space.
pub fn is_white(c: char) -> (r: bool)
    ensures
        r == white(c),
{
    let v: u32 = c as u32;
    (0x09 <= v && v <= 0x0D) || v == 0x20 || v == 0x85 || v == 0xA0 || v == 0x1680 || (0x2000 <= v
        && v <= 0x200A) || v == 0x2028 || v == 0x2029 || v == 0x202F || v == 0x205F || v == 0x3000
}

/// `text` without the white space at its start.
pub open spec fn trim_start(text: Seq<char>) -> Seq<char>
    decreases text.len(),
{
    if text.len() > 0 && white(text[0]) {
        trim_start(text.drop_first())
    } else {
        text
    }
}

/// `text` without the white space at its end.
pub open spec fn trim_end(text: Seq<char>) -> Seq<char>
    decreases text.len(),
{
    if text.len() > 0 && white(text.last()) {
        trim_end(text.drop_last())
    } else {
        text
    }
}

/// `text` without the white space at both ends.
pub open spec fn trimmed(text: Seq<char>) -> Seq<char> {
    trim_end(trim_start(text))
}

/// Trimmed text has no white space at its ends, and trimming it again changes nothing.
pub proof fn trimmed_is_tight(text: Seq<char>)
    ensures
        trimmed(text).len() > 0 ==> !white(trimmed(text)[0]) && !white(trimmed(text).last()),
        trimmed(trimmed(text)) == trimmed(text),
{
    trim_start_head(text);
    trim_end_last(trim_start(text));
}

proof fn trim_start_head(text: Seq<char>)
    ensures
        trim_start(text).len() > 0 ==> !white(trim_start(text)[0]),
    decreases text.len(),
{
    if text.len() > 0 && white(text[0]) {
        trim_start_head(text.drop_first());
    }
}

proof fn trim_end_last(text: Seq<char>)
    ensures
        trim_end(text).len() <= text.len(),
        trim_end(text).len() > 0 ==> !white(trim_end(text).last()) && trim_end(text)[0] == text[0],
    decreases text.len(),
{
    if text.len() > 0 && white(text.last()) {
        trim_end_last(text.drop_last());
    }
}

/// `text` without the white space at both ends.
pub fn trim(text: &str) -> (r: String)
    ensures
        r@ == trimmed(text@),
{
    let n: usize = text.unicode_len();
    let mut start: usize = 0;
    proof {
        assert(text@.skip(0) =~= text@);
    }
    while start < n && is_white(text.get_char(start))
        invariant
            start <= n,
            n == text@.len(),
            trim_start(text@) == trim_start(text@.skip(start as int)),
        decreases n - start,
    {
        proof {
            let rest = text@.skip(start as int);
            assert(rest[0] == text@[start as int]);
            assert(rest.drop_first() =~= text@.skip(start + 1));
        }
        start = start + 1;
    }
    let ghost tail = text@.skip(start as int);
    proof {
        if start < n {
            assert(tail[0] == text@[start as int]);
        }
        assert(trim_start(text@) == tail);
    }
    let mut end: usize = n;
    proof {
        assert(text@.subrange(start as int, end as int) =~= tail);
    }
    while end > start && is_white(text.get_char(end - 1))
        invariant
            start <= end <= n,
            n == text@.len(),
            trim_end(tail) == trim_end(text@.subrange(start as int, end as int)),
        decreases end - start,
    {
        proof {
            let cur = text@.subrange(start as int, end as int);
            assert(cur.last() == text@[end - 1]);
            assert(cur.drop_last() =~= text@.subrange(start as int, end - 1));
        }
        end = end - 1;
    }
    proof {
        let cur = text@.subrange(start as int, end as int);
        if end > start {
            assert(cur.last() == text@[end - 1]);
        }
    }
    text.substring_char(start, end).to_owned()
}

/// The text of a command argument: what is left of a nullable C string after trimming, unless that
/// is nothing.
pub open spec fn command_of(reply: Option<Vec<u8>>) -> Option<Seq<char>> {
    match reply_text(reply) {
        Some(t) if trimmed(t).len() > 0 => Some(trimmed(t)),
        _ => None,
    }
}

/// Reads a command argument: the text of a nullable C string, trimmed. A null pointer, bytes that
/// are not UTF-8 and text that is all white space give `None`.
pub fn command_text(reply: Option<Vec<u8>>) -> (r: Option<String>)
    ensures
        text_is(r, command_of(reply)),
{
    match borrowed_cstr_to_string(reply) {
        Some(text) => {
            let text = trim(text.as_str());
            if text.as_str().is_empty() {
                None
            } else {
                Some(text)
            }
        },
        None => None,
    }
}

/// What can name a registered interface: text, or a C string as it stands.
pub trait StaticCStr: Sized {
    /// The bytes of the C string, where the value makes one.
    spec fn c_form(&self) -> Option<Seq<u8>>;

    /// Makes the C string. Text that holds a NUL character is refused.
    fn into_static_cstr(self) -> (r: Result<CText>)
        ensures
            self.c_form() is None ==> r == Err::<CText, SwitchError>(generic_error()),
            self.c_form() is Some ==> r is Ok,
            r matches Ok(c) ==> self.c_form() == Some(c@),
    ;
}

impl StaticCStr for CText {
    open spec fn c_form(&self) -> Option<Seq<u8>> {
        Some(self@)
    }

    fn into_static_cstr(self) -> (r: Result<CText>) {
        Ok(self)
    }
}

impl StaticCStr for &str {
    open spec fn c_form(&self) -> Option<Seq<u8>> {
        if c_safe(self@) {
            Some(encode_utf8(self@))
        } else {
            None
        }
    }

    fn into_static_cstr(self) -> (r: Result<CText>) {
        cstring(self)
    }
}

/// Text is safe exactly where no character of it is NUL.
pub proof fn c_safe_is_without_nul(text: Seq<char>)
    ensures
        c_safe(text) <==> !text.contains('\0'),
{
    if !text.contains('\0') {
        assert forall|i: int| 0 <= i < text.len() implies text[i] != '\0' by {
            if text[i] == '\0' {
                assert(text.contains('\0'));
            }
        }
    }
}

/// A C string that comes back is the text whose encoding it is, whole, and no text where it is not UTF-8
/// or where there is none. What the caller owns is read in the same way, unless it is null.
pub proof fn replies_are_read_whole(bytes: Vec<u8>, text: Seq<char>, ptr: Address)
    ensures
        bytes@ == encode_utf8(text) ==> reply_text(Some(bytes)) == Some(text),
        reply_text(Some(bytes)) == Some(text) ==> encode_utf8(text) == bytes@,
        !valid_utf8(bytes@) ==> reply_text(Some(bytes)) is None,
        reply_text(None) is None,
        ptr != 0 && bytes@ == encode_utf8(text) ==> owned_text(ptr, bytes) == Some(text),
        ptr != 0 && !valid_utf8(bytes@) ==> owned_text(ptr, bytes) is None,
        ptr == 0 ==> owned_text(ptr, bytes) is None,
{
    encode_utf8_valid_utf8(text);
    encode_utf8_decode_utf8(text);
    if valid_utf8(bytes@) {
        decode_utf8_encode_utf8(bytes@);
    }
}

/// A text is what it was said to be exactly where both are there and agree, or neither is there.
pub proof fn texts_agree(s: Option<String>, t: Option<Seq<char>>)
    ensures
        text_is(s, t) ==> (s is Some <==> t is Some),
        text_is(s, t) && s is Some ==> s->0@ == t->0,
        s is None && t is None ==> text_is(s, t),
        s is Some && t is Some && s->0@ == t->0 ==> text_is(s, t),
{
}

/// A C string spells a text where its bytes are the encoding of it; one that may be missing is missing
/// where the text is. It can be made exactly where the text holds no NUL.
pub proof fn optional_texts_are_spelled(c: Option<&CText>, text: Option<&str>)
    ensures
        optional_spells(c, text) ==> (c is Some <==> text is Some),
        optional_spells(c, text) && text is Some ==> c->0@ == encode_utf8(text->0@),
        text is None ==> optional_safe(text),
        text matches Some(t) ==> (optional_safe(text) <==> !t@.contains('\0')),
{
    if let Some(t) = text {
        c_safe_is_without_nul(t@);
    }
}

/// Trimming takes white space off both ends and nothing else: what it leaves stands in the text with
/// white space around it, and neither starts nor ends with any.
pub proof fn trimming_takes_only_white_space(text: Seq<char>)
    ensures
        exists|head: Seq<char>, tail: Seq<char>|
            #![trigger head + trimmed(text) + tail]
            {
                &&& head + trimmed(text) + tail == text
                &&& forall|i: int| 0 <= i < head.len() ==> white(#[trigger] head[i])
                &&& forall|i: int| 0 <= i < tail.len() ==> white(#[trigger] tail[i])
            },
        trimmed(text).len() > 0 ==> !white(trimmed(text)[0]) && !white(trimmed(text).last()),
{
    trimmed_is_tight(text);
    let head = start_is_white(text);
    let tail = end_is_white(trim_start(text));
    assert(head + trimmed(text) + tail =~= head + (trimmed(text) + tail));
    assert(head + trimmed(text) + tail == text);
}

/// What is taken off the start.
proof fn start_is_white(text: Seq<char>) -> (head: Seq<char>)
    ensures
        head + trim_start(text) == text,
        forall|i: int| 0 <= i < head.len() ==> white(#[trigger] head[i]),
    decreases text.len(),
{
    if text.len() > 0 && white(text[0]) {
        let rest = start_is_white(text.drop_first());
        let head = seq![text[0]] + rest;
        assert(head + trim_start(text) =~= seq![text[0]] + (rest + trim_start(text)));
        assert(seq![text[0]] + text.drop_first() =~= text);
        head
    } else {
        assert(Seq::<char>::empty() + text =~= text);
        Seq::empty()
    }
}

/// What is taken off the end.
proof fn end_is_white(text: Seq<char>) -> (tail: Seq<char>)
    ensures
        trim_end(text) + tail == text,
        forall|i: int| 0 <= i < tail.len() ==> white(#[trigger] tail[i]),
    decreases text.len(),
{
    if text.len() > 0 && white(text.last()) {
        let rest = end_is_white(text.drop_last());
        let tail = rest.push(text.last());
        assert(trim_end(text) + tail =~= (trim_end(text) + rest).push(text.last()));
        assert(text.drop_last().push(text.last()) =~= text);
        tail
    } else {
        assert(text + Seq::<char>::empty() =~= text);
        Seq::empty()
    }
}

/// White space is what Unicode says it is.
pub proof fn white_space_is_unicode_white_space(c: char)
    ensures
        white(c) <==> {
            ||| c == '\t'
            ||| c == '\n'
            ||| c == '\u{b}'
            ||| c == '\u{c}'
            ||| c == '\r'
            ||| c == ' '
            ||| c == '\u{85}'
            ||| c == '\u{a0}'
            ||| c == '\u{1680}'
            ||| '\u{2000}' <= c <= '\u{200a}'
            ||| c == '\u{2028}'
            ||| c == '\u{2029}'
            ||| c == '\u{202f}'
            ||| c == '\u{205f}'
            ||| c == '\u{3000}'
        },
{
}

/// A command is the text that was sent without the white space around it, and none where nothing is left
/// of it, where it is not UTF-8 and where nothing was sent.
pub proof fn commands_are_trimmed(bytes: Vec<u8>, text: Seq<char>)
    requires
        bytes@ == encode_utf8(text),
    ensures
        command_of(None) is None,
        trimmed(text).len() > 0 ==> command_of(Some(bytes)) == Some(trimmed(text)),
        trimmed(text).len() == 0 ==> command_of(Some(bytes)) is None,
{
    replies_are_read_whole(bytes, text, 0);
}

/// The first zero byte is behind bytes that are none, and there is none exactly where no byte is zero.
pub proof fn first_zero_ends_the_text(bytes: Seq<u8>)
    ensures
        0 <= first_zero(bytes) <= bytes.len(),
        forall|i: int| 0 <= i < first_zero(bytes) ==> #[trigger] bytes[i] != 0,
        first_zero(bytes) < bytes.len() ==> bytes[first_zero(bytes)] == 0,
        !bytes.contains(0u8) <==> first_zero(bytes) == bytes.len(),
{
    first_zero_spec(bytes);
    let n = first_zero(bytes);
    assert forall|i: int| 0 <= i < n implies #[trigger] bytes[i] != 0 by {
        assert(bytes.take(n)[i] == bytes[i]);
    }
}

/// Text names an interface by its encoding, where it holds no NUL, and a C string names it as it is.
pub proof fn names_are_taken_as_they_are(text: &str, c: CText)
    ensures
        !text@.contains('\0') ==> text.c_form() == Some(encode_utf8(text@)),
        text@.contains('\0') ==> text.c_form() is None,
        c.c_form() == Some(c@),
{
    c_safe_is_without_nul(text@);
}

} // verus!
