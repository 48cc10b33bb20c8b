//! Regular expressions of the core.
//!
//! [`Regex`] holds a compiled pattern and its text; [`RegexMatch`] what matching it against one
//! subject found.

use vstd::prelude::*;
use vstd::utf8::{decode_utf8, encode_utf8, encode_utf8_decode_utf8, encode_utf8_valid_utf8,
    valid_utf8};
use crate::command::{c_safe, cstring, first_zero, utf8_text, CText};
use crate::framing::append_copy;
use crate::handle::{allocated, Address, At, Handle, NULL};
use crate::status::{generic_error, RawStatus, Result, SwitchError, SUCCESS};

verus! {

/// The 32 bits of an option set as a signed number.
pub open spec fn signed_bits(options: u32) -> i32 {
    if options < 0x8000_0000 {
        options as i32
    } else {
        (options - 0x1_0000_0000) as i32
    }
}

/// The 32 bits of an option set as a signed number.
fn to_signed_bits(options: u32) -> (r: i32)
    ensures
        r == signed_bits(options),
{
    if options < 0x8000_0000 {
        options as i32
    } else {
        (options as i64 - 0x1_0000_0000) as i32
    }
}

/// A compiled pattern.
#[derive(Debug)]
pub struct Regex {
    raw: Handle,
    pattern: CText,
}

impl At for Regex {
    closed spec fn addr(&self) -> Address {
        self.raw.addr()
    }
}

/// What the core answers when it matches: the number of capture pairs, the address of the pattern
/// that it compiled for the purpose, and the address of what it found.
#[derive(Debug, Copy, Clone, PartialEq, Eq, Structural)]
pub struct Performed {
    pub count: i32,
    pub re: Address,
    pub match_data: Address,
}

/// Whether `r` is what a match amounts to: nothing without a count, an error for a count without
/// data, else the match.
pub open spec fn match_read(r: Result<Option<RegexMatch>>, reply: Performed) -> bool {
    if reply.count <= 0 {
        r matches Ok(None)
    } else if reply.match_data == NULL {
        r == Err::<Option<RegexMatch>, SwitchError>(generic_error())
    } else {
        r matches Ok(Some(m)) && m.addr() == reply.match_data && m.pairs() == reply.count
    }
}

impl Regex {
    /// The text of the pattern as a C string.
    pub closed spec fn source(&self) -> CText {
        self.pattern
    }

    /// Compiles a pattern with a set of options. A pattern that does not compile is an error.
    pub fn compile<F>(pattern: &str, options: u32, call: F) -> (r: Result<Regex>)
        where
            F: FnOnce(&CText, i32) -> Address,
        requires
            c_safe(pattern@) ==> forall|p: CText|
                #![trigger call.requires((&p, signed_bits(options)))]
                p.spells(pattern@) ==> call.requires((&p, signed_bits(options))),
        ensures
            !c_safe(pattern@) ==> r == Err::<Regex, SwitchError>(generic_error()),
            c_safe(pattern@) ==> exists|p: CText, raw: Address|
                p.spells(pattern@) && #[trigger] call.ensures((&p, signed_bits(options)), raw)
                    && if raw == NULL {
                    r == Err::<Regex, SwitchError>(generic_error())
                } else {
                    r matches Ok(x) && x.addr() == raw && x.source() == p
                },
    {
        let pat = cstring(pattern)?;
        let raw = allocated(call(&pat, to_signed_bits(options)))?;
        Ok(Regex { raw, pattern: pat })
    }

    /// Takes over a compiled pattern with its text; `None` for the null pointer.
    pub fn from_raw(raw: Address, pattern: CText) -> (r: Option<Regex>)
        ensures
            r is Some <==> raw != NULL,
            r matches Some(x) ==> x.addr() == raw && x.source() == pattern,
    {
        match Handle::new(raw) {
            Some(raw) => Some(Regex { raw, pattern }),
            None => None,
        }
    }

    /// The address of the compiled pattern, which is never null.
    pub fn as_ptr(&self) -> (r: Address)
        ensures
            r == self.addr(),
            r != NULL,
    {
        self.raw.as_ptr()
    }

    /// The text of the pattern; empty where it is not UTF-8.
    pub fn pattern(&self) -> (r: String)
        ensures
            r@ == if valid_utf8(self.source()@) {
                decode_utf8(self.source()@)
            } else {
                Seq::empty()
            },
    {
        match self.pattern.to_str() {
            Some(text) => text,
            None => String::new(),
        }
    }

    /// Matches a subject. `perform` is handed the subject and the pattern; the pattern that it
    /// compiles on the way is freed by `free`, whatever the outcome.
    pub fn matches<F, D>(&self, subject: &str, perform: F, free: D) -> (r: Result<
        Option<RegexMatch>,
    >)
        where
            F: FnOnce(&CText, &CText) -> Performed,
            D: FnOnce(Address),
        requires
            c_safe(subject@) ==> forall|s: &CText|
                #![trigger perform.requires((s, &self.source()))]
                s.spells(subject@) ==> perform.requires((s, &self.source())),
            forall|s: &CText, reply: Performed| #[trigger]
                perform.ensures((s, &self.source()), reply) && s.spells(subject@) && reply.re != NULL
                    ==> free.requires((reply.re,)),
        ensures
            !c_safe(subject@) ==> r == Err::<Option<RegexMatch>, SwitchError>(generic_error()),
            c_safe(subject@) ==> exists|s: &CText, reply: Performed|
                s.spells(subject@) && #[trigger] perform.ensures((s, &self.source()), reply)
                    && match_read(r, reply) && (reply.re != NULL ==> free.ensures((reply.re,), ())),
    {
        let field = cstring(subject)?;
        proof {
            assert(self.source() == self.pattern);
        }
        let reply = perform(&field, &self.pattern);
        if reply.re != NULL {
            free(reply.re);
        }
        if reply.count <= 0 {
            return Ok(None);
        }
        match Handle::new(reply.match_data) {
            Some(raw) => Ok(Some(RegexMatch { raw, group_count: reply.count })),
            None => Err(SwitchError::generic()),
        }
    }

    /// Whether a subject matches. A subject that cannot be matched does not. `drop_match` frees what
    /// was found.
    pub fn is_match<F, D, M>(&self, subject: &str, perform: F, free: D, drop_match: M) -> (r: bool)
        where
            F: FnOnce(&CText, &CText) -> Performed,
            D: FnOnce(Address),
            M: FnOnce(Address),
        requires
            c_safe(subject@) ==> forall|s: &CText|
                #![trigger perform.requires((s, &self.source()))]
                s.spells(subject@) ==> perform.requires((s, &self.source())),
            forall|s: &CText, reply: Performed| #[trigger]
                perform.ensures((s, &self.source()), reply) && s.spells(subject@) && reply.re != NULL
                    ==> free.requires((reply.re,)),
            forall|s: &CText, reply: Performed| #[trigger]
                perform.ensures((s, &self.source()), reply) && s.spells(subject@) && reply.count > 0
                    && reply.match_data != NULL ==> drop_match.requires((reply.match_data,)),
        ensures
            !c_safe(subject@) ==> !r,
            c_safe(subject@) ==> exists|s: &CText, reply: Performed|
                s.spells(subject@) && #[trigger] perform.ensures((s, &self.source()), reply) && r
                    == (reply.count > 0 && reply.match_data != NULL) && (reply.re != NULL
                    ==> free.ensures((reply.re,), ())) && (r ==> drop_match.ensures(
                    (reply.match_data,),
                    (),
                )),
    {
        match self.matches(subject, perform, free) {
            Ok(Some(m)) => {
                drop_match(m.as_ptr());
                true
            },
            _ => false,
        }
    }
}

/// What matching a pattern against one subject found.
#[derive(Debug)]
pub struct RegexMatch {
    raw: Handle,
    group_count: i32,
}

impl At for RegexMatch {
    closed spec fn addr(&self) -> Address {
        self.raw.addr()
    }
}

/// What the core answers when it copies a group: a return code, a size, and the bytes that it put
/// at the head of the buffer.
#[derive(Debug)]
pub struct Copied {
    pub rc: i32,
    pub size: usize,
    pub bytes: Vec<u8>,
}

/// The room for a group in the first attempt to copy it.
pub const FIRST_CAPTURE_ROOM: usize = 256;

/// Whether an answer that reports success holds as many bytes as it says.
pub open spec fn holds_size(reply: Copied) -> bool {
    reply.size <= reply.bytes@.len()
}

/// Whether `r` is the text of the first `size` bytes, or an error where they are not UTF-8.
pub open spec fn captured(r: Result<Option<String>>, bytes: Seq<u8>, size: int) -> bool {
    if valid_utf8(bytes.take(size)) {
        r matches Ok(Some(s)) && s@ == decode_utf8(bytes.take(size))
    } else {
        r == Err::<Option<String>, SwitchError>(generic_error())
    }
}

/// The text of the first `size` bytes.
fn captured_text(bytes: &Vec<u8>, size: usize) -> (r: Result<Option<String>>)
    requires
        size <= bytes@.len(),
    ensures
        captured(r, bytes@, size as int),
{
    let (head, _) = bytes.as_slice().split_at(size);
    let mut copy: Vec<u8> = Vec::new();
    append_copy(&mut copy, head);
    proof {
        assert(copy@ =~= bytes@.take(size as int));
    }
    match utf8_text(copy) {
        Some(text) => Ok(Some(text)),
        None => Err(SwitchError::generic()),
    }
}

impl RegexMatch {
    /// The number of capture pairs that the core reported.
    pub closed spec fn pairs(&self) -> i32 {
        self.group_count
    }

    /// The number of groups, the whole match among them.
    pub open spec fn groups(&self) -> nat {
        if self.pairs() < 0 {
            0
        } else {
            self.pairs() as nat
        }
    }

    /// Takes over what a match found; `None` for the null pointer.
    pub fn from_raw(raw: Address, group_count: i32) -> (r: Option<RegexMatch>)
        ensures
            r is Some <==> raw != NULL,
            r matches Some(m) ==> m.addr() == raw && m.pairs() == group_count,
    {
        match Handle::new(raw) {
            Some(raw) => Some(RegexMatch { raw, group_count }),
            None => None,
        }
    }

    /// The address of what was found, which is never null.
    pub fn as_ptr(&self) -> (r: Address)
        ensures
            r == self.addr(),
            r != NULL,
    {
        self.raw.as_ptr()
    }

    /// The number of groups, the whole match among them; none for a negative count.
    pub fn group_count(&self) -> (r: u32)
        ensures
            r == self.groups(),
    {
        if self.group_count < 0 {
            0
        } else {
            self.group_count as u32
        }
    }

    /// The text of a group; 0 is the whole match. `None` for a group that is not there or took no
    /// part in the match.
    ///
    /// `copy` is handed the group and the room for it. A negative code with a size of zero says that
    /// the group took no part; with another size it says that so many bytes are needed, and the copy
    /// is tried once more with room for them and a terminator. Any failure then is an error, as is
    /// text that is not UTF-8. A code of success comes with no more bytes than there was room for.
    pub fn capture<F>(&self, index: u32, copy: F) -> (r: Result<Option<String>>)
        where
            F: Fn(Address, i32, usize) -> Copied,
        requires
            index < self.groups() ==> copy.requires((self.addr(), index as i32, FIRST_CAPTURE_ROOM)),
            forall|first: Copied| #[trigger]
                copy.ensures((self.addr(), index as i32, FIRST_CAPTURE_ROOM), first) && index
                    < self.groups() && first.rc < 0 && first.size > 0 ==> copy.requires(
                    (self.addr(), index as i32, (first.size + 1) as usize),
                ),
            forall|a: Address, b: i32, c: usize, v: Copied| #[trigger]
                copy.ensures((a, b, c), v) && v.rc >= 0 ==> holds_size(v),
            forall|a: Address, b: i32, c: usize, v: Copied| #[trigger]
                copy.ensures((a, b, c), v) && v.rc < 0 ==> v.size < usize::MAX,
        ensures
            index >= self.groups() ==> r matches Ok(None),
            index < self.groups() ==> exists|first: Copied| #[trigger]
                copy.ensures((self.addr(), index as i32, FIRST_CAPTURE_ROOM), first) && if first.rc
                    >= 0 {
                    captured(r, first.bytes@, first.size as int)
                } else if first.size == 0 {
                    r matches Ok(None)
                } else {
                    exists|second: Copied| #[trigger]
                        copy.ensures(
                            (self.addr(), index as i32, (first.size + 1) as usize),
                            second,
                        ) && if second.rc != 0 {
                            r == Err::<Option<String>, SwitchError>(generic_error())
                        } else {
                            captured(r, second.bytes@, second.size as int)
                        }
                },
    {
        if index >= self.group_count() {
            return Ok(None);
        }
        let number: i32 = index as i32;
        proof {
            assert(number == index as i32);
        }
        let first = copy(self.as_ptr(), number, FIRST_CAPTURE_ROOM);
        if first.rc < 0 && first.size == 0 {
            return Ok(None);
        }
        if first.rc < 0 {
            let need: usize = first.size + 1;
            proof {
                assert(need == (first.size + 1) as usize);
            }
            let second = copy(self.as_ptr(), number, need);
            if second.rc != 0 {
                return Err(SwitchError::generic());
            }
            return captured_text(&second.bytes, second.size);
        }
        captured_text(&first.bytes, first.size)
    }

    /// Puts the groups into a template and returns the result. `substitute` is handed the room for
    /// it, which is eight times the template but no less than 257 bytes, and returns the buffer as
    /// it then is. A result that is not UTF-8 is an error.
    pub fn substitute<F>(&self, template: &str, substitute: F) -> (r: Result<String>)
        where
            F: FnOnce(Address, &CText, usize) -> Vec<u8>,
        requires
            encode_utf8(template@).len() * 8 < usize::MAX,
            c_safe(template@) ==> forall|t: &CText|
                #![trigger substitute.requires((self.addr(), t, substitution_room(t@.len())))]
                t.spells(template@) ==> substitute.requires((self.addr(), t,
                    substitution_room(t@.len()))),
        ensures
            !c_safe(template@) ==> r == Err::<String, SwitchError>(generic_error()),
            c_safe(template@) ==> exists|t: &CText, out: Vec<u8>|
                t.spells(template@) && #[trigger] substitute.ensures(
                    (self.addr(), t, substitution_room(t@.len())),
                    out,
                ) && {
                    let text = out@.take(first_zero(out@));
                    if valid_utf8(text) {
                        r matches Ok(s) && s@ == decode_utf8(text)
                    } else {
                        r == Err::<String, SwitchError>(generic_error())
                    }
                },
    {
        let tmpl = cstring(template)?;
        let len: usize = tmpl.to_bytes().len();
        let cap: usize = if len * 8 < 256 {
            257
        } else {
            len * 8 + 1
        };
        proof {
            assert(cap == substitution_room(tmpl@.len()));
        }
        let out = substitute(self.as_ptr(), &tmpl, cap);
        let text = CText::from_memory(out.as_slice());
        match text.to_str() {
            Some(s) => Ok(s),
            None => Err(SwitchError::generic()),
        }
    }
}

/// The room for the result of a substitution into a template of `len` bytes.
pub open spec fn substitution_room(len: nat) -> usize {
    if len * 8 < 256 {
        257
    } else {
        (len * 8 + 1) as usize
    }
}

/// What comes out of a compiled pattern is the text that went in.
pub proof fn pattern_round_trip(x: Regex, text: Seq<char>)
    requires
        x.source().spells(text),
    ensures
        valid_utf8(x.source()@),
        decode_utf8(x.source()@) == text,
{
    encode_utf8_valid_utf8(text);
    encode_utf8_decode_utf8(text);
}

/// Whether `subject` matches `expression`.
pub fn is_match<F>(subject: &str, expression: &str, call: F) -> (r: Result<bool>)
    where
        F: FnOnce(&CText, &CText) -> RawStatus,
    requires
        c_safe(subject@) && c_safe(expression@) ==> forall|s: &CText, e: &CText|
            #![trigger call.requires((s, e))]
            s.spells(subject@) && e.spells(expression@) ==> call.requires((s, e)),
    ensures
        !(c_safe(subject@) && c_safe(expression@)) ==> r == Err::<bool, SwitchError>(
            generic_error(),
        ),
        c_safe(subject@) && c_safe(expression@) ==> exists|s: &CText, e: &CText, reply: RawStatus|
            s.spells(subject@) && e.spells(expression@) && #[trigger] call.ensures((s, e), reply)
                && r == Ok::<bool, SwitchError>(reply == SUCCESS),
{
    let s = cstring(subject)?;
    let e = cstring(expression)?;
    let status: RawStatus = call(&s, &e);
    Ok(status == SUCCESS)
}

/// Whether `subject` matches `expression` wholly (`Some(true)`), in part (`Some(false)`) or not at
/// all (`None`). `call` returns the status and the mark of a match in part.
pub fn is_match_partial<F>(subject: &str, expression: &str, call: F) -> (r: Result<Option<bool>>)
    where
        F: FnOnce(&CText, &CText) -> (RawStatus, i32),
    requires
        c_safe(subject@) && c_safe(expression@) ==> forall|s: &CText, e: &CText|
            #![trigger call.requires((s, e))]
            s.spells(subject@) && e.spells(expression@) ==> call.requires((s, e)),
    ensures
        !(c_safe(subject@) && c_safe(expression@)) ==> r == Err::<Option<bool>, SwitchError>(
            generic_error(),
        ),
        c_safe(subject@) && c_safe(expression@) ==> exists|
            s: &CText,
            e: &CText,
            status: RawStatus,
            partial: i32,
        |
            s.spells(subject@) && e.spells(expression@) && #[trigger] call.ensures(
                (s, e),
                (status, partial),
            ) && r == Ok::<Option<bool>, SwitchError>(
                if status == SUCCESS {
                    Some(partial == 0)
                } else {
                    None
                },
            ),
{
    let s = cstring(subject)?;
    let e = cstring(expression)?;
    let (status, partial) = call(&s, &e);
    if status == SUCCESS {
        Ok(Some(partial == 0))
    } else {
        Ok(None)
    }
}

/// Options are handed over bit for bit: as they are where they are not negative as a C integer, and
/// otherwise less by two to the 32nd.
pub proof fn options_keep_their_bits(options: u32)
    ensures
        options < 0x8000_0000 ==> signed_bits(options) == options,
        options >= 0x8000_0000 ==> signed_bits(options) < 0,
        (options - signed_bits(options)) % 0x1_0000_0000 == 0,
{
}

/// Nothing matched where the count is not positive. Where it is, the match is the one at the address that
/// came back, with as many groups, and without an address the error is the general one.
pub proof fn matches_have_their_groups(r: Result<Option<RegexMatch>>, reply: Performed)
    requires
        match_read(r, reply),
    ensures
        r is Err <==> reply.count > 0 && reply.match_data == 0,
        r matches Err(e) ==> e.0.0 == 9,
        r matches Ok(m) ==> (m is Some <==> reply.count > 0),
        r matches Ok(Some(m)) ==> m.addr() == reply.match_data && m.groups() == reply.count,
{
}

/// A group that was captured is the text whose encoding it is, whole, and the general error where it is
/// no UTF-8.
pub proof fn captures_are_read_whole(
    r: Result<Option<String>>,
    bytes: Seq<u8>,
    size: int,
    text: Seq<char>,
)
    requires
        captured(r, bytes, size),
        0 <= size <= bytes.len(),
    ensures
        bytes.subrange(0, size) == encode_utf8(text) ==> (r matches Ok(Some(s)) && s@ == text),
        !valid_utf8(bytes.subrange(0, size)) ==> (r matches Err(e) && e.0.0 == 9),
{
    encode_utf8_valid_utf8(text);
    encode_utf8_decode_utf8(text);
    assert(bytes.take(size) =~= bytes.subrange(0, size));
}

/// A match has as many groups as it has pairs, and none where their number is negative.
pub proof fn groups_are_never_negative(m: RegexMatch)
    ensures
        m.pairs() >= 0 ==> m.groups() == m.pairs(),
        m.pairs() < 0 ==> m.groups() == 0,
{
}

/// A substitution has room for eight times the subject and a closing zero, and for no fewer than 257
/// bytes, and no more than either asks for.
pub proof fn substitutions_have_room(len: nat)
    requires
        len * 8 + 1 <= usize::MAX,
    ensures
        substitution_room(len) > len * 8,
        substitution_room(len) >= 257,
        substitution_room(len) == 257 || substitution_room(len) == len * 8 + 1,
{
}

} // verus!
