use vstd::prelude::*;

use crate::errors::YabaiError;

verus! {

use vstd::slice::slice_subrange;
use vstd::slice::slice_to_vec;
use vstd::string::StrSliceExecFns;
use vstd::utf8::decode_utf8;
use vstd::utf8::encode_utf8;
use vstd::utf8::is_ascii_chars;
use vstd::utf8::valid_utf8;

/// The characters that trimming removes: the Unicode White_Space set, as
/// `str::trim` removes it.
pub open spec fn is_unicode_space(c: char) -> bool {
    let u = c as u32;
    (0x09 <= u && u <= 0x0d) || u == 0x20 || u == 0x85 || u == 0xa0 || u == 0x1680 || (0x2000 <= u
        && u <= 0x200a) || u == 0x2028 || u == 0x2029 || u == 0x202f || u == 0x205f || u == 0x3000
}

/// `s` without its leading whitespace.
pub open spec fn drop_leading_ws(s: Seq<char>) -> Seq<char>
    decreases s.len(),
{
    if s.len() > 0 && is_unicode_space(s[0]) {
        drop_leading_ws(s.skip(1))
    } else {
        s
    }
}

/// `s` without its trailing whitespace.
pub open spec fn drop_trailing_ws(s: Seq<char>) -> Seq<char>
    decreases s.len(),
{
    if s.len() > 0 && is_unicode_space(s.last()) {
        drop_trailing_ws(s.drop_last())
    } else {
        s
    }
}

/// `s` without leading and trailing whitespace.
pub open spec fn trim_message(s: Seq<char>) -> Seq<char> {
    drop_trailing_ws(drop_leading_ws(s))
}

/// The tokens of a trimmed message's UTF-8 bytes, split on every single
/// space byte.  Splitting keeps empty tokens: two spaces in a row yield an
/// empty token between them, and the empty message yields one empty token.
/// In UTF-8 the byte 0x20 occurs only as the space character itself, so
/// splitting the bytes is splitting the characters.
pub open spec fn split_tokens(s: Seq<u8>) -> Seq<Seq<u8>>
    decreases s.len(),
{
    if s.len() == 0 {
        seq![Seq::<u8>::empty()]
    } else if s[0] == 0x20u8 {
        seq![Seq::<u8>::empty()] + split_tokens(s.skip(1))
    } else {
        let rest = split_tokens(s.skip(1));
        seq![seq![s[0]] + rest[0]] + rest.skip(1)
    }
}

/// The tokens joined by a single null byte between neighbours.
pub open spec fn join_nulls(ts: Seq<Seq<u8>>) -> Seq<u8>
    decreases ts.len(),
{
    if ts.len() == 0 {
        Seq::<u8>::empty()
    } else if ts.len() == 1 {
        ts[0]
    } else {
        ts[0] + seq![0u8] + join_nulls(ts.skip(1))
    }
}

/// `s` with every space byte replaced by a null byte.
pub open spec fn spaces_to_nulls(s: Seq<u8>) -> Seq<u8> {
    Seq::new(s.len(), |i: int| if s[i] == 0x20u8 { 0u8 } else { s[i] })
}

/// The payload of a request: the whitespace-trimmed message's
/// space-separated tokens, as UTF-8, joined by null bytes and terminated
/// by two more null bytes.
pub open spec fn request_payload(msg: Seq<char>) -> Seq<u8> {
    join_nulls(split_tokens(encode_utf8(trim_message(msg)))) + seq![0u8, 0u8]
}

/// The 4-byte little-endian rendering of `n`.
pub open spec fn le_length(n: u32) -> Seq<u8> {
    seq![
        (n & 0xff) as u8,
        ((n >> 8u32) & 0xff) as u8,
        ((n >> 16u32) & 0xff) as u8,
        ((n >> 24u32) & 0xff) as u8,
    ]
}

/// The full frame for a message: the payload length as a little-endian
/// 4-byte prefix, then the payload.  Meaningful when the payload length
/// fits the length field.
pub open spec fn request_frame(msg: Seq<char>) -> Seq<u8> {
    le_length(request_payload(msg).len() as u32) + request_payload(msg)
}

/// The little-endian bytes of `le_length` really carry the value `n`.
pub proof fn lemma_le_length_value(n: u32)
    ensures
        le_length(n).len() == 4,
        le_length(n)[0] + 0x100 * le_length(n)[1] + 0x10000 * le_length(n)[2] + 0x1000000
            * le_length(n)[3] == n,
{
    assert((n & 0xff) + 0x100 * ((n >> 8u32) & 0xff) + 0x10000 * ((n >> 16u32) & 0xff) + 0x1000000
        * ((n >> 24u32) & 0xff) == n) by (bit_vector);
    assert((n & 0xff) < 256 && ((n >> 8u32) & 0xff) < 256 && ((n >> 16u32) & 0xff) < 256 && ((n
        >> 24u32) & 0xff) < 256) by (bit_vector);
}

/// Framing depends only on the trimmed message: two messages with the
/// same whitespace-trimmed characters frame to the same bytes.
pub proof fn lemma_frame_trim_invariant(s1: Seq<char>, s2: Seq<char>)
    requires
        trim_message(s1) == trim_message(s2),
    ensures
        request_payload(s1) == request_payload(s2),
        request_frame(s1) == request_frame(s2),
{
}

/// Splitting always yields at least one token.
pub proof fn lemma_split_tokens_nonempty(s: Seq<u8>)
    ensures
        split_tokens(s).len() >= 1,
    decreases s.len(),
{
    if s.len() == 0 {
    } else if s[0] == 0x20u8 {
        lemma_split_tokens_nonempty(s.skip(1));
    } else {
        lemma_split_tokens_nonempty(s.skip(1));
    }
}

/// Joining the split tokens with nulls is the same as replacing every space
/// by a null: splitting only ever cuts at spaces, and joining puts one null
/// where each cut was.
pub proof fn lemma_join_split(s: Seq<u8>)
    ensures
        join_nulls(split_tokens(s)) == spaces_to_nulls(s),
    decreases s.len(),
{
    if s.len() == 0 {
        assert(join_nulls(split_tokens(s)) =~= spaces_to_nulls(s));
    } else if s[0] == 0x20u8 {
        lemma_join_split(s.skip(1));
        lemma_split_tokens_nonempty(s.skip(1));
        let rest = split_tokens(s.skip(1));
        assert((seq![Seq::<u8>::empty()] + rest).skip(1) =~= rest);
        assert(join_nulls(seq![Seq::<u8>::empty()] + rest) =~= seq![0u8] + join_nulls(rest));
        assert(seq![0u8] + spaces_to_nulls(s.skip(1)) =~= spaces_to_nulls(s));
    } else {
        lemma_join_split(s.skip(1));
        lemma_split_tokens_nonempty(s.skip(1));
        let rest = split_tokens(s.skip(1));
        let combined = seq![seq![s[0]] + rest[0]] + rest.skip(1);
        if rest.len() == 1 {
            assert(combined.len() == 1);
            assert(join_nulls(combined) == seq![s[0]] + rest[0]);
            assert(join_nulls(rest) == rest[0]);
            assert(seq![s[0]] + spaces_to_nulls(s.skip(1)) =~= spaces_to_nulls(s));
        } else {
            assert(combined.len() >= 2);
            assert(combined.skip(1) =~= rest.skip(1));
            assert(join_nulls(combined) == combined[0] + seq![0u8] + join_nulls(combined.skip(1)));
            assert(join_nulls(rest) == rest[0] + seq![0u8] + join_nulls(rest.skip(1)));
            assert(join_nulls(combined) =~= seq![s[0]] + join_nulls(rest));
            assert(seq![s[0]] + spaces_to_nulls(s.skip(1)) =~= spaces_to_nulls(s));
        }
    }
}

/// If the first `i` characters are whitespace and character `i` (when
/// there is one) is not, dropping leading whitespace drops exactly `i`.
proof fn lemma_drop_leading_ws_at(s: Seq<char>, i: int)
    requires
        0 <= i <= s.len(),
        forall|j: int| 0 <= j < i ==> is_unicode_space(s[j]),
        i < s.len() ==> !is_unicode_space(s[i]),
    ensures
        drop_leading_ws(s) == s.skip(i),
    decreases i,
{
    if i == 0 {
        assert(s.skip(0) =~= s);
    } else {
        lemma_drop_leading_ws_at(s.skip(1), i - 1);
        assert(s.skip(1).skip(i - 1) =~= s.skip(i));
    }
}

/// If the characters from `e` on are whitespace and character `e - 1`
/// (when there is one) is not, dropping trailing whitespace keeps exactly
/// the first `e`.
proof fn lemma_drop_trailing_ws_at(s: Seq<char>, e: int)
    requires
        0 <= e <= s.len(),
        forall|j: int| e <= j < s.len() ==> is_unicode_space(s[j]),
        e > 0 ==> !is_unicode_space(s[e - 1]),
    ensures
        drop_trailing_ws(s) == s.take(e),
    decreases s.len(),
{
    if e == s.len() {
        if s.len() > 0 {
            assert(!is_unicode_space(s.last()));
        }
        assert(s.take(e) =~= s);
    } else {
        assert(is_unicode_space(s.last()));
        lemma_drop_trailing_ws_at(s.drop_last(), e);
        assert(s.drop_last().take(e) =~= s.take(e));
    }
}

/// Dropping leading whitespace never lengthens a message and keeps an
/// ASCII message ASCII.
proof fn lemma_drop_leading_ws_props(s: Seq<char>)
    ensures
        drop_leading_ws(s).len() <= s.len(),
        is_ascii_chars(s) ==> is_ascii_chars(drop_leading_ws(s)),
    decreases s.len(),
{
    if s.len() > 0 && is_unicode_space(s[0]) {
        if is_ascii_chars(s) {
            assert forall|i: int|
                0 <= i < s.skip(1).len() implies '\0' <= #[trigger] s.skip(1)[i] <= '\u{7f}' by {
                assert(s.skip(1)[i] == s[i + 1]);
            }
        }
        lemma_drop_leading_ws_props(s.skip(1));
    }
}

/// Dropping trailing whitespace never lengthens a message and keeps an
/// ASCII message ASCII.
proof fn lemma_drop_trailing_ws_props(s: Seq<char>)
    ensures
        drop_trailing_ws(s).len() <= s.len(),
        is_ascii_chars(s) ==> is_ascii_chars(drop_trailing_ws(s)),
    decreases s.len(),
{
    if s.len() > 0 && is_unicode_space(s.last()) {
        if is_ascii_chars(s) {
            assert forall|i: int|
                0 <= i < s.drop_last().len() implies '\0' <= #[trigger] s.drop_last()[i]
                    <= '\u{7f}' by {
                assert(s.drop_last()[i] == s[i]);
            }
        }
        lemma_drop_trailing_ws_props(s.drop_last());
    }
}

/// Trimming never lengthens a message and keeps an ASCII message ASCII.
pub proof fn lemma_trim_message_ascii_len(s: Seq<char>)
    ensures
        trim_message(s).len() <= s.len(),
        is_ascii_chars(s) ==> is_ascii_chars(trim_message(s)),
{
    lemma_drop_leading_ws_props(s);
    lemma_drop_trailing_ws_props(drop_leading_ws(s));
}

/// The payload is exactly the trimmed message's UTF-8 length plus its two
/// terminating null bytes: joining with nulls puts one byte back for every
/// space that splitting removed.
pub proof fn lemma_request_payload_len(msg: Seq<char>)
    ensures
        request_payload(msg).len() == encode_utf8(trim_message(msg)).len() + 2,
{
    lemma_join_split(encode_utf8(trim_message(msg)));
}

/// Whether `c` is in the Unicode White_Space set.
fn is_space_char(c: char) -> (r: bool)
    ensures
        r == is_unicode_space(c),
{
    let u = c as u32;
    (0x09 <= u && u <= 0x0d) || u == 0x20 || u == 0x85 || u == 0xa0 || u == 0x1680 || (0x2000 <= u
        && u <= 0x200a) || u == 0x2028 || u == 0x2029 || u == 0x202f || u == 0x205f || u == 0x3000
}

/// `s` without its leading and trailing Unicode whitespace, found and cut
/// at character boundaries.
pub fn trim_whitespace<'a>(s: &'a str) -> (r: &'a str)
    ensures
        r@ == trim_message(s@),
{
    let n = s.unicode_len();
    let mut start: usize = 0;
    while start < n && is_space_char(s.get_char(start))
        invariant
            0 <= start <= n,
            n == s@.len(),
            forall|j: int| 0 <= j < start ==> is_unicode_space(s@[j]),
        decreases n - start,
    {
        start = start + 1;
    }
    let mut end: usize = n;
    while end > start && is_space_char(s.get_char(end - 1))
        invariant
            start <= end <= n,
            n == s@.len(),
            forall|j: int| 0 <= j < start ==> is_unicode_space(s@[j]),
            forall|j: int| end <= j < n ==> is_unicode_space(s@[j]),
        decreases end,
    {
        end = end - 1;
    }
    proof {
        lemma_drop_leading_ws_at(s@, start as int);
        lemma_drop_trailing_ws_at(s@.skip(start as int), end - start);
        assert(s@.skip(start as int).take(end - start) =~= s@.subrange(
            start as int,
            end as int,
        ));
    }
    s.substring_char(start, end)
}

/// Builds the request payload for a message: the message's Unicode
/// whitespace is trimmed at both ends, the space-separated tokens of what
/// remains are joined by null bytes, and two null bytes terminate the
/// whole.
pub fn encode_payload(message: &str) -> (r: Vec<u8>)
    ensures
        r@ == request_payload(message@),
{
    let trimmed = trim_whitespace(message);
    let bytes: &[u8] = trimmed.as_bytes();
    let mut out: Vec<u8> = Vec::new();
    let n = bytes.len();
    let mut i: usize = 0;
    while i < n
        invariant
            0 <= i <= n,
            n == bytes@.len(),
            bytes@ == encode_utf8(trim_message(message@)),
            out@.len() == i,
            forall|k: int| 0 <= k < i ==> out@[k] == spaces_to_nulls(bytes@)[k],
        decreases n - i,
    {
        let b = bytes[i];
        if b == 0x20u8 {
            out.push(0u8);
        } else {
            out.push(b);
        }
        i = i + 1;
    }
    out.push(0u8);
    out.push(0u8);
    proof {
        lemma_join_split(bytes@);
        assert(out@ =~= spaces_to_nulls(bytes@) + seq![0u8, 0u8]);
    }
    out
}

/// Frames a payload behind its 4-byte little-endian length.  The daemon
/// reads the length first, so a payload longer than the field can carry is
/// refused rather than truncated.
pub fn frame_payload(payload: Vec<u8>) -> (r: Result<Vec<u8>, YabaiError>)
    ensures
        payload@.len() <= u32::MAX ==> (r matches Ok(b) && b@ == le_length(
            payload@.len() as u32,
        ) + payload@),
        payload@.len() > u32::MAX ==> (r matches Err(e) && e is FormatError),
{
    if payload.len() > u32::MAX as usize {
        return Err(YabaiError::FormatError(String::from_str("message too long for frame")));
    }
    let n = payload.len() as u32;
    let mut out: Vec<u8> = Vec::new();
    out.push((n & 0xff) as u8);
    out.push(((n >> 8u32) & 0xff) as u8);
    out.push(((n >> 16u32) & 0xff) as u8);
    out.push(((n >> 24u32) & 0xff) as u8);
    let mut body = payload;
    out.append(&mut body);
    proof {
        assert(out@ =~= le_length(n) + payload@);
    }
    Ok(out)
}

/// Relies on `String::from_utf8`: it succeeds exactly on valid UTF-8 input,
/// and returns the string those bytes encode.
#[verifier::external_body]
fn string_from_utf8(bytes: Vec<u8>) -> (r: Option<String>)
    ensures
        r is Some <==> valid_utf8(bytes@),
        r matches Some(s) ==> s@ == decode_utf8(bytes@),
{
    String::from_utf8(bytes).ok()
}

/// Interprets the daemon's raw reply to `command`.  Zero bytes mean the
/// command had no result.  A first byte of 0x07 is the daemon's error
/// sentinel: the remaining bytes are its error message, reported together
/// with the command that caused it.  Any other non-empty buffer is the
/// response text itself.  A buffer whose text part is not valid UTF-8 is a
/// format error.
pub fn decode_response(command: &str, buffer: &[u8]) -> (r: Result<Option<String>, YabaiError>)
    ensures
        buffer@.len() == 0 ==> (r matches Ok(resp) && resp is None),
        (buffer@.len() > 0 && buffer@[0] == 0x07u8 && valid_utf8(buffer@.skip(1))) ==> (r matches Err(
            e,
        ) && (e matches YabaiError::CommandError { command: c, message: m } && c@ == command@ && m@
            == decode_utf8(buffer@.skip(1)))),
        (buffer@.len() > 0 && buffer@[0] == 0x07u8 && !valid_utf8(buffer@.skip(1))) ==> (r matches Err(
            e,
        ) && e is FormatError),
        (buffer@.len() > 0 && buffer@[0] != 0x07u8 && valid_utf8(buffer@)) ==> (r matches Ok(resp)
            && (resp matches Some(s) && s@ == decode_utf8(buffer@))),
        (buffer@.len() > 0 && buffer@[0] != 0x07u8 && !valid_utf8(buffer@)) ==> (r matches Err(e)
            && e is FormatError),
{
    if buffer.len() == 0 {
        return Ok(None);
    }
    if buffer[0] == 0x07u8 {
        let rest = slice_subrange(buffer, 1, buffer.len());
        match string_from_utf8(slice_to_vec(rest)) {
            Some(message) => Err(
                YabaiError::CommandError { command: command.to_owned(), message },
            ),
            None => Err(
                YabaiError::FormatError(
                    String::from_str("daemon error message is not valid UTF-8"),
                ),
            ),
        }
    } else {
        match string_from_utf8(slice_to_vec(buffer)) {
            Some(s) => Ok(Some(s)),
            None => Err(
                YabaiError::FormatError(String::from_str("response is not valid UTF-8")),
            ),
        }
    }
}

} // verus!
