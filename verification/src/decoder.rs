//! Reading one part of a stream back into its boundary token, its byte
//! count and its payload.

use crate::encoder::{append_bytes, append_decimal};
use crate::wire::{
    content_length_key, content_type_line, decimal, digits_start, first_line_end, is_part,
    key_start, lemma_encode_then_parse, lemma_first_line_end_is_unique, lemma_parsed_is_part,
    lemma_part_layout,
    line_end, line_end_at, media_start, parsed, part_bytes, part_opening, payload_start,
    token_is_closed, token_start, CR, LF,
};
use vstd::prelude::*;
use vstd::string::*;

verus! {

/// One part read back from the wire.
#[derive(Debug, PartialEq, Eq)]
pub struct Part {
    pub boundary: Vec<u8>,
    pub content_length: usize,
    pub payload: Vec<u8>,
}

/// Whether `bytes`, with its token ending at `token_end` and its digits at
/// `digits_end`, has every piece of a part in place.
spec fn pieces_in_place(bytes: Seq<u8>, token_end: int, digits_end: int) -> bool {
    &&& payload_start(digits_end) <= bytes.len()
    &&& bytes.subrange(0, token_start()) == part_opening()
    &&& bytes.subrange(media_start(token_end), key_start(token_end)) == content_type_line()
    &&& bytes.subrange(key_start(token_end), digits_start(token_end)) == content_length_key()
    &&& line_end_at(bytes, digits_end + 2)
    &&& bytes.subrange(digits_start(token_end), digits_end) == decimal(
        (bytes.len() - payload_start(digits_end)) as nat,
    )
}

proof fn lemma_unopened_is_no_part(bytes: Seq<u8>)
    requires
        !(token_start() <= bytes.len() && bytes.subrange(0, token_start()) == part_opening()),
    ensures
        parsed(bytes) is None,
{
    assert forall|pair: (Seq<u8>, Seq<u8>)| !is_part(bytes, pair.0, pair.1) by {
        if is_part(bytes, pair.0, pair.1) {
            lemma_part_layout(bytes, pair.0, pair.1);
        }
    }
}

proof fn lemma_endless_is_no_part(bytes: Seq<u8>)
    requires
        forall|at: int| token_start() <= at ==> !line_end_at(bytes, at),
    ensures
        parsed(bytes) is None,
{
    assert forall|pair: (Seq<u8>, Seq<u8>)| !is_part(bytes, pair.0, pair.1) by {
        if is_part(bytes, pair.0, pair.1) {
            lemma_part_layout(bytes, pair.0, pair.1);
            assert(line_end_at(bytes, token_start() + pair.0.len()));
        }
    }
}

proof fn lemma_token_end(bytes: Seq<u8>, token_end: int, token: Seq<u8>, payload: Seq<u8>)
    requires
        first_line_end(bytes, token_start(), token_end),
        is_part(bytes, token, payload),
    ensures
        token_end == token_start() + token.len(),
{
    lemma_part_layout(bytes, token, payload);
    lemma_first_line_end_is_unique(bytes, token_start(), token_end, token_start() + token.len());
}

proof fn lemma_headless_is_no_part(bytes: Seq<u8>, token_end: int)
    requires
        first_line_end(bytes, token_start(), token_end),
        forall|at: int| digits_start(token_end) <= at ==> !line_end_at(bytes, at),
    ensures
        parsed(bytes) is None,
{
    assert forall|pair: (Seq<u8>, Seq<u8>)| !is_part(bytes, pair.0, pair.1) by {
        if is_part(bytes, pair.0, pair.1) {
            lemma_token_end(bytes, token_end, pair.0, pair.1);
            lemma_part_layout(bytes, pair.0, pair.1);
            assert(line_end_at(bytes, digits_start(token_end) + decimal(pair.1.len()).len()));
        }
    }
}

proof fn lemma_misplaced_is_no_part(bytes: Seq<u8>, token_end: int)
    requires
        first_line_end(bytes, token_start(), token_end),
        !(digits_start(token_end) <= bytes.len() && bytes.subrange(
            media_start(token_end),
            key_start(token_end),
        ) == content_type_line() && bytes.subrange(key_start(token_end), digits_start(token_end))
            == content_length_key()),
    ensures
        parsed(bytes) is None,
{
    assert forall|pair: (Seq<u8>, Seq<u8>)| !is_part(bytes, pair.0, pair.1) by {
        if is_part(bytes, pair.0, pair.1) {
            lemma_token_end(bytes, token_end, pair.0, pair.1);
            lemma_part_layout(bytes, pair.0, pair.1);
        }
    }
}

/// Once the two line ends are found, `bytes` is a part exactly if every
/// piece is in place, and then the token and the payload are what lies
/// between them.
proof fn lemma_located(bytes: Seq<u8>, token_end: int, digits_end: int)
    requires
        first_line_end(bytes, token_start(), token_end),
        first_line_end(bytes, digits_start(token_end), digits_end),
    ensures
        parsed(bytes) == if pieces_in_place(bytes, token_end, digits_end) {
            Some(
                (
                    bytes.subrange(token_start(), token_end),
                    bytes.subrange(payload_start(digits_end), bytes.len() as int),
                ),
            )
        } else {
            None
        },
{
    if pieces_in_place(bytes, token_end, digits_end) {
        let token = bytes.subrange(token_start(), token_end);
        let payload = bytes.subrange(payload_start(digits_end), bytes.len() as int);
        assert(token_is_closed(token)) by {
            assert forall|at: int| !line_end_at(token, at) by {
                if line_end_at(token, at) {
                    assert(line_end_at(bytes, token_start() + at));
                }
            }
        }
        assert(bytes =~= part_bytes(token, payload)) by {
            assert(bytes.subrange(token_end, media_start(token_end)) =~= line_end());
            assert(bytes.subrange(digits_end, payload_start(digits_end)) =~= line_end()
                + line_end());
            assert(bytes =~= bytes.subrange(0, token_start()) + token + bytes.subrange(
                token_end,
                media_start(token_end),
            ) + bytes.subrange(media_start(token_end), key_start(token_end)) + bytes.subrange(
                key_start(token_end),
                digits_start(token_end),
            ) + bytes.subrange(digits_start(token_end), digits_end) + bytes.subrange(
                digits_end,
                payload_start(digits_end),
            ) + payload);
        }
        lemma_encode_then_parse(token, payload);
    } else {
        assert forall|pair: (Seq<u8>, Seq<u8>)| !is_part(bytes, pair.0, pair.1) by {
            if is_part(bytes, pair.0, pair.1) {
                lemma_token_end(bytes, token_end, pair.0, pair.1);
                lemma_part_layout(bytes, pair.0, pair.1);
                lemma_first_line_end_is_unique(
                    bytes,
                    digits_start(token_end),
                    digits_end,
                    digits_start(token_end) + decimal(pair.1.len()).len(),
                );
            }
        }
    }
}

fn matches_at(bytes: &[u8], at: usize, pattern: &[u8]) -> (same: bool)
    ensures
        same <==> at + pattern@.len() <= bytes@.len() && bytes@.subrange(
            at as int,
            at + pattern@.len(),
        ) == pattern@,
{
    if at > bytes.len() || pattern.len() > bytes.len() - at {
        return false;
    }
    let mut k: usize = 0;
    while k < pattern.len()
        invariant
            k <= pattern@.len(),
            at + pattern@.len() <= bytes@.len() <= usize::MAX,
            forall|m: int| 0 <= m < k ==> bytes@[at + m] == pattern@[m],
        decreases pattern@.len() - k,
    {
        if bytes[at + k] != pattern[k] {
            assert(bytes@.subrange(at as int, at + pattern@.len())[k as int] != pattern@[k as int]);
            return false;
        }
        k = k + 1;
    }
    assert(bytes@.subrange(at as int, at + pattern@.len()) =~= pattern@);
    true
}

fn find_line_end(bytes: &[u8], from: usize) -> (found: Option<usize>)
    ensures
        match found {
            Some(at) => first_line_end(bytes@, from as int, at as int),
            None => forall|at: int| from <= at ==> !line_end_at(bytes@, at),
        },
{
    let mut at: usize = from;
    while at < bytes.len() && bytes.len() - at >= 2
        invariant
            from <= at,
            forall|before: int| from <= before < at ==> !line_end_at(bytes@, before),
        decreases bytes@.len() - at,
    {
        if bytes[at] == CR && bytes[at + 1] == LF {
            return Some(at);
        }
        at = at + 1;
    }
    None
}

fn copy_range(bytes: &[u8], from: usize, to: usize) -> (copy: Vec<u8>)
    requires
        from <= to <= bytes@.len(),
    ensures
        copy@ == bytes@.subrange(from as int, to as int),
{
    let mut copy: Vec<u8> = Vec::new();
    append_bytes(&mut copy, vstd::slice::slice_subrange(bytes, from, to));
    copy
}

/// Reads `bytes` as one part of a stream: the delimiter line, the two header
/// lines, the blank line and the payload, with nothing before or after.
/// The boundary token is what stands between the two dashes and the first
/// line end. Anything that the encoder would not have written for that
/// token and that payload is turned down.
pub fn parse_part(bytes: &[u8]) -> (part: Option<Part>)
    ensures
        match part {
            Some(part) => {
                &&& parsed(bytes@) == Some((part.boundary@, part.payload@))
                &&& is_part(bytes@, part.boundary@, part.payload@)
                &&& part.content_length == part.payload@.len()
            },
            None => {
                &&& parsed(bytes@) is None
                &&& forall|token: Seq<u8>, payload: Seq<u8>| !is_part(bytes@, token, payload)
            },
        },
{
    proof {
        lemma_parsed_is_part(bytes@);
    }
    let opening = "\r\n--".as_bytes();
    let media = "Content-Type: image/jpeg\r\n".as_bytes();
    let key = "Content-Length: ".as_bytes();
    let total = bytes.len();
    if !matches_at(bytes, 0, opening) {
        proof {
            lemma_unopened_is_no_part(bytes@);
        }
        return None;
    }
    let token_from = opening.len();
    let token_end = match find_line_end(bytes, token_from) {
        Some(at) => at,
        None => {
            proof {
                lemma_endless_is_no_part(bytes@);
            }
            return None;
        },
    };
    let media_from = token_end + 2;
    if !matches_at(bytes, media_from, media) || !matches_at(bytes, media_from + media.len(), key) {
        proof {
            lemma_misplaced_is_no_part(bytes@, token_end as int);
        }
        return None;
    }
    let digits_from = media_from + media.len() + key.len();
    let digits_end = match find_line_end(bytes, digits_from) {
        Some(at) => at,
        None => {
            proof {
                lemma_headless_is_no_part(bytes@, token_end as int);
            }
            return None;
        },
    };
    proof {
        lemma_located(bytes@, token_end as int, digits_end as int);
    }
    if total - digits_end < 4 || bytes[digits_end + 2] != CR || bytes[digits_end + 3] != LF {
        return None;
    }
    let payload_from = digits_end + 4;
    let length = total - payload_from;
    let mut digits: Vec<u8> = Vec::new();
    append_decimal(&mut digits, length);
    if digits.len() != digits_end - digits_from || !matches_at(
        bytes,
        digits_from,
        digits.as_slice(),
    ) {
        return None;
    }
    let boundary = copy_range(bytes, token_from, token_end);
    let payload = copy_range(bytes, payload_from, total);
    assert(pieces_in_place(bytes@, token_end as int, digits_end as int));
    Some(Part { boundary, content_length: length, payload })
}

} // verus!
