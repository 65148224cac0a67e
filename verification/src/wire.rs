//! The format of a stream on the wire: what a part looks like, byte for
//! byte, and why a part can be read back in one way only.

use vstd::prelude::*;
use vstd::string::*;

verus! {

/// Carriage return, the first byte of a line end.
pub const CR: u8 = 13;

/// Line feed, the second byte of a line end.
pub const LF: u8 = 10;

/// The digit zero in ASCII; the other digits follow it.
pub const DIGIT_ZERO: u8 = 48;

/// The decimal digits of `n` in ASCII, most significant first, without
/// leading zeros.
pub open spec fn decimal(n: nat) -> Seq<u8>
    decreases n,
{
    if n < 10 {
        seq![(DIGIT_ZERO + n) as u8]
    } else {
        decimal(n / 10).push((DIGIT_ZERO + n % 10) as u8)
    }
}

/// The two bytes that end a line on the wire.
pub open spec fn line_end() -> Seq<u8> {
    seq![CR, LF]
}

/// The bytes that open a part, up to the boundary token.
pub open spec fn part_opening() -> Seq<u8> {
    "\r\n--".spec_bytes()
}

/// The header line that names the media type of every part.
pub open spec fn content_type_line() -> Seq<u8> {
    "Content-Type: image/jpeg\r\n".spec_bytes()
}

/// The start of the header line that announces the payload's byte count.
pub open spec fn content_length_key() -> Seq<u8> {
    "Content-Length: ".spec_bytes()
}

/// What precedes the payload of a part: the delimiter line with the
/// boundary token, the media type, the byte count, and a blank line.
pub open spec fn part_header(token: Seq<u8>, length: nat) -> Seq<u8> {
    part_opening() + token + line_end() + content_type_line() + content_length_key() + decimal(
        length,
    ) + line_end() + line_end()
}

/// One part as it travels: its header, then the payload as it is. Nothing
/// follows the payload.
pub open spec fn part_bytes(token: Seq<u8>, payload: Seq<u8>) -> Seq<u8> {
    part_header(token, payload.len()) + payload
}

/// The media type that announces the whole response as a stream of parts
/// separated by the boundary token.
pub open spec fn envelope_value(token: Seq<u8>) -> Seq<u8> {
    "multipart/x-mixed-replace; boundary=".spec_bytes() + token
}

/// Whether a line end stands at index `at` of `bytes`.
pub open spec fn line_end_at(bytes: Seq<u8>, at: int) -> bool {
    0 <= at && at + 1 < bytes.len() && bytes[at] == CR && bytes[at + 1] == LF
}

/// Whether a boundary token holds no line end. Such a token ends where the
/// delimiter line ends, so a part can be read back in one way only.
pub open spec fn token_is_closed(token: Seq<u8>) -> bool {
    forall|at: int| !line_end_at(token, at)
}

/// Whether `bytes` is the part that carries `payload` under the boundary
/// token `token`.
pub open spec fn is_part(bytes: Seq<u8>, token: Seq<u8>, payload: Seq<u8>) -> bool {
    token_is_closed(token) && bytes == part_bytes(token, payload)
}

/// What reading `bytes` as one part yields: the boundary token and the
/// payload, or nothing where `bytes` is no part.
pub open spec fn parsed(bytes: Seq<u8>) -> Option<(Seq<u8>, Seq<u8>)> {
    if exists|pair: (Seq<u8>, Seq<u8>)| is_part(bytes, pair.0, pair.1) {
        Some(choose|pair: (Seq<u8>, Seq<u8>)| is_part(bytes, pair.0, pair.1))
    } else {
        None
    }
}

/// Where the boundary token of a part starts.
pub open spec fn token_start() -> int {
    part_opening().len() as int
}

/// Where the media type line of a part starts, given where its token ends.
pub open spec fn media_start(token_end: int) -> int {
    token_end + line_end().len()
}

/// Where the byte count line of a part starts, given where its token ends.
pub open spec fn key_start(token_end: int) -> int {
    media_start(token_end) + content_type_line().len()
}

/// Where the digits of the byte count start, given where the token ends.
pub open spec fn digits_start(token_end: int) -> int {
    key_start(token_end) + content_length_key().len()
}

/// Where the payload of a part starts, given where the digits end.
pub open spec fn payload_start(digits_end: int) -> int {
    digits_end + 2 * line_end().len()
}

/// Whether the first line end of `bytes` at or after `from` stands at `at`.
pub open spec fn first_line_end(bytes: Seq<u8>, from: int, at: int) -> bool {
    from <= at && line_end_at(bytes, at) && forall|before: int|
        from <= before < at ==> !line_end_at(bytes, before)
}

/// Decimal digits are digits, and there is at least one.
pub proof fn lemma_decimal_is_digits(n: nat)
    ensures
        decimal(n).len() >= 1,
        forall|at: int|
            0 <= at < decimal(n).len() ==> DIGIT_ZERO <= #[trigger] decimal(n)[at] <= DIGIT_ZERO
                + 9,
    decreases n,
{
    if n >= 10 {
        lemma_decimal_is_digits(n / 10);
    }
}

/// Where the pieces of a part lie in its bytes: the token ends at the first
/// line end after the opening, the digits at the first line end after the
/// byte count's key, and the payload is all that follows the blank line.
pub proof fn lemma_part_layout(bytes: Seq<u8>, token: Seq<u8>, payload: Seq<u8>)
    requires
        is_part(bytes, token, payload),
    ensures
        ({
            let token_end = token_start() + token.len();
            let digits_end = digits_start(token_end) + decimal(payload.len()).len();
            &&& bytes.len() == payload_start(digits_end) + payload.len()
            &&& bytes.subrange(0, token_start()) == part_opening()
            &&& bytes.subrange(token_start(), token_end) == token
            &&& first_line_end(bytes, token_start(), token_end)
            &&& bytes.subrange(media_start(token_end), key_start(token_end))
                == content_type_line()
            &&& bytes.subrange(key_start(token_end), digits_start(token_end))
                == content_length_key()
            &&& bytes.subrange(digits_start(token_end), digits_end) == decimal(payload.len())
            &&& first_line_end(bytes, digits_start(token_end), digits_end)
            &&& line_end_at(bytes, digits_end + 2)
            &&& bytes.subrange(payload_start(digits_end), bytes.len() as int) == payload
        }),
{
    let token_end = token_start() + token.len();
    let digits_end = digits_start(token_end) + decimal(payload.len()).len();
    lemma_decimal_is_digits(payload.len());
    assert(bytes.subrange(0, token_start()) =~= part_opening());
    assert(bytes.subrange(token_start(), token_end) =~= token);
    assert(bytes.subrange(media_start(token_end), key_start(token_end)) =~= content_type_line());
    assert(bytes.subrange(key_start(token_end), digits_start(token_end))
        =~= content_length_key());
    assert(bytes.subrange(digits_start(token_end), digits_end) =~= decimal(payload.len()));
    assert(bytes.subrange(payload_start(digits_end), bytes.len() as int) =~= payload);
    assert forall|before: int| token_start() <= before < token_end implies !line_end_at(
        bytes,
        before,
    ) by {
        if before + 1 < token_end {
            assert(bytes[before] == token[before - token_start()]);
            assert(bytes[before + 1] == token[before - token_start() + 1]);
            assert(!line_end_at(token, before - token_start()));
        }
    }
    assert forall|before: int| digits_start(token_end) <= before < digits_end implies !line_end_at(
        bytes,
        before,
    ) by {
        assert(bytes[before] == decimal(payload.len())[before - digits_start(token_end)]);
    }
}

/// The first line end at or after a given index is one place only.
pub proof fn lemma_first_line_end_is_unique(bytes: Seq<u8>, from: int, at: int, other: int)
    requires
        first_line_end(bytes, from, at),
        first_line_end(bytes, from, other),
    ensures
        at == other,
{
    if at < other {
        assert(line_end_at(bytes, at));
    } else if other < at {
        assert(line_end_at(bytes, other));
    }
}

/// A part can be read back in one way only.
pub proof fn lemma_part_is_unique(
    bytes: Seq<u8>,
    token: Seq<u8>,
    payload: Seq<u8>,
    other_token: Seq<u8>,
    other_payload: Seq<u8>,
)
    requires
        is_part(bytes, token, payload),
        is_part(bytes, other_token, other_payload),
    ensures
        token == other_token,
        payload == other_payload,
{
    lemma_part_layout(bytes, token, payload);
    lemma_part_layout(bytes, other_token, other_payload);
    let token_end = token_start() + token.len();
    lemma_first_line_end_is_unique(
        bytes,
        token_start(),
        token_end,
        token_start() + other_token.len(),
    );
    lemma_first_line_end_is_unique(
        bytes,
        digits_start(token_end),
        digits_start(token_end) + decimal(payload.len()).len(),
        digits_start(token_end) + decimal(other_payload.len()).len(),
    );
}

/// What a reading says of the bytes read: the token and the payload that it
/// yields make up the bytes, and where it yields nothing, no token and no
/// payload do.
pub proof fn lemma_parsed_is_part(bytes: Seq<u8>)
    ensures
        match parsed(bytes) {
            Some(pair) => is_part(bytes, pair.0, pair.1),
            None => forall|token: Seq<u8>, payload: Seq<u8>| !is_part(bytes, token, payload),
        },
{
    if parsed(bytes) is None {
        assert forall|token: Seq<u8>, payload: Seq<u8>| !is_part(bytes, token, payload) by {
            let pair = (token, payload);
            assert(!is_part(bytes, pair.0, pair.1));
        }
    }
}

/// Reading back what the encoder wrote yields the boundary token and the
/// payload that went in, whenever the token holds no line end. The byte
/// count that the header announces is the payload's length.
pub proof fn lemma_encode_then_parse(token: Seq<u8>, payload: Seq<u8>)
    requires
        token_is_closed(token),
    ensures
        parsed(part_bytes(token, payload)) == Some((token, payload)),
{
    let bytes = part_bytes(token, payload);
    let written = (token, payload);
    assert(is_part(bytes, written.0, written.1));
    let read = choose|pair: (Seq<u8>, Seq<u8>)| is_part(bytes, pair.0, pair.1);
    lemma_part_is_unique(bytes, token, payload, read.0, read.1);
}

} // verus!
