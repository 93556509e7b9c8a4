//! The narrow syntax of identifiers, references, kinds and reasons.

use vstd::prelude::*;

use crate::text;

verus! {

/// The longest request identifier, in bytes.
pub const MAX_REQUEST_ID_BYTES: usize = 128;

/// The longest idempotency key, in bytes.
pub const MAX_IDEMPOTENCY_KEY_BYTES: usize = 256;

/// The longest Instance key, in bytes.
pub const MAX_INSTANCE_BYTES: usize = 256;

/// The longest approval or subject kind, in bytes.
pub const MAX_KIND_BYTES: usize = 128;

/// The longest opaque reference, in bytes.
pub const MAX_REFERENCE_BYTES: usize = 512;

/// The longest reason, in bytes.
pub const MAX_REASON_BYTES: usize = 1_000;

/// The longest secret reference, in bytes.
pub const MAX_SECRET_REFERENCE_BYTES: usize = 256;

/// The characters that one kind of name may be made of.
#[derive(Clone, Copy, Debug, PartialEq, Eq, Structural)]
pub enum Alphabet {
    /// ASCII letters and digits, and `.`, `_`, `-` and `:`.
    Identifier,
    /// The characters of an identifier, and `/`.
    Reference,
    /// ASCII lowercase letters and digits, and `.`, `_` and `-`.
    Kind,
}

impl Alphabet {
    /// Whether a character belongs to the alphabet.
    pub open spec fn has(self, c: char) -> bool {
        match self {
            Alphabet::Identifier => {
                text::ascii_alphanumeric(c) || c == '.' || c == '_' || c == '-' || c == ':'
            },
            Alphabet::Reference => {
                text::ascii_alphanumeric(c) || c == '.' || c == '_' || c == '-' || c == ':' || c
                    == '/'
            },
            Alphabet::Kind => {
                text::ascii_lower_or_digit(c) || c == '.' || c == '_' || c == '-'
            },
        }
    }

    /// Whether every character of a text belongs to the alphabet.
    pub open spec fn spells(self, value: Seq<char>) -> bool {
        forall|i: int| 0 <= i < value.len() ==> self.has(#[trigger] value[i])
    }

    fn contains(self, c: char) -> (result: bool)
        ensures
            result == self.has(c),
    {
        let lower_or_digit = ('a' <= c && c <= 'z') || ('0' <= c && c <= '9');
        let mark = c == '.' || c == '_' || c == '-';
        match self {
            Alphabet::Identifier => {
                lower_or_digit || mark || ('A' <= c && c <= 'Z') || c == ':'
            },
            Alphabet::Reference => {
                lower_or_digit || mark || ('A' <= c && c <= 'Z') || c == ':' || c == '/'
            },
            Alphabet::Kind => lower_or_digit || mark,
        }
    }
}

/// Whether a text is a name: not empty, within a length, and spelled in an alphabet.
pub open spec fn name(value: Seq<char>, maximum: nat, alphabet: Alphabet) -> bool {
    0 < value.len() <= maximum && alphabet.spells(value)
}

/// Whether a text is a request identifier.
pub open spec fn request_id(value: Seq<char>) -> bool {
    name(value, MAX_REQUEST_ID_BYTES as nat, Alphabet::Identifier)
}

/// Whether a text is an idempotency key.
pub open spec fn idempotency_key(value: Seq<char>) -> bool {
    name(value, MAX_IDEMPOTENCY_KEY_BYTES as nat, Alphabet::Identifier)
}

/// Whether a text is an Instance key.
pub open spec fn instance(value: Seq<char>) -> bool {
    name(value, MAX_INSTANCE_BYTES as nat, Alphabet::Identifier)
}

/// Whether a text is an opaque reference.
pub open spec fn reference(value: Seq<char>) -> bool {
    name(value, MAX_REFERENCE_BYTES as nat, Alphabet::Reference)
}

/// Whether a text is a kind: a name that begins and ends with a letter or digit.
pub open spec fn kind(value: Seq<char>) -> bool {
    &&& name(value, MAX_KIND_BYTES as nat, Alphabet::Kind)
    &&& text::ascii_alphanumeric(value.first())
    &&& text::ascii_alphanumeric(value.last())
}

/// Whether a text is a reason: visible, within a length in UTF-8, and free of
/// control codes.
pub open spec fn reason(value: Seq<char>) -> bool {
    &&& exists|i: int| 0 <= i < value.len() && !text::white_space(#[trigger] value[i])
    &&& vstd::utf8::encode_utf8(value).len() <= MAX_REASON_BYTES
    &&& forall|i: int| 0 <= i < value.len() ==> !text::control(#[trigger] value[i])
}

/// Whether a reason, where there is one, is valid.
pub open spec fn optional_reason(value: Option<Seq<char>>) -> bool {
    value matches Some(given) ==> reason(given)
}

/// Whether the characters from `start` up to `end` are one whole segment of a
/// path: they hold no slash, and a slash or an end of the path bounds them.
pub open spec fn segment(path: Seq<char>, start: int, end: int) -> bool {
    &&& 0 <= start <= end <= path.len()
    &&& start == 0 || path[start - 1] == '/'
    &&& end == path.len() || path[end] == '/'
    &&& forall|i: int| start <= i < end ==> #[trigger] path[i] != '/'
}

/// Whether a segment is one of the two that name a place relative to another.
pub open spec fn relative_segment(value: Seq<char>) -> bool {
    value == seq!['.'] || value == seq!['.', '.']
}

/// Whether a text is a secret reference: a path of segments, none of them empty
/// and none of them `.` or `..`.
pub open spec fn secret_reference(value: Seq<char>) -> bool {
    &&& name(value, MAX_SECRET_REFERENCE_BYTES as nat, Alphabet::Reference)
    &&& value.first() != '/'
    &&& value.last() != '/'
    &&& forall|i: int, j: int|
        0 <= i && j == i + 1 && j < value.len() ==> !(#[trigger] value[i] == '/'
            && #[trigger] value[j] == '/')
    &&& forall|start: int, end: int|
        #[trigger] segment(value, start, end) ==> !relative_segment(value.subrange(start, end))
}

proof fn lemma_spelled_in_ascii(value: Seq<char>, alphabet: Alphabet)
    requires
        alphabet.spells(value),
    ensures
        vstd::utf8::is_ascii_chars(value),
        vstd::utf8::encode_utf8(value).len() == value.len(),
        forall|i: int|
            0 <= i < value.len() ==> vstd::utf8::encode_utf8(value)[i] as int == (
            #[trigger] value[i]) as int,
{
    assert forall|i: int| 0 <= i < value.len() implies '\0' <= #[trigger] value[i]
        <= '\u{7f}' by {
        assert(alphabet.has(value[i]));
    }
    vstd::utf8::is_ascii_chars_encode_utf8(value);
}

fn valid_name(value: &str, maximum: usize, alphabet: Alphabet) -> (valid: bool)
    ensures
        valid == name(value@, maximum as nat, alphabet),
{
    for c in it: value.chars()
        invariant
            it.seq() == value@,
            forall|i: int| 0 <= i < it.index() ==> alphabet.has(#[trigger] value@[i]),
    {
        if !alphabet.contains(c) {
            return false;
        }
    }
    proof {
        lemma_spelled_in_ascii(value@, alphabet);
    }
    let length: usize = value.as_bytes().len();
    0 < length && length <= maximum
}

/// Whether a text is an identifier of at most `maximum` bytes.
pub fn valid_identifier(value: &str, maximum: usize) -> (valid: bool)
    ensures
        valid == name(value@, maximum as nat, Alphabet::Identifier),
{
    valid_name(value, maximum, Alphabet::Identifier)
}

/// Whether a text is a request identifier.
pub fn valid_request_id(value: &str) -> (valid: bool)
    ensures
        valid == request_id(value@),
{
    valid_identifier(value, MAX_REQUEST_ID_BYTES)
}

/// Whether a text is an idempotency key.
pub fn valid_idempotency_key(value: &str) -> (valid: bool)
    ensures
        valid == idempotency_key(value@),
{
    valid_identifier(value, MAX_IDEMPOTENCY_KEY_BYTES)
}

/// Whether a text is an Instance key.
pub fn valid_instance(value: &str) -> (valid: bool)
    ensures
        valid == instance(value@),
{
    valid_identifier(value, MAX_INSTANCE_BYTES)
}

/// Whether a text is an opaque reference.
pub fn valid_reference(value: &str) -> (valid: bool)
    ensures
        valid == reference(value@),
{
    valid_name(value, MAX_REFERENCE_BYTES, Alphabet::Reference)
}

fn ascii_alphanumeric_byte(byte: u8) -> (result: bool)
    ensures
        result == (97 <= byte <= 122 || 65 <= byte <= 90 || 48 <= byte <= 57),
{
    (97 <= byte && byte <= 122) || (65 <= byte && byte <= 90) || (48 <= byte && byte <= 57)
}

/// Whether a text is an approval or subject kind.
pub fn valid_kind(value: &str) -> (valid: bool)
    ensures
        valid == kind(value@),
{
    if !valid_name(value, MAX_KIND_BYTES, Alphabet::Kind) {
        return false;
    }
    proof {
        lemma_spelled_in_ascii(value@, Alphabet::Kind);
        assert(Alphabet::Kind.has(value@[0]));
        assert(Alphabet::Kind.has(value@[value@.len() - 1]));
    }
    let bytes = value.as_bytes();
    ascii_alphanumeric_byte(bytes[0]) && ascii_alphanumeric_byte(bytes[bytes.len() - 1])
}

fn valid_given_reason(given: &str) -> (valid: bool)
    ensures
        valid == reason(given@),
{
    let mut visible = false;
    for c in it: given.chars()
        invariant
            it.seq() == given@,
            visible == exists|i: int|
                0 <= i < it.index() && !text::white_space(#[trigger] given@[i]),
            forall|i: int| 0 <= i < it.index() ==> !text::control(#[trigger] given@[i]),
    {
        if text::is_control(c) {
            return false;
        }
        if !text::is_white_space(c) {
            visible = true;
        }
    }
    visible && given.as_bytes().len() <= MAX_REASON_BYTES
}

/// Whether a reason, where there is one, is valid.
pub fn valid_reason(value: Option<&str>) -> (valid: bool)
    ensures
        valid == optional_reason(text::optional_str(value)),
{
    match value {
        None => true,
        Some(given) => valid_given_reason(given),
    }
}

/// Whether a text is a secret reference.
pub fn valid_secret_reference(value: &str) -> (valid: bool)
    ensures
        valid == secret_reference(value@),
{
    if !valid_name(value, MAX_SECRET_REFERENCE_BYTES, Alphabet::Reference) {
        return false;
    }
    let ghost path = value@;
    proof {
        lemma_spelled_in_ascii(path, Alphabet::Reference);
    }
    let bytes = value.as_bytes();
    let length: usize = bytes.len();
    if bytes[0] == 47 || bytes[length - 1] == 47 {
        return false;
    }
    let mut i: usize = 0;
    while i < length
        invariant
            i <= length,
            length == bytes@.len() == path.len(),
            path == value@,
            0 < path.len() <= MAX_SECRET_REFERENCE_BYTES,
            forall|k: int|
                0 <= k < path.len() ==> bytes@[k] as int == (#[trigger] path[k]) as int,
            forall|k: int, l: int|
                0 <= k < i && l == k + 1 && l < path.len() ==> !(#[trigger] path[k] == '/'
                    && #[trigger] path[l] == '/'),
            forall|start: int, end: int|
                start < i && #[trigger] segment(path, start, end) ==> !relative_segment(
                    path.subrange(start, end),
                ),
        decreases length - i,
    {
        let next_ends = i + 1 == length || bytes[i + 1] == 47;
        if bytes[i] == 47 && i + 1 < length && bytes[i + 1] == 47 {
            assert(path[i as int] == '/' && path[i + 1] == '/');
            return false;
        }
        let starts = i == 0 || bytes[i - 1] == 47;
        if starts && bytes[i] == 46 {
            if next_ends {
                proof {
                    assert(segment(path, i as int, i + 1));
                    assert(path.subrange(i as int, i + 1) =~= seq!['.']);
                }
                return false;
            }
            if bytes[i + 1] == 46 && (i + 2 == length || bytes[i + 2] == 47) {
                proof {
                    assert(segment(path, i as int, i + 2));
                    assert(path.subrange(i as int, i + 2) =~= seq!['.', '.']);
                }
                return false;
            }
        }
        proof {
            assert forall|end: int| #[trigger]
                segment(path, i as int, end) implies !relative_segment(
                path.subrange(i as int, end),
            ) by {
                let part = path.subrange(i as int, end);
                if relative_segment(part) {
                    assert(part.len() == end - i);
                    assert(part[0] == path[i as int]);
                    if part.len() == 2 {
                        assert(part[1] == path[i + 1]);
                    }
                }
            }
        }
        i += 1;
    }
    proof {
        assert forall|start: int, end: int| #[trigger]
            segment(path, start, end) implies !relative_segment(path.subrange(start, end)) by {
            if start == path.len() {
                assert(path.subrange(start, end).len() == 0);
            }
        }
    }
    true
}

} // verus!
