//! Base64 with the standard alphabet and padding, for the screenshot data URI.
use vstd::prelude::*;

verus! {

/// The digit of the standard alphabet that stands for a value below 64.
pub open spec fn digit(value: int) -> char {
    if value < 26 {
        ('A' as int + value) as char
    } else if value < 52 {
        ('a' as int + (value - 26)) as char
    } else if value < 62 {
        ('0' as int + (value - 52)) as char
    } else if value == 62 {
        '+'
    } else {
        '/'
    }
}

/// The byte at `i`, or zero past the end.
pub open spec fn byte_or_zero(bytes: Seq<u8>, i: int) -> int {
    if i < bytes.len() {
        bytes[i] as int
    } else {
        0
    }
}

/// The three bytes of group `g` read as one big-endian number.
pub open spec fn group_value(bytes: Seq<u8>, g: int) -> int {
    byte_or_zero(bytes, 3 * g) * 65536 + byte_or_zero(bytes, 3 * g + 1) * 256 + byte_or_zero(
        bytes,
        3 * g + 2,
    )
}

/// The `k`th of the four base-64 digits of a 24-bit number, most significant
/// first.
pub open spec fn sextet(value: int, k: int) -> int {
    if k == 0 {
        value / 262144
    } else if k == 1 {
        value / 4096 % 64
    } else if k == 2 {
        value / 64 % 64
    } else {
        value % 64
    }
}

/// The character at position `i` of the encoding: every group of three bytes
/// gives four digits, and a digit that no byte reaches is padding.
pub open spec fn encoded_char(bytes: Seq<u8>, i: int) -> char {
    if 3 * (i / 4) + i % 4 <= bytes.len() {
        digit(sextet(group_value(bytes, i / 4), i % 4))
    } else {
        '='
    }
}

/// The base64 encoding of `bytes`.
pub open spec fn base64_of(bytes: Seq<u8>) -> Seq<char> {
    Seq::new(((bytes.len() + 2) / 3 * 4) as nat, |i: int| encoded_char(bytes, i))
}

/// The value of a digit of the standard alphabet; padding counts as zero.
pub open spec fn digit_value(c: char) -> int {
    if 'A' <= c <= 'Z' {
        c as int - 'A' as int
    } else if 'a' <= c <= 'z' {
        c as int - 'a' as int + 26
    } else if '0' <= c <= '9' {
        c as int - '0' as int + 52
    } else if c == '+' {
        62
    } else if c == '/' {
        63
    } else {
        0
    }
}

/// The four digits of group `g` read as one number.
pub open spec fn digits_value(text: Seq<char>, g: int) -> int {
    digit_value(text[4 * g]) * 262144 + digit_value(text[4 * g + 1]) * 4096 + digit_value(
        text[4 * g + 2],
    ) * 64 + digit_value(text[4 * g + 3])
}

/// How many padding characters end the text.
pub open spec fn padding(text: Seq<char>) -> int {
    let n = text.len() as int;
    if n == 0 || text[n - 1] != '=' {
        0
    } else if text[n - 2] != '=' {
        1
    } else {
        2
    }
}

/// The `k`th of the three bytes of a 24-bit number.
pub open spec fn octet(value: int, k: int) -> u8 {
    if k == 0 {
        (value / 65536) as u8
    } else if k == 1 {
        (value / 256 % 256) as u8
    } else {
        (value % 256) as u8
    }
}

/// The bytes that a base64 text stands for.
pub open spec fn base64_decoded(text: Seq<char>) -> Seq<u8> {
    Seq::new(
        (text.len() / 4 * 3 - padding(text)) as nat,
        |j: int| octet(digits_value(text, j / 3), j % 3),
    )
}

fn digit_char(value: u8) -> (c: char)
    requires
        value < 64,
    ensures
        c == digit(value as int),
{
    if value < 26 {
        ('A' as u8 + value) as char
    } else if value < 52 {
        ('a' as u8 + (value - 26)) as char
    } else if value < 62 {
        ('0' as u8 + (value - 52)) as char
    } else if value == 62 {
        '+'
    } else {
        '/'
    }
}

/// The four sextets of three bytes.
fn sextets(b0: u8, b1: u8, b2: u8) -> (s: (u8, u8, u8, u8))
    ensures
        ({
            let value = b0 as int * 65536 + b1 as int * 256 + b2 as int;
            &&& s.0 == sextet(value, 0) < 64
            &&& s.1 == sextet(value, 1) < 64
            &&& s.2 == sextet(value, 2) < 64
            &&& s.3 == sextet(value, 3) < 64
        }),
{
    let triple: u32 = ((b0 as u32) << 16) | ((b1 as u32) << 8) | (b2 as u32);
    assert(triple == b0 * 65536 + b1 * 256 + b2) by (bit_vector)
        requires
            triple == ((b0 as u32) << 16) | ((b1 as u32) << 8) | (b2 as u32),
    ;
    assert(triple < 0x100_0000);
    assert((triple >> 18) & 0x3f == triple / 262144 && (triple >> 12) & 0x3f == triple / 4096 % 64
        && (triple >> 6) & 0x3f == triple / 64 % 64 && triple & 0x3f == triple % 64) by (bit_vector)
        requires
            triple < 0x100_0000,
    ;
    (
        ((triple >> 18) & 0x3f) as u8,
        ((triple >> 12) & 0x3f) as u8,
        ((triple >> 6) & 0x3f) as u8,
        (triple & 0x3f) as u8,
    )
}

/// Encodes `bytes` in base64.
pub fn base64_encode(bytes: &[u8]) -> (text: String)
    ensures
        text@ == base64_of(bytes@),
{
    let mut out = String::new();
    let n: usize = bytes.len();
    let mut i: usize = 0;
    let ghost mut g: int = 0;
    while i < n
        invariant
            n == bytes@.len(),
            g >= 0,
            i <= n,
            i == n || i == 3 * g,
            i == n ==> g == (n + 2) / 3,
            out@.len() == 4 * g,
            forall|j: int| 0 <= j < out@.len() ==> out@[j] == encoded_char(bytes@, j),
        decreases n - i,
    {
        let rest: usize = n - i;
        let b0: u8 = bytes[i];
        let b1: u8 = if rest > 1 {
            bytes[i + 1]
        } else {
            0
        };
        let b2: u8 = if rest > 2 {
            bytes[i + 2]
        } else {
            0
        };
        let s = sextets(b0, b1, b2);
        let ghost before = out@;
        out.push(digit_char(s.0));
        out.push(digit_char(s.1));
        out.push(
            if rest > 1 {
                digit_char(s.2)
            } else {
                '='
            },
        );
        out.push(
            if rest > 2 {
                digit_char(s.3)
            } else {
                '='
            },
        );
        proof {
            assert forall|j: int| 0 <= j < out@.len() implies out@[j] == encoded_char(
                bytes@,
                j,
            ) by {
                if j < 4 * g {
                    assert(out@[j] == before[j]);
                } else {
                    assert(j / 4 == g);
                }
            }
            g = g + 1;
        }
        i = if rest > 3 {
            i + 3
        } else {
            n
        };
    }
    out
}

proof fn lemma_digit_value(value: int)
    requires
        0 <= value < 64,
    ensures
        digit_value(digit(value)) == value,
        digit(value) != '=',
{
}

proof fn lemma_octets(b0: u8, b1: u8, b2: u8)
    ensures
        ({
            let value = b0 as int * 65536 + b1 as int * 256 + b2 as int;
            &&& octet(value, 0) == b0
            &&& octet(value, 1) == b1
            &&& octet(value, 2) == b2
            &&& 0 <= value < 16777216
        }),
{
}

proof fn lemma_sextets(value: int)
    requires
        0 <= value < 16777216,
    ensures
        forall|k: int| 0 <= k < 4 ==> 0 <= #[trigger] sextet(value, k) < 64,
        sextet(value, 0) * 262144 + sextet(value, 1) * 4096 + sextet(value, 2) * 64 + sextet(
            value,
            3,
        ) == value,
{
}

/// The digits of a group of the encoding read back as the group's number.
proof fn lemma_group_reads_back(bytes: Seq<u8>, g: int)
    requires
        0 <= g,
        3 * g < bytes.len(),
    ensures
        digits_value(base64_of(bytes), g) == group_value(bytes, g),
{
    let text = base64_of(bytes);
    let value = group_value(bytes, g);
    assert(0 <= value < 16777216);
    lemma_sextets(value);
    assert forall|k: int| 0 <= k < 4 implies digit_value(#[trigger] text[4 * g + k]) == sextet(
        value,
        k,
    ) by {
        let i = 4 * g + k;
        assert(i / 4 == g && i % 4 == k);
        lemma_digit_value(sextet(value, k));
        if 3 * g + k > bytes.len() {
            // The bytes behind a padded digit are missing, so its value is zero.
            assert(byte_or_zero(bytes, 3 * g + 2) == 0);
            if k == 2 {
                assert(byte_or_zero(bytes, 3 * g + 1) == 0);
            }
            assert(sextet(value, k) == 0);
        }
    }
    assert(text[4 * g + 0] == text[4 * g]);
}

proof fn lemma_padding(bytes: Seq<u8>)
    ensures
        padding(base64_of(bytes)) == (3 - bytes.len() % 3) % 3,
{
    let text = base64_of(bytes);
    let n = text.len() as int;
    if bytes.len() > 0 {
        let g = n / 4 - 1;
        assert(0 <= group_value(bytes, g) < 16777216);
        lemma_sextets(group_value(bytes, g));
        lemma_digit_value(sextet(group_value(bytes, g), 2));
        lemma_digit_value(sextet(group_value(bytes, g), 3));
        assert((n - 1) / 4 == g && (n - 1) % 4 == 3);
        assert((n - 2) / 4 == g && (n - 2) % 4 == 2);
    }
}

/// Decoding an encoding gives the bytes back, so no two byte strings share an
/// encoding.
pub proof fn law_base64_round_trip(bytes: Seq<u8>)
    ensures
        base64_decoded(base64_of(bytes)) == bytes,
{
    let text = base64_of(bytes);
    lemma_padding(bytes);
    assert(base64_decoded(text).len() == bytes.len());
    assert forall|j: int| 0 <= j < bytes.len() implies base64_decoded(text)[j] == bytes[j] by {
        let g = j / 3;
        lemma_group_reads_back(bytes, g);
        lemma_octets(
            byte_or_zero(bytes, 3 * g) as u8,
            byte_or_zero(bytes, 3 * g + 1) as u8,
            byte_or_zero(bytes, 3 * g + 2) as u8,
        );
        assert(j == 3 * g + j % 3);
    }
}

/// The encoding is four characters for every three bytes begun, all of them
/// digits of the alphabet but for the padding, which stands only at the end
/// and is as long as the last group is short.
pub proof fn law_base64_shape(bytes: Seq<u8>)
    ensures
        base64_of(bytes).len() == (bytes.len() + 2) / 3 * 4,
        padding(base64_of(bytes)) == (3 - bytes.len() % 3) % 3,
        forall|i: int|
            0 <= i < base64_of(bytes).len() - padding(base64_of(bytes)) ==> exists|value: int|
                0 <= value < 64 && #[trigger] base64_of(bytes)[i] == #[trigger] digit(value),
        forall|i: int|
            base64_of(bytes).len() - padding(base64_of(bytes)) <= i < base64_of(bytes).len()
                ==> #[trigger] base64_of(bytes)[i] == '=',
{
    let text = base64_of(bytes);
    lemma_padding(bytes);
    assert forall|i: int| 0 <= i < text.len() - padding(text) implies exists|value: int|
        0 <= value < 64 && #[trigger] text[i] == #[trigger] digit(value) by {
        let g = i / 4;
        assert(0 <= group_value(bytes, g) < 16777216);
        lemma_sextets(group_value(bytes, g));
        let value = sextet(group_value(bytes, g), i % 4);
        assert(text[i] == digit(value));
    }
}

} // verus!
