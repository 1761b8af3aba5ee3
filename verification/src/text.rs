use vstd::prelude::*;
use vstd::string::*;

verus! {

/// The code point of `c`, with the ASCII capitals mapped to their small letters.
pub open spec fn lower_code(c: char) -> u32 {
    if 'A' as u32 <= c as u32 && c as u32 <= 'Z' as u32 {
        (c as u32 + 32) as u32
    } else {
        c as u32
    }
}

/// Two texts are equal up to the case of their ASCII letters.
pub open spec fn eq_ignoring_ascii_case(a: Seq<char>, b: Seq<char>) -> bool {
    &&& a.len() == b.len()
    &&& forall|i: int| 0 <= i < a.len() ==> lower_code(#[trigger] a[i]) == lower_code(b[i])
}

/// `suffix` is the tail of `text`.
pub open spec fn is_suffix(suffix: Seq<char>, text: Seq<char>) -> bool {
    &&& suffix.len() <= text.len()
    &&& text.subrange(text.len() - suffix.len(), text.len() as int) == suffix
}

/// Wraps `==` on `str` from std, which compares the two slices byte for byte;
/// two slices hold the same bytes exactly when they hold the same characters.
#[verifier::external_body]
pub(crate) fn str_equal(a: &str, b: &str) -> (res: bool)
    ensures
        res == (a@ == b@),
{
    a == b
}

/// Wraps `str::ends_with` from std for a string pattern: true when the
/// pattern matches a suffix of the slice.
#[verifier::external_body]
pub(crate) fn str_ends_with(text: &str, suffix: &str) -> (res: bool)
    ensures
        res == is_suffix(suffix@, text@),
{
    text.ends_with(suffix)
}

fn code_lower(c: char) -> (code: u32)
    ensures
        code == lower_code(c),
{
    let code: u32 = c as u32;
    if 65 <= code && code <= 90 {
        code + 32
    } else {
        code
    }
}

/// Compares two texts without regard to the case of ASCII letters.
pub fn str_eq_ignore_ascii_case(a: &str, b: &str) -> (res: bool)
    ensures
        res == eq_ignoring_ascii_case(a@, b@),
{
    let n: usize = a.unicode_len();
    if n != b.unicode_len() {
        return false;
    }
    let mut i: usize = 0;
    while i < n
        invariant
            i <= n,
            n == a@.len(),
            n == b@.len(),
            forall|j: int| 0 <= j < i ==> lower_code(#[trigger] a@[j]) == lower_code(b@[j]),
        decreases n - i,
    {
        if code_lower(a.get_char(i)) != code_lower(b.get_char(i)) {
            return false;
        }
        i += 1;
    }
    true
}

/// The character of a digit below ten.
pub open spec fn decimal_digit(d: nat) -> char {
    (48 + d) as u8 as char
}

/// A number written in decimal, without leading zeros.
pub open spec fn decimal_text(n: nat) -> Seq<char>
    decreases n,
{
    if n < 10 {
        seq![decimal_digit(n)]
    } else {
        decimal_text(n / 10).push(decimal_digit(n % 10))
    }
}

fn decimal_digit_str(d: u64) -> (text: &'static str)
    requires
        d < 10,
    ensures
        text@ == seq![decimal_digit(d as nat)],
{
    proof {
        reveal_strlit("0");
        reveal_strlit("1");
        reveal_strlit("2");
        reveal_strlit("3");
        reveal_strlit("4");
        reveal_strlit("5");
        reveal_strlit("6");
        reveal_strlit("7");
        reveal_strlit("8");
        reveal_strlit("9");
    }
    let text = if d == 0 {
        "0"
    } else if d == 1 {
        "1"
    } else if d == 2 {
        "2"
    } else if d == 3 {
        "3"
    } else if d == 4 {
        "4"
    } else if d == 5 {
        "5"
    } else if d == 6 {
        "6"
    } else if d == 7 {
        "7"
    } else if d == 8 {
        "8"
    } else {
        "9"
    };
    assert(text@ =~= seq![decimal_digit(d as nat)]);
    text
}

/// Writes a number in decimal.
pub fn u64_to_string(n: u64) -> (text: String)
    ensures
        text@ == decimal_text(n as nat),
    decreases n,
{
    if n < 10 {
        String::from_str(decimal_digit_str(n))
    } else {
        let mut text = u64_to_string(n / 10);
        text.append(decimal_digit_str(n % 10));
        assert(text@ =~= decimal_text(n as nat));
        text
    }
}

/// The characters of each text of a list.
pub open spec fn texts(list: Seq<String>) -> Seq<Seq<char>> {
    list.map_values(|text: String| text@)
}

/// Appending a text to a list appends its characters to the list's texts.
pub proof fn lemma_texts_push(list: Seq<String>, text: String)
    ensures
        texts(list.push(text)) == texts(list).push(text@),
{
    assert(texts(list.push(text)) =~= texts(list).push(text@));
}

/// The small-letter hexadecimal digit for a value below sixteen.
pub open spec fn hex_digit(d: nat) -> char {
    if d < 10 {
        (48 + d) as u8 as char
    } else {
        (87 + d) as u8 as char
    }
}

/// Bytes written in hexadecimal: two small-letter digits for each byte,
/// the high one first.
pub open spec fn hex_text(bytes: Seq<u8>) -> Seq<char> {
    Seq::new(
        2 * bytes.len(),
        |i: int|
            if i % 2 == 0 {
                hex_digit((bytes[i / 2] / 16) as nat)
            } else {
                hex_digit((bytes[i / 2] % 16) as nat)
            },
    )
}

/// A number written in hexadecimal, without leading zeros.
pub open spec fn hex_number_text(n: nat) -> Seq<char>
    decreases n,
{
    if n < 16 {
        seq![hex_digit(n)]
    } else {
        hex_number_text(n / 16).push(hex_digit(n % 16))
    }
}

fn hex_digit_str(d: u64) -> (text: &'static str)
    requires
        d < 16,
    ensures
        text@ == seq![hex_digit(d as nat)],
{
    proof {
        reveal_strlit("0");
        reveal_strlit("1");
        reveal_strlit("2");
        reveal_strlit("3");
        reveal_strlit("4");
        reveal_strlit("5");
        reveal_strlit("6");
        reveal_strlit("7");
        reveal_strlit("8");
        reveal_strlit("9");
        reveal_strlit("a");
        reveal_strlit("b");
        reveal_strlit("c");
        reveal_strlit("d");
        reveal_strlit("e");
        reveal_strlit("f");
    }
    let text = if d == 0 {
        "0"
    } else if d == 1 {
        "1"
    } else if d == 2 {
        "2"
    } else if d == 3 {
        "3"
    } else if d == 4 {
        "4"
    } else if d == 5 {
        "5"
    } else if d == 6 {
        "6"
    } else if d == 7 {
        "7"
    } else if d == 8 {
        "8"
    } else if d == 9 {
        "9"
    } else if d == 10 {
        "a"
    } else if d == 11 {
        "b"
    } else if d == 12 {
        "c"
    } else if d == 13 {
        "d"
    } else if d == 14 {
        "e"
    } else {
        "f"
    };
    assert(text@ =~= seq![hex_digit(d as nat)]);
    text
}

/// Writes bytes in hexadecimal.
pub fn to_hex(bytes: &[u8]) -> (text: String)
    ensures
        text@ == hex_text(bytes@),
{
    let mut text = String::new();
    let mut i: usize = 0;
    assert(text@ =~= hex_text(bytes@.take(0)));
    while i < bytes.len()
        invariant
            i <= bytes.len(),
            text@ == hex_text(bytes@.take(i as int)),
        decreases bytes.len() - i,
    {
        let byte: u8 = bytes[i];
        let high: u64 = (byte / 16) as u64;
        let low: u64 = (byte % 16) as u64;
        text.append(hex_digit_str(high));
        text.append(hex_digit_str(low));
        assert(text@ =~= hex_text(bytes@.take(i + 1)));
        i += 1;
    }
    assert(bytes@.take(i as int) =~= bytes@);
    text
}

/// Writes a number in hexadecimal.
pub fn u64_to_hex(n: u64) -> (text: String)
    ensures
        text@ == hex_number_text(n as nat),
    decreases n,
{
    if n < 16 {
        String::from_str(hex_digit_str(n))
    } else {
        let mut text = u64_to_hex(n / 16);
        text.append(hex_digit_str(n % 16));
        assert(text@ =~= hex_number_text(n as nat));
        text
    }
}

/// The value of a hexadecimal digit of either case.
pub open spec fn hex_digit_value(c: char) -> Option<int> {
    let code = c as u32;
    if '0' as u32 <= code && code <= '9' as u32 {
        Some(code - '0' as u32)
    } else if 'a' as u32 <= code && code <= 'f' as u32 {
        Some(code - 'a' as u32 + 10)
    } else if 'A' as u32 <= code && code <= 'F' as u32 {
        Some(code - 'A' as u32 + 10)
    } else {
        None
    }
}

/// A text of hexadecimal digits, two for each byte.
pub open spec fn is_hex(text: Seq<char>) -> bool {
    &&& text.len() % 2 == 0
    &&& forall|i: int| 0 <= i < text.len() ==> hex_digit_value(#[trigger] text[i]) is Some
}

/// The bytes that a hexadecimal text spells, high digit first.
pub open spec fn hex_bytes(text: Seq<char>) -> Seq<u8> {
    Seq::new(
        (text.len() / 2) as nat,
        |i: int| (16 * hex_digit_value(text[2 * i])->0 + hex_digit_value(text[2 * i + 1])->0) as u8,
    )
}


/// A hexadecimal digit reads back as its value.
pub proof fn lemma_hex_digit_value(d: nat)
    requires
        d < 16,
    ensures
        hex_digit_value(hex_digit(d)) == Some(d as int),
{
}

/// Every character of a number written in hexadecimal is a digit.
pub proof fn lemma_hex_number_digits(n: nat)
    ensures
        forall|i: int|
            0 <= i < hex_number_text(n).len() ==> hex_digit_value(
                #[trigger] hex_number_text(n)[i],
            ) is Some,
    decreases n,
{
    if n < 16 {
        lemma_hex_digit_value(n);
    } else {
        lemma_hex_number_digits(n / 16);
        lemma_hex_digit_value(n % 16);
    }
}

/// Bytes written in hexadecimal read back as the same bytes.
pub proof fn lemma_hex_text_round_trip(bytes: Seq<u8>)
    ensures
        is_hex(hex_text(bytes)),
        hex_bytes(hex_text(bytes)) == bytes,
{
    let text = hex_text(bytes);
    assert forall|i: int| 0 <= i < text.len() implies hex_digit_value(#[trigger] text[i]) is Some by {
        lemma_hex_digit_value((bytes[i / 2] / 16) as nat);
        lemma_hex_digit_value((bytes[i / 2] % 16) as nat);
    }
    assert forall|k: int| 0 <= k < bytes.len() implies hex_bytes(text)[k] == bytes[k] by {
        lemma_hex_digit_value((bytes[k] / 16) as nat);
        lemma_hex_digit_value((bytes[k] % 16) as nat);
        assert(text[2 * k] == hex_digit((bytes[k] / 16) as nat));
        assert(text[2 * k + 1] == hex_digit((bytes[k] % 16) as nat));
    }
    assert(hex_bytes(text) =~= bytes);
}

} // verus!
