//! Base 58 and base 64.
use vstd::prelude::*;
use base64::Engine;

verus! {

/// What the bs58 crate reports of text that is not base 58.
#[verifier::external_type_specification]
#[verifier::external_body]
pub struct ExBase58Error(bs58::decode::Error);

/// What the base64 crate reports of text that is not base 64.
#[verifier::external_type_specification]
#[verifier::external_body]
pub struct ExBase64Error(base64::DecodeError);

/// The number that `digits`, most significant first, write in `base`.
pub open spec fn number(digits: Seq<int>, base: int) -> int
    decreases digits.len(),
{
    if digits.len() == 0 {
        0
    } else {
        number(digits.drop_last(), base) * base + digits.last()
    }
}

/// `digits` start with `count` zeros and no more.
pub open spec fn leading_zeros(digits: Seq<int>, count: int) -> bool {
    &&& 0 <= count <= digits.len()
    &&& forall|i: int| 0 <= i < count ==> #[trigger] digits[i] == 0
    &&& count < digits.len() ==> digits[count] != 0
}

/// The bytes of `data` as digits.
pub open spec fn byte_digits(data: Seq<u8>) -> Seq<int> {
    data.map_values(|b: u8| b as int)
}

/// What a character is worth in base 58: all digits and letters but `0`, `O`, `I` and `l`, in
/// the order of their codes.
pub open spec fn base58_digit(c: char) -> Option<int> {
    if '1' <= c <= '9' {
        Some(c as int - '1' as int)
    } else if 'A' <= c <= 'H' {
        Some(9 + c as int - 'A' as int)
    } else if 'J' <= c <= 'N' {
        Some(17 + c as int - 'J' as int)
    } else if 'P' <= c <= 'Z' {
        Some(22 + c as int - 'P' as int)
    } else if 'a' <= c <= 'k' {
        Some(33 + c as int - 'a' as int)
    } else if 'm' <= c <= 'z' {
        Some(44 + c as int - 'm' as int)
    } else {
        None
    }
}

/// Every character of `text` is a digit of base 58.
pub open spec fn in_base58(text: Seq<char>) -> bool {
    forall|i: int| 0 <= i < text.len() ==> base58_digit(#[trigger] text[i]) is Some
}

/// The digits of base 58 that `text` is made of.
pub open spec fn base58_digits(text: Seq<char>) -> Seq<int> {
    text.map_values(|c: char| base58_digit(c)->0)
}

/// `text` is `data` in base 58: the same number, after as many zeros.
pub open spec fn is_base58(text: Seq<char>, data: Seq<u8>) -> bool {
    &&& in_base58(text)
    &&& number(base58_digits(text), 58) == number(byte_digits(data), 256)
    &&& exists|count: int| #[trigger]
        leading_zeros(base58_digits(text), count) && leading_zeros(byte_digits(data), count)
}

/// The bytes that `text` is in base 58.
pub open spec fn base58_content(text: Seq<char>) -> Option<Seq<u8>> {
    if in_base58(text) {
        Some(choose|data: Seq<u8>| is_base58(text, data))
    } else {
        None
    }
}

/// The form of `data` in base 58.
pub open spec fn base58_text(data: Seq<u8>) -> Seq<char> {
    choose|text: Seq<char>| is_base58(text, data)
}

/// What a character is worth in base 64: upper case letters, lower case letters, digits, `+`
/// and `/`.
pub open spec fn base64_digit(c: char) -> Option<int> {
    if 'A' <= c <= 'Z' {
        Some(c as int - 'A' as int)
    } else if 'a' <= c <= 'z' {
        Some(26 + c as int - 'a' as int)
    } else if '0' <= c <= '9' {
        Some(52 + c as int - '0' as int)
    } else if c == '+' {
        Some(62)
    } else if c == '/' {
        Some(63)
    } else {
        None
    }
}

/// The byte of `data` at `at`, zero past the end.
pub open spec fn byte_or_zero(data: Seq<u8>, at: int) -> int {
    if at < data.len() {
        data[at] as int
    } else {
        0
    }
}

/// The number that three bytes of `data` make, of which the first is at `at`.
pub open spec fn three_bytes(data: Seq<u8>, at: int) -> int {
    0x1_0000 * byte_or_zero(data, at) + 0x100 * byte_or_zero(data, at + 1) + byte_or_zero(
        data,
        at + 2,
    )
}

/// `text` holds, from `4 * group` on, the four characters of base 64 that stand for the three
/// bytes of `data` from `3 * group` on. In place of a character that tells of bytes past the
/// end alone there is `=`.
pub open spec fn base64_group(text: Seq<char>, data: Seq<u8>, group: int) -> bool {
    let bytes = three_bytes(data, 3 * group);
    &&& base64_digit(text[4 * group]) == Some(bytes / 0x4_0000)
    &&& base64_digit(text[4 * group + 1]) == Some(bytes / 0x1000 % 0x40)
    &&& if 3 * group + 1 < data.len() {
        base64_digit(text[4 * group + 2]) == Some(bytes / 0x40 % 0x40)
    } else {
        text[4 * group + 2] == '='
    }
    &&& if 3 * group + 2 < data.len() {
        base64_digit(text[4 * group + 3]) == Some(bytes % 0x40)
    } else {
        text[4 * group + 3] == '='
    }
}

/// `text` is `data` in base 64, with its padding.
pub open spec fn is_base64(text: Seq<char>, data: Seq<u8>) -> bool {
    &&& text.len() == 4 * ((data.len() + 2) / 3)
    &&& forall|group: int|
        0 <= group && 3 * group < data.len() ==> #[trigger] base64_group(text, data, group)
}

/// The bytes that `text` is in base 64.
pub open spec fn base64_content(text: Seq<char>) -> Option<Seq<u8>> {
    if exists|data: Seq<u8>| is_base64(text, data) {
        Some(choose|data: Seq<u8>| is_base64(text, data))
    } else {
        None
    }
}

/// Calls `bs58::decode` and `into_vec`. It succeeds exactly on text in its default alphabet,
/// the one of Bitcoin, and gives the bytes of which the text is the base 58 form.
#[verifier::external_body]
pub(crate) fn decode_base58(text: &str) -> (content: Result<Vec<u8>, bs58::decode::Error>)
    ensures
        content is Ok <==> in_base58(text@),
        content matches Ok(c) ==> is_base58(text@, c@),
{
    bs58::decode(text).into_vec()
}

/// Calls `decode` of `base64::prelude::BASE64_STANDARD`. It takes the standard alphabet, asks
/// for the padding and refuses bits that tell of no byte: it succeeds exactly where the text is
/// the base 64 form of some bytes, and gives these.
#[verifier::external_body]
pub(crate) fn decode_base64(text: &str) -> (content: Result<Vec<u8>, base64::DecodeError>)
    ensures
        match content {
            Ok(c) => is_base64(text@, c@),
            Err(_) => forall|data: Seq<u8>| !is_base64(text@, data),
        },
{
    base64::prelude::BASE64_STANDARD.decode(text)
}

/// A number whose digits are not negative is not negative, and is zero only where they all are.
proof fn lemma_number_sign(digits: Seq<int>, base: int)
    requires
        base == 58 || base == 256,
        forall|i: int| 0 <= i < digits.len() ==> 0 <= #[trigger] digits[i],
    ensures
        number(digits, base) >= 0,
        number(digits, base) == 0 <==> (forall|i: int|
            0 <= i < digits.len() ==> #[trigger] digits[i] == 0),
    decreases digits.len(),
{
    if digits.len() > 0 {
        let front = digits.drop_last();
        assert forall|i: int| 0 <= i < front.len() implies 0 <= #[trigger] front[i] by {
            assert(front[i] == digits[i]);
        }
        lemma_number_sign(front, base);
        if base == 58 {
            assert(number(digits, 58) == number(front, 58) * 58 + digits.last());
        } else {
            assert(number(digits, 256) == number(front, 256) * 256 + digits.last());
        }
        if number(digits, base) == 0 {
            assert forall|i: int| 0 <= i < digits.len() implies #[trigger] digits[i] == 0 by {
                if i < front.len() {
                    assert(front[i] == digits[i]);
                }
            }
        } else if forall|i: int| 0 <= i < digits.len() ==> #[trigger] digits[i] == 0 {
            assert forall|i: int| 0 <= i < front.len() implies #[trigger] front[i] == 0 by {
                assert(front[i] == digits[i]);
            }
        }
    }
}

/// Digits are told by their number and the zeros before it.
proof fn lemma_number_identifies_digits(left: Seq<int>, right: Seq<int>, base: int, count: int)
    requires
        base == 58 || base == 256,
        forall|i: int| 0 <= i < left.len() ==> 0 <= #[trigger] left[i] < base,
        forall|i: int| 0 <= i < right.len() ==> 0 <= #[trigger] right[i] < base,
        leading_zeros(left, count),
        leading_zeros(right, count),
        number(left, base) == number(right, base),
    ensures
        left == right,
    decreases left.len(),
{
    lemma_number_sign(left, base);
    lemma_number_sign(right, base);
    if left.len() == count || right.len() == count {
        assert(number(left, base) == 0);
        assert(left.len() == count);
        assert(right.len() == count);
        assert(left =~= right);
    } else {
        let before_left = left.drop_last();
        let before_right = right.drop_last();
        assert(forall|i: int| 0 <= i < before_left.len() ==> before_left[i] == left[i]);
        assert(forall|i: int| 0 <= i < before_right.len() ==> before_right[i] == right[i]);
        if base == 58 {
            assert(number(left, 58) == number(before_left, 58) * 58 + left.last());
            assert(number(right, 58) == number(before_right, 58) * 58 + right.last());
        } else {
            assert(number(left, 256) == number(before_left, 256) * 256 + left.last());
            assert(number(right, 256) == number(before_right, 256) * 256 + right.last());
        }
        lemma_number_identifies_digits(before_left, before_right, base, count);
        assert(left =~= before_left.push(left.last()));
        assert(right =~= before_right.push(right.last()));
    }
}

/// Digits start with one count of zeros.
proof fn lemma_one_count_of_zeros(digits: Seq<int>, left: int, right: int)
    requires
        leading_zeros(digits, left),
        leading_zeros(digits, right),
    ensures
        left == right,
{
    if left < right {
        assert(digits[left] == 0);
    }
    if right < left {
        assert(digits[right] == 0);
    }
}

/// Bytes have one form in base 58.
pub proof fn law_content_has_one_base58(data: Seq<u8>, left: Seq<char>, right: Seq<char>)
    requires
        is_base58(left, data),
        is_base58(right, data),
    ensures
        left == right,
        base58_text(data) == left,
{
    assert forall|other: Seq<char>| is_base58(other, data) implies other == left by {
        let bytes = byte_digits(data);
        let here = choose|count: int| #[trigger]
            leading_zeros(base58_digits(left), count) && leading_zeros(bytes, count);
        let there = choose|count: int| #[trigger]
            leading_zeros(base58_digits(other), count) && leading_zeros(bytes, count);
        lemma_one_count_of_zeros(bytes, here, there);
        lemma_number_identifies_digits(base58_digits(left), base58_digits(other), 58, here);
        assert(left.len() == base58_digits(left).len());
        assert(other.len() == base58_digits(other).len());
        assert forall|i: int| 0 <= i < left.len() implies left[i] == other[i] by {
            assert(base58_digits(left)[i] == base58_digits(other)[i]);
            assert(base58_digit(left[i]) is Some);
            assert(base58_digit(other[i]) is Some);
        }
        assert(left =~= other);
    }
}

/// Text in base 58 stands for one sequence of bytes.
pub proof fn law_base58_stands_for_one_content(text: Seq<char>, left: Seq<u8>, right: Seq<u8>)
    requires
        is_base58(text, left),
        is_base58(text, right),
    ensures
        left == right,
        base58_content(text) == Some(left),
{
    assert forall|other: Seq<u8>| is_base58(text, other) implies other == left by {
        let digits = base58_digits(text);
        let here = choose|count: int| #[trigger]
            leading_zeros(digits, count) && leading_zeros(byte_digits(left), count);
        let there = choose|count: int| #[trigger]
            leading_zeros(digits, count) && leading_zeros(byte_digits(other), count);
        lemma_one_count_of_zeros(digits, here, there);
        lemma_number_identifies_digits(byte_digits(left), byte_digits(other), 256, here);
        assert forall|i: int| 0 <= i < left.len() implies left[i] == other[i] by {
            assert(byte_digits(left)[i] == byte_digits(other)[i]);
        }
        assert(left.len() == byte_digits(left).len());
        assert(left =~= other);
    }
}

/// Text in base 64 stands for one sequence of bytes.
pub proof fn law_base64_stands_for_one_content(text: Seq<char>, left: Seq<u8>, right: Seq<u8>)
    requires
        is_base64(text, left),
        is_base64(text, right),
    ensures
        left == right,
        base64_content(text) == Some(left),
{
    assert forall|other: Seq<u8>| is_base64(text, other) implies other == left by {
        let groups = (left.len() + 2) / 3;
        if groups > 0 {
            assert(base64_group(text, left, groups - 1));
            assert(base64_group(text, other, groups - 1));
        }
        assert(left.len() == other.len());
        assert forall|i: int| 0 <= i < left.len() implies left[i] == other[i] by {
            let group = i / 3;
            assert(base64_group(text, left, group));
            assert(base64_group(text, other, group));
            lemma_group_identifies_bytes(text, left, other, group);
        }
        assert(left =~= other);
    }
}

/// The characters of a group tell its bytes.
proof fn lemma_group_identifies_bytes(
    text: Seq<char>,
    left: Seq<u8>,
    right: Seq<u8>,
    group: int,
)
    requires
        0 <= group,
        left.len() == right.len(),
        base64_group(text, left, group),
        base64_group(text, right, group),
    ensures
        byte_or_zero(left, 3 * group) == byte_or_zero(right, 3 * group),
        byte_or_zero(left, 3 * group + 1) == byte_or_zero(right, 3 * group + 1),
        byte_or_zero(left, 3 * group + 2) == byte_or_zero(right, 3 * group + 2),
{
    let here = three_bytes(left, 3 * group);
    let there = three_bytes(right, 3 * group);
    lemma_six_bits(here);
    lemma_six_bits(there);
    if 3 * group + 2 >= left.len() {
        lemma_low_bits(byte_or_zero(left, 3 * group), byte_or_zero(left, 3 * group + 1));
        lemma_low_bits(byte_or_zero(right, 3 * group), byte_or_zero(right, 3 * group + 1));
    }
    assert(here == there);
    lemma_three_bytes(
        byte_or_zero(left, 3 * group),
        byte_or_zero(left, 3 * group + 1),
        byte_or_zero(left, 3 * group + 2),
        here,
    );
    lemma_three_bytes(
        byte_or_zero(right, 3 * group),
        byte_or_zero(right, 3 * group + 1),
        byte_or_zero(right, 3 * group + 2),
        here,
    );
}

/// A number of three bytes in four pieces of six bits.
proof fn lemma_six_bits(bytes: int)
    requires
        0 <= bytes,
    ensures
        bytes == 0x4_0000 * (bytes / 0x4_0000) + 0x1000 * (bytes / 0x1000 % 0x40) + 0x40 * (bytes
            / 0x40 % 0x40) + bytes % 0x40,
{
    assert(bytes / 0x40 / 0x40 == bytes / 0x1000);
    assert(bytes / 0x1000 / 0x40 == bytes / 0x4_0000);
}

/// Six bits, or twice six, of which no byte tells are zero.
proof fn lemma_low_bits(first: int, second: int)
    requires
        0 <= first,
        0 <= second,
    ensures
        (0x1_0000 * first + 0x100 * second) % 0x40 == 0,
        second == 0 ==> (0x1_0000 * first + 0x100 * second) / 0x40 % 0x40 == 0,
{
    assert(0x1_0000 * first + 0x100 * second == 0x40 * (0x400 * first + 4 * second));
    if second == 0 {
        assert((0x1_0000 * first) / 0x40 == 0x400 * first);
    }
}

/// A number of three bytes tells the bytes.
proof fn lemma_three_bytes(first: int, second: int, third: int, bytes: int)
    requires
        0 <= first < 256,
        0 <= second < 256,
        0 <= third < 256,
        bytes == 0x1_0000 * first + 0x100 * second + third,
    ensures
        first == bytes / 0x1_0000,
        second == bytes / 0x100 % 0x100,
        third == bytes % 0x100,
{
}

/// The character that is worth `digit` in base 64.
spec fn base64_symbol(digit: int) -> char {
    if digit < 26 {
        ('A' as int + digit) as char
    } else if digit < 52 {
        ('a' as int + digit - 26) as char
    } else if digit < 62 {
        ('0' as int + digit - 52) as char
    } else if digit == 62 {
        '+'
    } else {
        '/'
    }
}

/// The character that is worth `digit` in base 58.
spec fn base58_symbol(digit: int) -> char {
    if digit < 9 {
        ('1' as int + digit) as char
    } else if digit < 17 {
        ('A' as int + digit - 9) as char
    } else if digit < 22 {
        ('J' as int + digit - 17) as char
    } else if digit < 33 {
        ('P' as int + digit - 22) as char
    } else if digit < 44 {
        ('a' as int + digit - 33) as char
    } else {
        ('m' as int + digit - 44) as char
    }
}

/// Every sequence of bytes has a form in base 64.
pub proof fn law_every_content_has_base64(data: Seq<u8>)
    ensures
        exists|text: Seq<char>| is_base64(text, data),
{
    let text = Seq::new(
        4 * ((data.len() + 2) / 3),
        |i: int|
            {
                let bytes = three_bytes(data, 3 * (i / 4));
                if i % 4 == 0 {
                    base64_symbol(bytes / 0x4_0000)
                } else if i % 4 == 1 {
                    base64_symbol(bytes / 0x1000 % 0x40)
                } else if 3 * (i / 4) + i % 4 > data.len() {
                    '='
                } else if i % 4 == 2 {
                    base64_symbol(bytes / 0x40 % 0x40)
                } else {
                    base64_symbol(bytes % 0x40)
                }
            },
    );
    assert forall|group: int| 0 <= group && 3 * group < data.len() implies #[trigger] base64_group(
        text,
        data,
        group,
    ) by {
        let bytes = three_bytes(data, 3 * group);
        assert(0 <= bytes < 0x100_0000);
        assert((4 * group) / 4 == group && (4 * group) % 4 == 0);
        assert((4 * group + 1) / 4 == group && (4 * group + 1) % 4 == 1);
        assert((4 * group + 2) / 4 == group && (4 * group + 2) % 4 == 2);
        assert((4 * group + 3) / 4 == group && (4 * group + 3) % 4 == 3);
        assert(text[4 * group] == base64_symbol(bytes / 0x4_0000));
        assert(text[4 * group + 1] == base64_symbol(bytes / 0x1000 % 0x40));
        assert(3 * group + 1 < data.len() ==> text[4 * group + 2] == base64_symbol(
            bytes / 0x40 % 0x40,
        ));
        assert(3 * group + 2 < data.len() ==> text[4 * group + 3] == base64_symbol(bytes % 0x40));
        assert(0 <= bytes / 0x4_0000 < 64);
    }
    assert(is_base64(text, data));
}

/// The digits of `value` in base 58, without zeros in front.
spec fn digits_of(value: int) -> Seq<int>
    decreases value,
{
    if value <= 0 {
        Seq::empty()
    } else {
        digits_of(value / 58).push(value % 58)
    }
}

/// The digits of a number write that number, and do not start with zero.
proof fn lemma_digits_of(value: int)
    requires
        0 <= value,
    ensures
        number(digits_of(value), 58) == value,
        digits_of(value).len() > 0 ==> digits_of(value)[0] != 0,
        value > 0 ==> digits_of(value).len() > 0,
        forall|i: int|
            0 <= i < digits_of(value).len() ==> 0 <= #[trigger] digits_of(value)[i] < 58,
    decreases value,
{
    if value > 0 {
        let front = digits_of(value / 58);
        lemma_digits_of(value / 58);
        assert(digits_of(value).drop_last() =~= front);
        assert(number(digits_of(value), 58) == number(front, 58) * 58 + value % 58);
    }
}

/// Zeros in front of a number do not change it.
proof fn lemma_zeros_in_front(count: nat, digits: Seq<int>)
    ensures
        number(Seq::new(count, |i: int| 0int) + digits, 58) == number(digits, 58),
    decreases count + digits.len(),
{
    let all = Seq::new(count, |i: int| 0int) + digits;
    if digits.len() > 0 {
        lemma_zeros_in_front(count, digits.drop_last());
        assert(all.drop_last() =~= Seq::new(count, |i: int| 0int) + digits.drop_last());
    } else if count > 0 {
        lemma_zeros_in_front((count - 1) as nat, digits);
        assert(all.drop_last() =~= Seq::new((count - 1) as nat, |i: int| 0int) + digits);
        assert(all.last() == 0);
    } else {
        assert(all =~= digits);
    }
}

/// Some count of zeros is what `digits` start with.
proof fn lemma_leading_zeros(digits: Seq<int>) -> (count: int)
    ensures
        leading_zeros(digits, count),
    decreases digits.len(),
{
    if digits.len() == 0 || digits[0] != 0 {
        0
    } else {
        let rest = digits.drop_first();
        let count = lemma_leading_zeros(rest);
        assert forall|i: int| 0 <= i < count + 1 implies #[trigger] digits[i] == 0 by {
            if i > 0 {
                assert(rest[i - 1] == digits[i]);
            }
        }
        if count + 1 < digits.len() {
            assert(rest[count] == digits[count + 1]);
        }
        count + 1
    }
}

/// Every sequence of bytes has a form in base 58, and [`base58_text`] is it.
pub proof fn law_every_content_has_base58(data: Seq<u8>)
    ensures
        is_base58(base58_text(data), data),
{
    let bytes = byte_digits(data);
    let value = number(bytes, 256);
    let count = lemma_leading_zeros(bytes);
    lemma_number_sign(bytes, 256);
    lemma_digits_of(value);
    lemma_zeros_in_front(count as nat, digits_of(value));
    let digits = Seq::new(count as nat, |i: int| 0int) + digits_of(value);
    assert(forall|i: int| 0 <= i < digits.len() ==> 0 <= #[trigger] digits[i] < 58);
    let text = digits.map_values(|d: int| base58_symbol(d));
    assert forall|i: int| 0 <= i < text.len() implies base58_digit(#[trigger] text[i]) == Some(
        digits[i],
    ) by {
        let digit = digits[i];
        assert(0 <= digit < 58);
        assert(text[i] == base58_symbol(digit));
    }
    assert(base58_digits(text) =~= digits);
    assert(leading_zeros(digits, count));
    assert(leading_zeros(base58_digits(text), count) && leading_zeros(byte_digits(data), count));
    assert(is_base58(text, data));
}

} // verus!
