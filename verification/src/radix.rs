//! Integer literals in a radix between 2 and 36: what a text means, and how a
//! value is written.

use vstd::prelude::*;

use crate::bigint::bigint_from_str_radix;
use crate::bigint::bigint_to_str_radix;
use crate::bigint::parse_error_text;
use crate::bigint::BigInteger;
use crate::error::CommandError;

verus! {

/// The radixes that the codec accepts.
pub open spec fn valid_radix(radix: int) -> bool {
    2 <= radix <= 36
}

/// The value of a digit character: `0`-`9`, then the letters of either case
/// from 10 to 35. Any other character gets 36, which no accepted radix admits.
pub open spec fn digit_value(c: char) -> int {
    if '0' <= c && c <= '9' {
        c as int - '0' as int
    } else if 'a' <= c && c <= 'z' {
        c as int - 'a' as int + 10
    } else if 'A' <= c && c <= 'Z' {
        c as int - 'A' as int + 10
    } else {
        36
    }
}

/// The character that writes the digit `d`: `0`-`9`, then lower-case letters.
pub open spec fn digit_char(d: int) -> char {
    if d < 10 {
        ('0' as int + d) as char
    } else {
        ('a' as int + (d - 10)) as char
    }
}

/// Whether the literal starts with a minus sign.
pub open spec fn literal_negative(text: Seq<char>) -> bool {
    text.len() > 0 && text[0] == '-'
}

/// The literal without its sign, if it starts with one.
pub open spec fn literal_body(text: Seq<char>) -> Seq<char> {
    if text.len() > 0 && (text[0] == '-' || text[0] == '+') {
        text.subrange(1, text.len() as int)
    } else {
        text
    }
}

/// Whether `text` is an integer literal in `radix`: an optional sign, then at
/// least one digit of that radix; underscores may follow the first digit.
pub open spec fn is_literal(text: Seq<char>, radix: int) -> bool {
    let body = literal_body(text);
    &&& body.len() > 0
    &&& body[0] != '_'
    &&& forall|i: int|
        0 <= i < body.len() ==> (#[trigger] body[i]) == '_' || digit_value(body[i]) < radix
}

/// The number that the digits write in `radix`, most significant digit first,
/// underscores passed over.
pub open spec fn digits_value(digits: Seq<char>, radix: int) -> int
    decreases digits.len(),
{
    if digits.len() == 0 {
        0
    } else if digits.last() == '_' {
        digits_value(digits.drop_last(), radix)
    } else {
        digits_value(digits.drop_last(), radix) * radix + digit_value(digits.last())
    }
}

/// The integer that a literal stands for.
pub open spec fn literal_value(text: Seq<char>, radix: int) -> int {
    let magnitude = digits_value(literal_body(text), radix);
    if literal_negative(text) {
        -magnitude
    } else {
        magnitude
    }
}

/// The digits of `n` in `radix`, most significant first, without padding.
pub open spec fn render_magnitude(n: nat, radix: int) -> Seq<char>
    decreases n,
    via render_magnitude_decreases
{
    if radix < 2 || n < radix {
        seq![digit_char(n as int)]
    } else {
        render_magnitude((n as int / radix) as nat, radix).push(digit_char(n as int % radix))
    }
}

#[via_fn]
proof fn render_magnitude_decreases(n: nat, radix: int) {
    if !(radix < 2 || n < radix) {
        assert(0 <= n as int / radix < n) by (nonlinear_arith)
            requires
                radix >= 2,
                n >= radix,
        ;
    }
}

/// How a value is written in `radix`: a minus sign if it is negative, then its digits.
pub open spec fn render(value: int, radix: int) -> Seq<char> {
    if value < 0 {
        seq!['-'] + render_magnitude((-value) as nat, radix)
    } else {
        render_magnitude(value as nat, radix)
    }
}

/// Accepts a radix between 2 and 36 and refuses every other number.
pub fn check_radix(radix: i64) -> (res: Result<u32, CommandError>)
    ensures
        valid_radix(radix as int) ==> res == Ok::<u32, CommandError>(radix as u32),
        !valid_radix(radix as int) ==> res == Err::<u32, CommandError>(CommandError::RadixError),
{
    if 2 <= radix && radix <= 36 {
        Ok(radix as u32)
    } else {
        Err(CommandError::RadixError)
    }
}

/// Reads `text` as a signed integer literal in `radix`.
///
/// The radix is judged first: outside `2..=36` the call fails with
/// `RadixError`, whatever the text. A text that is no literal of the radix
/// fails with `ParseError`.
pub fn parse(text: &str, radix: i64) -> (res: Result<BigInteger, CommandError>)
    ensures
        match res {
            Ok(value) => {
                &&& valid_radix(radix as int)
                &&& is_literal(text@, radix as int)
                &&& value@ == literal_value(text@, radix as int)
            },
            Err(CommandError::RadixError) => !valid_radix(radix as int),
            Err(CommandError::ParseError(_)) => {
                &&& valid_radix(radix as int)
                &&& !is_literal(text@, radix as int)
            },
            Err(_) => false,
        },
{
    let radix = match check_radix(radix) {
        Ok(radix) => radix,
        Err(error) => { return Err(error); },
    };
    match bigint_from_str_radix(text, radix) {
        Ok(inner) => Ok(BigInteger::from_bigint(inner)),
        Err(error) => Err(CommandError::ParseError(parse_error_text(&error))),
    }
}

/// Writes `value` in `radix`: lower-case digits, a minus sign in front of a
/// negative value, no padding. A radix outside `2..=36` fails with `RadixError`.
pub fn format(value: &BigInteger, radix: i64) -> (res: Result<String, CommandError>)
    ensures
        match res {
            Ok(text) => valid_radix(radix as int) && text@ == render(value@, radix as int),
            Err(error) => error == CommandError::RadixError && !valid_radix(radix as int),
        },
{
    let radix = match check_radix(radix) {
        Ok(radix) => radix,
        Err(error) => { return Err(error); },
    };
    Ok(bigint_to_str_radix(value.as_bigint(), radix))
}

/// A digit below 36 is written by a character that reads back as that digit,
/// and that is neither a sign nor an underscore.
pub proof fn lemma_digit_char_value(d: int)
    requires
        0 <= d < 36,
    ensures
        digit_value(digit_char(d)) == d,
        digit_char(d) != '_',
        digit_char(d) != '-',
        digit_char(d) != '+',
{
}

/// The digits written for `n` are digits of the radix, at least one of them,
/// and they read back as `n`.
pub proof fn lemma_render_magnitude_reads_back(n: nat, radix: int)
    requires
        valid_radix(radix),
    ensures
        render_magnitude(n, radix).len() > 0,
        forall|i: int|
            0 <= i < render_magnitude(n, radix).len() ==> {
                let c = #[trigger] render_magnitude(n, radix)[i];
                &&& digit_value(c) < radix
                &&& c != '_'
                &&& c != '-'
                &&& c != '+'
            },
        digits_value(render_magnitude(n, radix), radix) == n,
    decreases n,
{
    if n < radix {
        lemma_digit_char_value(n as int);
        let s = render_magnitude(n, radix);
        assert(s.drop_last() =~= Seq::<char>::empty());
        assert(digits_value(s.drop_last(), radix) == 0);
    } else {
        let high = (n as int / radix) as nat;
        let low = n as int % radix;
        assert(0 <= n as int / radix < n && 0 <= low < radix && n == high * radix + low)
            by (nonlinear_arith)
            requires
                radix >= 2,
                n >= radix,
                high == n as int / radix,
                low == n as int % radix,
        ;
        lemma_render_magnitude_reads_back(high, radix);
        lemma_digit_char_value(low);
        let front = render_magnitude(high, radix);
        let s = render_magnitude(n, radix);
        assert(s == front.push(digit_char(low)));
        assert(s.drop_last() =~= front);
        assert(s.last() == digit_char(low));
    }
}

/// Writing a value and reading the text back gives the value: for every
/// integer and every accepted radix, the written text is a literal of that
/// radix, and its value is the integer. What follows the sign in the written
/// text are the digits written for the magnitude, and the text starts with
/// a minus sign exactly when the value is negative.
pub proof fn lemma_render_parse_round_trip(value: int, radix: int)
    requires
        valid_radix(radix),
    ensures
        is_literal(render(value, radix), radix),
        literal_value(render(value, radix), radix) == value,
        literal_body(render(value, radix)) == render_magnitude(
            (if value < 0 {
                -value
            } else {
                value
            }) as nat,
            radix,
        ),
        literal_negative(render(value, radix)) <==> value < 0,
        render(value, radix)[0] != '+',
{
    let text = render(value, radix);
    if value < 0 {
        let digits = render_magnitude((-value) as nat, radix);
        lemma_render_magnitude_reads_back((-value) as nat, radix);
        assert(text == seq!['-'] + digits);
        assert(text[0] == '-');
        assert(literal_body(text) =~= digits);
    } else {
        lemma_render_magnitude_reads_back(value as nat, radix);
        let digits = render_magnitude(value as nat, radix);
        assert(digits[0] != '-' && digits[0] != '+');
        assert(literal_body(text) == digits);
    }
}

/// The one way in which the codec writes a value: a literal without a plus
/// sign, without underscores and capital letters, without a zero in front of
/// other digits, and without a minus sign in front of zero.
pub open spec fn is_canonical(text: Seq<char>, radix: int) -> bool {
    let body = literal_body(text);
    &&& is_literal(text, radix)
    &&& text[0] != '+'
    &&& forall|i: int|
        0 <= i < body.len() ==> (#[trigger] body[i]) != '_' && !('A' <= body[i] && body[i] <= 'Z')
    &&& body[0] == '0' ==> body.len() == 1 && !literal_negative(text)
}

/// What a literal becomes when it is read and written again in the same radix.
pub open spec fn normalized(text: Seq<char>, radix: int) -> Seq<char> {
    render(literal_value(text, radix), radix)
}

/// A lower-case digit is the character that writes its own value.
pub proof fn lemma_digit_value_char(c: char)
    requires
        digit_value(c) < 36,
        !('A' <= c && c <= 'Z'),
    ensures
        digit_char(digit_value(c)) == c,
        0 <= digit_value(c),
        digit_value(c) == 0 <==> c == '0',
{
}

/// The digits written for `n` have no capital letters, and start with a zero
/// only when `n` is zero, which is written as the single digit.
pub proof fn lemma_render_magnitude_canonical(n: nat, radix: int)
    requires
        valid_radix(radix),
    ensures
        forall|i: int|
            0 <= i < render_magnitude(n, radix).len() ==> {
                let c = #[trigger] render_magnitude(n, radix)[i];
                !('A' <= c && c <= 'Z')
            },
        render_magnitude(n, radix)[0] == '0' ==> n == 0 && render_magnitude(n, radix).len() == 1,
    decreases n,
{
    if n < radix {
        lemma_digit_char_value(n as int);
    } else {
        let high = (n as int / radix) as nat;
        let low = n as int % radix;
        assert(1 <= n as int / radix < n && 0 <= low < radix) by (nonlinear_arith)
            requires
                radix >= 2,
                n >= radix,
                low == n as int % radix,
        ;
        lemma_render_magnitude_canonical(high, radix);
        lemma_render_magnitude_reads_back(high, radix);
        lemma_digit_char_value(low);
        let front = render_magnitude(high, radix);
        assert(render_magnitude(n, radix) == front.push(digit_char(low)));
    }
}

/// Every value is written in canonical form.
pub proof fn lemma_render_canonical(value: int, radix: int)
    requires
        valid_radix(radix),
    ensures
        is_canonical(render(value, radix), radix),
{
    let magnitude = (if value < 0 {
        -value
    } else {
        value
    }) as nat;
    lemma_render_parse_round_trip(value, radix);
    lemma_render_magnitude_reads_back(magnitude, radix);
    lemma_render_magnitude_canonical(magnitude, radix);
}

/// Digits of the radix without underscores and capital letters, and without
/// a zero in front of others, are the digits written for their own value;
/// that value is zero only for the single digit zero.
pub proof fn lemma_canonical_digits_render(digits: Seq<char>, radix: int)
    requires
        valid_radix(radix),
        digits.len() > 0,
        forall|i: int|
            0 <= i < digits.len() ==> {
                let c = #[trigger] digits[i];
                &&& digit_value(c) < radix
                &&& c != '_'
                &&& !('A' <= c && c <= 'Z')
            },
        digits[0] == '0' ==> digits.len() == 1,
    ensures
        digits_value(digits, radix) >= 0,
        digits_value(digits, radix) == 0 <==> digits[0] == '0',
        render_magnitude(digits_value(digits, radix) as nat, radix) == digits,
    decreases digits.len(),
{
    let front = digits.drop_last();
    let c = digits.last();
    let d = digit_value(c);
    lemma_digit_value_char(c);
    if front.len() == 0 {
        assert(digits_value(front, radix) == 0);
        assert(digits_value(digits, radix) == digits_value(front, radix) * radix + d);
        assert(digits_value(digits, radix) == d);
        assert(digits =~= seq![c]);
    } else {
        assert(front[0] == digits[0]);
        assert forall|i: int| 0 <= i < front.len() implies {
            let c = #[trigger] front[i];
            &&& digit_value(c) < radix
            &&& c != '_'
            &&& !('A' <= c && c <= 'Z')
        } by {
            assert(front[i] == digits[i]);
        }
        lemma_canonical_digits_render(front, radix);
        let high = digits_value(front, radix);
        let n = high * radix + d;
        assert(digits_value(digits, radix) == n);
        assert(n >= radix && n / radix == high && n % radix == d) by (nonlinear_arith)
            requires
                radix >= 2,
                high >= 1,
                0 <= d < radix,
                n == high * radix + d,
        ;
        assert(render_magnitude(n as nat, radix) == render_magnitude(high as nat, radix).push(
            digit_char(d),
        ));
        assert(front.push(c) =~= digits);
    }
}

/// A canonical literal is written back unchanged: reading it and writing its
/// value in the same radix gives the very same text.
pub proof fn lemma_canonical_is_fixed(text: Seq<char>, radix: int)
    requires
        valid_radix(radix),
        is_canonical(text, radix),
    ensures
        normalized(text, radix) == text,
{
    let body = literal_body(text);
    lemma_canonical_digits_render(body, radix);
    let magnitude = digits_value(body, radix);
    if literal_negative(text) {
        assert(magnitude > 0);
        assert(seq!['-'] + body =~= text);
    } else {
        assert(body == text);
    }
}

/// Normalizing keeps the value, gives a canonical literal, and changes
/// nothing when done a second time.
pub proof fn lemma_normalized(text: Seq<char>, radix: int)
    requires
        valid_radix(radix),
    ensures
        is_canonical(normalized(text, radix), radix),
        literal_value(normalized(text, radix), radix) == literal_value(text, radix),
        normalized(normalized(text, radix), radix) == normalized(text, radix),
{
    lemma_render_canonical(literal_value(text, radix), radix);
    lemma_render_parse_round_trip(literal_value(text, radix), radix);
}

} // verus!
