//! Identifiers as HomeCore sees them: decimal numbers and name slugs.

use vstd::prelude::*;
use vstd::string::StringExecFns;

verus! {

/// The lower-case form of a text, as Unicode defines it.
pub uninterp spec fn lowercase(s: Seq<char>) -> Seq<char>;

/// Whether Unicode counts a character as a letter or a number.
pub uninterp spec fn alphanumeric(c: char) -> bool;

/// `str::to_lowercase`: the lower-case equivalent of the text, here only named.
pub assume_specification[ str::to_lowercase ](s: &str) -> (r: String)
    ensures
        r@ == lowercase(s@),
;

/// `char::is_alphanumeric`: the Unicode property, here only named.
pub assume_specification[ char::is_alphanumeric ](c: char) -> (r: bool)
    ensures
        r == alphanumeric(c),
;

/// `String::push`: appends one character at the end.
pub assume_specification[ String::push ](s: &mut String, c: char)
    ensures
        final(s)@ == old(s)@.push(c),
;

/// The character of a decimal digit.
pub open spec fn digit_char(d: nat) -> char {
    (48 + d) as char
}

/// The decimal digits of a number, most significant first.
pub open spec fn decimal_digits(n: nat) -> Seq<char>
    decreases n,
{
    if n < 10 {
        seq![digit_char(n)]
    } else {
        decimal_digits(n / 10).push(digit_char(n % 10))
    }
}

/// Writes a number in decimal, without leading zeros.
pub fn decimal(n: u32) -> (r: String)
    ensures
        r@ == decimal_digits(n as nat),
    decreases n,
{
    let mut s = if n < 10 {
        String::new()
    } else {
        decimal(n / 10)
    };
    let digit: u8 = 48 + (n % 10) as u8;
    s.push(digit as char);
    s
}

/// Whether a character is one of the ten ASCII digits.
pub open spec fn is_digit(c: char) -> bool {
    '0' <= c <= '9'
}

/// The number that a text of digits stands for.
pub open spec fn number_of_digits(s: Seq<char>) -> int
    decreases s.len(),
{
    if s.len() == 0 {
        0
    } else {
        10 * number_of_digits(s.drop_last()) + (s.last() as int - 48)
    }
}

/// The number that a text stands for, if it is made of digits alone and the number fits.
pub open spec fn parsed_decimal(s: Seq<char>) -> Option<u32> {
    if s.len() > 0 && (forall|i: int| 0 <= i < s.len() ==> is_digit(#[trigger] s[i]))
        && number_of_digits(s) <= u32::MAX {
        Some(number_of_digits(s) as u32)
    } else {
        None
    }
}

proof fn more_digits_are_more(s: Seq<char>, i: int)
    requires
        0 <= i <= s.len(),
        forall|j: int| 0 <= j < s.len() ==> is_digit(#[trigger] s[j]),
    ensures
        0 <= number_of_digits(s.take(i)) <= number_of_digits(s),
    decreases s.len(),
{
    if s.len() > 0 {
        let before = s.drop_last();
        assert(is_digit(s[s.len() - 1]));
        if i < s.len() {
            assert(before.take(i) =~= s.take(i));
            more_digits_are_more(before, i);
        } else {
            assert(s.take(i) =~= s);
            more_digits_are_more(before, before.len() as int);
            assert(before.take(before.len() as int) =~= before);
        }
    }
}

/// Reads a decimal number. There is none in an empty text, in one with anything but digits, and
/// in one whose number does not fit.
pub fn read_decimal(s: &str) -> (r: Option<u32>)
    ensures
        r == parsed_decimal(s@),
{
    let mut n: u32 = 0;
    let mut empty = true;
    for c in it: s.chars()
        invariant
            it.seq() == s@,
            empty == (it.index() == 0),
            forall|j: int| 0 <= j < it.index() ==> is_digit(#[trigger] s@[j]),
            n == number_of_digits(s@.take(it.index() as int)),
    {
        proof {
            let i = it.index() as int;
            assert(s@[i] == c);
            assert(s@.take(i + 1).drop_last() =~= s@.take(i));
        }
        if c < '0' || c > '9' {
            return None;
        }
        let longer: u64 = (n as u64) * 10 + (c as u64 - 48);
        if longer > u32::MAX as u64 {
            proof {
                if forall|j: int| 0 <= j < s@.len() ==> is_digit(#[trigger] s@[j]) {
                    more_digits_are_more(s@, it.index() + 1);
                }
            }
            return None;
        }
        n = longer as u32;
        empty = false;
    }
    assert(s@.take(s@.len() as int) =~= s@);
    if empty {
        None
    } else {
        Some(n)
    }
}

/// Slug of one character: kept if it is a letter or a number, else an underscore.
pub open spec fn slug_char_of(c: char, keep: bool) -> char {
    if keep {
        c
    } else {
        '_'
    }
}

/// Slug of an already lower-cased text.
pub open spec fn slug_of_lowered(s: Seq<char>) -> Seq<char> {
    s.map_values(|c: char| slug_char_of(c, alphanumeric(c)))
}

/// Slug of a name: lower-cased, then every character that is neither a letter nor a number
/// replaced by an underscore.
pub open spec fn slug_of(name: Seq<char>) -> Seq<char> {
    slug_of_lowered(lowercase(name))
}

/// Keeps a character or replaces it by an underscore.
pub fn slug_char(c: char, keep: bool) -> (r: char)
    ensures
        r == slug_char_of(c, keep),
{
    if keep {
        c
    } else {
        '_'
    }
}

/// Slug of an already lower-cased text, character by character.
pub fn slug_lowered(lowered: &str) -> (r: String)
    ensures
        r@ == slug_of_lowered(lowered@),
{
    let mut out = String::new();
    for c in it: lowered.chars()
        invariant
            out@ == slug_of_lowered(lowered@.take(it.index() as int)),
            it.seq() == lowered@,
    {
        out.push(slug_char(c, c.is_alphanumeric()));
        proof {
            let i = it.index() as int;
            assert(lowered@.take(i + 1) == lowered@.take(i).push(c));
            assert(slug_of_lowered(lowered@.take(i + 1)) == slug_of_lowered(lowered@.take(i)).push(
                slug_char_of(c, alphanumeric(c)),
            ));
        }
    }
    assert(lowered@.take(lowered@.len() as int) == lowered@);
    out
}

/// Slug of a name.
pub fn slug(name: &str) -> (r: String)
    ensures
        r@ == slug_of(name@),
{
    let lowered = name.to_lowercase();
    slug_lowered(lowered.as_str())
}

/// A prefix followed by a text.
pub fn prefixed(prefix: &str, rest: &str) -> (r: String)
    ensures
        r@ == prefix@ + rest@,
{
    let mut s = prefix.to_owned();
    s.append(rest);
    s
}

/// Every digit of a decimal number is one of the ten ASCII digits, and there is at least one.
pub proof fn decimal_digits_are_digits(n: nat)
    ensures
        decimal_digits(n).len() >= 1,
        forall|i: int|
            0 <= i < decimal_digits(n).len() ==> '0' <= #[trigger] decimal_digits(n)[i] <= '9',
    decreases n,
{
    if n >= 10 {
        decimal_digits_are_digits(n / 10);
    }
}

/// Different numbers are written differently.
pub proof fn decimal_digits_injective(m: nat, n: nat)
    requires
        decimal_digits(m) == decimal_digits(n),
    ensures
        m == n,
    decreases m,
{
    decimal_digits_are_digits(m / 10);
    decimal_digits_are_digits(n / 10);
    assert(decimal_digits(m).last() == digit_char(m % 10));
    assert(decimal_digits(n).last() == digit_char(n % 10));
    if m >= 10 && n >= 10 {
        assert(decimal_digits(m).drop_last() == decimal_digits(m / 10));
        assert(decimal_digits(n).drop_last() == decimal_digits(n / 10));
        decimal_digits_injective(m / 10, n / 10);
    }
}

proof fn digits_stand_for_their_number(n: nat)
    ensures
        number_of_digits(decimal_digits(n)) == n,
    decreases n,
{
    let digits = decimal_digits(n);
    assert(digits.last() == digit_char(n % 10));
    if n < 10 {
        assert(number_of_digits(digits.drop_last()) == 0);
    } else {
        digits_stand_for_their_number(n / 10);
        assert(digits.drop_last() =~= decimal_digits(n / 10));
    }
}

/// A number that was written in decimal is read back.
pub proof fn decimals_are_read_back(n: u32)
    ensures
        parsed_decimal(decimal_digits(n as nat)) == Some(n),
{
    decimal_digits_are_digits(n as nat);
    digits_stand_for_their_number(n as nat);
}

/// A slug is as long as the lower-cased name and holds only letters, numbers and underscores.
pub proof fn slug_characters(name: Seq<char>)
    ensures
        slug_of(name).len() == lowercase(name).len(),
        forall|i: int|
            0 <= i < slug_of(name).len() ==> alphanumeric(#[trigger] slug_of(name)[i]) || slug_of(
                name,
            )[i] == '_',
{
}

/// Replacing characters in a text that went through it already changes nothing.
pub proof fn slug_is_stable(s: Seq<char>)
    ensures
        slug_of_lowered(slug_of_lowered(s)) == slug_of_lowered(s),
{
    assert(slug_of_lowered(slug_of_lowered(s)) =~= slug_of_lowered(s));
}

/// Numbers are written in decimal places: a number below ten is its digit, and ten times a number
/// plus a digit is written as that number followed by the digit.
pub proof fn decimals_are_positional(m: nat, d: nat)
    requires
        d < 10,
    ensures
        decimal_digits(d) == seq![seq!['0', '1', '2', '3', '4', '5', '6', '7', '8', '9'][d as int]],
        m > 0 ==> decimal_digits((10 * m + d) as nat) == decimal_digits(m).push(
            seq!['0', '1', '2', '3', '4', '5', '6', '7', '8', '9'][d as int],
        ),
{
    assert((48 + d) as char == seq!['0', '1', '2', '3', '4', '5', '6', '7', '8', '9'][d as int]);
    if m > 0 {
        assert((10 * m + d) as nat / 10 == m);
        assert((10 * m + d) as nat % 10 == d);
    }
}

/// Numbers are read digit by digit: each digit counts ten times less than the one before it. An
/// empty text, a text with anything but digits and a number that does not fit are not read, and
/// nothing that follows them changes that.
pub proof fn decimals_are_read_digit_by_digit(s: Seq<char>, c: char)
    ensures
        parsed_decimal(seq![]) is None,
        !('0' <= c <= '9') ==> parsed_decimal(s.push(c)) is None,
        '0' <= c <= '9' ==> parsed_decimal(seq![c]) == Some((c as int - '0' as int) as u32),
        '0' <= c <= '9' && parsed_decimal(s) is Some ==> parsed_decimal(s.push(c)) == (if 10
            * parsed_decimal(s)->0 + (c as int - '0' as int) <= 4294967295 {
            Some((10 * parsed_decimal(s)->0 + (c as int - '0' as int)) as u32)
        } else {
            None
        }),
        s.len() > 0 && parsed_decimal(s) is None ==> parsed_decimal(s.push(c)) is None,
{
    let all = s.push(c);
    assert(all.drop_last() =~= s);
    assert(all[all.len() - 1] == c);
    assert(seq![c].drop_last() =~= seq![]);
    assert(number_of_digits(seq![c]) == 10 * number_of_digits(seq![]) + (c as int - 48));
    assert(number_of_digits(all) == 10 * number_of_digits(s) + (c as int - 48));
    if forall|i: int| 0 <= i < s.len() ==> is_digit(#[trigger] s[i]) {
        more_digits_are_more(s, s.len() as int);
        assert(s.take(s.len() as int) =~= s);
        if is_digit(c) {
            assert forall|i: int| 0 <= i < all.len() implies is_digit(#[trigger] all[i]) by {
                if i < s.len() {
                    assert(is_digit(s[i]));
                }
            }
        }
    } else {
        let i = choose|i: int| 0 <= i < s.len() && !is_digit(#[trigger] s[i]);
        assert(!is_digit(all[i]));
    }
}

/// A slug is the lower-cased name, letter by letter, with an underscore for each character that is
/// neither a letter nor a number.
pub proof fn slugs_go_letter_by_letter(name: Seq<char>, i: int)
    requires
        0 <= i < lowercase(name).len(),
    ensures
        slug_of(name).len() == lowercase(name).len(),
        alphanumeric(lowercase(name)[i]) ==> slug_of(name)[i] == lowercase(name)[i],
        !alphanumeric(lowercase(name)[i]) ==> slug_of(name)[i] == '_',
{
}

/// An already lower-cased text keeps its letters and numbers where they are, and has underscores
/// for the rest.
pub proof fn lowered_slugs_go_letter_by_letter(s: Seq<char>, i: int)
    requires
        0 <= i < s.len(),
    ensures
        slug_of_lowered(s).len() == s.len(),
        alphanumeric(s[i]) ==> slug_of_lowered(s)[i] == s[i],
        !alphanumeric(s[i]) ==> slug_of_lowered(s)[i] == '_',
        slug_char_of(s[i], true) == s[i],
        slug_char_of(s[i], false) == '_',
{
}

} // verus!
