//! A quantity as it travels in a request: a number held as its decimal text.

use vstd::prelude::*;
use vstd::string::*;

verus! {

/// Whether a character is a decimal digit.
pub open spec fn is_digit(c: char) -> bool {
    '0' <= c <= '9'
}

/// Where the run of digits that starts at `from` ends.
pub open spec fn digits_end(text: Seq<char>, from: int) -> int
    decreases text.len() - from,
{
    if 0 <= from < text.len() && is_digit(text[from]) {
        digits_end(text, from + 1)
    } else {
        from
    }
}

/// Whether `c` stands at `at`.
pub open spec fn has(text: Seq<char>, at: int, c: char) -> bool {
    0 <= at < text.len() && text[at] == c
}

/// Where the whole part of a number starts: after the minus sign, if there
/// is one.
pub open spec fn whole_start(text: Seq<char>) -> int {
    if has(text, 0, '-') {
        1
    } else {
        0
    }
}

/// Where the fraction ends: after the digits behind the point, or where the
/// whole part ends if no point follows it.
pub open spec fn fraction_end(text: Seq<char>) -> int {
    let whole_end = digits_end(text, whole_start(text));
    if has(text, whole_end, '.') {
        digits_end(text, whole_end + 1)
    } else {
        whole_end
    }
}

/// Whether an exponent follows the fraction.
pub open spec fn has_exponent(text: Seq<char>) -> bool {
    has(text, fraction_end(text), 'e') || has(text, fraction_end(text), 'E')
}

/// Where the digits of the exponent start: after the letter and its sign.
pub open spec fn exponent_start(text: Seq<char>) -> int {
    let letter = fraction_end(text);
    if has(text, letter + 1, '+') || has(text, letter + 1, '-') {
        letter + 2
    } else {
        letter + 1
    }
}

/// Whether `text` is a number as JSON writes one: an optional minus sign; a
/// whole part, which is `0` or starts with another digit; an optional
/// fraction, a point and at least one digit; an optional exponent, `e` or
/// `E`, an optional sign and at least one digit; and nothing after that.
pub open spec fn is_number(text: Seq<char>) -> bool {
    let start = whole_start(text);
    let whole_end = digits_end(text, start);
    &&& whole_end > start
    &&& has(text, start, '0') ==> whole_end == start + 1
    &&& has(text, whole_end, '.') ==> fraction_end(text) > whole_end + 1
    &&& if has_exponent(text) {
        digits_end(text, exponent_start(text)) > exponent_start(text) && digits_end(
            text,
            exponent_start(text),
        ) == text.len()
    } else {
        fraction_end(text) == text.len()
    }
}

/// A number as decimal text.
#[derive(Debug, PartialEq, Eq)]
pub struct Quantity {
    text: String,
}

impl View for Quantity {
    type V = Seq<char>;

    closed spec fn view(&self) -> Seq<char> {
        self.text@
    }
}

impl Clone for Quantity {
    fn clone(&self) -> (copy: Quantity)
        ensures
            copy@ == self@,
    {
        proof {
            use_type_invariant(self);
        }
        Quantity { text: self.text.clone() }
    }
}

fn digits_from(text: &str, length: usize, from: usize) -> (end: usize)
    requires
        length == text@.len(),
        from <= length,
    ensures
        end == digits_end(text@, from as int),
        from <= end <= length,
{
    let mut at = from;
    while at < length
        invariant
            from <= at <= length,
            length == text@.len(),
            digits_end(text@, from as int) == digits_end(text@, at as int),
        decreases length - at,
    {
        let c = text.get_char(at);
        if !('0' <= c && c <= '9') {
            return at;
        }
        at = at + 1;
    }
    at
}

fn stands_at(text: &str, length: usize, at: usize, c: char) -> (found: bool)
    requires
        length == text@.len(),
    ensures
        found == has(text@, at as int, c),
{
    at < length && text.get_char(at) == c
}

impl Quantity {
    /// Every quantity is a number.
    #[verifier::type_invariant]
    pub closed spec fn well_formed(self) -> bool {
        is_number(self.text@)
    }

    /// Takes `text` as a quantity if it is a number, and not otherwise.
    pub fn parse(text: &str) -> (quantity: Option<Quantity>)
        ensures
            match quantity {
                Some(quantity) => is_number(text@) && quantity@ == text@,
                None => !is_number(text@),
            },
    {
        let length = text.unicode_len();
        let start: usize = if stands_at(text, length, 0, '-') {
            1
        } else {
            0
        };
        let whole_end = digits_from(text, length, start);
        if whole_end == start {
            return None;
        }
        if stands_at(text, length, start, '0') && whole_end != start + 1 {
            return None;
        }
        let mut end = whole_end;
        if stands_at(text, length, whole_end, '.') {
            end = digits_from(text, length, whole_end + 1);
            if end == whole_end + 1 {
                return None;
            }
        }
        assert(end == fraction_end(text@));
        if stands_at(text, length, end, 'e') || stands_at(text, length, end, 'E') {
            let digits: usize = if end + 1 < length && (stands_at(text, length, end + 1, '+')
                || stands_at(text, length, end + 1, '-')) {
                end + 2
            } else {
                end + 1
            };
            assert(digits == exponent_start(text@));
            let last = digits_from(text, length, digits);
            if last == digits || last != length {
                return None;
            }
        } else if end != length {
            return None;
        }
        Some(Quantity { text: String::from_str(text) })
    }

    /// The decimal text.
    pub fn as_str(&self) -> (text: &str)
        ensures
            text@ == self@,
            is_number(text@),
    {
        proof {
            use_type_invariant(self);
        }
        self.text.as_str()
    }
}

} // verus!
