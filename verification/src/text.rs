//! Searching text for a marker.
use vstd::prelude::*;
use vstd::std_specs::iter::IteratorSpec;
use vstd::string::*;

verus! {

/// Whether two texts are the same.
pub fn same_text(left: &str, right: &str) -> (same: bool)
    ensures
        same == (left@ == right@),
{
    String::from_str(left) == String::from_str(right)
}

/// Whether `needle` stands in `hay` at position `at`.
pub open spec fn occurs_at(hay: Seq<char>, needle: Seq<char>, at: int) -> bool {
    &&& 0 <= at
    &&& at + needle.len() <= hay.len()
    &&& hay.subrange(at, at + needle.len()) == needle
}

/// Whether `needle` stands somewhere in `hay` as a run of consecutive
/// characters.
pub open spec fn occurs_in(hay: Seq<char>, needle: Seq<char>) -> bool {
    exists|at: int| occurs_at(hay, needle, at)
}

/// The characters of `text`, in order.
pub fn chars_of(text: &str) -> (chars: Vec<char>)
    ensures
        chars@ == text@,
{
    let mut chars: Vec<char> = Vec::new();
    let mut rest = text.chars();
    loop
        invariant
            rest.obeys_prophetic_iter_laws(),
            chars@ + rest.remaining() == text@,
            rest.decrease() is Some,
        ensures
            chars@ == text@,
        decreases rest.decrease()->0,
    {
        match rest.next() {
            Some(c) => {
                chars.push(c);
            },
            None => {
                break ;
            },
        }
    }
    chars
}

/// Whether `needle` stands in `hay` at position `at`.
fn matches_at(hay: &Vec<char>, needle: &Vec<char>, at: usize) -> (found: bool)
    requires
        at + needle.len() <= hay.len(),
    ensures
        found == occurs_at(hay@, needle@, at as int),
{
    let mut k: usize = 0;
    while k < needle.len()
        invariant
            k <= needle.len(),
            at + needle.len() <= hay.len(),
            forall|j: int| 0 <= j < k ==> hay@[at + j] == needle@[j],
        decreases needle.len() - k,
    {
        if hay[at + k] != needle[k] {
            assert(hay@.subrange(at as int, at + needle@.len())[k as int] != needle@[k as int]);
            return false;
        }
        k += 1;
    }
    assert(hay@.subrange(at as int, at + needle@.len()) =~= needle@);
    true
}

/// Whether `needle` stands somewhere in `hay`. The empty text stands in
/// every text.
pub fn contains(hay: &str, needle: &str) -> (found: bool)
    ensures
        found == occurs_in(hay@, needle@),
{
    let hay_chars = chars_of(hay);
    let needle_chars = chars_of(needle);
    if needle_chars.len() > hay_chars.len() {
        return false;
    }
    let last: usize = hay_chars.len() - needle_chars.len();
    let mut at: usize = 0;
    loop
        invariant
            at <= last,
            last == hay_chars.len() - needle_chars.len(),
            hay_chars@ == hay@,
            needle_chars@ == needle@,
            forall|i: int| 0 <= i < at ==> !occurs_at(hay@, needle@, i),
        decreases last - at,
    {
        if matches_at(&hay_chars, &needle_chars, at) {
            return true;
        }
        if at == last {
            return false;
        }
        at += 1;
    }
}

/// Why a text was not taken as a whole number.
#[derive(Debug, Clone, Copy, PartialEq, Eq, Structural)]
pub enum IntFault {
    /// The text is empty.
    Empty,
    /// The text holds something other than digits behind an optional `+`,
    /// or no digit at all.
    InvalidDigit,
    /// The number is too large for the machine's word.
    PosOverflow,
}

impl IntFault {
    /// What the fault says.
    pub open spec fn message(self) -> Seq<char> {
        match self {
            IntFault::Empty => "cannot parse integer from empty string"@,
            IntFault::InvalidDigit => "invalid digit found in string"@,
            IntFault::PosOverflow => "number too large to fit in target type"@,
        }
    }

    /// What the fault says.
    pub fn to_message(&self) -> (text: String)
        ensures
            text@ == self.message(),
    {
        match self {
            IntFault::Empty => "cannot parse integer from empty string".to_owned(),
            IntFault::InvalidDigit => "invalid digit found in string".to_owned(),
            IntFault::PosOverflow => "number too large to fit in target type".to_owned(),
        }
    }
}

/// Whether `c` is one of the ten digits.
pub open spec fn is_digit(c: char) -> bool {
    '0' <= c <= '9'
}

/// The number that the digit `c` stands for.
pub open spec fn digit_value(c: char) -> nat {
    (c as u32 - '0' as u32) as nat
}

/// The number that a run of digits spells in base ten; 0 for the empty run.
pub open spec fn digits_value(digits: Seq<char>) -> nat
    decreases digits.len(),
{
    if digits.len() == 0 {
        0
    } else {
        digits_value(digits.drop_last()) * 10 + digit_value(digits.last())
    }
}

/// Whether the digits at the head of `body` are exactly its first `run`
/// characters.
pub open spec fn digit_run(body: Seq<char>, run: int) -> bool {
    &&& 0 <= run <= body.len()
    &&& forall|i: int| 0 <= i < run ==> is_digit(#[trigger] body[i])
    &&& run < body.len() ==> !is_digit(body[run])
}

/// How many digits stand at the head of `body`.
pub open spec fn leading_digits(body: Seq<char>) -> int {
    choose|run: int| digit_run(body, run)
}

/// The whole number that a text spells, as the machine's word: digits in
/// base ten behind an optional `+`. Reading from the left, the first digit
/// that takes the number beyond the word is `PosOverflow`, and the first
/// character that is no digit is `InvalidDigit`, whichever comes first; a
/// text without a digit is `InvalidDigit`, and `Empty` where it is empty.
pub open spec fn whole_number(text: Seq<char>) -> Result<usize, IntFault> {
    let body = if text.len() > 0 && text[0] == '+' {
        text.drop_first()
    } else {
        text
    };
    let run = leading_digits(body);
    if text.len() == 0 {
        Err(IntFault::Empty)
    } else if body.len() == 0 {
        Err(IntFault::InvalidDigit)
    } else if digits_value(body.take(run)) > usize::MAX {
        Err(IntFault::PosOverflow)
    } else if run < body.len() {
        Err(IntFault::InvalidDigit)
    } else {
        Ok(digits_value(body) as usize)
    }
}

/// The digits at the head of a text end at one place only.
proof fn lemma_digit_run_unique(body: Seq<char>, first: int, second: int)
    requires
        digit_run(body, first),
        digit_run(body, second),
    ensures
        first == second,
{
    if first < second {
        assert(is_digit(body[first]));
    } else if second < first {
        assert(is_digit(body[second]));
    }
}

/// The digits at the head of a text go on from any run of digits at its
/// head.
proof fn lemma_digit_run_from(body: Seq<char>, seen: int) -> (run: int)
    requires
        0 <= seen <= body.len(),
        forall|i: int| 0 <= i < seen ==> is_digit(#[trigger] body[i]),
    ensures
        seen <= run,
        digit_run(body, run),
        leading_digits(body) == run,
    decreases body.len() - seen,
{
    let run = if seen < body.len() && is_digit(body[seen]) {
        lemma_digit_run_from(body, seen + 1)
    } else {
        seen
    };
    lemma_digit_run_unique(body, run, leading_digits(body));
    run
}

/// A longer run of digits spells no smaller a number.
proof fn lemma_digits_value_grows(body: Seq<char>, shorter: int, longer: int)
    requires
        0 <= shorter <= longer <= body.len(),
    ensures
        digits_value(body.take(shorter)) <= digits_value(body.take(longer)),
    decreases longer - shorter,
{
    if shorter < longer {
        lemma_digits_value_grows(body, shorter, longer - 1);
        assert(body.take(longer).drop_last() =~= body.take(longer - 1));
    }
}

/// Reads a whole number from a text.
pub fn parse_usize(text: &str) -> (parsed: Result<usize, IntFault>)
    ensures
        parsed == whole_number(text@),
{
    let chars = chars_of(text);
    if chars.len() == 0 {
        return Err(IntFault::Empty);
    }
    let start: usize = if chars[0] == '+' {
        1
    } else {
        0
    };
    let ghost body = if start == 1 {
        text@.drop_first()
    } else {
        text@
    };
    if start == chars.len() {
        return Err(IntFault::InvalidDigit);
    }
    let count: usize = chars.len() - start;
    let mut number: usize = 0;
    let mut at: usize = 0;
    assert(body.take(0) =~= Seq::<char>::empty());
    while at < count
        invariant
            chars@ == text@,
            text@.len() > 0,
            body == if text@[0] == '+' {
                text@.drop_first()
            } else {
                text@
            },
            start <= 1,
            start as int + count as int == chars.len(),
            body.len() == count,
            forall|i: int| 0 <= i < count ==> body[i] == chars@[start as int + i],
            at <= count,
            forall|i: int| 0 <= i < at ==> is_digit(#[trigger] body[i]),
            number == digits_value(body.take(at as int)),
        decreases count - at,
    {
        let c = chars[start + at];
        if !('0' <= c && c <= '9') {
            proof {
                assert(body[at as int] == c);
                assert(digit_run(body, at as int));
                lemma_digit_run_unique(body, at as int, leading_digits(body));
            }
            return Err(IntFault::InvalidDigit);
        }
        let digit: usize = (c as u32 - '0' as u32) as usize;
        proof {
            assert(body.take(at as int + 1).drop_last() =~= body.take(at as int));
            assert(body.take(at as int + 1).last() == c);
        }
        if number > (usize::MAX - digit) / 10 {
            proof {
                let run = lemma_digit_run_from(body, at as int + 1);
                lemma_digits_value_grows(body, at as int + 1, run);
            }
            return Err(IntFault::PosOverflow);
        }
        number = number * 10 + digit;
        at += 1;
    }
    proof {
        let run = lemma_digit_run_from(body, at as int);
        assert(body.take(at as int) =~= body);
    }
    Ok(number)
}

} // verus!
