//! The run parameters: the novel id with its length bound, the parameter
//! set assembled from flags or from the interactive prompts, and the
//! verified decisions behind each prompt's validation loop.

use vstd::prelude::*;
use crate::text::dec_seq;
use crate::text::lower_seq;
use crate::text::to_ascii_lower;
use crate::text::usize_to_string;

verus! {

/// The longest novel id accepted.
pub const ID_LIMIT: usize = 10;

/// The first chapter downloaded when none is named.
pub fn default_from_value() -> (r: usize)
    ensures
        r == 1,
{
    1
}

/// A novel id that was too long.
#[derive(Debug, PartialEq, Eq, Structural, Clone, Copy)]
pub struct IdOverflow(pub usize);

impl IdOverflow {
    /// The report shown for a rejected id.
    pub fn message(&self) -> (r: String)
        ensures
            r@ == "Id cannot be more than "@ + dec_seq(self.0 as nat) + " characters"@,
    {
        let mut out = String::from_str("Id cannot be more than ");
        let digits = usize_to_string(self.0);
        out.append(digits.as_str());
        out.append(" characters");
        proof {
            assert(out@ =~= "Id cannot be more than "@ + dec_seq(self.0 as nat) + " characters"@);
        }
        out
    }
}

/// A novel id: a short identifier, at most [`ID_LIMIT`] characters.
#[derive(Debug, Clone)]
pub struct Id(pub String);

impl Id {
    /// The id's length bound.
    pub open spec fn wf(&self) -> bool {
        self.0@.len() <= ID_LIMIT
    }

    /// Accepts `text` as a novel id exactly when it is within the length
    /// bound, and keeps it as it stands.
    pub fn parse(text: &str) -> (r: Result<Id, IdOverflow>)
        ensures
            text@.len() <= ID_LIMIT <==> r is Ok,
            r matches Ok(id) ==> id.0@ == text@ && id.wf(),
            r matches Err(e) ==> e == IdOverflow(ID_LIMIT),
    {
        if text.unicode_len() <= ID_LIMIT {
            Ok(Id(String::from_str(text)))
        } else {
            Err(IdOverflow(ID_LIMIT))
        }
    }
}

/// One run's parameters: the first and optionally last chapter to
/// download, the age-gated deployment flag, the novel id, and an optional
/// title override for the output file.
#[derive(Debug, Clone)]
pub struct Cli {
    pub from: usize,
    pub r18: bool,
    pub to: Option<usize>,
    pub novel: Id,
    pub title: Option<String>,
}

impl Cli {
    /// Chapter bounds are positive and the id is within its bound.
    pub open spec fn wf(&self) -> bool {
        &&& self.from >= 1
        &&& match self.to {
            Some(t) => t >= 1,
            None => true,
        }
        &&& self.novel.wf()
    }
}

/// Whether `c` is a decimal digit.
pub open spec fn is_digit(c: char) -> bool {
    48 <= c as u32 <= 57
}

/// The value of one digit character.
pub open spec fn digit_val(c: char) -> nat {
    (c as u32 - 48) as nat
}

/// Whether every character of `s` is a decimal digit.
pub open spec fn all_digits(s: Seq<char>) -> bool {
    forall|i: int| 0 <= i < s.len() ==> is_digit(#[trigger] s[i])
}

/// The value of a digit string, most significant digit first.
pub open spec fn digits_val(s: Seq<char>) -> nat
    decreases s.len(),
{
    if s.len() == 0 {
        0
    } else {
        digits_val(s.drop_last()) * 10 + digit_val(s.last())
    }
}

/// `s` without the single leading plus sign that a decimal numeral may
/// carry.
pub open spec fn numeral_part(s: Seq<char>) -> Seq<char> {
    if s.len() > 0 && s[0] == '+' {
        s.drop_first()
    } else {
        s
    }
}

/// Whether `s` reads as a chapter number: an optional plus sign, then at
/// least one digit, with a value that fits the machine.
pub open spec fn parses_as_usize(s: Seq<char>) -> bool {
    &&& numeral_part(s).len() > 0
    &&& all_digits(numeral_part(s))
    &&& digits_val(numeral_part(s)) <= usize::MAX
}

proof fn lemma_digits_val_prefix(s: Seq<char>, k: int)
    requires
        0 <= k <= s.len(),
    ensures
        digits_val(s.subrange(0, k)) <= digits_val(s),
    decreases s.len() - k,
{
    if k == s.len() {
        assert(s.subrange(0, k) =~= s);
    } else {
        lemma_digits_val_prefix(s, k + 1);
        let longer = s.subrange(0, k + 1);
        assert(longer.drop_last() =~= s.subrange(0, k));
        assert(digits_val(s.subrange(0, k)) <= digits_val(longer));
    }
}

/// Reads a chapter number the way the prompts do: an optional plus sign
/// and decimal digits, rejected when empty, non-numeric, or too large for
/// the machine.
pub fn parse_usize(s: &str) -> (r: Option<usize>)
    ensures
        parses_as_usize(s@) <==> r is Some,
        r matches Some(n) ==> n == digits_val(numeral_part(s@)),
{
    let len = s.unicode_len();
    let start: usize = if len > 0 && s.get_char(0) == '+' {
        1
    } else {
        0
    };
    proof {
        assert(numeral_part(s@) =~= s@.subrange(start as int, len as int));
    }
    if len == start {
        return None;
    }
    let mut n: usize = 0;
    let mut i: usize = start;
    while i < len
        invariant
            start <= i <= len,
            len == s@.len(),
            start <= 1,
            numeral_part(s@) == s@.subrange(start as int, len as int),
            all_digits(numeral_part(s@).subrange(0, i - start)),
            n == digits_val(numeral_part(s@).subrange(0, i - start)),
        decreases len - i,
    {
        let ghost m = numeral_part(s@);
        let c = s.get_char(i);
        let u = c as u32;
        proof {
            assert(m[i - start] == c);
        }
        if u < 48 || u > 57 {
            proof {
                assert(!is_digit(m[i - start]));
            }
            return None;
        }
        let d = (u - 48) as usize;
        proof {
            assert(m.subrange(0, i - start + 1).drop_last() =~= m.subrange(0, i - start));
            assert(m.subrange(0, i - start + 1).last() == m[i - start]);
        }
        let n10 = match n.checked_mul(10) {
            Some(v) => v,
            None => {
                proof {
                    lemma_digits_val_prefix(m, i - start + 1);
                }
                return None;
            },
        };
        n = match n10.checked_add(d) {
            Some(v) => v,
            None => {
                proof {
                    lemma_digits_val_prefix(m, i - start + 1);
                }
                return None;
            },
        };
        i = i + 1;
    }
    proof {
        let m = numeral_part(s@);
        assert(m.subrange(0, m.len() as int) =~= m);
    }
    Some(n)
}

/// Whether an answer reads as yes: `y` or `yes`, in any letter case.
pub fn is_affirmative(line: &str) -> (r: bool)
    ensures
        r == (lower_seq(line@) == "y"@ || lower_seq(line@) == "yes"@),
{
    let lowered = to_ascii_lower(line);
    lowered == String::from_str("y") || lowered == String::from_str("yes")
}

/// What one answer to the starting-chapter prompt decides.
#[derive(Debug, PartialEq, Eq, Structural, Clone, Copy)]
pub enum FromAnswer {
    DefaultStart,
    Chapter(usize),
    Zero,
    NotNumber,
}

/// Decides the starting-chapter prompt: an empty answer takes the default
/// start, zero and non-numbers are rejected for another round, and a
/// positive number is the chosen chapter.
pub fn parse_from_answer(line: &str) -> (r: FromAnswer)
    ensures
        line@.len() == 0 ==> r == FromAnswer::DefaultStart,
        line@.len() > 0 && !parses_as_usize(line@) ==> r == FromAnswer::NotNumber,
        line@.len() > 0 && parses_as_usize(line@) && digits_val(numeral_part(line@)) == 0 ==> r
            == FromAnswer::Zero,
        line@.len() > 0 && parses_as_usize(line@) && digits_val(numeral_part(line@)) > 0 ==> (
        r matches FromAnswer::Chapter(n) && n == digits_val(numeral_part(line@))),
{
    if line.is_empty() {
        return FromAnswer::DefaultStart;
    }
    match parse_usize(line) {
        Some(n) => if n == 0 {
            FromAnswer::Zero
        } else {
            FromAnswer::Chapter(n)
        },
        None => FromAnswer::NotNumber,
    }
}

/// What one answer to the last-chapter prompt decides.
#[derive(Debug, PartialEq, Eq, Structural, Clone, Copy)]
pub enum ToAnswer {
    AllChapters,
    Chapter(usize),
    NotGreater,
    NotNumber,
}

/// Decides the last-chapter prompt: an empty answer downloads to the end,
/// a number is accepted only above the chosen start, and anything else is
/// rejected for another round.
pub fn parse_to_answer(line: &str, from: usize) -> (r: ToAnswer)
    ensures
        line@.len() == 0 ==> r == ToAnswer::AllChapters,
        line@.len() > 0 && !parses_as_usize(line@) ==> r == ToAnswer::NotNumber,
        line@.len() > 0 && parses_as_usize(line@) && digits_val(numeral_part(line@)) <= from ==> r
            == ToAnswer::NotGreater,
        line@.len() > 0 && parses_as_usize(line@) && digits_val(numeral_part(line@)) > from ==> (
        r matches ToAnswer::Chapter(n) && n == digits_val(numeral_part(line@))),
{
    if line.is_empty() {
        return ToAnswer::AllChapters;
    }
    match parse_usize(line) {
        Some(n) => if n > from {
            ToAnswer::Chapter(n)
        } else {
            ToAnswer::NotGreater
        },
        None => ToAnswer::NotNumber,
    }
}

} // verus!
