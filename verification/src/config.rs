//! Runtime configuration decisions: the concurrency bound read from a
//! setting string, and the model choice read from a name.
//!
//! Reading the environment is the caller's business; the rules for what a
//! raw value means live here, stated exactly.

use vstd::prelude::*;

verus! {

/// A request to process one video, by path.
pub struct ProcessVideoRequest {
    pub video_path: String,
}

/// The description models that can be chosen by name; an unknown or
/// missing name falls back to the lightest model.
#[derive(Clone, Copy, Debug, PartialEq, Eq, Structural)]
pub enum ModelChoice {
    Gemini25Flash,
    Gemini25Pro,
    TextEmbedding004,
    Gemini25FlashLite,
}

/// Whether `c` is a decimal digit.
pub open spec fn is_digit(c: char) -> bool {
    48 <= c as int <= 57
}

/// The numeric part of a setting: an optional leading plus sign is
/// dropped, as the standard integer parser accepts one.
pub open spec fn num_part(s: Seq<char>) -> Seq<char> {
    if s.len() > 0 && s[0] == '+' {
        s.subrange(1, s.len() as int)
    } else {
        s
    }
}

/// Every position holds a digit.
pub open spec fn all_digits(s: Seq<char>) -> bool {
    forall|i: int| 0 <= i < s.len() ==> is_digit(#[trigger] s[i])
}

/// The value of the first `n` digits of `s`.
pub open spec fn digits_val(s: Seq<char>, n: int) -> int
    decreases n,
{
    if n <= 0 {
        0
    } else {
        digits_val(s, n - 1) * 10 + (s[n - 1] as int - 48)
    }
}

/// Whether `s` is a decimal numeral that fits in `usize`, as the standard
/// parser accepts: an optional plus sign, then one or more digits, with
/// the value in range.
pub open spec fn parses_to_usize(s: Seq<char>) -> bool {
    &&& num_part(s).len() >= 1
    &&& all_digits(num_part(s))
    &&& digits_val(num_part(s), num_part(s).len() as int) <= usize::MAX
}

/// The value of a parsable setting.
pub open spec fn parsed_val(s: Seq<char>) -> int {
    digits_val(num_part(s), num_part(s).len() as int)
}

/// A digit prefix's value grows, and never shrinks, with its length.
proof fn lemma_digits_val_monotone(s: Seq<char>, k: int, m: int)
    requires
        0 <= k <= m <= s.len(),
        all_digits(s),
    ensures
        0 <= digits_val(s, k) <= digits_val(s, m),
    decreases m,
{
    if m > 0 && k < m {
        lemma_digits_val_monotone(s, k, m - 1);
    } else if m > 0 && k == m {
        lemma_digits_val_monotone(s, k - 1, m - 1);
    }
}

/// Parses a decimal numeral with an optional leading plus sign, exactly
/// as the standard `usize` parser accepts one: `Some` on every setting
/// whose value fits, `None` on everything else.
pub fn parse_usize_setting(s: &String) -> (r: Option<usize>)
    ensures
        r is Some <==> parses_to_usize(s@),
        r matches Some(v) ==> v == parsed_val(s@),
{
    let n = s.as_str().unicode_len();
    let mut i: usize = 0;
    if n == 0 {
        return Option::None;
    }
    if s.as_str().get_char(0) == '+' {
        i = 1;
    }
    if i == n {
        return Option::None;
    }
    let ghost d = num_part(s@);
    let start = i;
    let mut val: usize = 0;
    while i < n
        invariant
            start <= i <= n,
            n == s@.len(),
            start == (if s@.len() > 0 && s@[0] == '+' { 1int } else { 0int }),
            d == num_part(s@),
            d.len() == n - start,
            forall|j: int| 0 <= j < i - start ==> is_digit(#[trigger] d[j]),
            val == digits_val(d, i - start),
        decreases n - i,
    {
        let c = s.as_str().get_char(i);
        let code = c as u32;
        if code < 48 || code > 57 {
            proof {
                assert(!is_digit(d[i - start]));
            }
            return Option::None;
        }
        let digit = (code - 48) as usize;
        let stepped = match val.checked_mul(10) {
            Option::Some(v) => v.checked_add(digit),
            Option::None => Option::None,
        };
        match stepped {
            Option::Some(v) => {
                val = v;
            },
            Option::None => {
                proof {
                    let upto = i - start + 1;
                    assert(digits_val(d, upto) > usize::MAX);
                    if parses_to_usize(s@) {
                        lemma_digits_val_monotone(d, upto, d.len() as int);
                        assert(false);
                    }
                }
                return Option::None;
            },
        }
        i = i + 1;
    }
    Option::Some(val)
}

/// The concurrency bound from a raw setting: a parsable positive value is
/// taken as it stands; a missing, malformed, oversized or zero value
/// falls back to the default.
pub fn concurrency_setting(raw: Option<&String>) -> (r: usize)
    ensures
        raw is None ==> r == crate::DEFAULT_MAX_CONCURRENCY,
        raw matches Some(s) ==> r == (if parses_to_usize(s@) && parsed_val(s@) > 0 {
            parsed_val(s@)
        } else {
            crate::DEFAULT_MAX_CONCURRENCY as int
        }),
{
    match raw {
        Option::None => crate::DEFAULT_MAX_CONCURRENCY,
        Option::Some(s) => {
            match parse_usize_setting(s) {
                Option::Some(v) => {
                    if v > 0 {
                        v
                    } else {
                        crate::DEFAULT_MAX_CONCURRENCY
                    }
                },
                Option::None => crate::DEFAULT_MAX_CONCURRENCY,
            }
        },
    }
}

/// The model named by a setting: the three spelled-out names select their
/// models; a missing or unknown name selects the lightest model.
pub fn resolve_model(name: Option<&String>) -> (r: ModelChoice)
    ensures
        name is None ==> r is Gemini25FlashLite,
        name matches Some(s) ==> r == (if s@ == "Gemini25Flash"@ {
            ModelChoice::Gemini25Flash
        } else if s@ == "Gemini25Pro"@ {
            ModelChoice::Gemini25Pro
        } else if s@ == "TextEmbedding004"@ {
            ModelChoice::TextEmbedding004
        } else {
            ModelChoice::Gemini25FlashLite
        }),
{
    match name {
        Option::None => ModelChoice::Gemini25FlashLite,
        Option::Some(s) => {
            if *s == String::from_str("Gemini25Flash") {
                ModelChoice::Gemini25Flash
            } else if *s == String::from_str("Gemini25Pro") {
                ModelChoice::Gemini25Pro
            } else if *s == String::from_str("TextEmbedding004") {
                ModelChoice::TextEmbedding004
            } else {
                ModelChoice::Gemini25FlashLite
            }
        },
    }
}

} // verus!
