use vstd::prelude::*;
use vstd::string::*;

use crate::datetime::{spec_parse_datetime, parse_datetime, DateTimeUtc};
use crate::errors::{Error, ErrorV};

verus! {

// An attribute list is the string map a tag's raw attributes decode to, in
// document order; where a name repeats, the last occurrence wins, as an
// insertion into a map would make it.

/// The value bound to `name` in an attribute list: the value of its last
/// occurrence, or `None` where the name never occurs.
pub open spec fn attrs_find(attrs: Seq<(Seq<char>, Seq<char>)>, name: Seq<char>) -> Option<
    Seq<char>,
>
    decreases attrs.len(),
{
    if attrs.len() == 0 {
        None
    } else if attrs.last().0 == name {
        Some(attrs.last().1)
    } else {
        attrs_find(attrs.drop_last(), name)
    }
}

/// Compares two string slices by their character content.
pub fn str_eq(a: &str, b: &str) -> (r: bool)
    ensures
        r == (a@ == b@),
{
    let sa = String::from_str(a);
    let sb = String::from_str(b);
    sa == sb
}

/// Looks `name` up in an attribute list, as [`attrs_find`] describes.
pub fn attr_value(attrs: &Vec<(String, String)>, name: &str) -> (r: Option<String>)
    ensures
        r.deep_view() == attrs_find(attrs.deep_view(), name@),
{
    let ghost adv = attrs.deep_view();
    let mut found: Option<String> = None;
    let mut i: usize = 0;
    while i < attrs.len()
        invariant
            i <= attrs.len(),
            adv == attrs.deep_view(),
            adv.len() == attrs.len(),
            found.deep_view() == attrs_find(adv.take(i as int), name@),
        decreases attrs.len() - i,
    {
        proof {
            assert(adv.take(i + 1).drop_last() =~= adv.take(i as int));
            assert(adv.take(i + 1).last() == adv[i as int]);
        }
        if str_eq(attrs[i].0.as_str(), name) {
            found = Some(attrs[i].1.clone());
        }
        i += 1;
    }
    proof {
        assert(adv.take(adv.len() as int) =~= adv);
    }
    found
}

/// The coercion for a required string attribute: its value, or the empty
/// string where it is missing.
pub open spec fn spec_string_attr(attrs: Seq<(Seq<char>, Seq<char>)>, name: Seq<char>) -> Seq<
    char,
> {
    match attrs_find(attrs, name) {
        Some(v) => v,
        None => Seq::empty(),
    }
}

/// Reads a required string attribute, as [`spec_string_attr`] describes.
pub fn string_attr(attrs: &Vec<(String, String)>, name: &str) -> (r: String)
    ensures
        r@ == spec_string_attr(attrs.deep_view(), name@),
{
    match attr_value(attrs, name) {
        Some(v) => v,
        None => String::new(),
    }
}

/// The coercion for an optional string attribute: `None` where it is missing
/// or present but empty, its value otherwise.
pub open spec fn spec_opt_string_attr(attrs: Seq<(Seq<char>, Seq<char>)>, name: Seq<char>) -> Option<
    Seq<char>,
> {
    match attrs_find(attrs, name) {
        Some(v) => if v.len() > 0 {
            Some(v)
        } else {
            None
        },
        None => None,
    }
}

/// Reads an optional string attribute, as [`spec_opt_string_attr`] describes.
pub fn opt_string_attr(attrs: &Vec<(String, String)>, name: &str) -> (r: Option<String>)
    ensures
        r.deep_view() == spec_opt_string_attr(attrs.deep_view(), name@),
{
    match attr_value(attrs, name) {
        Some(v) => {
            if v.as_str().unicode_len() > 0 {
                Some(v)
            } else {
                None
            }
        },
        None => None,
    }
}

/// The coercion for a boolean attribute: `true` exactly where the literal
/// text is `"true"`; anything else — absent, `"false"`, garbage — is `false`.
pub open spec fn spec_bool_attr(attrs: Seq<(Seq<char>, Seq<char>)>, name: Seq<char>) -> bool {
    attrs_find(attrs, name) == Some("true"@)
}

/// Reads a boolean attribute, as [`spec_bool_attr`] describes.
pub fn bool_attr(attrs: &Vec<(String, String)>, name: &str) -> (r: bool)
    ensures
        r == spec_bool_attr(attrs.deep_view(), name@),
{
    match attr_value(attrs, name) {
        Some(v) => str_eq(v.as_str(), "true"),
        None => false,
    }
}

/// Whether `c` is one of the decimal digits `'0'` through `'9'`.
pub open spec fn is_ascii_digit(c: char) -> bool {
    48 <= c as u32 <= 57
}

/// The numeric value of a decimal digit; `0` for any other character.
pub open spec fn digit_val(c: char) -> nat {
    if is_ascii_digit(c) {
        (c as u32 - 48) as nat
    } else {
        0
    }
}

/// The number the digit string denotes, most significant digit first.
pub open spec fn digits_val(s: Seq<char>) -> nat
    decreases s.len(),
{
    if s.len() == 0 {
        0
    } else {
        digits_val(s.drop_last()) * 10 + digit_val(s.last())
    }
}

/// Whether every character of `s` is a decimal digit.
pub open spec fn all_digits(s: Seq<char>) -> bool {
    forall|i: int| 0 <= i < s.len() ==> is_ascii_digit(#[trigger] s[i])
}

/// What `str::parse::<usize>` accepts: an optional leading `'+'`, then one or
/// more decimal digits whose value fits in `usize`; everything else fails.
pub open spec fn spec_parse_usize(s: Seq<char>) -> Option<usize> {
    let ds = if s.len() > 0 && s[0] == '+' {
        s.skip(1)
    } else {
        s
    };
    if ds.len() == 0 || !all_digits(ds) {
        None
    } else if digits_val(ds) > usize::MAX as nat {
        None
    } else {
        Some(digits_val(ds) as usize)
    }
}

proof fn lemma_digits_val_take_le(s: Seq<char>, k: int)
    requires
        0 <= k <= s.len(),
    ensures
        digits_val(s.take(k)) <= digits_val(s),
    decreases s.len() - k,
{
    if k == s.len() {
        assert(s.take(k) =~= s);
    } else {
        assert(s.take(k + 1).drop_last() =~= s.take(k));
        assert(s.take(k + 1).last() == s[k]);
        assert(digits_val(s.take(k + 1)) == digits_val(s.take(k)) * 10 + digit_val(s[k]));
        lemma_digits_val_take_le(s, k + 1);
    }
}

/// Parses a decimal `usize`, accepting exactly what `str::parse::<usize>`
/// accepts, as [`spec_parse_usize`] describes.
pub fn parse_usize(s: &str) -> (r: Option<usize>)
    ensures
        r == spec_parse_usize(s@),
{
    let n = s.unicode_len();
    let start: usize = if n > 0 && s.get_char(0) == '+' {
        1
    } else {
        0
    };
    let ghost ds = if start == 1 {
        s@.skip(1)
    } else {
        s@
    };
    if n == start {
        return None;
    }
    let mut acc: u128 = 0;
    let mut i: usize = start;
    while i < n
        invariant
            start <= i <= n,
            n == s@.len(),
            start <= 1,
            (start == 1) == (s@.len() > 0 && s@[0] == '+'),
            start == 0 ==> ds == s@,
            start == 1 ==> ds == s@.skip(1) && s@.len() > 0,
            ds.len() == n - start,
            forall|j: int| 0 <= j < ds.len() ==> ds[j] == s@[j + start],
            forall|j: int| 0 <= j < i - start ==> is_ascii_digit(#[trigger] ds[j]),
            acc as nat == digits_val(ds.take(i - start)),
            acc <= usize::MAX as u128,
        decreases n - i,
    {
        let c = s.get_char(i);
        let cu: u32 = c as u32;
        if cu < 48 || cu > 57 {
            proof {
                let k = i - start;
                assert(ds[k] == s@[i as int]);
                assert(!is_ascii_digit(ds[k]));
            }
            return None;
        }
        let d: u128 = (cu - 48) as u128;
        proof {
            let k = i - start;
            assert(ds.take(k + 1).drop_last() =~= ds.take(k));
            assert(ds.take(k + 1).last() == ds[k]);
            assert(digits_val(ds.take(k + 1)) == digits_val(ds.take(k)) * 10 + digit_val(ds[k]));
        }
        acc = acc * 10 + d;
        if acc > usize::MAX as u128 {
            proof {
                lemma_digits_val_take_le(ds, i + 1 - start);
            }
            return None;
        }
        i += 1;
    }
    proof {
        assert(ds.take(n - start) =~= ds);
    }
    Some(acc as usize)
}

/// The coercion for a numeric attribute: its value parsed as a decimal
/// `usize`; `0` — never an error — where it is missing or unparsable.
pub open spec fn spec_usize_attr(attrs: Seq<(Seq<char>, Seq<char>)>, name: Seq<char>) -> usize {
    match attrs_find(attrs, name) {
        Some(v) => match spec_parse_usize(v) {
            Some(k) => k,
            None => 0,
        },
        None => 0,
    }
}

/// Reads a numeric attribute, as [`spec_usize_attr`] describes.
pub fn usize_attr(attrs: &Vec<(String, String)>, name: &str) -> (r: usize)
    ensures
        r == spec_usize_attr(attrs.deep_view(), name@),
{
    match attr_value(attrs, name) {
        Some(v) => match parse_usize(v.as_str()) {
            Some(k) => k,
            None => 0,
        },
        None => 0,
    }
}

/// The coercion for an optional datetime attribute: `None` where it is
/// missing, empty, or unparsable — a blank or malformed value degrades
/// silently.
pub open spec fn spec_opt_datetime_attr(attrs: Seq<(Seq<char>, Seq<char>)>, name: Seq<char>) -> Option<
    DateTimeUtc,
> {
    match attrs_find(attrs, name) {
        Some(v) => if v.len() == 0 {
            None
        } else {
            spec_parse_datetime(v)
        },
        None => None,
    }
}

/// Reads an optional datetime attribute, as [`spec_opt_datetime_attr`]
/// describes.
pub fn opt_datetime_attr(attrs: &Vec<(String, String)>, name: &str) -> (r: Option<DateTimeUtc>)
    ensures
        r == spec_opt_datetime_attr(attrs.deep_view(), name@),
{
    match attr_value(attrs, name) {
        Some(v) => {
            if v.as_str().unicode_len() == 0 {
                None
            } else {
                parse_datetime(v.as_str())
            }
        },
        None => None,
    }
}

/// The coercion for a required datetime attribute: `None` where it is missing
/// or present but empty, its instant where it parses — but a non-empty value
/// that parses as none of the three accepted forms is a fatal parse error.
pub open spec fn spec_req_datetime_attr(attrs: Seq<(Seq<char>, Seq<char>)>, name: Seq<char>) -> Result<
    Option<DateTimeUtc>,
    ErrorV,
> {
    match attrs_find(attrs, name) {
        Some(v) => if v.len() == 0 {
            Ok(None)
        } else {
            match spec_parse_datetime(v) {
                Some(d) => Ok(Some(d)),
                None => Err(ErrorV::ParsingError("Invalid datetime format: "@ + v)),
            }
        },
        None => Ok(None),
    }
}

/// Reads a required datetime attribute, as [`spec_req_datetime_attr`]
/// describes.
pub fn req_datetime_attr(attrs: &Vec<(String, String)>, name: &str) -> (r: Result<
    Option<DateTimeUtc>,
    Error,
>)
    ensures
        match r {
            Ok(d) => spec_req_datetime_attr(attrs.deep_view(), name@) == Ok::<_, ErrorV>(d),
            Err(e) => spec_req_datetime_attr(attrs.deep_view(), name@) == Err::<
                Option<DateTimeUtc>,
                _,
            >(e.deep_view()),
        },
{
    match attr_value(attrs, name) {
        Some(v) => {
            if v.as_str().unicode_len() == 0 {
                Ok(None)
            } else {
                match parse_datetime(v.as_str()) {
                    Some(d) => Ok(Some(d)),
                    None => {
                        let msg = String::from_str("Invalid datetime format: ").concat(v.as_str());
                        Err(Error::ParsingError(msg))
                    },
                }
            }
        },
        None => Ok(None),
    }
}

} // verus!
