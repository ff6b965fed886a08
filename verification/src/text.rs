//! Comparing, searching and building text.
use vstd::prelude::*;
use vstd::string::{StringExecFns, StringSliceAdditionalSpecFns};
use vstd::utf8::encode_utf8_decode_utf8;

verus! {

/// Two strings hold the same characters.
pub fn str_eq(a: &str, b: &str) -> (r: bool)
    ensures
        r == (a@ == b@),
{
    let x = a.as_bytes();
    let y = b.as_bytes();
    proof {
        encode_utf8_decode_utf8(a@);
        encode_utf8_decode_utf8(b@);
    }
    if x.len() != y.len() {
        return false;
    }
    let mut i: usize = 0;
    while i < x.len()
        invariant
            x@ == a.spec_bytes(),
            y@ == b.spec_bytes(),
            x@.len() == y@.len(),
            i <= x@.len(),
            forall|k: int| 0 <= k < i ==> x@[k] == y@[k],
        decreases x@.len() - i,
    {
        if x[i] != y[i] {
            return false;
        }
        i = i + 1;
    }
    assert(x@ =~= y@);
    true
}

/// The characters of a string.
pub fn chars_of(s: &str) -> (r: Vec<char>)
    ensures
        r@ == s@,
{
    let mut r: Vec<char> = Vec::new();
    for c in it: s.chars()
        invariant
            it.seq() == s@,
            r@ == it.seq().take(it.index() as int),
    {
        r.push(c);
    }
    r
}

/// `needle` occurs in `hay` starting at index `at`.
pub open spec fn occurs_at(hay: Seq<char>, needle: Seq<char>, at: int) -> bool {
    &&& 0 <= at
    &&& at + needle.len() <= hay.len()
    &&& hay.subrange(at, at + needle.len()) == needle
}

/// `needle` occurs somewhere in `hay`.
pub open spec fn contains_seq(hay: Seq<char>, needle: Seq<char>) -> bool {
    exists|at: int| occurs_at(hay, needle, at)
}

/// Whether `needle` occurs in `hay`.
pub fn contains_chars(hay: &Vec<char>, needle: &Vec<char>) -> (r: bool)
    ensures
        r == contains_seq(hay@, needle@),
{
    if needle.len() > hay.len() {
        return false;
    }
    let hay_len = hay.len();
    let last = hay_len - needle.len();
    let mut at: usize = 0;
    loop
        invariant
            needle@.len() <= hay@.len(),
            hay_len == hay@.len(),
            last == hay@.len() - needle@.len(),
            at <= last,
            forall|p: int| 0 <= p < at ==> !occurs_at(hay@, needle@, p),
        decreases last - at,
    {
        let mut k: usize = 0;
        let mut same = true;
        while k < needle.len()
            invariant
                needle@.len() <= hay@.len(),
                hay_len == hay@.len(),
                last == hay@.len() - needle@.len(),
                at <= last,
                k <= needle@.len(),
                same == forall|q: int| 0 <= q < k ==> hay@[at + q] == needle@[q],
            decreases needle@.len() - k,
        {
            assert(at + k < hay@.len());
            if hay[at + k] != needle[k] {
                same = false;
            }
            k = k + 1;
        }
        if same {
            assert(hay@.subrange(at as int, at + needle@.len()) =~= needle@);
            assert(occurs_at(hay@, needle@, at as int));
            return true;
        }
        assert(!occurs_at(hay@, needle@, at as int)) by {
            let q = choose|q: int| 0 <= q < needle@.len() && hay@[at + q] != needle@[q];
            assert(hay@.subrange(at as int, at + needle@.len())[q] == hay@[at + q]);
        }
        if at == last {
            assert forall|p: int| !occurs_at(hay@, needle@, p) by {
                if 0 <= p && p + needle@.len() <= hay@.len() {
                    assert(p <= at);
                }
            }
            return false;
        }
        at = at + 1;
    }
}

/// The decimal digits of `n`, without leading zeros ("0" for zero).
pub open spec fn decimal(n: nat) -> Seq<char>
    decreases n,
{
    if n < 10 {
        seq![digit_char(n)]
    } else {
        decimal(n / 10).push(digit_char(n % 10))
    }
}

/// The character of a decimal digit.
pub open spec fn digit_char(d: nat) -> char {
    ((48 + d) as u8) as char
}

/// The decimal digits of `n`, as `u16`'s `Display` writes them.
pub fn decimal_chars(n: u16) -> (r: Vec<char>)
    ensures
        r@ == decimal(n as nat),
    decreases n,
{
    if n < 10 {
        let mut r: Vec<char> = Vec::new();
        r.push(((48 + n) as u8) as char);
        r
    } else {
        let mut r = decimal_chars(n / 10);
        r.push(((48 + n % 10) as u8) as char);
        r
    }
}

/// Appends one character to a string.
///
/// Trusted: calls `String::push`, which appends the character to the end of the string.
#[verifier::external_body]
fn push_char(s: &mut String, c: char)
    ensures
        final(s)@ == old(s)@.push(c),
{
    s.push(c)
}

/// The string of the characters `v`.
pub fn string_of_chars(v: &Vec<char>) -> (r: String)
    ensures
        r@ == v@,
{
    let mut r = String::new();
    let mut i: usize = 0;
    while i < v.len()
        invariant
            i <= v@.len(),
            r@ == v@.take(i as int),
        decreases v@.len() - i,
    {
        push_char(&mut r, v[i]);
        assert(r@ =~= v@.take(i + 1));
        i = i + 1;
    }
    assert(v@.take(v@.len() as int) =~= v@);
    r
}

/// The string of a literal.
pub fn string_of_str(s: &str) -> (r: String)
    ensures
        r@ == s@,
{
    String::from_str(s)
}

/// The uppercase mapping that `str::to_uppercase` applies to `s`.
pub uninterp spec fn spec_to_uppercase(s: Seq<char>) -> Seq<char>;

/// Trusted: calls `str::to_uppercase`, which returns the uppercase equivalent of the string as a
/// new `String`; its result depends on the characters alone.
#[verifier::external_body]
pub(crate) fn to_uppercase(s: &str) -> (r: String)
    ensures
        r@ == spec_to_uppercase(s@),
{
    s.to_uppercase()
}

/// `c` is an ASCII decimal digit.
pub open spec fn is_digit(c: char) -> bool {
    '0' <= c <= '9'
}

/// The number that a sequence of decimal digits spells.
pub open spec fn digits_value(s: Seq<char>) -> int
    decreases s.len(),
{
    if s.len() == 0 {
        0
    } else {
        digits_value(s.drop_last()) * 10 + (s.last() as int - '0' as int)
    }
}

/// The digits part of a number: `s` without one leading `+`.
pub open spec fn unsigned_body(s: Seq<char>) -> Seq<char> {
    if s.len() > 0 && s[0] == '+' {
        s.drop_first()
    } else {
        s
    }
}

/// Every character of `s` is a decimal digit.
pub open spec fn all_digits(s: Seq<char>) -> bool {
    forall|i: int| 0 <= i < s.len() ==> is_digit(#[trigger] s[i])
}

/// What `u16::from_str` gives for `s`: an optional `+`, then one or more decimal digits, whose
/// number must fit in a `u16`; anything else is an error.
pub open spec fn parsed_u16(s: Seq<char>) -> Option<u16> {
    let body = unsigned_body(s);
    if body.len() > 0 && all_digits(body) && digits_value(body) <= u16::MAX {
        Some(digits_value(body) as u16)
    } else {
        None
    }
}

proof fn lemma_decimal_digits(n: nat)
    ensures
        decimal(n).len() > 0,
        all_digits(decimal(n)),
        decimal(n)[0] != '+',
        digits_value(decimal(n)) == n,
    decreases n,
{
    assert(digit_char(n % 10) as int == 48 + n % 10);
    assert('0' as int == 48);
    if n < 10 {
        assert(decimal(n).drop_last() =~= Seq::<char>::empty());
        assert(decimal(n).last() == digit_char(n % 10));
        assert(digits_value(Seq::<char>::empty()) == 0);
        assert(digits_value(decimal(n)) == digits_value(decimal(n).drop_last()) * 10 + (decimal(
            n,
        ).last() as int - '0' as int));
        assert(digits_value(decimal(n)) == n);
    } else {
        lemma_decimal_digits(n / 10);
        let s = decimal(n / 10);
        let t = s.push(digit_char(n % 10));
        assert(t.drop_last() =~= s);
        assert(t == decimal(n));
        assert(digits_value(t) == digits_value(s) * 10 + (n % 10));
        assert(n == (n / 10) * 10 + n % 10);
        assert forall|i: int| 0 <= i < t.len() implies is_digit(#[trigger] t[i]) by {
            if i < s.len() {
                assert(t[i] == s[i]);
            }
        }
    }
}

/// The decimal text of a number parses back to the number, as `u16::from_str` reads what `u16`'s
/// `Display` writes.
pub proof fn lemma_parse_decimal(n: u16)
    ensures
        parsed_u16(decimal(n as nat)) == Some(n),
{
    lemma_decimal_digits(n as nat);
}

proof fn lemma_digits_value_nonneg(s: Seq<char>)
    requires
        forall|i: int| 0 <= i < s.len() ==> is_digit(#[trigger] s[i]),
    ensures
        digits_value(s) >= 0,
    decreases s.len(),
{
    if s.len() > 0 {
        assert forall|i: int| 0 <= i < s.drop_last().len() implies is_digit(
            #[trigger] s.drop_last()[i],
        ) by {
            assert(s.drop_last()[i] == s[i]);
        }
        lemma_digits_value_nonneg(s.drop_last());
    }
}

/// Parses a `u16` the way `str::parse::<u16>` does.
pub fn parse_u16(s: &Vec<char>) -> (r: Option<u16>)
    ensures
        r == parsed_u16(s@),
{
    let n = s.len();
    let mut i: usize = 0;
    if n > 0 && s[0] == '+' {
        i = 1;
    }
    let ghost body = unsigned_body(s@);
    let ghost start = i as int;
    assert(body =~= s@.skip(start));
    if i == n {
        return None;
    }
    let mut capped: u32 = 0;
    while i < n
        invariant
            0 <= start <= i <= n,
            start <= 1,
            n == s@.len(),
            body == s@.skip(start),
            body == unsigned_body(s@),
            forall|k: int| start <= k < i ==> is_digit(#[trigger] s@[k]),
            capped as int == if digits_value(s@.subrange(start, i as int)) > 65536 {
                65536
            } else {
                digits_value(s@.subrange(start, i as int))
            },
        decreases n - i,
    {
        let c = s[i];
        if !('0' <= c && c <= '9') {
            assert(body[i - start] == c);
            assert(!is_digit(body[i - start]));
            return None;
        }
        let d = (c as u32) - ('0' as u32);
        assert(s@.subrange(start, i + 1).drop_last() =~= s@.subrange(start, i as int));
        proof {
            assert forall|k: int| 0 <= k < s@.subrange(start, i as int).len() implies is_digit(
                #[trigger] s@.subrange(start, i as int)[k],
            ) by {
                assert(s@.subrange(start, i as int)[k] == s@[start + k]);
            }
            lemma_digits_value_nonneg(s@.subrange(start, i as int));
        }
        let next = capped * 10 + d;
        capped = if next > 65536 {
            65536
        } else {
            next
        };
        i = i + 1;
    }
    assert(s@.subrange(start, n as int) =~= body);
    assert forall|k: int| 0 <= k < body.len() implies is_digit(#[trigger] body[k]) by {
        assert(body[k] == s@[start + k]);
    }
    if capped > 65535 {
        None
    } else {
        Some(capped as u16)
    }
}

/// `sep` occurs in `s` first at index `at`.
pub open spec fn first_occurrence(s: Seq<char>, sep: Seq<char>, at: int) -> bool {
    &&& occurs_at(s, sep, at)
    &&& forall|p: int| 0 <= p < at ==> !occurs_at(s, sep, p)
}

/// What is before and what is after the first occurrence of `sep` in `s`, if it occurs.
pub open spec fn first_split(s: Seq<char>, sep: Seq<char>) -> Option<(Seq<char>, Seq<char>)> {
    if exists|at: int| first_occurrence(s, sep, at) {
        let at = choose|at: int| first_occurrence(s, sep, at);
        Some((s.take(at), s.skip(at + sep.len())))
    } else {
        None
    }
}

/// A first occurrence is unique.
pub proof fn lemma_first_occurrence_unique(s: Seq<char>, sep: Seq<char>, a: int, b: int)
    requires
        first_occurrence(s, sep, a),
        first_occurrence(s, sep, b),
    ensures
        a == b,
{
    if a < b {
        assert(!occurs_at(s, sep, a));
    } else if b < a {
        assert(!occurs_at(s, sep, b));
    }
}

/// Splits `s` around the first occurrence of `sep`, as `str::split_once` does.
pub fn split_once(s: &Vec<char>, sep: &Vec<char>) -> (r: Option<(Vec<char>, Vec<char>)>)
    ensures
        match r {
            Some((left, right)) => first_split(s@, sep@) == Some((left@, right@)),
            None => first_split(s@, sep@) is None,
        },
{
    let s_len = s.len();
    if sep.len() > s_len {
        assert(!exists|p: int| first_occurrence(s@, sep@, p));
        return None;
    }
    let last = s_len - sep.len();
    let mut at: usize = 0;
    loop
        invariant
            sep@.len() <= s@.len(),
            s_len == s@.len(),
            last == s@.len() - sep@.len(),
            at <= last,
            forall|p: int| 0 <= p < at ==> !occurs_at(s@, sep@, p),
        decreases last - at,
    {
        let mut k: usize = 0;
        let mut same = true;
        while k < sep.len()
            invariant
                sep@.len() <= s@.len(),
                s_len == s@.len(),
                last == s@.len() - sep@.len(),
                at <= last,
                k <= sep@.len(),
                same == forall|q: int| 0 <= q < k ==> s@[at + q] == sep@[q],
            decreases sep@.len() - k,
        {
            assert(at + k < s@.len());
            if s[at + k] != sep[k] {
                same = false;
            }
            k = k + 1;
        }
        if same {
            assert(s@.subrange(at as int, at + sep@.len()) =~= sep@);
            let mut left: Vec<char> = Vec::new();
            let mut j: usize = 0;
            while j < at
                invariant
                    at <= last,
                    last == s@.len() - sep@.len(),
                    j <= at,
                    left@ == s@.take(j as int),
                decreases at - j,
            {
                left.push(s[j]);
                assert(left@ =~= s@.take(j + 1));
                j = j + 1;
            }
            let mut right: Vec<char> = Vec::new();
            let mut j: usize = at + sep.len();
            let n = s.len();
            while j < n
                invariant
                    at + sep@.len() <= j <= n,
                    n == s@.len(),
                    right@ == s@.subrange(at + sep@.len(), j as int),
                decreases n - j,
            {
                right.push(s[j]);
                assert(right@ =~= s@.subrange(at + sep@.len(), j + 1));
                j = j + 1;
            }
            assert(right@ =~= s@.skip(at + sep@.len()));
            assert(first_occurrence(s@, sep@, at as int));
            proof {
                let c = choose|c: int| first_occurrence(s@, sep@, c);
                lemma_first_occurrence_unique(s@, sep@, c, at as int);
            }
            return Some((left, right));
        }
        assert(!occurs_at(s@, sep@, at as int)) by {
            let q = choose|q: int| 0 <= q < sep@.len() && s@[at + q] != sep@[q];
            assert(s@.subrange(at as int, at + sep@.len())[q] == s@[at + q]);
        }
        if at == last {
            assert forall|p: int| !occurs_at(s@, sep@, p) by {
                if 0 <= p && p + sep@.len() <= s@.len() {
                    assert(p <= at);
                }
            }
            assert(!exists|p: int| first_occurrence(s@, sep@, p));
            return None;
        }
        at = at + 1;
    }
}

} // verus!
