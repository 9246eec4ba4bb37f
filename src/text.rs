//! Text helpers: decimal integers, comma-separated lists, substrings and
//! identifier case conversion.

use vstd::prelude::*;

use crate::json::str_eq;

verus! {

pub open spec fn is_digit(c: char) -> bool {
    '0' <= c <= '9'
}

pub open spec fn digit_value(c: char) -> int {
    c as int - '0' as int
}

pub open spec fn all_digits(s: Seq<char>) -> bool {
    forall|i: int| 0 <= i < s.len() ==> is_digit(#[trigger] s[i])
}

/// The number that a run of decimal digits spells.
pub open spec fn digits_value(s: Seq<char>) -> int
    decreases s.len(),
{
    if s.len() == 0 {
        0
    } else {
        digits_value(s.drop_last()) * 10 + digit_value(s.last())
    }
}

/// What `i64`'s `FromStr` accepts: an optional sign, then at least one digit,
/// with a value in range.
pub open spec fn parse_i64_spec(s: Seq<char>) -> Option<int> {
    let signed = s.len() > 0 && (s[0] == '-' || s[0] == '+');
    let body = if signed { s.drop_first() } else { s };
    let v = if s.len() > 0 && s[0] == '-' { -digits_value(body) } else { digits_value(body) };
    if body.len() > 0 && all_digits(body) && i64::MIN <= v <= i64::MAX {
        Some(v)
    } else {
        None
    }
}

/// Decimal text of a natural number, without leading zeros.
pub open spec fn nat_text(n: nat) -> Seq<char>
    decreases n,
{
    if n < 10 {
        seq![(('0' as nat) + n) as char]
    } else {
        nat_text(n / 10).push((('0' as nat) + n % 10) as char)
    }
}

/// Decimal text of an integer, with a leading '-' for negatives.
pub open spec fn int_text(n: int) -> Seq<char> {
    if n < 0 {
        seq!['-'] + nat_text((-n) as nat)
    } else {
        nat_text(n as nat)
    }
}

proof fn lemma_digits_value_nonneg(s: Seq<char>)
    requires
        all_digits(s),
    ensures
        digits_value(s) >= 0,
    decreases s.len(),
{
    if s.len() > 0 {
        lemma_digits_value_nonneg(s.drop_last());
    }
}

/// A longer run of digits never spells a smaller number than its prefix.
proof fn lemma_digits_prefix(s: Seq<char>, i: int)
    requires
        all_digits(s),
        0 <= i <= s.len(),
    ensures
        digits_value(s) >= digits_value(s.subrange(0, i)),
    decreases s.len() - i,
{
    if i < s.len() {
        lemma_digits_prefix(s, i + 1);
        let p = s.subrange(0, i + 1);
        assert(p.drop_last() == s.subrange(0, i));
        lemma_digits_value_nonneg(s.subrange(0, i));
    } else {
        assert(s.subrange(0, i) == s);
    }
}

pub(crate) proof fn lemma_nat_text_digits(n: nat)
    ensures
        nat_text(n).len() > 0,
        all_digits(nat_text(n)),
        digits_value(nat_text(n)) == n,
    decreases n,
{
    if n >= 10 {
        lemma_nat_text_digits(n / 10);
        let t = nat_text(n);
        assert(t.drop_last() == nat_text(n / 10));
        assert forall|i: int| 0 <= i < t.len() implies is_digit(#[trigger] t[i]) by {
            if i < t.len() - 1 {
                assert(t[i] == nat_text(n / 10)[i]);
            }
        }
    } else {
        let t = nat_text(n);
        assert(t.drop_last() =~= Seq::<char>::empty());
        assert(digits_value(t.drop_last()) == 0);
    }
}

/// Reading back the decimal text of an `i64` gives the number again.
pub proof fn lemma_parse_int_text(n: i64)
    ensures
        parse_i64_spec(int_text(n as int)) == Some(n as int),
{
    let t = int_text(n as int);
    if n < 0 {
        let m = (-(n as int)) as nat;
        lemma_nat_text_digits(m);
        assert(t.drop_first() == nat_text(m));
    } else {
        lemma_nat_text_digits(n as nat);
    }
}

/// Parses a decimal `i64` as `str::parse::<i64>` does.
pub fn parse_i64(s: &str) -> (r: Option<i64>)
    ensures
        r.is_some() == parse_i64_spec(s@).is_some(),
        r.is_some() ==> r.unwrap() as int == parse_i64_spec(s@).unwrap(),
{
    let n = s.unicode_len();
    if n == 0 {
        return None;
    }
    let first = s.get_char(0);
    let neg = first == '-';
    let start: usize = if first == '-' || first == '+' { 1 } else { 0 };
    if start == n {
        return None;
    }
    let ghost body = if start == 1 { s@.drop_first() } else { s@ };
    assert(body == s@.subrange(start as int, n as int));
    let limit: i128 = 9_223_372_036_854_775_808;
    let mut acc: i128 = 0;
    let mut i: usize = start;
    while i < n
        invariant
            n == s@.len(),
            start <= i <= n,
            body == s@.subrange(start as int, n as int),
            all_digits(body.subrange(0, i - start)),
            acc == digits_value(body.subrange(0, i - start)),
            0 <= acc <= limit,
            limit == 9_223_372_036_854_775_808,
            start == 1 <==> (s@[0] == '-' || s@[0] == '+'),
            start <= 1,
        decreases n - i,
    {
        let c = s.get_char(i);
        if !('0' <= c && c <= '9') {
            assert(body[i - start] == c);
            assert(!all_digits(body));
            return None;
        }
        let ghost pre = body.subrange(0, i - start);
        let ghost next = body.subrange(0, i - start + 1);
        assert(next.drop_last() == pre);
        assert(next.last() == c);
        acc = acc * 10 + (c as u32 - '0' as u32) as i128;
        i = i + 1;
        if acc > limit {
            proof {
                assert(body.subrange(0, i - start) == next);
                assert(all_digits(next));
            }
            // The digits that remain can only make the value larger.
            let mut j: usize = i;
            while j < n
                invariant
                    n == s@.len(),
                    start <= i <= j <= n,
                    body == s@.subrange(start as int, n as int),
                    all_digits(body.subrange(0, j - start)),
                    digits_value(body.subrange(0, j - start)) > limit,
                    limit == 9_223_372_036_854_775_808,
                    start == 1 <==> (s@[0] == '-' || s@[0] == '+'),
                    start <= 1,
                decreases n - j,
            {
                let d = s.get_char(j);
                if !('0' <= d && d <= '9') {
                    assert(body[j - start] == d);
                    assert(!all_digits(body));
                    return None;
                }
                proof {
                    let q = body.subrange(0, j - start + 1);
                    assert(all_digits(q)) by {
                        assert forall|k: int| 0 <= k < q.len() implies is_digit(#[trigger] q[k]) by {
                            if k < j - start {
                                assert(q[k] == body.subrange(0, j - start)[k]);
                            }
                        }
                    }
                    lemma_digits_prefix(q, j - start);
                    assert(q.subrange(0, j - start) == body.subrange(0, j - start));
                }
                j = j + 1;
            }
            proof {
                assert(body.subrange(0, n - start) == body);
                assert(digits_value(body) > limit);
                if start == 1 {
                    assert(body =~= s@.drop_first());
                } else {
                    assert(body =~= s@);
                }
            }
            return None;
        }
        proof {
            assert forall|k: int| 0 <= k < next.len() implies is_digit(#[trigger] next[k]) by {
                if k < i - 1 - start {
                    assert(next[k] == pre[k]);
                }
            }
        }
    }
    assert(body.subrange(0, n - start) == body);
    if neg {
        if acc == limit {
            Some(i64::MIN)
        } else {
            Some(-(acc as i64))
        }
    } else {
        if acc > i64::MAX as i128 {
            None
        } else {
            Some(acc as i64)
        }
    }
}

fn push_nat_text(n: u64, out: &mut String)
    ensures
        final(out)@ == old(out)@ + nat_text(n as nat),
    decreases n,
{
    if n >= 10 {
        push_nat_text(n / 10, out);
    }
    let d = (n % 10) as u8;
    let c = ((48u8 + d) as char);
    push_char(out, c);
    proof {
        assert(c == (('0' as nat) + (n as nat) % 10) as char);
        if n >= 10 {
            assert(nat_text(n as nat) == nat_text((n / 10) as nat).push(c));
        }
    }
    assert(final(out)@ =~= old(out)@ + nat_text(n as nat));
}

/// Decimal text of an `i64`, as its `Display` writes it.
pub(crate) fn decimal(n: i64) -> (r: String)
    ensures
        r@ == int_text(n as int),
{
    let mut out = String::new();
    if n < 0 {
        push_char(&mut out, '-');
        let m: u64 = (-(n as i128)) as u64;
        push_nat_text(m, &mut out);
    } else {
        push_nat_text(n as u64, &mut out);
    }
    assert(out@ =~= int_text(n as int));
    out
}

/// Relies on `String::push`: appends one character.
#[verifier::external_body]
pub(crate) fn push_char(s: &mut String, c: char)
    ensures
        final(s)@ == old(s)@.push(c),
{
    s.push(c)
}

/// `t` stands in `s` at position `i`.
pub open spec fn occurs_at(s: Seq<char>, t: Seq<char>, i: int) -> bool {
    0 <= i && i + t.len() <= s.len() && s.subrange(i, i + t.len()) == t
}

pub open spec fn contains_spec(s: Seq<char>, t: Seq<char>) -> bool {
    exists|i: int| occurs_at(s, t, i)
}

/// `t` is one of the pieces of `s` split at every ','.
pub open spec fn comma_piece_at(s: Seq<char>, t: Seq<char>, i: int) -> bool {
    &&& occurs_at(s, t, i)
    &&& !t.contains(',')
    &&& (i == 0 || s[i - 1] == ',')
    &&& (i + t.len() == s.len() || s[i + t.len()] == ',')
}

pub open spec fn comma_list_has(s: Seq<char>, t: Seq<char>) -> bool {
    exists|i: int| comma_piece_at(s, t, i)
}

/// Whether `t` occurs in `s` as a substring (an empty `t` always does).
pub fn contains(s: &str, t: &str) -> (r: bool)
    ensures
        r == contains_spec(s@, t@),
{
    let n = s.unicode_len();
    let m = t.unicode_len();
    if m > n {
        assert forall|i: int| !occurs_at(s@, t@, i) by {}
        return false;
    }
    let mut i: usize = 0;
    while i < n - m
        invariant
            n == s@.len(),
            m == t@.len(),
            m <= n,
            i <= n - m,
            forall|k: int| 0 <= k < i ==> !occurs_at(s@, t@, k),
        decreases n - m - i,
    {
        if str_eq(s.substring_char(i, i + m), t) {
            assert(occurs_at(s@, t@, i as int));
            return true;
        }
        i = i + 1;
    }
    if str_eq(s.substring_char(i, i + m), t) {
        assert(occurs_at(s@, t@, i as int));
        return true;
    }
    assert forall|k: int| !occurs_at(s@, t@, k) by {
        if 0 <= k && k + m <= n {
            assert(k <= i);
        }
    }
    false
}

/// Whether `t` is one of the comma-separated pieces of `s`.
pub fn comma_list_contains(s: &str, t: &str) -> (r: bool)
    ensures
        r == comma_list_has(s@, t@),
{
    let n = s.unicode_len();
    let m = t.unicode_len();
    let mut k: usize = 0;
    while k < m
        invariant
            m == t@.len(),
            k <= m,
            forall|j: int| 0 <= j < k ==> t@[j] != ',',
        decreases m - k,
    {
        if t.get_char(k) == ',' {
            assert(t@.contains(','));
            assert forall|i: int| !comma_piece_at(s@, t@, i) by {}
            return false;
        }
        k = k + 1;
    }
    assert(!t@.contains(','));
    if m > n {
        assert forall|i: int| !comma_piece_at(s@, t@, i) by {}
        return false;
    }
    let mut i: usize = 0;
    while i < n - m
        invariant
            n == s@.len(),
            m == t@.len(),
            m <= n,
            !t@.contains(','),
            i <= n - m,
            forall|j: int| 0 <= j < i ==> !comma_piece_at(s@, t@, j),
        decreases n - m - i,
    {
        if piece_at(s, t, i, n, m) {
            return true;
        }
        i = i + 1;
    }
    if piece_at(s, t, i, n, m) {
        return true;
    }
    assert forall|j: int| !comma_piece_at(s@, t@, j) by {
        if 0 <= j && j + m <= n {
            assert(j <= i);
        }
    }
    false
}

fn piece_at(s: &str, t: &str, i: usize, n: usize, m: usize) -> (r: bool)
    requires
        n == s@.len(),
        m == t@.len(),
        i + m <= n,
        !t@.contains(','),
    ensures
        r == comma_piece_at(s@, t@, i as int),
{
    let starts = i == 0 || s.get_char(i - 1) == ',';
    let ends = i + m == n || s.get_char(i + m) == ',';
    starts && ends && str_eq(s.substring_char(i, i + m), t)
}

/// Whether a character has Unicode's Uppercase property.
pub uninterp spec fn upper_case_of(c: char) -> bool;

/// Relies on `char::is_uppercase`: the Unicode Uppercase property, which the
/// ASCII capitals have and the ASCII small letters do not.
#[verifier::external_body]
fn is_upper(c: char) -> (r: bool)
    ensures
        r == upper_case_of(c),
        'A' <= c <= 'Z' ==> r,
        'a' <= c <= 'z' ==> !r,
{
    c.is_uppercase()
}

pub open spec fn ascii_lower(c: char) -> char {
    if 'A' <= c <= 'Z' {
        ((c as u8) + 32) as char
    } else {
        c
    }
}

fn to_ascii_lower(c: char) -> (r: char)
    ensures
        r == ascii_lower(c),
{
    if 'A' <= c && c <= 'Z' {
        ((c as u8) + 32) as char
    } else {
        c
    }
}

/// What one character at position `i` becomes in snake case.
pub open spec fn snake_piece(c: char, i: int) -> Seq<char> {
    if upper_case_of(c) && i > 0 {
        seq!['_', ascii_lower(c)]
    } else {
        seq![c]
    }
}

pub open spec fn snake_of(s: Seq<char>) -> Seq<char>
    decreases s.len(),
{
    if s.len() == 0 {
        Seq::empty()
    } else {
        snake_of(s.drop_last()) + snake_piece(s.last(), s.len() - 1)
    }
}

pub open spec fn is_ascii_letter(c: char) -> bool {
    ('A' <= c <= 'Z') || ('a' <= c <= 'z')
}

/// Snake case of a run of ASCII letters: each capital but the first becomes
/// '_' and its small letter.
pub open spec fn ascii_snake_of(s: Seq<char>) -> Seq<char>
    decreases s.len(),
{
    if s.len() == 0 {
        Seq::empty()
    } else {
        let c = s.last();
        ascii_snake_of(s.drop_last()) + if 'A' <= c <= 'Z' && s.len() > 1 {
            seq!['_', ascii_lower(c)]
        } else {
            seq![c]
        }
    }
}

/// CamelCase to under_score: every uppercase character but the first becomes
/// '_' followed by its ASCII lowercase.
pub fn camel_case_to_under_score(camel_case: &str) -> (r: String)
    ensures
        r@ == snake_of(camel_case@),
        (forall|i: int| 0 <= i < camel_case@.len() ==> is_ascii_letter(#[trigger] camel_case@[i]))
            ==> r@ == ascii_snake_of(camel_case@),
{
    let n = camel_case.unicode_len();
    let mut out = String::new();
    let mut i: usize = 0;
    while i < n
        invariant
            n == camel_case@.len(),
            i <= n,
            out@ == snake_of(camel_case@.subrange(0, i as int)),
            (forall|k: int| 0 <= k < camel_case@.len() ==> is_ascii_letter(#[trigger] camel_case@[k]))
                ==> out@ == ascii_snake_of(camel_case@.subrange(0, i as int)),
        decreases n - i,
    {
        let c = camel_case.get_char(i);
        let ghost pre = camel_case@.subrange(0, i as int);
        let ghost next = camel_case@.subrange(0, i + 1);
        assert(next.drop_last() == pre);
        assert(next.last() == c);
        if is_upper(c) && i > 0 {
            push_char(&mut out, '_');
            push_char(&mut out, to_ascii_lower(c));
        } else {
            push_char(&mut out, c);
        }
        assert(out@ =~= snake_of(next));
        proof {
            if forall|k: int| 0 <= k < camel_case@.len() ==> is_ascii_letter(#[trigger] camel_case@[k]) {
                assert(is_ascii_letter(camel_case@[i as int]));
                assert(out@ =~= ascii_snake_of(next));
            }
        }
        i = i + 1;
    }
    assert(camel_case@.subrange(0, n as int) == camel_case@);
    out
}

} // verus!
