//! Text helpers: Unicode blank detection, decimal formatting and parsing.
use vstd::prelude::*;

verus! {

/// The text of an optional string.
pub open spec fn opt_text(o: Option<String>) -> Option<Seq<char>> {
    match o {
        Some(s) => Some(s@),
        None => None,
    }
}

/// An owned copy of a text.
pub fn owned(s: &str) -> (r: String)
    ensures
        r@ == s@,
{
    let mut r = String::new();
    r.append(s);
    proof {
        assert(r@ =~= s@);
    }
    r
}

/// A copy of an optional string.
pub fn copy_opt(o: &Option<String>) -> (r: Option<String>)
    ensures
        r == *o,
{
    match o {
        Some(s) => Some(s.clone()),
        None => None,
    }
}

/// The Unicode `White_Space` property, which `char::is_whitespace` and
/// `str::trim` go by.
pub open spec fn is_white_space(c: char) -> bool {
    let n = c as u32;
    ||| 0x09 <= n <= 0x0d
    ||| n == 0x20
    ||| n == 0x85
    ||| n == 0xa0
    ||| n == 0x1680
    ||| 0x2000 <= n <= 0x200a
    ||| n == 0x2028
    ||| n == 0x2029
    ||| n == 0x202f
    ||| n == 0x205f
    ||| n == 0x3000
}

/// A text is blank when trimming it leaves nothing: every character is white space.
pub open spec fn is_blank_text(s: Seq<char>) -> bool {
    forall|i: int| 0 <= i < s.len() ==> is_white_space(#[trigger] s[i])
}

pub fn white_space(c: char) -> (b: bool)
    ensures
        b == is_white_space(c),
{
    let n = c as u32;
    (0x09 <= n && n <= 0x0d) || n == 0x20 || n == 0x85 || n == 0xa0 || n == 0x1680
        || (0x2000 <= n && n <= 0x200a) || n == 0x2028 || n == 0x2029 || n == 0x202f
        || n == 0x205f || n == 0x3000
}

/// Whether `s.trim()` is empty.
pub fn is_blank(s: &str) -> (b: bool)
    ensures
        b == is_blank_text(s@),
{
    let n = s.unicode_len();
    let mut i: usize = 0;
    while i < n
        invariant
            n == s@.len(),
            i <= n,
            forall|k: int| 0 <= k < i ==> is_white_space(#[trigger] s@[k]),
        decreases n - i,
    {
        let c = s.get_char(i);
        if !white_space(c) {
            return false;
        }
        i = i + 1;
    }
    true
}


/// The character of decimal digit `d`.
pub open spec fn digit_char(d: nat) -> char {
    ((('0' as u32) + d) as u32) as char
}

/// Decimal notation of a natural number, without leading zeros.
pub open spec fn decimal(n: nat) -> Seq<char>
    decreases n,
{
    if n < 10 {
        seq![digit_char(n)]
    } else {
        decimal(n / 10).push(digit_char(n % 10))
    }
}

/// Decimal notation of an integer, as `Display` writes it for Rust's integers.
pub open spec fn signed_decimal(n: int) -> Seq<char> {
    if n < 0 {
        seq!['-'] + decimal((-n) as nat)
    } else {
        decimal(n as nat)
    }
}

fn digit_str(d: u64) -> (s: &'static str)
    requires
        d < 10,
    ensures
        s@ == seq![digit_char(d as nat)],
{
    if d == 0 {
        proof { reveal_strlit("0"); }
        "0"
    } else if d == 1 {
        proof { reveal_strlit("1"); }
        "1"
    } else if d == 2 {
        proof { reveal_strlit("2"); }
        "2"
    } else if d == 3 {
        proof { reveal_strlit("3"); }
        "3"
    } else if d == 4 {
        proof { reveal_strlit("4"); }
        "4"
    } else if d == 5 {
        proof { reveal_strlit("5"); }
        "5"
    } else if d == 6 {
        proof { reveal_strlit("6"); }
        "6"
    } else if d == 7 {
        proof { reveal_strlit("7"); }
        "7"
    } else if d == 8 {
        proof { reveal_strlit("8"); }
        "8"
    } else {
        proof { reveal_strlit("9"); }
        "9"
    }
}

/// Appends the decimal notation of `n`.
pub fn push_decimal(s: &mut String, n: u64)
    ensures
        final(s)@ == old(s)@ + decimal(n as nat),
    decreases n,
{
    if n >= 10 {
        push_decimal(s, n / 10);
    }
    s.append(digit_str(n % 10));
    proof {
        if n >= 10 {
            assert(old(s)@ + decimal(n as nat) =~= old(s)@ + decimal((n / 10) as nat) + seq![
                digit_char((n % 10) as nat),
            ]);
        } else {
            assert(decimal(n as nat) == seq![digit_char(n as nat)]);
        }
    }
}

/// Appends the decimal notation of a signed integer.
pub fn push_signed_decimal(s: &mut String, n: i64)
    ensures
        final(s)@ == old(s)@ + signed_decimal(n as int),
{
    if n < 0 {
        s.append("-");
        proof { reveal_strlit("-"); }
        let m: u64 = if n == i64::MIN {
            9223372036854775808u64
        } else {
            (-n) as u64
        };
        push_decimal(s, m);
        proof {
            assert(old(s)@ + signed_decimal(n as int) =~= old(s)@ + seq!['-'] + decimal(m as nat));
        }
    } else {
        push_decimal(s, n as u64);
    }
}

/// The text `Display` gives for an unsigned integer.
pub fn decimal_text(n: u64) -> (t: String)
    ensures
        t@ == decimal(n as nat),
{
    let mut t = String::new();
    push_decimal(&mut t, n);
    proof {
        assert(t@ =~= decimal(n as nat));
    }
    t
}

/// The text `Display` gives for a signed integer.
pub fn signed_decimal_text(n: i64) -> (t: String)
    ensures
        t@ == signed_decimal(n as int),
{
    let mut t = String::new();
    push_signed_decimal(&mut t, n);
    proof {
        assert(t@ =~= signed_decimal(n as int));
    }
    t
}

pub open spec fn is_digit(c: char) -> bool {
    '0' <= c <= '9'
}

pub open spec fn digit_value(c: char) -> nat {
    ((c as u32) - ('0' as u32)) as nat
}

pub open spec fn all_digits(s: Seq<char>) -> bool {
    forall|i: int| 0 <= i < s.len() ==> is_digit(#[trigger] s[i])
}

/// The number that a string of decimal digits denotes.
pub open spec fn digits_value(s: Seq<char>) -> nat
    decreases s.len(),
{
    if s.len() == 0 {
        0
    } else {
        digits_value(s.drop_last()) * 10 + digit_value(s.last())
    }
}

/// The integer that `str::parse` reads from a text, before the range of the
/// target type is checked: an optional `+` (or `-` when signed) followed by
/// at least one decimal digit and nothing else.
pub open spec fn integer_text_value(s: Seq<char>, signed: bool) -> Option<int> {
    let has_sign = s.len() > 0 && (s[0] == '+' || (signed && s[0] == '-'));
    let body = if has_sign { s.drop_first() } else { s };
    if body.len() > 0 && all_digits(body) {
        if has_sign && s[0] == '-' {
            Some(-(digits_value(body) as int))
        } else {
            Some(digits_value(body) as int)
        }
    } else {
        None
    }
}

/// What `str::parse::<u64>` returns, as an option.
pub open spec fn parsed_u64(s: Seq<char>) -> Option<u64> {
    match integer_text_value(s, false) {
        Some(v) => if v <= u64::MAX { Some(v as u64) } else { None },
        None => None,
    }
}

/// What `str::parse::<i64>` returns, as an option.
pub open spec fn parsed_i64(s: Seq<char>) -> Option<i64> {
    match integer_text_value(s, true) {
        Some(v) => if i64::MIN <= v <= i64::MAX { Some(v as i64) } else { None },
        None => None,
    }
}

/// What `str::parse::<i32>` returns, as an option.
pub open spec fn parsed_i32(s: Seq<char>) -> Option<i32> {
    match integer_text_value(s, true) {
        Some(v) => if i32::MIN <= v <= i32::MAX { Some(v as i32) } else { None },
        None => None,
    }
}

proof fn lemma_digits_value_prefix(s: Seq<char>, k: int)
    requires
        0 <= k <= s.len(),
        all_digits(s),
    ensures
        digits_value(s.subrange(0, k)) <= digits_value(s),
    decreases s.len(),
{
    if k < s.len() {
        assert(all_digits(s.drop_last()));
        lemma_digits_value_prefix(s.drop_last(), k);
        assert(s.drop_last().subrange(0, k) =~= s.subrange(0, k));
    } else {
        assert(s.subrange(0, k) =~= s);
    }
}

/// The value of the digits of `s` from `start` on, when they are all digits,
/// there is at least one, and the value is at most `limit`.
fn digits_at_most(s: &str, start: usize, limit: u64) -> (r: Option<u64>)
    requires
        start <= s@.len(),
    ensures
        ({
            let body = s@.subrange(start as int, s@.len() as int);
            match r {
                Some(v) => body.len() > 0 && all_digits(body) && v == digits_value(body)
                    && v <= limit,
                None => !(body.len() > 0 && all_digits(body) && digits_value(body) <= limit),
            }
        }),
{
    let n = s.unicode_len();
    if start >= n {
        return None;
    }
    let ghost body = s@.subrange(start as int, s@.len() as int);
    let mut acc: u64 = 0;
    let mut i: usize = start;
    while i < n
        invariant
            n == s@.len(),
            start < n,
            start <= i <= n,
            body == s@.subrange(start as int, n as int),
            all_digits(s@.subrange(start as int, i as int)),
            acc as nat == digits_value(s@.subrange(start as int, i as int)),
            acc <= limit,
        decreases n - i,
    {
        let c = s.get_char(i);
        if !('0' <= c && c <= '9') {
            proof {
                assert(body[i - start] == c);
            }
            return None;
        }
        let d: u64 = ((c as u32) - ('0' as u32)) as u64;
        let ghost prefix = s@.subrange(start as int, i as int + 1);
        proof {
            assert(prefix.drop_last() =~= s@.subrange(start as int, i as int));
            assert(prefix.last() == c);
        }
        let next: u128 = (acc as u128) * 10 + (d as u128);
        if next > limit as u128 {
            proof {
                assert(digits_value(prefix) > limit);
                if all_digits(body) {
                    lemma_digits_value_prefix(body, i - start + 1);
                    assert(body.subrange(0, i - start + 1) =~= prefix);
                }
            }
            return None;
        }
        acc = next as u64;
        i = i + 1;
        proof {
            assert(all_digits(s@.subrange(start as int, i as int)));
        }
    }
    proof {
        assert(s@.subrange(start as int, i as int) =~= body);
    }
    Some(acc)
}

/// `str::parse::<u64>`, read as an option.
pub fn parse_u64(s: &str) -> (r: Option<u64>)
    ensures
        r == parsed_u64(s@),
{
    let n = s.unicode_len();
    let start: usize = if n > 0 && s.get_char(0) == '+' { 1 } else { 0 };
    proof {
        if start == 1 {
            assert(s@.drop_first() =~= s@.subrange(1, s@.len() as int));
        } else {
            assert(s@ =~= s@.subrange(0, s@.len() as int));
        }
    }
    digits_at_most(s, start, u64::MAX)
}

/// Reads an optionally signed decimal integer whose magnitude is at most
/// `pos_limit` when positive and `neg_limit` when negative.
fn parse_signed(s: &str, pos_limit: u64, neg_limit: u64) -> (r: Option<(bool, u64)>)
    ensures
        match r {
            Some((neg, m)) => integer_text_value(s@, true) == Some(
                if neg { -(m as int) } else { m as int },
            ) && (if neg { m <= neg_limit } else { m <= pos_limit }),
            None => match integer_text_value(s@, true) {
                Some(v) => !(-(neg_limit as int) <= v <= pos_limit),
                None => true,
            },
        },
{
    let n = s.unicode_len();
    let first: Option<char> = if n > 0 { Some(s.get_char(0)) } else { None };
    let neg = first == Some('-');
    let start: usize = if first == Some('+') || neg { 1 } else { 0 };
    proof {
        if start == 1 {
            assert(s@.drop_first() =~= s@.subrange(1, s@.len() as int));
        } else {
            assert(s@ =~= s@.subrange(0, s@.len() as int));
        }
    }
    let limit = if neg { neg_limit } else { pos_limit };
    match digits_at_most(s, start, limit) {
        Some(m) => {
            if neg && m == 0 {
                Some((false, 0))
            } else {
                Some((neg, m))
            }
        },
        None => None,
    }
}

/// `str::parse::<i64>`, read as an option.
pub fn parse_i64(s: &str) -> (r: Option<i64>)
    ensures
        r == parsed_i64(s@),
{
    match parse_signed(s, 9223372036854775807u64, 9223372036854775808u64) {
        Some((neg, m)) => {
            if !neg {
                Some(m as i64)
            } else if m == 9223372036854775808u64 {
                Some(i64::MIN)
            } else {
                Some(-(m as i64))
            }
        },
        None => None,
    }
}

/// `str::parse::<i32>`, read as an option.
pub fn parse_i32(s: &str) -> (r: Option<i32>)
    ensures
        r == parsed_i32(s@),
{
    match parse_signed(s, 2147483647u64, 2147483648u64) {
        Some((neg, m)) => {
            if !neg {
                Some(m as i32)
            } else if m == 2147483648u64 {
                Some(i32::MIN)
            } else {
                Some(-(m as i32))
            }
        },
        None => None,
    }
}

/// An amount text split into its whole part and its (zero to two) decimals.
pub open spec fn amount_parts(body: Seq<char>) -> (Seq<char>, Seq<char>) {
    let n = body.len() as int;
    if n >= 2 && body[n - 2] == '.' {
        (body.subrange(0, n - 2), body.subrange(n - 1, n))
    } else if n >= 3 && body[n - 3] == '.' {
        (body.subrange(0, n - 3), body.subrange(n - 2, n))
    } else {
        (body, Seq::empty())
    }
}

/// The number of cents an amount text such as `50.4`, `-10.0` or `230` denotes:
/// an optional sign, at least one digit, then optionally a point and one or
/// two digits.
pub open spec fn amount_cents_value(s: Seq<char>) -> Option<int> {
    let has_sign = s.len() > 0 && (s[0] == '+' || s[0] == '-');
    let body = if has_sign { s.drop_first() } else { s };
    let whole = amount_parts(body).0;
    let frac = amount_parts(body).1;
    if whole.len() > 0 && all_digits(whole) && all_digits(frac) {
        let c: int = (digits_value(whole) * 100 + (if frac.len() == 1 {
            digits_value(frac) * 10
        } else {
            digits_value(frac)
        })) as int;
        Some(if has_sign && s[0] == '-' { -c } else { c })
    } else {
        None
    }
}

/// The cents of an amount text, when it is well formed and fits an `i64`.
pub open spec fn parsed_cents(s: Seq<char>) -> Option<i64> {
    match amount_cents_value(s) {
        Some(v) => if i64::MIN <= v <= i64::MAX { Some(v as i64) } else { None },
        None => None,
    }
}

/// The cents that the zero to two decimals from `from` on stand for.
fn fraction_cents(s: &str, from: usize) -> (r: Option<u64>)
    requires
        from <= s@.len(),
        s@.len() - from <= 2,
    ensures
        ({
            let frac = s@.subrange(from as int, s@.len() as int);
            match r {
                Some(f) => all_digits(frac) && f < 100 && f as int == (if frac.len() == 1 {
                    digits_value(frac) * 10
                } else {
                    digits_value(frac)
                }),
                None => !all_digits(frac),
            }
        }),
{
    let n = s.unicode_len();
    let ghost frac = s@.subrange(from as int, n as int);
    if from == n {
        proof {
            assert(frac =~= Seq::<char>::empty());
        }
        return Some(0);
    }
    let c = s.get_char(from);
    if !('0' <= c && c <= '9') {
        proof {
            assert(frac[0] == c);
        }
        return None;
    }
    let d: u64 = ((c as u32) - ('0' as u32)) as u64;
    proof {
        assert(seq![c].drop_last() =~= Seq::<char>::empty());
        assert(seq![c].last() == c);
        assert(digits_value(Seq::<char>::empty()) == 0);
        assert(digits_value(seq![c]) == digits_value(seq![c].drop_last()) * 10 + digit_value(c));
        assert(digits_value(seq![c]) == digit_value(c));
    }
    if from + 1 == n {
        proof {
            assert(frac =~= seq![c]);
        }
        return Some(d * 10);
    }
    let c2 = s.get_char(from + 1);
    if !('0' <= c2 && c2 <= '9') {
        proof {
            assert(frac[1] == c2);
        }
        return None;
    }
    proof {
        assert(frac.drop_last() =~= seq![c]);
        assert(frac.last() == c2);
        assert(all_digits(frac));
    }
    Some(d * 10 + ((c2 as u32) - ('0' as u32)) as u64)
}

/// Reads an amount text as a number of cents.
pub fn parse_cents(s: &str) -> (r: Option<i64>)
    ensures
        r == parsed_cents(s@),
{
    let n = s.unicode_len();
    let neg = n > 0 && s.get_char(0) == '-';
    let has_sign = n > 0 && (s.get_char(0) == '+' || neg);
    let start: usize = if has_sign { 1 } else { 0 };
    let ghost body = if has_sign { s@.drop_first() } else { s@ };
    proof {
        assert(body =~= s@.subrange(start as int, n as int));
    }
    let m = n - start;
    let frac_len: usize = if m >= 2 && s.get_char(n - 2) == '.' {
        1
    } else if m >= 3 && s.get_char(n - 3) == '.' {
        2
    } else {
        0
    };
    let whole_end: usize = if frac_len == 0 { n } else { n - frac_len - 1 };
    let ghost whole = amount_parts(body).0;
    let ghost frac = amount_parts(body).1;
    proof {
        assert(whole =~= s@.subrange(start as int, whole_end as int));
        assert(frac =~= s@.subrange(n - frac_len, n as int));
    }
    let whole_text = s.substring_char(start, whole_end);
    let w = match digits_at_most(whole_text, 0, 92233720368547758u64) {
        Some(w) => w,
        None => {
            proof {
                assert(whole_text@.subrange(0, whole_text@.len() as int) =~= whole);
            }
            return None;
        },
    };
    proof {
        assert(whole_text@.subrange(0, whole_text@.len() as int) =~= whole);
    }
    let f = match fraction_cents(s, n - frac_len) {
        Some(f) => f,
        None => {
            return None;
        },
    };
    proof {
        assert(f as int == (if frac.len() == 1 {
            digits_value(frac) * 10
        } else {
            digits_value(frac)
        }));
        assert(amount_cents_value(s@) == Some(
            if neg { -((w * 100 + f) as int) } else { (w * 100 + f) as int },
        ));
    }
    let c: u64 = w * 100 + f;
    if neg {
        if c > 9223372036854775808u64 {
            None
        } else if c == 9223372036854775808u64 {
            Some(i64::MIN)
        } else {
            Some(-(c as i64))
        }
    } else {
        if c > 9223372036854775807u64 {
            None
        } else {
            Some(c as i64)
        }
    }
}

} // verus!
