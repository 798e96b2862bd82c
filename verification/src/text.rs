use vstd::prelude::*;
use vstd::string::*;

verus! {

// --- character classes -----------------------------------------------------

/// ASCII whitespace, the only kind that occurs in the text the bar reads.
pub open spec fn is_space(c: char) -> bool {
    c == ' ' || c == '\n' || c == '\t' || c == '\r'
}

pub fn is_space_char(c: char) -> (r: bool)
    ensures
        r == is_space(c),
{
    c == ' ' || c == '\n' || c == '\t' || c == '\r'
}

/// An ASCII decimal digit.
pub open spec fn is_digit(c: char) -> bool {
    48 <= c as u32 && c as u32 <= 57
}

pub fn is_digit_char(c: char) -> (r: bool)
    ensures
        r == is_digit(c),
{
    let v = c as u32;
    48 <= v && v <= 57
}

/// Numeric value of a decimal digit character.
pub open spec fn digit_val(c: char) -> int {
    c as u32 - 48
}

// --- trimming --------------------------------------------------------------

/// The sequence with leading ASCII whitespace removed.
pub open spec fn trim_front(s: Seq<char>) -> Seq<char>
    decreases s.len(),
{
    if s.len() > 0 && is_space(s[0]) {
        trim_front(s.drop_first())
    } else {
        s
    }
}

/// The sequence with trailing ASCII whitespace removed.
pub open spec fn trim_back(s: Seq<char>) -> Seq<char>
    decreases s.len(),
{
    if s.len() > 0 && is_space(s[s.len() - 1]) {
        trim_back(s.drop_last())
    } else {
        s
    }
}

/// Both ends trimmed, as `str::trim` behaves on ASCII text.
pub open spec fn trimmed(s: Seq<char>) -> Seq<char> {
    trim_back(trim_front(s))
}

pub proof fn lemma_trim_front_len(s: Seq<char>)
    ensures
        trim_front(s).len() <= s.len(),
    decreases s.len(),
{
    if s.len() > 0 && is_space(s[0]) {
        lemma_trim_front_len(s.drop_first());
    }
}

pub proof fn lemma_trim_front_head(s: Seq<char>)
    ensures
        trim_front(s).len() > 0 ==> !is_space(trim_front(s)[0]),
    decreases s.len(),
{
    if s.len() > 0 && is_space(s[0]) {
        lemma_trim_front_head(s.drop_first());
    }
}

pub fn trim_front_str<'a>(s: &'a str) -> (r: &'a str)
    ensures
        r@ == trim_front(s@),
    decreases s@.len(),
{
    let n = s.unicode_len();
    if n > 0 && is_space_char(s.get_char(0)) {
        let rest = s.substring_char(1, n);
        proof {
            assert(rest@ =~= s@.drop_first());
        }
        trim_front_str(rest)
    } else {
        s
    }
}

pub fn trim_back_str<'a>(s: &'a str) -> (r: &'a str)
    ensures
        r@ == trim_back(s@),
    decreases s@.len(),
{
    let n = s.unicode_len();
    if n > 0 && is_space_char(s.get_char(n - 1)) {
        let rest = s.substring_char(0, n - 1);
        proof {
            assert(rest@ =~= s@.drop_last());
        }
        trim_back_str(rest)
    } else {
        s
    }
}

/// `str::trim` for the ASCII text the bar reads.
pub fn trim_str<'a>(s: &'a str) -> (r: &'a str)
    ensures
        r@ == trimmed(s@),
{
    trim_back_str(trim_front_str(s))
}

// --- tokens ----------------------------------------------------------------

/// Longest prefix free of ASCII whitespace.
pub open spec fn token_prefix(s: Seq<char>) -> Seq<char>
    decreases s.len(),
{
    if s.len() > 0 && !is_space(s[0]) {
        seq![s[0]] + token_prefix(s.drop_first())
    } else {
        Seq::empty()
    }
}

/// The first whitespace-delimited token, empty if there is none.
pub open spec fn first_token(s: Seq<char>) -> Seq<char> {
    token_prefix(trim_front(s))
}

pub proof fn lemma_token_prefix_len(s: Seq<char>)
    ensures
        token_prefix(s).len() <= s.len(),
    decreases s.len(),
{
    if s.len() > 0 && !is_space(s[0]) {
        lemma_token_prefix_len(s.drop_first());
    }
}

pub fn token_prefix_str(s: &str) -> (r: String)
    ensures
        r@ == token_prefix(s@),
    decreases s@.len(),
{
    let n = s.unicode_len();
    if n > 0 && !is_space_char(s.get_char(0)) {
        let head = s.substring_char(0, 1);
        let rest = s.substring_char(1, n);
        proof {
            assert(rest@ =~= s@.drop_first());
            assert(head@ =~= seq![s@[0]]);
        }
        let tail = token_prefix_str(rest);
        head.to_owned().concat(tail.as_str())
    } else {
        String::new()
    }
}

pub fn first_token_str(s: &str) -> (r: String)
    ensures
        r@ == first_token(s@),
{
    token_prefix_str(trim_front_str(s))
}

// --- string equality -------------------------------------------------------

/// Character-for-character equality of two strings.
pub fn str_eq(a: &str, b: &str) -> (r: bool)
    ensures
        r == (a@ == b@),
{
    let na = a.unicode_len();
    let nb = b.unicode_len();
    if na != nb {
        return false;
    }
    let mut i: usize = 0;
    while i < na
        invariant
            na == a@.len(),
            na == b@.len(),
            0 <= i <= na,
            forall|k: int| 0 <= k < i ==> a@[k] == b@[k],
        decreases na - i,
    {
        if a.get_char(i) != b.get_char(i) {
            return false;
        }
        i += 1;
    }
    proof {
        assert(a@ =~= b@);
    }
    true
}

// --- decimal parsing -------------------------------------------------------

/// Value of a decimal digit string.
pub open spec fn digits_val(s: Seq<char>) -> int
    decreases s.len(),
{
    if s.len() == 0 {
        0
    } else {
        digits_val(s.drop_last()) * 10 + digit_val(s.last())
    }
}

pub open spec fn all_digits(s: Seq<char>) -> bool {
    forall|i: int| 0 <= i < s.len() ==> is_digit(s[i])
}

proof fn lemma_all_digits_subrange(s: Seq<char>, a: int, b: int)
    requires
        all_digits(s),
        0 <= a <= b <= s.len(),
    ensures
        all_digits(s.subrange(a, b)),
{
    assert forall|i: int| 0 <= i < s.subrange(a, b).len() implies is_digit(
        s.subrange(a, b)[i],
    ) by {
        assert(s.subrange(a, b)[i] == s[a + i]);
    }
}

proof fn lemma_digits_val_nonneg(s: Seq<char>)
    requires
        all_digits(s),
    ensures
        digits_val(s) >= 0,
    decreases s.len(),
{
    if s.len() > 0 {
        lemma_all_digits_subrange(s, 0, s.len() - 1);
        assert(s.drop_last() =~= s.subrange(0, s.len() - 1));
        lemma_digits_val_nonneg(s.drop_last());
        assert(is_digit(s.last()));
    }
}

/// The value of a digit string bounds the value of each of its prefixes.
proof fn lemma_digits_val_prefix(s: Seq<char>, i: int)
    requires
        all_digits(s),
        0 <= i <= s.len(),
    ensures
        digits_val(s.subrange(0, i)) <= digits_val(s),
    decreases s.len() - i,
{
    if i < s.len() {
        lemma_digits_val_prefix(s, i + 1);
        let p = s.subrange(0, i + 1);
        assert(p.drop_last() =~= s.subrange(0, i));
        assert(p.last() == s[i]);
        lemma_all_digits_subrange(s, 0, i);
        lemma_digits_val_nonneg(s.subrange(0, i));
        assert(is_digit(s[i]));
    } else {
        assert(s.subrange(0, i) =~= s);
    }
}

/// What `str::parse::<u8>` accepts: an optional leading `+`, then one or
/// more decimal digits whose value fits in a `u8`.
pub open spec fn parse_u8(s: Seq<char>) -> Option<u8> {
    let d = if s.len() > 0 && s[0] == '+' {
        s.drop_first()
    } else {
        s
    };
    if d.len() > 0 && all_digits(d) && digits_val(d) <= 255 {
        Some(digits_val(d) as u8)
    } else {
        None
    }
}

pub fn parse_u8_str(s: &str) -> (r: Option<u8>)
    ensures
        r == parse_u8(s@),
{
    let n = s.unicode_len();
    let start: usize = if n > 0 && s.get_char(0) == '+' {
        1
    } else {
        0
    };
    let ghost d = if s@.len() > 0 && s@[0] == '+' {
        s@.drop_first()
    } else {
        s@
    };
    proof {
        if start == 1 {
            assert(d =~= s@.subrange(1, n as int));
        } else {
            assert(d =~= s@.subrange(0, n as int));
        }
    }
    if start == n {
        return None;
    }
    let mut i: usize = start;
    let mut acc: u32 = 0;
    while i < n
        invariant
            start <= i <= n,
            n == s@.len(),
            start <= 1,
            d == (if s@.len() > 0 && s@[0] == '+' {
                s@.drop_first()
            } else {
                s@
            }),
            d == s@.subrange(start as int, n as int),
            all_digits(d.subrange(0, i - start)),
            acc == digits_val(d.subrange(0, i - start)),
            acc <= 255,
        decreases n - i,
    {
        let c = s.get_char(i);
        proof {
            assert(d[i - start] == s@[i as int]);
        }
        if !is_digit_char(c) {
            proof {
                assert(0 <= i - start < d.len());
                assert(!is_digit(d[i - start]));
                assert(!all_digits(d));
                assert(parse_u8(s@) is None);
            }
            return None;
        }
        let v = acc * 10 + (c as u32 - 48);
        proof {
            let p = d.subrange(0, i - start + 1);
            assert(p.drop_last() =~= d.subrange(0, i - start));
            assert(p.last() == d[i - start]);
            assert(digits_val(p) == v);
        }
        if v > 255 {
            proof {
                if all_digits(d) && digits_val(d) <= 255 {
                    lemma_digits_val_prefix(d, i - start + 1);
                    assert(digits_val(d.subrange(0, i - start + 1)) <= digits_val(d));
                    assert(false);
                }
                assert(parse_u8(s@) is None);
            }
            return None;
        }
        acc = v;
        i += 1;
    }
    proof {
        assert(d =~= d.subrange(0, n - start));
    }
    Some(acc as u8)
}

/// A capacity reading as the bar interprets it: trimmed, parsed as `u8`,
/// defaulting to 0 when the text is malformed or missing.
pub open spec fn capacity_of(s: Seq<char>) -> u8 {
    match parse_u8(trimmed(s)) {
        Some(v) => v,
        None => 0,
    }
}

pub fn capacity_value(s: &str) -> (r: u8)
    ensures
        r == capacity_of(s@),
{
    let t = trim_str(s);
    match parse_u8_str(t) {
        Some(v) => v,
        None => 0,
    }
}

// --- decimal rendering -----------------------------------------------------

/// The digit character for `d % 10`.
pub open spec fn digit_char(d: u8) -> char {
    (((d % 10) + 48) as u8) as char
}

pub fn digit_str(d: u8) -> (r: &'static str)
    requires
        d < 10,
    ensures
        r@ == seq![digit_char(d)],
{
    match d {
        0 => {
            proof {
                reveal_strlit("0");
                assert("0"@ =~= seq![digit_char(0u8)]);
            }
            "0"
        },
        1 => {
            proof {
                reveal_strlit("1");
                assert("1"@ =~= seq![digit_char(1u8)]);
            }
            "1"
        },
        2 => {
            proof {
                reveal_strlit("2");
                assert("2"@ =~= seq![digit_char(2u8)]);
            }
            "2"
        },
        3 => {
            proof {
                reveal_strlit("3");
                assert("3"@ =~= seq![digit_char(3u8)]);
            }
            "3"
        },
        4 => {
            proof {
                reveal_strlit("4");
                assert("4"@ =~= seq![digit_char(4u8)]);
            }
            "4"
        },
        5 => {
            proof {
                reveal_strlit("5");
                assert("5"@ =~= seq![digit_char(5u8)]);
            }
            "5"
        },
        6 => {
            proof {
                reveal_strlit("6");
                assert("6"@ =~= seq![digit_char(6u8)]);
            }
            "6"
        },
        7 => {
            proof {
                reveal_strlit("7");
                assert("7"@ =~= seq![digit_char(7u8)]);
            }
            "7"
        },
        8 => {
            proof {
                reveal_strlit("8");
                assert("8"@ =~= seq![digit_char(8u8)]);
            }
            "8"
        },
        _ => {
            proof {
                reveal_strlit("9");
                assert("9"@ =~= seq![digit_char(9u8)]);
            }
            "9"
        },
    }
}

/// Decimal text of a byte value, without leading zeros.
pub open spec fn u8_dec(n: u8) -> Seq<char>
    decreases n,
{
    if n < 10 {
        seq![digit_char(n)]
    } else {
        u8_dec(n / 10) + seq![digit_char(n % 10)]
    }
}

pub fn u8_dec_str(n: u8) -> (r: String)
    ensures
        r@ == u8_dec(n),
    decreases n,
{
    if n < 10 {
        digit_str(n).to_owned()
    } else {
        let front = u8_dec_str(n / 10);
        front.concat(digit_str(n % 10))
    }
}

/// Two-digit zero-padded text of a value below 100.
pub open spec fn two_digit(n: u8) -> Seq<char> {
    seq![digit_char((n / 10) as u8), digit_char(n)]
}

pub fn two_digit_str(n: u8) -> (r: String)
    requires
        n < 100,
    ensures
        r@ == two_digit(n),
{
    let r = digit_str(n / 10).to_owned().concat(digit_str(n % 10));
    proof {
        assert(r@ =~= two_digit(n));
    }
    r
}

// --- lines and fields ------------------------------------------------------

/// Longest prefix without a newline.
pub open spec fn line_prefix(s: Seq<char>) -> Seq<char>
    decreases s.len(),
{
    if s.len() > 0 && s[0] != '\n' {
        seq![s[0]] + line_prefix(s.drop_first())
    } else {
        Seq::empty()
    }
}

pub open spec fn contains_percent(s: Seq<char>) -> bool {
    exists|i: int| 0 <= i < s.len() && s[i] == '%'
}

/// The first newline-separated line that holds a percent sign.
pub open spec fn find_percent_line(s: Seq<char>) -> Option<Seq<char>>
    decreases s.len(),
{
    if s.len() == 0 {
        None
    } else {
        let line = line_prefix(s);
        if contains_percent(line) {
            Some(line)
        } else if line.len() >= s.len() {
            None
        } else {
            find_percent_line(s.subrange(line.len() as int + 1, s.len() as int))
        }
    }
}

pub fn contains_percent_str(s: &str) -> (r: bool)
    ensures
        r == contains_percent(s@),
{
    let n = s.unicode_len();
    let mut i: usize = 0;
    while i < n
        invariant
            0 <= i <= n,
            n == s@.len(),
            forall|k: int| 0 <= k < i ==> s@[k] != '%',
        decreases n - i,
    {
        if s.get_char(i) == '%' {
            return true;
        }
        i += 1;
    }
    false
}

pub fn line_prefix_str(s: &str) -> (r: String)
    ensures
        r@ == line_prefix(s@),
    decreases s@.len(),
{
    let n = s.unicode_len();
    if n > 0 && s.get_char(0) != '\n' {
        let head = s.substring_char(0, 1);
        let rest = s.substring_char(1, n);
        proof {
            assert(rest@ =~= s@.drop_first());
            assert(head@ =~= seq![s@[0]]);
        }
        let tail = line_prefix_str(rest);
        head.to_owned().concat(tail.as_str())
    } else {
        String::new()
    }
}

pub fn find_percent_line_str(s: &str) -> (r: Option<String>)
    ensures
        (r is Some) == (find_percent_line(s@) is Some),
        r matches Some(l) ==> (find_percent_line(s@) matches Some(m) && l@ == m),
    decreases s@.len(),
{
    let n = s.unicode_len();
    if n == 0 {
        return None;
    }
    let line = line_prefix_str(s);
    if contains_percent_str(line.as_str()) {
        return Some(line);
    }
    let llen = line.as_str().unicode_len();
    if llen >= n {
        return None;
    }
    let rest = s.substring_char(llen + 1, n);
    proof {
        assert(rest@ =~= s@.subrange(llen + 1, n as int));
    }
    find_percent_line_str(rest)
}

/// The whitespace-delimited fields of a line, as `split_whitespace` yields
/// them.
pub open spec fn fields_of(s: Seq<char>) -> Seq<Seq<char>>
    decreases s.len(),
    via fields_of_decreases
{
    let t = trim_front(s);
    if t.len() == 0 {
        Seq::empty()
    } else {
        seq![token_prefix(t)] + fields_of(
            t.subrange(token_prefix(t).len() as int, t.len() as int),
        )
    }
}

#[via_fn]
proof fn fields_of_decreases(s: Seq<char>) {
    lemma_trim_front_len(s);
    lemma_trim_front_head(s);
    lemma_token_prefix_len(trim_front(s));
}

pub fn nth_field(s: &str, k: usize) -> (r: Option<String>)
    ensures
        (r is Some) == (k < fields_of(s@).len()),
        r matches Some(f) ==> k < fields_of(s@).len() && f@ == fields_of(s@)[k as int],
    decreases s@.len(),
{
    let t = trim_front_str(s);
    let nt = t.unicode_len();
    proof {
        lemma_trim_front_len(s@);
        lemma_trim_front_head(s@);
        lemma_token_prefix_len(t@);
    }
    if nt == 0 {
        return None;
    }
    let tok = token_prefix_str(t);
    let j = tok.as_str().unicode_len();
    proof {
        assert(token_prefix(t@).len() >= 1);
    }
    if k == 0 {
        return Some(tok);
    }
    let rest = t.substring_char(j, nt);
    proof {
        assert(rest@ =~= t@.subrange(j as int, nt as int));
    }
    nth_field(rest, k - 1)
}

} // verus!
