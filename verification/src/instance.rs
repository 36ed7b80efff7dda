//! The pidfile through which a new launch finds the overlay session it
//! replaces: a launch writes its own pid there, and the next launch reads
//! it back and signals that process before starting its own session.

use vstd::prelude::*;
use vstd::string::{StrSliceExecFns, StringExecFns};

verus! {

/// Whether `c` has the Unicode `White_Space` property, the set that
/// `str::trim` removes.
pub open spec fn is_whitespace(c: char) -> bool {
    let u = c as u32;
    (0x9 <= u && u <= 0xd) || u == 0x20 || u == 0x85 || u == 0xa0 || u == 0x1680 || (0x2000 <= u
        && u <= 0x200a) || u == 0x2028 || u == 0x2029 || u == 0x202f || u == 0x205f || u == 0x3000
}

/// `s` without its leading whitespace.
pub open spec fn trim_start(s: Seq<char>) -> Seq<char>
    decreases s.len(),
{
    if s.len() > 0 && is_whitespace(s[0]) {
        trim_start(s.drop_first())
    } else {
        s
    }
}

/// `s` without its trailing whitespace.
pub open spec fn trim_end(s: Seq<char>) -> Seq<char>
    decreases s.len(),
{
    if s.len() > 0 && is_whitespace(s.last()) {
        trim_end(s.drop_last())
    } else {
        s
    }
}

/// `s` without leading and trailing whitespace.
pub open spec fn trimmed(s: Seq<char>) -> Seq<char> {
    trim_end(trim_start(s))
}

/// Whether `c` is an ASCII decimal digit.
pub open spec fn is_digit(c: char) -> bool {
    48 <= c as u32 && c as u32 <= 57
}

/// Every character of `s` is a decimal digit.
pub open spec fn all_digits(s: Seq<char>) -> bool {
    forall|i: int| 0 <= i < s.len() ==> is_digit(#[trigger] s[i])
}

/// The value of the decimal numeral `s` (all digits).
pub open spec fn digits_value(s: Seq<char>) -> int
    decreases s.len(),
{
    if s.len() == 0 {
        0
    } else {
        digits_value(s.drop_last()) * 10 + (s.last() as u32 - 48)
    }
}

/// What `str::parse::<i32>` gives for `s`: an optional `+` or `-` sign,
/// then one or more decimal digits and nothing else, whose value fits.
pub open spec fn parse_i32(s: Seq<char>) -> Option<i32> {
    let negative = s.len() > 0 && s[0] == '-';
    let body = if s.len() > 0 && (s[0] == '-' || s[0] == '+') {
        s.drop_first()
    } else {
        s
    };
    let value = if negative {
        -digits_value(body)
    } else {
        digits_value(body)
    };
    if body.len() > 0 && all_digits(body) && i32::MIN <= value <= i32::MAX {
        Some(value as i32)
    } else {
        None
    }
}

/// The digit character for `d < 10`.
pub open spec fn digit_char(d: nat) -> char {
    (d + 48) as char
}

/// The decimal numeral of `n`, without sign or leading zeros.
pub open spec fn decimal(n: nat) -> Seq<char>
    decreases n,
{
    if n < 10 {
        seq![digit_char(n)]
    } else {
        decimal(n / 10).push(digit_char(n % 10))
    }
}

/// What a launch writes to the pidfile: its pid in decimal and a newline.
pub open spec fn spec_pidfile_contents(pid: u32) -> Seq<char> {
    decimal(pid as nat).push('\n')
}

/// The process that a launch signals for pidfile text `text`: the recorded
/// pid, when the trimmed text parses as one and it is positive.
pub open spec fn spec_pid_to_signal(text: Seq<char>) -> Option<i32> {
    match parse_i32(trimmed(text)) {
        Some(pid) => if pid > 0 {
            Some(pid)
        } else {
            None
        },
        None => None,
    }
}

/// Whether `c` has the Unicode `White_Space` property.
fn is_whitespace_char(c: char) -> (r: bool)
    ensures
        r == is_whitespace(c),
{
    let u = c as u32;
    (0x9 <= u && u <= 0xd) || u == 0x20 || u == 0x85 || u == 0xa0 || u == 0x1680 || (0x2000 <= u
        && u <= 0x200a) || u == 0x2028 || u == 0x2029 || u == 0x202f || u == 0x205f || u == 0x3000
}

/// `s` without leading and trailing Unicode whitespace, as `str::trim` gives it.
fn trim(s: &str) -> (r: &str)
    ensures
        r@ == trimmed(s@),
{
    let n = s.unicode_len();
    let mut start: usize = 0;
    assert(s@.subrange(0, n as int) =~= s@);
    while start < n && is_whitespace_char(s.get_char(start))
        invariant
            n == s@.len(),
            start <= n,
            trim_start(s@) == trim_start(s@.subrange(start as int, n as int)),
        decreases n - start,
    {
        assert(s@.subrange(start as int, n as int).drop_first() =~= s@.subrange(
            start + 1,
            n as int,
        ));
        start = start + 1;
    }
    let ghost front = s@.subrange(start as int, n as int);
    assert(trim_start(front) == front);
    let mut end: usize = n;
    while end > start && is_whitespace_char(s.get_char(end - 1))
        invariant
            n == s@.len(),
            start <= end <= n,
            front == s@.subrange(start as int, n as int),
            trim_end(front) == trim_end(s@.subrange(start as int, end as int)),
        decreases end - start,
    {
        assert(s@.subrange(start as int, end as int).drop_last() =~= s@.subrange(
            start as int,
            end - 1,
        ));
        end = end - 1;
    }
    let r = s.substring_char(start, end);
    assert(trim_end(s@.subrange(start as int, end as int)) == s@.subrange(start as int, end as int));
    r
}

proof fn lemma_digits_value_grows(s: Seq<char>, k: int)
    requires
        all_digits(s),
        0 <= k <= s.len(),
    ensures
        0 <= digits_value(s.subrange(0, k)) <= digits_value(s),
    decreases s.len(),
{
    if s.len() == 0 {
        assert(s.subrange(0, k) =~= s);
    } else if k == s.len() {
        assert(s.subrange(0, k) =~= s);
        lemma_digits_value_grows(s.drop_last(), k - 1);
    } else {
        lemma_digits_value_grows(s.drop_last(), k);
        assert(s.drop_last().subrange(0, k) =~= s.subrange(0, k));
        assert(s.drop_last().subrange(0, s.len() - 1) =~= s.drop_last());
        lemma_digits_value_grows(s.drop_last(), s.len() - 1);
    }
}

/// `s` parsed as an `i32` the way `str::parse::<i32>` does: an optional
/// sign, then one or more decimal digits whose value fits.
#[verifier::loop_isolation(false)]
fn parse_pid(s: &str) -> (r: Option<i32>)
    ensures
        r == parse_i32(s@),
{
    let n = s.unicode_len();
    if n == 0 {
        return None;
    }
    let first = s.get_char(0);
    let negative = first == '-';
    let start: usize = if first == '-' || first == '+' {
        1
    } else {
        0
    };
    let ghost body = s@.subrange(start as int, n as int);
    assert(body =~= (if s@.len() > 0 && (s@[0] == '-' || s@[0] == '+') {
        s@.drop_first()
    } else {
        s@
    }));
    if start == n {
        return None;
    }
    let limit: i64 = 0x8000_0000;
    let mut value: i64 = 0;
    let mut overflow = false;
    let mut i: usize = start;
    while i < n
        invariant
            n == s@.len(),
            start <= i <= n,
            body == s@.subrange(start as int, n as int),
            all_digits(s@.subrange(start as int, i as int)),
            !overflow ==> value == digits_value(s@.subrange(start as int, i as int)),
            !overflow ==> 0 <= value <= limit,
            overflow ==> exists|k: int|
                start <= k <= i && digits_value(#[trigger] s@.subrange(start as int, k)) > limit,
            limit == 0x8000_0000,
        decreases n - i,
    {
        let c = s.get_char(i);
        let u = c as u32;
        if !(48 <= u && u <= 57) {
            assert(!is_digit(body[i - start]));
            assert(!all_digits(body));
            return None;
        }
        let ghost prefix = s@.subrange(start as int, i + 1);
        assert(prefix.drop_last() =~= s@.subrange(start as int, i as int));
        if !overflow {
            let next = value * 10 + (u - 48) as i64;
            if next > limit {
                overflow = true;
                assert(digits_value(prefix) > limit);
            } else {
                value = next;
            }
        }
        i = i + 1;
    }
    assert(s@.subrange(start as int, n as int) =~= body);
    if overflow {
        proof {
            let k = choose|k: int|
                start <= k <= n && digits_value(#[trigger] s@.subrange(start as int, k)) > limit;
            assert(body.subrange(0, k - start) =~= s@.subrange(start as int, k));
            lemma_digits_value_grows(body, k - start);
        }
        return None;
    }
    if negative {
        Some((0 - value) as i32)
    } else if value <= 0x7fff_ffff {
        Some(value as i32)
    } else {
        None
    }
}

/// `u32::to_string`: the decimal numeral of `n`.
#[verifier::external_body]
fn decimal_string(n: u32) -> (r: String)
    ensures
        r@ == decimal(n as nat),
{
    n.to_string()
}

/// The pid that a replacement launch signals, read from the pidfile's
/// text; `None` when the text records no positive pid.
pub fn pid_to_signal(text: &str) -> (r: Option<i32>)
    ensures
        r == spec_pid_to_signal(text@),
{
    let recorded = parse_pid(trim(text));
    match recorded {
        Some(pid) => if pid > 0 {
            Some(pid)
        } else {
            None
        },
        None => None,
    }
}

/// The pidfile text that records the launch with process id `pid`.
pub fn pidfile_contents(pid: u32) -> (r: String)
    ensures
        r@ == spec_pidfile_contents(pid),
{
    let mut line = decimal_string(pid);
    proof {
        reveal_strlit("\n");
    }
    line.append("\n");
    line
}

proof fn lemma_decimal(n: nat)
    ensures
        decimal(n).len() > 0,
        forall|i: int| 0 <= i < decimal(n).len() ==> is_digit(#[trigger] decimal(n)[i]),
        digits_value(decimal(n)) == n,
    decreases n,
{
    if n < 10 {
        assert(decimal(n).drop_last() =~= Seq::<char>::empty());
        assert(digit_char(n) as u32 == n + 48);
        assert(decimal(n).last() == digit_char(n));
        assert(digits_value(Seq::<char>::empty()) == 0);
    } else {
        lemma_decimal(n / 10);
        let d = decimal(n);
        assert(d.drop_last() =~= decimal(n / 10));
        assert(digit_char(n % 10) as u32 == n % 10 + 48);
        assert((n / 10) * 10 + n % 10 == n);
        assert(d.last() == digit_char(n % 10));
    }
}

proof fn lemma_trim_start_cut(s: Seq<char>) -> (i: int)
    ensures
        0 <= i <= s.len(),
        trim_start(s) == s.subrange(i, s.len() as int),
        forall|k: int| 0 <= k < i ==> is_whitespace(#[trigger] s[k]),
        i < s.len() ==> !is_whitespace(s[i]),
    decreases s.len(),
{
    if s.len() > 0 && is_whitespace(s[0]) {
        let i0 = lemma_trim_start_cut(s.drop_first());
        assert(s.drop_first().subrange(i0, s.len() - 1) =~= s.subrange(i0 + 1, s.len() as int));
        assert forall|k: int| 0 <= k < i0 + 1 implies is_whitespace(#[trigger] s[k]) by {
            if k > 0 {
                assert(s[k] == s.drop_first()[k - 1]);
            }
        }
        i0 + 1
    } else {
        assert(s.subrange(0, s.len() as int) =~= s);
        0
    }
}

proof fn lemma_trim_end_cut(s: Seq<char>) -> (j: int)
    ensures
        0 <= j <= s.len(),
        trim_end(s) == s.subrange(0, j),
        forall|k: int| j <= k < s.len() ==> is_whitespace(#[trigger] s[k]),
        j > 0 ==> !is_whitespace(s[j - 1]),
    decreases s.len(),
{
    if s.len() > 0 && is_whitespace(s.last()) {
        let j0 = lemma_trim_end_cut(s.drop_last());
        assert(s.drop_last().subrange(0, j0) =~= s.subrange(0, j0));
        assert forall|k: int| j0 <= k < s.len() implies is_whitespace(#[trigger] s[k]) by {
            if k < s.len() - 1 {
                assert(s[k] == s.drop_last()[k]);
            }
        }
        j0
    } else {
        assert(s.subrange(0, s.len() as int) =~= s);
        s.len() as int
    }
}

/// Trimming removes whitespace from the two ends and nothing else: the
/// result is a contiguous piece of the text, everything cut off before and
/// after it is whitespace, and a non-empty result starts and ends with a
/// character that is not.
pub proof fn lemma_trimmed_cuts_only_whitespace(s: Seq<char>)
    ensures
        exists|i: int, j: int|
            0 <= i <= j <= s.len() && trimmed(s) == s.subrange(i, j) && (forall|k: int|
                0 <= k < i ==> is_whitespace(#[trigger] s[k])) && (forall|k: int|
                j <= k < s.len() ==> is_whitespace(#[trigger] s[k])) && (i < j ==> !is_whitespace(s[i])
                && !is_whitespace(s[j - 1])),
{
    let i = lemma_trim_start_cut(s);
    let front = s.subrange(i, s.len() as int);
    let j0 = lemma_trim_end_cut(front);
    let j = i + j0;
    assert(front.subrange(0, j0) =~= s.subrange(i, j));
    assert forall|k: int| j <= k < s.len() implies is_whitespace(#[trigger] s[k]) by {
        assert(s[k] == front[k - i]);
    }
    if i < j {
        assert(s[j - 1] == front[j0 - 1]);
        assert(s[i] == front[0]);
    }
}

/// Whitespace as the pidfile reader sees it includes the ASCII blanks and
/// line breaks, and no digit, sign or letter.
pub proof fn lemma_whitespace_examples(c: char)
    ensures
        is_whitespace(' ') && is_whitespace('\n') && is_whitespace('\t') && is_whitespace('\r'),
        is_digit(c) ==> !is_whitespace(c),
        !is_whitespace('+') && !is_whitespace('-'),
        ('a' <= c <= 'z' || 'A' <= c <= 'Z') ==> !is_whitespace(c),
{
}

/// A parsed pid comes from text made only of an optional sign and decimal
/// digits: a text holding any other character, or no digit at all, gives
/// no pid; and a parsed value lies in the range of `i32`, negative exactly
/// when the text starts with `-`.
pub proof fn lemma_parse_accepts_only_signed_digits(s: Seq<char>, k: int)
    ensures
        s.len() == 0 ==> parse_i32(s) is None,
        (0 <= k < s.len() && !is_digit(s[k]) && !(k == 0 && (s[0] == '-' || s[0] == '+')))
            ==> parse_i32(s) is None,
        (s.len() == 1 && (s[0] == '-' || s[0] == '+')) ==> parse_i32(s) is None,
        parse_i32(s) matches Some(v) ==> (s[0] != '-' ==> v >= 0),
        parse_i32(s) matches Some(v) ==> (v < 0 ==> s[0] == '-'),
{
    let body = if s.len() > 0 && (s[0] == '-' || s[0] == '+') {
        s.drop_first()
    } else {
        s
    };
    if 0 <= k < s.len() && !is_digit(s[k]) && !(k == 0 && (s[0] == '-' || s[0] == '+')) {
        if s.len() > 0 && (s[0] == '-' || s[0] == '+') {
            assert(body[k - 1] == s[k]);
        } else {
            assert(body[k] == s[k]);
        }
    }
    if parse_i32(s) is Some {
        lemma_digits_value_nonneg(body);
    }
}

proof fn lemma_digits_value_nonneg(s: Seq<char>)
    requires
        all_digits(s),
    ensures
        digits_value(s) >= 0,
    decreases s.len(),
{
    if s.len() > 0 {
        lemma_digits_value_nonneg(s.drop_last());
    }
}

/// Leading zeros do not change a numeral's value, and each further digit
/// multiplies the value so far by ten and adds the digit's own value.
pub proof fn lemma_digits_value_decimal(s: Seq<char>, d: char)
    requires
        all_digits(s),
        is_digit(d),
    ensures
        digits_value(s.push(d)) == digits_value(s) * 10 + (d as u32 - 48),
        digits_value(seq!['0'] + s) == digits_value(s),
        digits_value(seq!['7']) == 7,
    decreases s.len(),
{
    assert(s.push(d).drop_last() =~= s);
    assert(seq!['7'].drop_last() =~= Seq::<char>::empty());
    assert(digits_value(Seq::<char>::empty()) == 0);
    assert('7' as u32 == 55);
    assert('0' as u32 == 48);
    assert(digits_value(seq!['7']) == digits_value(seq!['7'].drop_last()) * 10 + ('7' as u32 - 48));
    if s.len() == 0 {
        assert((seq!['0'] + s) =~= seq!['0']);
        assert(seq!['0'].drop_last() =~= Seq::<char>::empty());
        assert(digits_value(seq!['0']) == digits_value(seq!['0'].drop_last()) * 10 + ('0' as u32 - 48));
    } else {
        lemma_digits_value_decimal(s.drop_last(), s.last());
        let z = seq!['0'] + s;
        assert(z.drop_last() =~= seq!['0'] + s.drop_last());
        assert(z.last() == s.last());
        assert(digits_value(z) == digits_value(z.drop_last()) * 10 + (z.last() as u32 - 48));
    }
}

/// A pid to signal is always positive.
pub proof fn lemma_signalled_pid_is_positive(text: Seq<char>)
    ensures
        spec_pid_to_signal(text) matches Some(pid) ==> pid > 0,
{
}

/// A pidfile written by a launch names that launch to the next one: the
/// text holding a positive pid within the range of `i32` makes the next
/// launch signal exactly that pid.
pub proof fn lemma_pidfile_names_its_writer(pid: u32)
    requires
        0 < pid <= i32::MAX,
    ensures
        spec_pid_to_signal(spec_pidfile_contents(pid)) == Some(pid as i32),
{
    let d = decimal(pid as nat);
    let text = spec_pidfile_contents(pid);
    lemma_decimal(pid as nat);
    assert(is_digit(d[0]));
    assert(text[0] == d[0]);
    assert(trim_start(text) == text);
    assert(text.last() == '\n');
    assert(text.drop_last() =~= d);
    assert(is_digit(d.last()));
    assert(trim_end(d) == d);
    assert(trimmed(text) == d);
    assert(d[0] != '-' && d[0] != '+');
}

} // verus!
