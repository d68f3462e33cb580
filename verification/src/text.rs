//! Text as sequences of characters: decimal numbers, trimming, prefixes and
//! the small pieces that messages and links are put together from.

use vstd::prelude::*;
use vstd::string::{StrSliceExecFns, StringExecFns};

verus! {

/// The character that writes the digit `d`.
pub open spec fn digit_char(d: int) -> char {
    (d + 48) as char
}

/// `n` in decimal, without leading zeros.
pub open spec fn digits(n: nat) -> Seq<char>
    decreases n,
{
    if n < 10 {
        seq![digit_char(n as int)]
    } else {
        digits(n / 10).push(digit_char((n % 10) as int))
    }
}

/// `n` in decimal, with a leading `-` when it is negative.
pub open spec fn decimal(n: int) -> Seq<char> {
    if n < 0 {
        seq!['-'] + digits((-n) as nat)
    } else {
        digits(n as nat)
    }
}

/// `n` in decimal, padded with a zero to at least two characters, the sign
/// counted and kept in front.
pub open spec fn decimal_two(n: int) -> Seq<char> {
    if 0 <= n < 10 {
        seq!['0'] + decimal(n)
    } else {
        decimal(n)
    }
}

/// The characters with Unicode's `White_Space` property.
pub open spec fn is_white_space(c: char) -> bool {
    let u = c as u32;
    ||| 0x9 <= u <= 0xd
    ||| u == 0x20
    ||| u == 0x85
    ||| u == 0xa0
    ||| u == 0x1680
    ||| 0x2000 <= u <= 0x200a
    ||| u == 0x2028
    ||| u == 0x2029
    ||| u == 0x202f
    ||| u == 0x205f
    ||| u == 0x3000
}

/// `s` without the white space in front.
pub open spec fn trimmed_start(s: Seq<char>) -> Seq<char>
    decreases s.len(),
{
    if s.len() > 0 && is_white_space(s.first()) {
        trimmed_start(s.drop_first())
    } else {
        s
    }
}

/// `s` without the characters `c` at its end.
pub open spec fn without_trailing(s: Seq<char>, c: char) -> Seq<char>
    decreases s.len(),
{
    if s.len() > 0 && s.last() == c {
        without_trailing(s.drop_last(), c)
    } else {
        s
    }
}

/// `s` without the white space at its end.
pub open spec fn trimmed_end(s: Seq<char>) -> Seq<char>
    decreases s.len(),
{
    if s.len() > 0 && is_white_space(s.last()) {
        trimmed_end(s.drop_last())
    } else {
        s
    }
}

/// `s` without the white space at either end.
pub open spec fn trimmed(s: Seq<char>) -> Seq<char> {
    trimmed_end(trimmed_start(s))
}

/// Whether `s` starts with `prefix`.
pub open spec fn has_prefix(s: Seq<char>, prefix: Seq<char>) -> bool {
    prefix.len() <= s.len() && s.take(prefix.len() as int) == prefix
}

/// The value of an unsigned decimal numeral, digit by digit.
pub open spec fn numeral_value(s: Seq<char>) -> int
    decreases s.len(),
{
    if s.len() == 0 {
        0
    } else {
        numeral_value(s.drop_last()) * 10 + (s.last() as int - 48)
    }
}

/// A nonempty run of ASCII digits.
pub open spec fn is_numeral(s: Seq<char>) -> bool {
    s.len() > 0 && forall|i: int| 0 <= i < s.len() ==> '0' <= #[trigger] s[i] <= '9'
}

/// The integer that `s` writes: an optional sign and a numeral.
pub open spec fn integer_of(s: Seq<char>) -> Option<int> {
    if s.len() > 0 && (s.first() == '-' || s.first() == '+') {
        if is_numeral(s.drop_first()) {
            let v = numeral_value(s.drop_first());
            Some(if s.first() == '-' { -v } else { v })
        } else {
            None
        }
    } else if is_numeral(s) {
        Some(numeral_value(s))
    } else {
        None
    }
}

/// The `i32` that `s` writes, when it writes one that fits.
pub open spec fn i32_of(s: Seq<char>) -> Option<i32> {
    match integer_of(s) {
        Some(v) => if i32::MIN <= v <= i32::MAX {
            Some(v as i32)
        } else {
            None
        },
        None => None,
    }
}

/// Views an optional text.
pub open spec fn opt_text(o: Option<String>) -> Option<Seq<char>> {
    match o {
        Some(s) => Some(s@),
        None => None,
    }
}

fn digit_text(d: u64) -> (r: String)
    requires
        d < 10,
    ensures
        r@ == seq![digit_char(d as int)],
{
    proof {
        reveal_strlit("0");
        reveal_strlit("1");
        reveal_strlit("2");
        reveal_strlit("3");
        reveal_strlit("4");
        reveal_strlit("5");
        reveal_strlit("6");
        reveal_strlit("7");
        reveal_strlit("8");
        reveal_strlit("9");
    }
    let r: String = if d == 0 {
        "0".to_owned()
    } else if d == 1 {
        "1".to_owned()
    } else if d == 2 {
        "2".to_owned()
    } else if d == 3 {
        "3".to_owned()
    } else if d == 4 {
        "4".to_owned()
    } else if d == 5 {
        "5".to_owned()
    } else if d == 6 {
        "6".to_owned()
    } else if d == 7 {
        "7".to_owned()
    } else if d == 8 {
        "8".to_owned()
    } else {
        "9".to_owned()
    };
    assert(r@ =~= seq![digit_char(d as int)]);
    r
}

fn digits_text(n: u64) -> (r: String)
    ensures
        r@ == digits(n as nat),
    decreases n,
{
    if n < 10 {
        digit_text(n)
    } else {
        let head: String = digits_text(n / 10);
        let last: String = digit_text(n % 10);
        let r: String = head.concat(last.as_str());
        assert(r@ =~= digits((n / 10) as nat).push(digit_char((n % 10) as int)));
        r
    }
}

/// Writes `n` in decimal.
pub fn decimal_text(n: i64) -> (r: String)
    ensures
        r@ == decimal(n as int),
{
    if n < 0 {
        let magnitude: u64 = if n == i64::MIN {
            9223372036854775808
        } else {
            (-n) as u64
        };
        proof {
            reveal_strlit("-");
        }
        let r: String = "-".to_owned().concat(digits_text(magnitude).as_str());
        assert(r@ =~= seq!['-'] + digits((-n) as nat));
        r
    } else {
        digits_text(n as u64)
    }
}

/// Writes a count in decimal.
pub fn count_text(n: usize) -> (r: String)
    ensures
        r@ == decimal(n as int),
{
    digits_text(n as u64)
}

/// Writes `n` in decimal with at least two characters.
pub fn decimal_two_text(n: i64) -> (r: String)
    ensures
        r@ == decimal_two(n as int),
{
    if 0 <= n && n < 10 {
        proof {
            reveal_strlit("0");
        }
        let r: String = "0".to_owned().concat(decimal_text(n).as_str());
        assert(r@ =~= seq!['0'] + decimal(n as int));
        r
    } else {
        decimal_text(n)
    }
}

/// Whether two texts are the same.
pub fn same_text(a: &str, b: &str) -> (r: bool)
    ensures
        r == (a@ == b@),
{
    a.to_owned() == b.to_owned()
}

/// The characters of a text.
pub fn chars_of(s: &str) -> (r: Vec<char>)
    ensures
        r@ == s@,
{
    let mut r: Vec<char> = Vec::new();
    for c in it: s.chars()
        invariant
            r@ == it.seq().take(it.index() as int),
            it.seq() == s@,
    {
        r.push(c);
    }
    r
}

fn white_space(c: char) -> (r: bool)
    ensures
        r == is_white_space(c),
{
    let u: u32 = c as u32;
    (0x9 <= u && u <= 0xd) || u == 0x20 || u == 0x85 || u == 0xa0 || u == 0x1680 || (0x2000 <= u
        && u <= 0x200a) || u == 0x2028 || u == 0x2029 || u == 0x202f || u == 0x205f || u == 0x3000
}

/// `s` without the white space at either end.
pub fn trim_text(s: &str) -> (r: String)
    ensures
        r@ == trimmed(s@),
{
    let chars: Vec<char> = chars_of(s);
    let n: usize = chars.len();
    let mut from: usize = 0;
    assert(s@.subrange(0, n as int) =~= s@);
    while from < n && white_space(chars[from])
        invariant
            from <= n,
            n == chars.len(),
            chars@ == s@,
            trimmed_start(s@) == trimmed_start(s@.subrange(from as int, n as int)),
        decreases n - from,
    {
        assert(s@.subrange(from as int, n as int).drop_first() =~= s@.subrange(
            from + 1,
            n as int,
        ));
        from = from + 1;
    }
    assert(trimmed_start(s@) == s@.subrange(from as int, n as int));
    let mut to: usize = n;
    while from < to && white_space(chars[to - 1])
        invariant
            from <= to <= n,
            n == chars.len(),
            chars@ == s@,
            trimmed(s@) == trimmed_end(s@.subrange(from as int, to as int)),
        decreases to - from,
    {
        assert(s@.subrange(from as int, to as int).drop_last() =~= s@.subrange(
            from as int,
            to - 1,
        ));
        to = to - 1;
    }
    assert(trimmed_end(s@.subrange(from as int, to as int)) == s@.subrange(from as int, to as int));
    s.substring_char(from, to).to_owned()
}

/// `s` without the characters `c` at its end.
pub fn drop_trailing(s: &str, c: char) -> (r: String)
    ensures
        r@ == without_trailing(s@, c),
{
    let chars: Vec<char> = chars_of(s);
    let mut to: usize = chars.len();
    assert(s@.subrange(0, to as int) =~= s@);
    while to > 0 && chars[to - 1] == c
        invariant
            to <= chars.len(),
            chars@ == s@,
            without_trailing(s@, c) == without_trailing(s@.subrange(0, to as int), c),
        decreases to,
    {
        assert(s@.subrange(0, to as int).drop_last() =~= s@.subrange(0, to - 1));
        to = to - 1;
    }
    s.substring_char(0, to).to_owned()
}

/// Whether `s` starts with `prefix`.
pub fn starts_with_text(s: &str, prefix: &str) -> (r: bool)
    ensures
        r == has_prefix(s@, prefix@),
{
    let n: usize = prefix.unicode_len();
    if s.unicode_len() < n {
        false
    } else {
        assert(s@.subrange(0, n as int) =~= s@.take(n as int));
        same_text(s.substring_char(0, n), prefix)
    }
}

proof fn numeral_value_grows(s: Seq<char>, k: int)
    requires
        is_numeral(s),
        0 <= k <= s.len(),
    ensures
        0 <= numeral_value(s.take(k)) <= numeral_value(s),
    decreases s.len() - k, k,
{
    if k < s.len() {
        numeral_value_grows(s, k + 1);
        assert(s.take(k + 1).drop_last() =~= s.take(k));
        numeral_value_nonnegative(s.take(k));
    } else {
        assert(s.take(k) =~= s);
        numeral_value_nonnegative(s);
    }
}

proof fn numeral_value_nonnegative(s: Seq<char>)
    requires
        forall|i: int| 0 <= i < s.len() ==> '0' <= #[trigger] s[i] <= '9',
    ensures
        0 <= numeral_value(s),
    decreases s.len(),
{
    if s.len() > 0 {
        numeral_value_nonnegative(s.drop_last());
    }
}

/// The `i32` that `s` writes: an optional sign and at least one ASCII digit.
/// Anything else, and any number that does not fit, is `None`.
pub fn parse_i32(s: &str) -> (r: Option<i32>)
    ensures
        r == i32_of(s@),
{
    let chars: Vec<char> = chars_of(s);
    let n: usize = chars.len();
    let negative: bool = n > 0 && chars[0] == '-';
    let start: usize = if n > 0 && (chars[0] == '-' || chars[0] == '+') {
        1
    } else {
        0
    };
    let ghost body = s@.subrange(start as int, n as int);
    assert(start == 1 ==> body =~= s@.drop_first());
    assert(start == 0 ==> body =~= s@);
    if start == n {
        return None;
    }
    let mut i: usize = start;
    while i < n
        invariant
            start <= i <= n,
            n == chars.len(),
            chars@ == s@,
            body == s@.subrange(start as int, n as int),
            start == 0 || start == 1,
            start == 1 ==> body == s@.drop_first() && (s@.first() == '-' || s@.first() == '+'),
            start == 0 ==> body == s@ && !(s@.first() == '-' || s@.first() == '+'),
            s@.len() > 0,
            forall|k: int| 0 <= k < i - start ==> '0' <= #[trigger] body[k] <= '9',
        decreases n - i,
    {
        let c: char = chars[i];
        assert(body[i - start] == c);
        if c < '0' || c > '9' {
            return None;
        }
        i = i + 1;
    }
    assert(is_numeral(body));
    let mut value: i64 = 0;
    let mut j: usize = start;
    assert(body.take(0) =~= Seq::<char>::empty());
    while j < n
        invariant
            start <= j <= n,
            n == chars.len(),
            chars@ == s@,
            body == s@.subrange(start as int, n as int),
            is_numeral(body),
            start == 0 || start == 1,
            start == 1 ==> body == s@.drop_first() && (s@.first() == '-' || s@.first() == '+'),
            start == 0 ==> body == s@ && !(s@.first() == '-' || s@.first() == '+'),
            s@.len() > 0,
            0 <= value <= 2147483648,
            value == numeral_value(body.take(j - start)),
        decreases n - j,
    {
        let c: char = chars[j];
        assert(body[j - start] == c);
        assert(body.take(j - start + 1).drop_last() =~= body.take(j - start));
        assert(body.take(j - start + 1).last() == c);
        let next: i64 = value * 10 + (c as u32 - 48) as i64;
        if next > 2147483648 {
            proof {
                numeral_value_grows(body, j - start + 1);
            }
            return None;
        }
        value = next;
        j = j + 1;
    }
    assert(body.take(n - start) =~= body);
    let signed: i64 = if negative {
        -value
    } else {
        value
    };
    if signed > 2147483647 {
        None
    } else {
        Some(signed as i32)
    }
}

// Laws.

proof fn trimmed_start_shape(s: Seq<char>)
    ensures
        trimmed_start(s).len() <= s.len(),
        trimmed_start(s).len() > 0 ==> !is_white_space(trimmed_start(s).first()),
    decreases s.len(),
{
    if s.len() > 0 && is_white_space(s.first()) {
        trimmed_start_shape(s.drop_first());
    }
}

proof fn trimmed_end_shape(s: Seq<char>)
    ensures
        trimmed_end(s).len() <= s.len(),
        trimmed_end(s).len() > 0 ==> !is_white_space(trimmed_end(s).last()) && trimmed_end(
            s,
        ).first() == s.first(),
    decreases s.len(),
{
    if s.len() > 0 && is_white_space(s.last()) {
        trimmed_end_shape(s.drop_last());
    }
}

/// Trimming a trimmed text changes nothing, and no text grows by it.
pub proof fn trimming_is_done_once(s: Seq<char>)
    ensures
        trimmed(trimmed(s)) == trimmed(s),
        trimmed(s).len() <= s.len(),
{
    trimmed_start_shape(s);
    trimmed_end_shape(trimmed_start(s));
    let t = trimmed(s);
    if t.len() > 0 {
        assert(trimmed_start(t) == t);
        assert(trimmed_end(t) == t);
    }
}

proof fn digits_are_read_back(n: nat)
    ensures
        is_numeral(digits(n)),
        numeral_value(digits(n)) == n,
    decreases n,
{
    reveal_with_fuel(numeral_value, 2);
    if n < 10 {
        assert(digits(n).drop_last() =~= Seq::<char>::empty());
        assert(digits(n).last() as int == n + 48);
    } else {
        digits_are_read_back(n / 10);
        let d = (n % 10) as int;
        assert(digits(n).drop_last() =~= digits(n / 10));
        assert(digits(n).last() == digit_char(d));
        assert(digit_char(d) as int == d + 48);
        assert forall|i: int| 0 <= i < digits(n).len() implies '0' <= #[trigger] digits(n)[i]
            <= '9' by {
            if i < digits(n / 10).len() {
                assert(digits(n)[i] == digits(n / 10)[i]);
            }
        }
    }
}

/// A number that is written in decimal is read back as the same number.
pub proof fn numbers_are_read_back(n: int)
    ensures
        integer_of(decimal(n)) == Some(n),
        i32::MIN <= n <= i32::MAX ==> i32_of(decimal(n)) == Some(n as i32),
{
    if n < 0 {
        digits_are_read_back((-n) as nat);
        assert(decimal(n).drop_first() =~= digits((-n) as nat));
        assert(decimal(n).first() == '-');
    } else {
        digits_are_read_back(n as nat);
        assert('0' <= decimal(n)[0] <= '9');
    }
}

/// The blanks are those of Unicode, one by one.
pub proof fn blanks_are_those_of_unicode(c: char)
    ensures
        is_white_space(c) <==> seq![
            0x9u32, 0xa, 0xb, 0xc, 0xd, 0x20, 0x85, 0xa0, 0x1680, 0x2000, 0x2001, 0x2002, 0x2003,
            0x2004, 0x2005, 0x2006, 0x2007, 0x2008, 0x2009, 0x200a, 0x2028, 0x2029, 0x202f, 0x205f,
            0x3000,
        ].contains(c as u32),
{
    let all = seq![
        0x9u32, 0xa, 0xb, 0xc, 0xd, 0x20, 0x85, 0xa0, 0x1680, 0x2000, 0x2001, 0x2002, 0x2003,
        0x2004, 0x2005, 0x2006, 0x2007, 0x2008, 0x2009, 0x200a, 0x2028, 0x2029, 0x202f, 0x205f,
        0x3000,
    ];
    let u = c as u32;
    if is_white_space(c) {
        let k: int = if u <= 0xd {
            u - 9
        } else if u == 0x20 {
            5
        } else if u == 0x85 {
            6
        } else if u == 0xa0 {
            7
        } else if u == 0x1680 {
            8
        } else if u <= 0x200a {
            9 + (u - 0x2000)
        } else if u == 0x2028 {
            20
        } else if u == 0x2029 {
            21
        } else if u == 0x202f {
            22
        } else if u == 0x205f {
            23
        } else {
            24
        };
        assert(all[k] == u);
    }
}

proof fn trimmed_start_is_a_rest(s: Seq<char>) -> (from: int)
    ensures
        0 <= from <= s.len(),
        trimmed_start(s) == s.skip(from),
        forall|i: int| 0 <= i < from ==> is_white_space(#[trigger] s[i]),
        from < s.len() ==> !is_white_space(s[from]),
    decreases s.len(),
{
    if s.len() > 0 && is_white_space(s.first()) {
        let rest = s.drop_first();
        let from = trimmed_start_is_a_rest(rest);
        assert(rest.skip(from) =~= s.skip(from + 1));
        assert forall|i: int| 0 <= i < from + 1 implies is_white_space(#[trigger] s[i]) by {
            if i > 0 {
                assert(rest[i - 1] == s[i]);
            }
        }
        from + 1
    } else {
        assert(s.skip(0) =~= s);
        0
    }
}

proof fn trimmed_end_is_a_beginning(s: Seq<char>) -> (to: int)
    ensures
        0 <= to <= s.len(),
        trimmed_end(s) == s.take(to),
        forall|i: int| to <= i < s.len() ==> is_white_space(#[trigger] s[i]),
        to > 0 ==> !is_white_space(s[to - 1]),
    decreases s.len(),
{
    if s.len() > 0 && is_white_space(s.last()) {
        let rest = s.drop_last();
        let to = trimmed_end_is_a_beginning(rest);
        assert(rest.take(to) =~= s.take(to));
        assert forall|i: int| to <= i < s.len() implies is_white_space(#[trigger] s[i]) by {
            if i < rest.len() {
                assert(rest[i] == s[i]);
            }
        }
        to
    } else {
        assert(s.take(s.len() as int) =~= s);
        s.len() as int
    }
}

/// Trimming leaves a stretch of the text: everything before and behind it is
/// blank, and what is left neither begins nor ends with a blank.
pub proof fn trimming_takes_the_blanks_around(s: Seq<char>) -> (stretch: (int, int))
    ensures
        ({
            let (from, to) = stretch;
            &&& 0 <= from <= to <= s.len()
            &&& trimmed(s) == s.subrange(from, to)
            &&& forall|i: int|
                (0 <= i < from || to <= i < s.len()) ==> is_white_space(#[trigger] s[i])
            &&& from < to ==> !is_white_space(s[from]) && !is_white_space(s[to - 1])
        }),
{
    let from = trimmed_start_is_a_rest(s);
    let rest = s.skip(from);
    let length = trimmed_end_is_a_beginning(rest);
    let to = from + length;
    assert(rest.take(length) =~= s.subrange(from, to));
    assert forall|i: int| (0 <= i < from || to <= i < s.len()) implies is_white_space(
        #[trigger] s[i],
    ) by {
        if i >= to {
            assert(rest[i - from] == s[i]);
        }
    }
    if from < to {
        assert(rest[length - 1] == s[to - 1]);
        assert(rest[0] == s[from]);
    }
    (from, to)
}

/// Decimal numbers are written digit by digit: ten times a number and a digit
/// is the number followed by the digit, and a negative number is its opposite
/// behind a sign.
pub proof fn numbers_are_written_digit_by_digit(n: int, d: int)
    requires
        0 <= d < 10,
        n > 0,
    ensures
        decimal(d) == seq![(48 + d) as char],
        decimal(n * 10 + d) == decimal(n).push((48 + d) as char),
        decimal(-n) == seq!['-'] + decimal(n),
{
    assert((n * 10 + d) / 10 == n && (n * 10 + d) % 10 == d);
}

/// A seed or a rank is written with two digits at least, and is still the
/// same number.
pub proof fn short_numbers_get_a_zero(n: int)
    ensures
        decimal_two(n).len() >= 2,
        integer_of(decimal_two(n)) == Some(n),
        n < 0 || n >= 10 ==> decimal_two(n) == decimal(n),
{
    numbers_are_read_back(n);
    if n < 0 {
        digits_are_read_back((-n) as nat);
    } else if n < 10 {
        let s = decimal_two(n);
        reveal_with_fuel(numeral_value, 3);
        assert(s.drop_last() =~= seq!['0']);
        assert(seq!['0'].drop_last() =~= Seq::<char>::empty());
        assert(s[0] == '0' && s[1] == digit_char(n));
        assert(digit_char(n) as int == n + 48);
    } else {
        digits_are_read_back((n / 10) as nat);
    }
}

/// A text writes an integer only when it is made of digits, behind at most
/// one sign, and of several that write the same digits the sign tells.
pub proof fn integers_are_signs_and_digits(s: Seq<char>)
    ensures
        integer_of(s) is Some ==> {
            &&& s.len() > 0
            &&& s[0] == '-' || s[0] == '+' || '0' <= s[0] <= '9'
            &&& s[0] == '-' || s[0] == '+' ==> s.len() > 1
            &&& forall|i: int| 1 <= i < s.len() ==> '0' <= #[trigger] s[i] <= '9'
        },
        integer_of(s) matches Some(v) && '0' <= s[0] <= '9' ==> {
            &&& integer_of(s) == integer_of(seq!['+'] + s)
            &&& integer_of(seq!['-'] + s) == Some(-integer_of(s)->0)
        },
        i32_of(s) matches Some(v) ==> integer_of(s) == Some(v as int),
        integer_of(s) matches Some(v) ==> (i32_of(s) is Some <==> -2147483648 <= v <= 2147483647),
{
    if integer_of(s) is Some {
        if s.first() == '-' || s.first() == '+' {
            let rest = s.drop_first();
            assert forall|i: int| 1 <= i < s.len() implies '0' <= #[trigger] s[i] <= '9' by {
                assert(rest[i - 1] == s[i]);
            }
        } else {
            assert((seq!['+'] + s).drop_first() =~= s);
            assert((seq!['-'] + s).drop_first() =~= s);
        }
    }
}

/// A text starts with its prefix and goes on with the rest.
pub proof fn prefixes_come_first(prefix: Seq<char>, rest: Seq<char>, s: Seq<char>)
    ensures
        has_prefix(prefix + rest, prefix),
        has_prefix(s, prefix) ==> s == prefix + s.skip(prefix.len() as int),
{
    assert((prefix + rest).take(prefix.len() as int) =~= prefix);
    if has_prefix(s, prefix) {
        assert(s =~= s.take(prefix.len() as int) + s.skip(prefix.len() as int));
    }
}

/// What is taken off the end is that character and nothing else, and none of
/// it is left there.
pub proof fn only_the_trailing_character_is_taken(s: Seq<char>, c: char)
    ensures
        without_trailing(s, c).len() <= s.len(),
        without_trailing(s, c) == s.take(without_trailing(s, c).len() as int),
        forall|i: int| without_trailing(s, c).len() <= i < s.len() ==> s[i] == c,
        without_trailing(s, c).len() > 0 ==> without_trailing(s, c).last() != c,
    decreases s.len(),
{
    if s.len() > 0 && s.last() == c {
        only_the_trailing_character_is_taken(s.drop_last(), c);
        let rest = without_trailing(s.drop_last(), c);
        assert(s.take(rest.len() as int) =~= s.drop_last().take(rest.len() as int));
        assert forall|i: int| rest.len() <= i < s.len() implies s[i] == c by {
            if i < s.len() - 1 {
                assert(s.drop_last()[i] == s[i]);
            }
        }
    } else {
        assert(s.take(s.len() as int) =~= s);
    }
}

/// A text that may be missing is seen as it is, and a missing one as missing.
pub proof fn optional_texts_are_seen_as_they_are(text: Option<String>)
    ensures
        opt_text(text) is Some <==> text is Some,
        text is Some ==> opt_text(text)->0 == text->0@,
{
}

} // verus!
