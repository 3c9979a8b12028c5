//! Plain text: comparison, trimming, searching and decimal rendering over the characters of a
//! string.
use vstd::prelude::*;
use vstd::string::*;

verus! {

/// `String::push` appends one character to the end of the string.
pub assume_specification[ String::push ](s: &mut String, c: char)
    ensures
        final(s)@ == old(s)@.push(c),
;

/// `str::eq`, reached through `==` on two string slices: the slices are equal exactly when they
/// hold the same characters.
#[verifier::external_body]
pub(crate) fn same_text(a: &str, b: &str) -> (r: bool)
    ensures
        r == (a@ == b@),
{
    a == b
}

/// The view of an optional text slice.
pub open spec fn opt_str(o: Option<&str>) -> Option<Seq<char>> {
    match o {
        Some(s) => Some(s@),
        None => None,
    }
}

/// Decimal digit of a number below ten.
pub open spec fn digit(n: nat) -> char {
    (('0' as nat) + n) as char
}

/// Decimal rendering of a natural number, without leading zeros.
pub open spec fn decimal(n: nat) -> Seq<char>
    decreases n,
{
    if n < 10 {
        seq![digit(n)]
    } else {
        decimal(n / 10).push(digit(n % 10))
    }
}

/// Decimal rendering of an integer, with a minus sign in front of a negative one.
pub open spec fn decimal_int(n: int) -> Seq<char> {
    if n < 0 {
        seq!['-'] + decimal((-n) as nat)
    } else {
        decimal(n as nat)
    }
}

fn digit_char(n: u64) -> (c: char)
    requires
        n < 10,
    ensures
        c == digit(n as nat),
{
    let code: u8 = 48 + (n as u8);
    code as char
}

pub fn append_decimal(out: &mut String, n: u64)
    ensures
        final(out)@ == old(out)@ + decimal(n as nat),
    decreases n,
{
    if n >= 10 {
        append_decimal(out, n / 10);
    }
    out.push(digit_char(n % 10));
    assert(out@ =~= old(out)@ + decimal(n as nat));
}

/// Appends the decimal rendering of a signed number.
pub fn append_int(out: &mut String, n: i64)
    ensures
        final(out)@ == old(out)@ + decimal_int(n as int),
{
    if n < 0 {
        out.push('-');
        let m: u64 = if n == i64::MIN {
            9223372036854775808u64
        } else {
            (-n) as u64
        };
        append_decimal(out, m);
        assert(out@ =~= old(out)@ + decimal_int(n as int));
    } else {
        append_decimal(out, n as u64);
    }
}

/// A number in decimal, filled up with zeros to three digits.
pub open spec fn padded(n: nat) -> Seq<char> {
    zeros(
        if decimal(n).len() < 3 {
            (3 - decimal(n).len()) as nat
        } else {
            0
        },
    ) + decimal(n)
}

pub open spec fn zeros(k: nat) -> Seq<char> {
    Seq::new(k, |i: int| '0')
}

/// The number that digits stand for.
pub open spec fn digits_value(s: Seq<char>) -> int
    decreases s.len(),
{
    if s.len() == 0 {
        0
    } else {
        digits_value(s.drop_last()) * 10 + (s.last() as int - '0' as int)
    }
}

proof fn lemma_zeros_value(k: nat)
    ensures
        digits_value(zeros(k)) == 0,
    decreases k,
{
    if k > 0 {
        lemma_zeros_value((k - 1) as nat);
        assert(zeros(k).drop_last() =~= zeros((k - 1) as nat));
    }
}

proof fn lemma_decimal_value(k: nat, n: nat)
    ensures
        digits_value(zeros(k) + decimal(n)) == n,
    decreases n,
{
    let s = zeros(k) + decimal(n);
    if n < 10 {
        lemma_zeros_value(k);
        assert(s.drop_last() =~= zeros(k));
    } else {
        lemma_decimal_value(k, n / 10);
        assert(s.drop_last() =~= zeros(k) + decimal(n / 10));
    }
    assert(s.last() == digit(n % 10));
}

/// A number is rendered by digits.
pub proof fn lemma_decimal_digits(n: nat)
    ensures
        all_digits(decimal(n)),
    decreases n,
{
    if n >= 10 {
        lemma_decimal_digits(n / 10);
        let rest = decimal(n / 10);
        assert forall|i: int| 0 <= i < decimal(n).len() implies '0' <= #[trigger] decimal(n)[i]
            && decimal(n)[i] <= '9' by {
            if i < rest.len() {
                assert(decimal(n)[i] == rest[i]);
            }
        }
    }
}

/// Two numbers with the same rendering are the same number.
pub proof fn lemma_padded_injective(n: nat, m: nat)
    requires
        padded(n) == padded(m),
    ensures
        n == m,
{
    let fill = |x: nat|
        if decimal(x).len() < 3 {
            (3 - decimal(x).len()) as nat
        } else {
            0
        };
    lemma_decimal_value(fill(n), n);
    lemma_decimal_value(fill(m), m);
}

/// Two integers with the same rendering are the same integer.
pub proof fn lemma_decimal_injective(n: int, m: int)
    requires
        0 <= n,
        0 <= m,
        decimal_int(n) == decimal_int(m),
    ensures
        n == m,
{
    lemma_decimal_value(0, n as nat);
    lemma_decimal_value(0, m as nat);
    assert(zeros(0) + decimal(n as nat) =~= decimal(n as nat));
    assert(zeros(0) + decimal(m as nat) =~= decimal(m as nat));
}

pub fn append_padded(out: &mut String, n: u64)
    ensures
        final(out)@ == old(out)@ + padded(n as nat),
{
    proof {
        reveal_with_fuel(decimal, 4);
    }
    if n < 100 {
        out.push('0');
        if n < 10 {
            out.push('0');
        }
    }
    let ghost filled = out@;
    append_decimal(out, n);
    proof {
        assert(n >= 100 ==> decimal(n as nat).len() >= 3);
        assert(out@ =~= old(out)@ + padded(n as nat));
    }
}

pub open spec fn all_digits(s: Seq<char>) -> bool {
    s.len() > 0 && forall|i: int| 0 <= i < s.len() ==> '0' <= #[trigger] s[i] && s[i] <= '9'
}

proof fn lemma_digits_nonnegative(s: Seq<char>)
    requires
        forall|i: int| 0 <= i < s.len() ==> '0' <= #[trigger] s[i] && s[i] <= '9',
    ensures
        digits_value(s) >= 0,
    decreases s.len(),
{
    if s.len() > 0 {
        lemma_digits_nonnegative(s.drop_last());
        assert('0' <= s[s.len() - 1]);
    }
}

/// More digits never make a smaller number.
proof fn lemma_digits_grow(s: Seq<char>, n: int)
    requires
        0 <= n <= s.len(),
        forall|i: int| 0 <= i < s.len() ==> '0' <= #[trigger] s[i] && s[i] <= '9',
    ensures
        digits_value(s) >= digits_value(s.take(n)),
    decreases s.len() - n,
{
    if n < s.len() {
        lemma_digits_grow(s, n + 1);
        assert(s.take(n + 1).drop_last() =~= s.take(n));
        lemma_digits_nonnegative(s.take(n));
        assert('0' <= s[n]);
    } else {
        assert(s.take(n) =~= s);
    }
}

/// The number that the digits from a position on stand for, up to a limit.
pub(crate) fn digits_from(chars: &Vec<char>, start: usize, limit: u64) -> (r: Option<u64>)
    requires
        start <= chars.len(),
    ensures
        match r {
            Some(n) => all_digits(chars@.skip(start as int)) && n == digits_value(
                chars@.skip(start as int),
            ) && n <= limit,
            None => !(all_digits(chars@.skip(start as int)) && digits_value(
                chars@.skip(start as int),
            ) <= limit),
        },
{
    let ghost s = chars@.skip(start as int);
    if start == chars.len() {
        return None;
    }
    let mut n: u64 = 0;
    let mut i: usize = start;
    assert(s.take(0) =~= Seq::empty());
    while i < chars.len()
        invariant
            start <= i <= chars.len(),
            start < chars.len(),
            s == chars@.skip(start as int),
            n <= limit,
            n == digits_value(s.take(i - start)),
            forall|k: int| 0 <= k < i - start ==> '0' <= #[trigger] s[k] && s[k] <= '9',
        decreases chars.len() - i,
    {
        let c = chars[i];
        assert(s[i - start] == c);
        if c < '0' || c > '9' {
            return None;
        }
        let d: u64 = (c as u32 - '0' as u32) as u64;
        assert(s.take(i + 1 - start).drop_last() =~= s.take(i - start));
        if n > limit / 10 || (n == limit / 10 && d > limit % 10) {
            proof {
                if all_digits(s) {
                    lemma_digits_grow(s, i + 1 - start);
                }
            }
            return None;
        }
        n = n * 10 + d;
        i = i + 1;
    }
    assert(s.take(i - start) =~= s);
    Some(n)
}

/// The characters of a text, in order.
pub fn chars_of(s: &str) -> (r: Vec<char>)
    ensures
        r@ == s@,
{
    let mut r: Vec<char> = Vec::new();
    for c in it: s.chars()
        invariant
            it.seq() == s@,
            r@ == s@.take(it.index() as int),
    {
        r.push(c);
        assert(r@ =~= s@.take(it.index() as int + 1));
    }
    assert(r@ =~= s@);
    r
}

/// One text comes before another when, at the first character in which they differ, it has the
/// smaller code point, or when it is a proper prefix of the other.
pub open spec fn text_lt(a: Seq<char>, b: Seq<char>) -> bool
    decreases a.len(),
{
    if b.len() == 0 {
        false
    } else if a.len() == 0 {
        true
    } else if a[0] != b[0] {
        (a[0] as u32) < (b[0] as u32)
    } else {
        text_lt(a.drop_first(), b.drop_first())
    }
}

/// Different characters have different codes.
proof fn lemma_char_code(c: char, d: char)
    ensures
        c as u32 == d as u32 ==> c == d,
{
    assert(c as u32 as int == c as int);
    assert(d as u32 as int == d as int);
}

/// Texts are ordered: of two different ones exactly one comes before the other, and a text that
/// comes before another comes before all that the other comes before.
pub proof fn law_text_order(a: Seq<char>, b: Seq<char>, c: Seq<char>)
    ensures
        !text_lt(a, a),
        text_lt(a, b) ==> !text_lt(b, a),
        a == b || text_lt(a, b) || text_lt(b, a),
        text_lt(a, b) && text_lt(b, c) ==> text_lt(a, c),
    decreases a.len() + b.len() + c.len(),
{
    if a.len() == 0 && b.len() == 0 {
        assert(a =~= b);
    }
    if a.len() > 0 {
        if b.len() > 0 && c.len() > 0 {
            law_text_order(a.drop_first(), b.drop_first(), c.drop_first());
        } else if b.len() > 0 {
            law_text_order(a.drop_first(), b.drop_first(), c);
        } else {
            law_text_order(a.drop_first(), b, c);
        }
        if b.len() > 0 && a[0] != b[0] {
            lemma_char_code(a[0], b[0]);
        }
        if b.len() > 0 && a[0] == b[0] && a.drop_first() == b.drop_first() {
            assert(a =~= seq![a[0]] + a.drop_first());
            assert(b =~= seq![b[0]] + b.drop_first());
        }
    }
}

pub fn text_before(a: &str, b: &str) -> (r: bool)
    ensures
        r == text_lt(a@, b@),
{
    let x = chars_of(a);
    let y = chars_of(b);
    let mut i: usize = 0;
    assert(x@.skip(0) =~= x@);
    assert(y@.skip(0) =~= y@);
    while i < x.len() && i < y.len()
        invariant
            i <= x.len(),
            i <= y.len(),
            x@ == a@,
            y@ == b@,
            text_lt(x@, y@) == text_lt(x@.skip(i as int), y@.skip(i as int)),
        decreases x.len() - i,
    {
        let c: char = x[i];
        let d: char = y[i];
        if c != d {
            return (c as u32) < (d as u32);
        }
        assert(x@.skip(i as int).drop_first() =~= x@.skip(i + 1));
        assert(y@.skip(i as int).drop_first() =~= y@.skip(i + 1));
        i = i + 1;
    }
    i < y.len()
}

/// The characters that Unicode counts as white space.
pub open spec fn is_space(c: char) -> bool {
    let n = c as u32;
    ||| 0x9 <= n <= 0xd
    ||| n == 0x20
    ||| n == 0x85
    ||| n == 0xa0
    ||| n == 0x1680
    ||| 0x2000 <= n <= 0x200a
    ||| n == 0x2028
    ||| n == 0x2029
    ||| n == 0x202f
    ||| n == 0x205f
    ||| n == 0x3000
}

fn space(c: char) -> (r: bool)
    ensures
        r == is_space(c),
{
    let n: u32 = c as u32;
    (0x9 <= n && n <= 0xd) || n == 0x20 || n == 0x85 || n == 0xa0 || n == 0x1680 || (0x2000 <= n
        && n <= 0x200a) || n == 0x2028 || n == 0x2029 || n == 0x202f || n == 0x205f || n == 0x3000
}

/// Without white space at the start.
pub open spec fn trim_start(s: Seq<char>) -> Seq<char>
    decreases s.len(),
{
    if s.len() > 0 && is_space(s[0]) {
        trim_start(s.drop_first())
    } else {
        s
    }
}

/// Without white space at the end.
pub open spec fn trim_end(s: Seq<char>) -> Seq<char>
    decreases s.len(),
{
    if s.len() > 0 && is_space(s.last()) {
        trim_end(s.drop_last())
    } else {
        s
    }
}

/// Without white space at either end.
pub open spec fn trim(s: Seq<char>) -> Seq<char> {
    trim_end(trim_start(s))
}

/// Nothing but white space.
pub open spec fn blank(s: Seq<char>) -> bool {
    trim(s).len() == 0
}

/// A text is blank exactly when each of its characters is white space.
pub proof fn lemma_blank(s: Seq<char>)
    ensures
        blank(s) <==> forall|i: int| 0 <= i < s.len() ==> is_space(#[trigger] s[i]),
{
    lemma_trim_start(s);
    lemma_trim_end(trim_start(s));
    let t = trim_start(s);
    if blank(s) {
        if t.len() > 0 {
            assert(is_space(t[0]));
        }
        assert forall|i: int| 0 <= i < s.len() implies is_space(#[trigger] s[i]) by {}
    } else {
        let k = s.len() - t.len();
        assert(!is_space(s[k]));
    }
}

proof fn lemma_trim_start(s: Seq<char>)
    ensures
        trim_start(s).len() <= s.len(),
        trim_start(s) == s.skip(s.len() - trim_start(s).len()),
        forall|i: int| 0 <= i < s.len() - trim_start(s).len() ==> is_space(#[trigger] s[i]),
        trim_start(s).len() > 0 ==> !is_space(trim_start(s)[0]),
    decreases s.len(),
{
    if s.len() > 0 && is_space(s[0]) {
        let rest = s.drop_first();
        lemma_trim_start(rest);
        let k = rest.len() - trim_start(rest).len();
        assert(rest.skip(k) =~= s.skip(k + 1));
        assert forall|i: int| 0 <= i < k + 1 implies is_space(#[trigger] s[i]) by {
            if i > 0 {
                assert(is_space(rest[i - 1]));
            }
        }
    } else {
        assert(s.skip(0) =~= s);
    }
}

proof fn lemma_trim_end(s: Seq<char>)
    ensures
        trim_end(s).len() <= s.len(),
        trim_end(s) == s.take(trim_end(s).len() as int),
        forall|i: int| trim_end(s).len() <= i < s.len() ==> is_space(#[trigger] s[i]),
        trim_end(s).len() > 0 ==> !is_space(trim_end(s).last()),
    decreases s.len(),
{
    if s.len() > 0 && is_space(s.last()) {
        let rest = s.drop_last();
        lemma_trim_end(rest);
        assert(rest.take(trim_end(rest).len() as int) =~= s.take(trim_end(rest).len() as int));
        assert forall|i: int| trim_end(s).len() <= i < s.len() implies is_space(
            #[trigger] s[i],
        ) by {
            if i < rest.len() {
                assert(is_space(rest[i]));
            }
        }
    } else {
        assert(s.take(s.len() as int) =~= s);
    }
}

pub fn is_blank(s: &str) -> (r: bool)
    ensures
        r == blank(s@),
{
    proof {
        lemma_blank(s@);
    }
    let chars = chars_of(s);
    let mut i: usize = 0;
    while i < chars.len()
        invariant
            i <= chars.len(),
            chars@ == s@,
            forall|j: int| 0 <= j < i ==> is_space(#[trigger] s@[j]),
            blank(s@) <==> forall|j: int| 0 <= j < s@.len() ==> is_space(#[trigger] s@[j]),
        decreases chars.len() - i,
    {
        if !space(chars[i]) {
            assert(!is_space(s@[i as int]));
            return false;
        }
        i = i + 1;
    }
    true
}

pub fn trimmed(s: &str) -> (r: String)
    ensures
        r@ == trim(s@),
{
    let chars = chars_of(s);
    let mut start: usize = 0;
    assert(s@.skip(0) =~= s@);
    while start < chars.len() && space(chars[start])
        invariant
            start <= chars.len(),
            chars@ == s@,
            trim_start(s@) == trim_start(s@.skip(start as int)),
        decreases chars.len() - start,
    {
        assert(s@.skip(start as int).drop_first() =~= s@.skip(start + 1));
        start = start + 1;
    }
    let ghost rest = s@.skip(start as int);
    assert(trim_start(s@) == rest);
    let mut end: usize = chars.len();
    assert(rest.take(end - start) =~= rest);
    while end > start && space(chars[end - 1])
        invariant
            start <= end <= chars.len(),
            chars@ == s@,
            rest == s@.skip(start as int),
            trim_end(rest) == trim_end(rest.take(end - start)),
        decreases end,
    {
        let ghost part = rest.take(end - start);
        assert(part.last() == s@[end - 1]);
        assert(part.drop_last() =~= rest.take(end - 1 - start));
        end = end - 1;
    }
    proof {
        let part = rest.take(end - start);
        if part.len() > 0 {
            assert(part.last() == s@[end - 1]);
        }
        assert(trim_end(rest) == part);
        assert(part =~= s@.subrange(start as int, end as int));
    }
    let mut r = String::new();
    let mut i: usize = start;
    while i < end
        invariant
            start <= i <= end <= chars.len(),
            chars@ == s@,
            r@ == s@.subrange(start as int, i as int),
        decreases end - i,
    {
        r.push(chars[i]);
        assert(r@ =~= s@.subrange(start as int, i + 1));
        i = i + 1;
    }
    r
}

/// A path below another one: an absolute path stands for itself, and a separator is added where
/// the first path does not end in one.
pub open spec fn path_join(base: Seq<char>, part: Seq<char>) -> Seq<char> {
    if part.len() > 0 && part[0] == '/' {
        part
    } else if base.len() > 0 && base.last() != '/' {
        base.push('/') + part
    } else {
        base + part
    }
}

pub fn join_path(base: &str, part: &str) -> (r: String)
    ensures
        r@ == path_join(base@, part@),
{
    if !part.is_empty() && part.get_char(0) == '/' {
        return part.to_owned();
    }
    let mut r = base.to_owned();
    if !base.is_empty() && base.get_char(base.unicode_len() - 1) != '/' {
        r.push('/');
    }
    r.append(part);
    r
}

/// Whether a text begins with another one.
pub open spec fn begins_with(s: Seq<char>, prefix: Seq<char>) -> bool {
    prefix.len() <= s.len() && s.take(prefix.len() as int) == prefix
}

/// What follows a prefix, where the text begins with it.
pub open spec fn after_prefix(s: Seq<char>, prefix: Seq<char>) -> Option<Seq<char>> {
    if begins_with(s, prefix) {
        Some(s.skip(prefix.len() as int))
    } else {
        None
    }
}

/// The characters from one position up to another.
pub(crate) fn text_between(chars: &Vec<char>, start: usize, end: usize) -> (r: String)
    requires
        start <= end <= chars.len(),
    ensures
        r@ == chars@.subrange(start as int, end as int),
{
    let mut r = String::new();
    let mut i: usize = start;
    while i < end
        invariant
            start <= i <= end <= chars.len(),
            r@ == chars@.subrange(start as int, i as int),
        decreases end - i,
    {
        r.push(chars[i]);
        assert(chars@.subrange(start as int, i + 1) =~= chars@.subrange(start as int, i as int).push(
            chars@[i as int],
        ));
        i = i + 1;
    }
    r
}

pub fn strip_prefix(s: &str, prefix: &str) -> (r: Option<String>)
    ensures
        r.deep_view() == after_prefix(s@, prefix@),
{
    let chars = chars_of(s);
    let n: usize = prefix.unicode_len();
    if chars.len() < n {
        return None;
    }
    let front = text_between(&chars, 0, n);
    assert(front@ =~= s@.take(n as int));
    if !same_text(front.as_str(), prefix) {
        return None;
    }
    let rest = text_between(&chars, n, chars.len());
    assert(rest@ =~= s@.skip(n as int));
    Some(rest)
}

/// Whether a text stands somewhere in another one.
pub open spec fn contains_text(s: Seq<char>, part: Seq<char>) -> bool {
    exists|i: int| 0 <= i <= s.len() && begins_with(#[trigger] s.skip(i), part)
}

pub fn has_text(s: &str, part: &str) -> (r: bool)
    ensures
        r == contains_text(s@, part@),
{
    let chars = chars_of(s);
    let n: usize = part.unicode_len();
    let mut i: usize = 0;
    while i < chars.len() && n <= chars.len() - i
        invariant
            i <= chars.len(),
            chars@ == s@,
            n == part@.len(),
            forall|k: int| 0 <= k < i ==> !begins_with(#[trigger] s@.skip(k), part@),
        decreases chars.len() - i,
    {
        let here = text_between(&chars, i, i + n);
        assert(here@ =~= s@.skip(i as int).take(n as int));
        if same_text(here.as_str(), part) {
            assert(begins_with(s@.skip(i as int), part@));
            return true;
        }
        i = i + 1;
    }
    if i == chars.len() && n == 0 {
        assert(s@.skip(i as int).take(0) =~= part@);
        assert(begins_with(s@.skip(i as int), part@));
        return true;
    }
    proof {
        assert forall|k: int| 0 <= k <= s@.len() implies !begins_with(
            #[trigger] s@.skip(k),
            part@,
        ) by {
            if k >= i {
                assert(s@.skip(k).len() == s@.len() - k);
            }
        }
    }
    false
}

/// A number is written by its digits and stands for itself: it is read back from what is written, has no
/// zero before it unless it is zero, and is filled up to three digits where that is asked for.
pub proof fn law_number_is_read_back(n: nat)
    ensures
        all_digits(decimal(n)),
        digits_value(decimal(n)) == n,
        n > 0 ==> decimal(n)[0] != '0',
        decimal_int(n as int) == decimal(n),
        n > 0 ==> decimal_int(-(n as int)) == seq!['-'] + decimal(n),
        digits_value(padded(n)) == n,
        padded(n).len() >= 3,
        decimal(n).len() >= 3 ==> padded(n) == decimal(n),
    decreases n,
{
    lemma_decimal_digits(n);
    lemma_decimal_value(0, n);
    assert(zeros(0) + decimal(n) =~= decimal(n));
    lemma_decimal_value(
        if decimal(n).len() < 3 {
            (3 - decimal(n).len()) as nat
        } else {
            0
        },
        n,
    );
    if n >= 10 {
        law_number_is_read_back(n / 10);
        assert(decimal(n)[0] == decimal(n / 10)[0]);
    }
}

/// The order of texts is that of their first different characters, by their codes; a text comes before
/// any that it begins.
pub proof fn law_text_order_goes_by_characters(a: Seq<char>, b: Seq<char>, i: int)
    requires
        0 <= i <= a.len(),
        i < b.len(),
        forall|j: int| 0 <= j < i ==> #[trigger] a[j] == b[j],
    ensures
        i == a.len() ==> text_lt(a, b),
        i < a.len() && (a[i] as u32) < (b[i] as u32) ==> text_lt(a, b),
        i < a.len() && (b[i] as u32) < (a[i] as u32) ==> !text_lt(a, b),
    decreases i,
{
    if i > 0 {
        let c = a.drop_first();
        let d = b.drop_first();
        assert(a[0] == b[0]);
        assert forall|j: int| 0 <= j < i - 1 implies #[trigger] c[j] == d[j] by {
            assert(c[j] == a[j + 1] && d[j] == b[j + 1]);
        }
        law_text_order_goes_by_characters(c, d, i - 1);
        if i < a.len() {
            assert(c[i - 1] == a[i]);
        }
        assert(d[i - 1] == b[i]);
    }
}

/// A trimmed text is the text without the white space round it: a part of it that neither begins nor
/// ends with white space, and nothing but white space is left out. Spaces, tabs and line ends are white
/// space; letters, digits and marks are not.
pub proof fn law_trimmed_text(s: Seq<char>)
    ensures
        exists|i: int, j: int|
            0 <= i <= j <= s.len() && #[trigger] s.subrange(i, j) == trim(s) && (forall|k: int|
                0 <= k < i || j <= k < s.len() ==> is_space(#[trigger] s[k])),
        trim(s).len() > 0 ==> !is_space(trim(s)[0]) && !is_space(trim(s).last()),
        blank(s) <==> forall|i: int| 0 <= i < s.len() ==> is_space(#[trigger] s[i]),
        is_space(' ') && is_space('\t') && is_space('\n') && is_space('\r'),
        forall|c: char| #![trigger is_space(c)] '!' <= c && c <= '~' ==> !is_space(c),
{
    lemma_blank(s);
    lemma_trim_start(s);
    let t = trim_start(s);
    lemma_trim_end(t);
    let i = s.len() - t.len();
    let j = i + trim(s).len();
    assert(s.subrange(i as int, j as int) =~= trim(s));
    assert forall|k: int| 0 <= k < i || j <= k < s.len() implies is_space(#[trigger] s[k]) by {
        if j <= k {
            assert(s[k] == t[k - i]);
        }
    }
    if trim(s).len() > 0 {
        assert(trim(s)[0] == t[0]);
    }
}

/// A path below another one stands behind it and one separator; an absolute one stands for itself.
pub proof fn law_joined_path(base: Seq<char>, part: Seq<char>)
    ensures
        part.len() > 0 && part[0] == '/' ==> path_join(base, part) == part,
        !(part.len() > 0 && part[0] == '/') && base.len() > 0 && base.last() != '/' ==> path_join(
            base,
            part,
        ) == base + seq!['/'] + part,
        !(part.len() > 0 && part[0] == '/') && (base.len() == 0 || base.last() == '/')
            ==> path_join(base, part) == base + part,
{
    assert(base.push('/') + part =~= base + seq!['/'] + part);
}

} // verus!
