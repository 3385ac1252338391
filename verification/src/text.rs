//! Character-level helpers: decimal numerals, whitespace trimming,
//! reading a non-negative number typed by a user, and percent-encoding
//! of spaces in a query parameter.
use vstd::prelude::*;
use vstd::string::*;

verus! {

/// The digit character for a value below ten.
pub open spec fn digit_char(d: nat) -> char {
    ((d + 48) as u32) as char
}

/// The value of a decimal digit character.
pub open spec fn digit_value(c: char) -> nat {
    ((c as u32) - 48) as nat
}

pub open spec fn is_digit(c: char) -> bool {
    '0' <= c && c <= '9'
}

/// The decimal numeral of `n`, most significant digit first, without
/// leading zeros (the numeral of zero is "0").
pub open spec fn decimal(n: nat) -> Seq<char>
    decreases n,
{
    if n < 10 {
        seq![digit_char(n)]
    } else {
        decimal(n / 10).push(digit_char(n % 10))
    }
}

/// The number that a string of digits denotes.
pub open spec fn digits_value(s: Seq<char>) -> nat
    decreases s.len(),
{
    if s.len() == 0 {
        0
    } else {
        digits_value(s.drop_last()) * 10 + digit_value(s.last())
    }
}

pub open spec fn all_digits(s: Seq<char>) -> bool {
    forall|i: int| 0 <= i < s.len() ==> is_digit(#[trigger] s[i])
}

/// What `str::parse::<usize>` gives back: an optional `+` sign followed
/// by at least one decimal digit, whose value fits in a `usize`.
pub open spec fn parse_usize(s: Seq<char>) -> Option<usize> {
    let digits = if s.len() > 0 && s[0] == '+' {
        s.drop_first()
    } else {
        s
    };
    if digits.len() > 0 && all_digits(digits) && digits_value(digits) <= usize::MAX {
        Some(digits_value(digits) as usize)
    } else {
        None
    }
}

/// The characters that Unicode calls White_Space (`char::is_whitespace`).
pub open spec fn is_whitespace(c: char) -> bool {
    ||| c == ' '
    ||| ('\t' <= c && c <= '\r')
    ||| c == '\u{85}'
    ||| c == '\u{a0}'
    ||| c == '\u{1680}'
    ||| ('\u{2000}' <= c && c <= '\u{200a}')
    ||| c == '\u{2028}'
    ||| c == '\u{2029}'
    ||| c == '\u{202f}'
    ||| c == '\u{205f}'
    ||| c == '\u{3000}'
}

/// `s` without its leading white space.
pub open spec fn trim_start(s: Seq<char>) -> Seq<char>
    decreases s.len(),
{
    if s.len() > 0 && is_whitespace(s[0]) {
        trim_start(s.drop_first())
    } else {
        s
    }
}

/// `s` without its trailing white space.
pub open spec fn trim_end(s: Seq<char>) -> Seq<char>
    decreases s.len(),
{
    if s.len() > 0 && is_whitespace(s.last()) {
        trim_end(s.drop_last())
    } else {
        s
    }
}

/// `s` without white space at either end, as `str::trim` gives it.
pub open spec fn trim(s: Seq<char>) -> Seq<char> {
    trim_end(trim_start(s))
}

/// The number that a user typed: the trimmed text read as a `usize`.
pub open spec fn typed_number(text: Seq<char>) -> Option<usize> {
    parse_usize(trim(text))
}

/// `s` with every space replaced by `%20`.
pub open spec fn encode_spaces(s: Seq<char>) -> Seq<char>
    decreases s.len(),
{
    if s.len() == 0 {
        Seq::empty()
    } else {
        encode_spaces(s.drop_last()) + (if s.last() == ' ' {
            seq!['%', '2', '0']
        } else {
            seq![s.last()]
        })
    }
}

/// The one-character string of a digit.
fn digit_str(d: usize) -> (s: &'static str)
    requires
        d < 10,
    ensures
        s@ == seq![digit_char(d as nat)],
{
    proof {
        reveal_strlit("0");
        reveal_strlit("1");
        reveal_strlit("2");
        reveal_strlit("3");
        reveal_strlit("4");
        reveal_strlit("5");
        reveal_strlit("6");
        reveal_strlit("7");
        reveal_strlit("8");
        reveal_strlit("9");
    }
    match d {
        0 => "0",
        1 => "1",
        2 => "2",
        3 => "3",
        4 => "4",
        5 => "5",
        6 => "6",
        7 => "7",
        8 => "8",
        _ => "9",
    }
}

/// Appends the decimal numeral of `n` to `s`.
pub fn append_decimal(s: &mut String, n: usize)
    ensures
        final(s)@ == old(s)@ + decimal(n as nat),
    decreases n,
{
    if n >= 10 {
        append_decimal(s, n / 10);
    }
    s.append(digit_str(n % 10));
    proof {
        assert(old(s)@ + decimal(n as nat) =~= s@);
    }
}


/// Whether `c` is white space, as `char::is_whitespace` says.
pub fn is_whitespace_char(c: char) -> (r: bool)
    ensures
        r == is_whitespace(c),
{
    c == ' ' || ('\t' <= c && c <= '\r') || c == '\u{85}' || c == '\u{a0}' || c == '\u{1680}'
        || ('\u{2000}' <= c && c <= '\u{200a}') || c == '\u{2028}' || c == '\u{2029}'
        || c == '\u{202f}' || c == '\u{205f}' || c == '\u{3000}'
}

/// A prefix of a string of digits denotes at most what the whole string does.
proof fn lemma_digits_value_prefix(s: Seq<char>, k: int)
    requires
        0 <= k <= s.len(),
    ensures
        digits_value(s.take(k)) <= digits_value(s),
    decreases s.len(),
{
    if k < s.len() {
        lemma_digits_value_prefix(s.drop_last(), k);
        assert(s.drop_last().take(k) =~= s.take(k));
    } else {
        assert(s.take(k) =~= s);
    }
}

/// Reading one more digit multiplies by ten and adds the digit.
proof fn lemma_digits_value_step(s: Seq<char>, i: int)
    requires
        0 <= i < s.len(),
    ensures
        digits_value(s.take(i + 1)) == digits_value(s.take(i)) * 10 + digit_value(s[i]),
{
    assert(s.take(i + 1).drop_last() =~= s.take(i));
}

/// Reads the number that a user typed: white space at either end is
/// ignored, then an optional `+` and decimal digits whose value fits in a
/// `usize` (as `text.trim().parse::<usize>()` does).
pub fn typed_index(text: &str) -> (r: Option<usize>)
    ensures
        r == typed_number(text@),
{
    let n = text.unicode_len();
    let ghost s = text@;
    let mut lo: usize = 0;
    assert(s.subrange(0, n as int) =~= s);
    while lo < n && is_whitespace_char(text.get_char(lo))
        invariant
            lo <= n,
            n == s.len(),
            s == text@,
            trim_start(s) == trim_start(s.subrange(lo as int, n as int)),
        decreases n - lo,
    {
        assert(s.subrange(lo as int, n as int).drop_first() =~= s.subrange(lo + 1, n as int));
        lo = lo + 1;
    }
    proof {
        if lo < n {
            assert(!is_whitespace(s.subrange(lo as int, n as int)[0]));
        }
    }
    assert(trim_start(s) == s.subrange(lo as int, n as int));
    let mut hi: usize = n;
    while hi > lo && is_whitespace_char(text.get_char(hi - 1))
        invariant
            lo <= hi <= n,
            n == s.len(),
            s == text@,
            trim(s) == trim_end(s.subrange(lo as int, hi as int)),
        decreases hi,
    {
        assert(s.subrange(lo as int, hi as int).drop_last() =~= s.subrange(lo as int, hi - 1));
        hi = hi - 1;
    }
    proof {
        if hi > lo {
            assert(!is_whitespace(s.subrange(lo as int, hi as int).last()));
        }
    }
    let ghost t = s.subrange(lo as int, hi as int);
    assert(trim(s) == t);
    let mut i: usize = lo;
    if i < hi && text.get_char(i) == '+' {
        i = i + 1;
    }
    let start = i;
    let ghost digits = s.subrange(start as int, hi as int);
    assert(digits == (if t.len() > 0 && t[0] == '+' { t.drop_first() } else { t }));
    if i == hi {
        return None;
    }
    let mut value: usize = 0;
    assert(digits.take(0) =~= Seq::<char>::empty());
    while i < hi
        invariant
            start <= i <= hi <= n,
            n == s.len(),
            s == text@,
            digits == s.subrange(start as int, hi as int),
            all_digits(digits.take(i - start)),
            value == digits_value(digits.take(i - start)),
            trim(s) == t,
            digits == (if t.len() > 0 && t[0] == '+' { t.drop_first() } else { t }),
            digits.len() > 0,
        decreases hi - i,
    {
        let c = text.get_char(i);
        assert(c == digits[i - start]);
        if !('0' <= c && c <= '9') {
            assert(!all_digits(digits));
            return None;
        }
        let d = (c as u32 - 48) as usize;
        proof {
            lemma_digits_value_step(digits, i - start);
            lemma_digits_value_prefix(digits, i - start + 1);
        }
        match value.checked_mul(10) {
            None => {
                assert(digits_value(digits) > usize::MAX);
                return None;
            },
            Some(v) => match v.checked_add(d) {
                None => {
                    assert(digits_value(digits) > usize::MAX);
                    return None;
                },
                Some(w) => {
                    value = w;
                },
            },
        }
        assert(all_digits(digits.take(i - start + 1))) by {
            assert forall|j: int| 0 <= j < digits.take(i - start + 1).len() implies is_digit(
                #[trigger] digits.take(i - start + 1)[j],
            ) by {
                if j < i - start {
                    assert(digits.take(i - start + 1)[j] == digits.take(i - start)[j]);
                }
            }
        }
        i = i + 1;
    }
    assert(digits.take(i - start) =~= digits);
    Some(value)
}


/// Replaces every space of a query parameter by `%20`.
pub fn encode_spaces_in(s: &str) -> (r: String)
    ensures
        r@ == encode_spaces(s@),
{
    let n = s.unicode_len();
    let mut r = String::new();
    assert(s@.take(0) =~= Seq::<char>::empty());
    for i in 0..n
        invariant
            n == s@.len(),
            r@ == encode_spaces(s@.take(i as int)),
    {
        let c = s.get_char(i);
        if c == ' ' {
            proof {
                reveal_strlit("%20");
            }
            r.append("%20");
        } else {
            r.append(s.substring_char(i, i + 1));
            assert(s@.subrange(i as int, i + 1) =~= seq![c]);
        }
        assert(s@.take(i + 1).drop_last() =~= s@.take(i as int));
        assert(s@.take(i + 1).last() == c);
        assert(encode_spaces(s@.take(i + 1)) == encode_spaces(s@.take(i as int)) + (if c == ' ' {
            seq!['%', '2', '0']
        } else {
            seq![c]
        }));
    }
    assert(s@.take(n as int) =~= s@);
    r
}

/// The digit character of a value below ten denotes that value.
proof fn lemma_digit_roundtrip(d: nat)
    requires
        d < 10,
    ensures
        is_digit(digit_char(d)),
        digit_value(digit_char(d)) == d,
{
    assert(((d + 48) as u32) as char as u32 == d + 48);
}

/// A numeral is made of digits, is never empty, and denotes its number.
pub proof fn lemma_decimal_digits(n: nat)
    ensures
        decimal(n).len() > 0,
        all_digits(decimal(n)),
        digits_value(decimal(n)) == n,
    decreases n,
{
    lemma_digit_roundtrip(n % 10);
    let s = decimal(n);
    if n < 10 {
        assert(s.drop_last() =~= Seq::<char>::empty());
        assert(digits_value(s) == digits_value(s.drop_last()) * 10 + digit_value(s.last()));
    } else {
        lemma_decimal_digits(n / 10);
        assert(s.drop_last() =~= decimal(n / 10));
        assert(s.last() == digit_char(n % 10));
        assert(digits_value(s) == digits_value(s.drop_last()) * 10 + digit_value(s.last()));
        assert((n / 10) * 10 + n % 10 == n);
        assert forall|i: int| 0 <= i < s.len() implies is_digit(#[trigger] s[i]) by {
            if i < s.len() - 1 {
                assert(s[i] == decimal(n / 10)[i]);
            }
        }
    }
}

/// Reading back the numeral of a number gives that number: the number
/// that the bot prints before an entry is the number that selects it.
pub proof fn lemma_typed_number_of_decimal(k: usize)
    ensures
        typed_number(decimal(k as nat)) == Some(k),
{
    let s = decimal(k as nat);
    lemma_decimal_digits(k as nat);
    assert(is_digit(s[0]));
    assert(is_digit(s.last()));
    assert(trim_start(s) == s);
    assert(trim_end(s) == s);
}


/// No space is left in an encoded query parameter.
pub proof fn lemma_encoded_has_no_space(s: Seq<char>)
    ensures
        !encode_spaces(s).contains(' '),
    decreases s.len(),
{
    if s.len() > 0 {
        lemma_encoded_has_no_space(s.drop_last());
        let head = encode_spaces(s.drop_last());
        let tail = if s.last() == ' ' {
            seq!['%', '2', '0']
        } else {
            seq![s.last()]
        };
        assert forall|i: int| 0 <= i < encode_spaces(s).len() implies encode_spaces(s)[i] != ' ' by {
            if i < head.len() {
                assert(encode_spaces(s)[i] == head[i]);
            } else {
                assert(encode_spaces(s)[i] == tail[i - head.len()]);
            }
        }
    }
}


/// A text without spaces is left as it is; each space becomes three
/// characters and every other character one.
pub proof fn lemma_encode_without_spaces(s: Seq<char>)
    requires
        !s.contains(' '),
    ensures
        encode_spaces(s) == s,
    decreases s.len(),
{
    if s.len() > 0 {
        assert(!s.drop_last().contains(' ')) by {
            if s.drop_last().contains(' ') {
                let i = choose|i: int| 0 <= i < s.drop_last().len() && s.drop_last()[i] == ' ';
                assert(s[i] == ' ');
            }
        }
        lemma_encode_without_spaces(s.drop_last());
        assert(s.last() != ' ') by {
            if s.last() == ' ' {
                assert(s[s.len() - 1] == ' ');
            }
        }
        assert(s.drop_last().push(s.last()) =~= s);
    }
}


proof fn lemma_trim_start_push_whitespace(t: Seq<char>, c: char)
    requires
        is_whitespace(c),
    ensures
        trim_start(t.push(c)) == (if trim_start(t).len() == 0 {
            Seq::<char>::empty()
        } else {
            trim_start(t).push(c)
        }),
    decreases t.len(),
{
    if t.len() == 0 {
        assert(t.push(c).drop_first() =~= Seq::<char>::empty());
        assert(trim_start(t.push(c)) == trim_start(t.push(c).drop_first()));
    } else if is_whitespace(t[0]) {
        assert(t.push(c).drop_first() =~= t.drop_first().push(c));
        lemma_trim_start_push_whitespace(t.drop_first(), c);
    } else {
        assert(t.push(c)[0] == t[0]);
    }
}

/// White space typed before or after a number does not change the number
/// read, nor whether one is read at all.
pub proof fn lemma_typed_number_ignores_surrounding_space(t: Seq<char>, c: char)
    requires
        is_whitespace(c),
    ensures
        typed_number(seq![c] + t) == typed_number(t),
        typed_number(t.push(c)) == typed_number(t),
{
    let front = seq![c] + t;
    assert(front[0] == c);
    assert(front.drop_first() =~= t);
    assert(trim_start(front) == trim_start(t));
    lemma_trim_start_push_whitespace(t, c);
    let ts = trim_start(t);
    if ts.len() > 0 {
        assert(ts.push(c).drop_last() =~= ts);
        assert(trim_end(ts.push(c)) == trim_end(ts));
    }
}

/// A number typed with a `+` sign reads as the number; one typed with a `-`
/// sign is no number at all.
pub proof fn lemma_typed_number_signs(k: usize)
    ensures
        typed_number(seq!['+'] + decimal(k as nat)) == Some(k),
        typed_number(seq!['-'] + decimal(k as nat)) == None::<usize>,
{
    lemma_decimal_digits(k as nat);
    let d = decimal(k as nat);
    assert(is_digit(d[0]));
    assert(is_digit(d.last()));
    let plus = seq!['+'] + d;
    let minus = seq!['-'] + d;
    assert(plus[0] == '+');
    assert(minus[0] == '-');
    assert(trim_start(plus) == plus);
    assert(plus.last() == d.last());
    assert(trim_end(plus) == plus);
    assert(plus.drop_first() =~= d);
    assert(trim_start(minus) == minus);
    assert(minus.last() == d.last());
    assert(trim_end(minus) == minus);
    assert(!is_digit(minus[0]));
}

/// Encoding a text encodes each of its parts: a space becomes `%20` and any
/// other character stays as it is.
pub proof fn lemma_encode_spaces_parts(a: Seq<char>, b: Seq<char>)
    ensures
        encode_spaces(a + b) == encode_spaces(a) + encode_spaces(b),
        encode_spaces(seq![' ']) == seq!['%', '2', '0'],
    decreases b.len(),
{
    assert(seq![' '].drop_last() =~= Seq::<char>::empty());
    assert(encode_spaces(Seq::<char>::empty()) =~= Seq::<char>::empty());
    assert(seq![' '].last() == ' ');
    assert(encode_spaces(seq![' ']) =~= Seq::<char>::empty() + seq!['%', '2', '0']);
    if b.len() == 0 {
        assert(a + b =~= a);
        assert(encode_spaces(b) =~= Seq::<char>::empty());
        assert(encode_spaces(a) + encode_spaces(b) =~= encode_spaces(a));
    } else {
        lemma_encode_spaces_parts(a, b.drop_last());
        assert((a + b).drop_last() =~= a + b.drop_last());
        assert((a + b).last() == b.last());
        let tail = if b.last() == ' ' {
            seq!['%', '2', '0']
        } else {
            seq![b.last()]
        };
        assert(encode_spaces(a) + encode_spaces(b.drop_last()) + tail =~= encode_spaces(a) + (
        encode_spaces(b.drop_last()) + tail));
    }
}

} // verus!
