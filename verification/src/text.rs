//! Text helpers with their meaning stated: decimal numerals and splitting a
//! text at a separator character.

use vstd::prelude::*;

verus! {

/// The decimal digit character for `d < 10`.
pub open spec fn digit_char(d: nat) -> char {
    (('0' as int) + d) as char
}

/// The decimal numeral of `n`, most significant digit first, without
/// leading zeros (`0` is written `"0"`).
pub open spec fn decimal(n: nat) -> Seq<char>
    decreases n,
{
    if n < 10 {
        seq![digit_char(n)]
    } else {
        decimal(n / 10).push(digit_char(n % 10))
    }
}

/// The decimal numeral of a signed number: a leading `-` for negative ones.
pub open spec fn signed_decimal(n: int) -> Seq<char> {
    if n < 0 {
        seq!['-'] + decimal((-n) as nat)
    } else {
        decimal(n as nat)
    }
}

/// The index of the first `c` in `s`, or `s.len()` where `c` does not occur.
pub open spec fn first_index(s: Seq<char>, c: char) -> nat
    decreases s.len(),
{
    if s.len() == 0 {
        0
    } else if s[0] == c {
        0
    } else {
        1 + first_index(s.drop_first(), c)
    }
}

/// The pieces of `s` between occurrences of `sep`, as `str::split` yields
/// them: there is always at least one piece, possibly empty.
pub open spec fn split(s: Seq<char>, sep: char) -> Seq<Seq<char>>
    decreases s.len(),
{
    let k = first_index(s, sep);
    if k >= s.len() {
        seq![s]
    } else {
        seq![s.take(k as int)] + split(s.skip(k + 1int), sep)
    }
}

proof fn lemma_first_index_unique(s: Seq<char>, c: char, k: int)
    requires
        0 <= k <= s.len(),
        k < s.len() ==> s[k] == c,
        forall|i: int| 0 <= i < k ==> s[i] != c,
    ensures
        first_index(s, c) == k,
    decreases s.len(),
{
    if s.len() > 0 && k > 0 {
        assert(s[0] != c);
        let t = s.drop_first();
        assert forall|i: int| 0 <= i < k - 1 implies t[i] != c by {
            assert(t[i] == s[i + 1]);
        }
        if k - 1 < t.len() {
            assert(t[k - 1] == s[k]);
        }
        lemma_first_index_unique(t, c, k - 1);
    }
}

/// The single-character text of a decimal digit.
fn digit_text(d: u64) -> (s: &'static str)
    requires
        d < 10,
    ensures
        s@ == seq![digit_char(d as nat)],
{
    proof {
        reveal_strlit("0");
        reveal_strlit("1");
        reveal_strlit("2");
        reveal_strlit("3");
        reveal_strlit("4");
        reveal_strlit("5");
        reveal_strlit("6");
        reveal_strlit("7");
        reveal_strlit("8");
        reveal_strlit("9");
    }
    if d == 0 {
        "0"
    } else if d == 1 {
        "1"
    } else if d == 2 {
        "2"
    } else if d == 3 {
        "3"
    } else if d == 4 {
        "4"
    } else if d == 5 {
        "5"
    } else if d == 6 {
        "6"
    } else if d == 7 {
        "7"
    } else if d == 8 {
        "8"
    } else {
        "9"
    }
}

/// The decimal numeral of `n`, as `n.to_string()` writes it.
pub fn decimal_text(n: u64) -> (s: String)
    ensures
        s@ == decimal(n as nat),
    decreases n,
{
    if n < 10 {
        String::from_str(digit_text(n))
    } else {
        let mut s = decimal_text(n / 10);
        s.append(digit_text(n % 10));
        s
    }
}

/// The decimal numeral of a signed `n`, as `n.to_string()` writes it.
pub fn signed_decimal_text(n: i64) -> (s: String)
    ensures
        s@ == signed_decimal(n as int),
{
    if n < 0 {
        let magnitude: u64 = (0i128 - (n as i128)) as u64;
        let digits = decimal_text(magnitude);
        let mut s = String::from_str("-");
        proof {
            reveal_strlit("-");
        }
        s.append(digits.as_str());
        s
    } else {
        decimal_text(n as u64)
    }
}

/// The index of the first `c` in `s` at or after `from`, or `s`'s length.
fn find_from(s: &str, c: char, from: usize) -> (k: usize)
    requires
        from <= s@.len(),
    ensures
        from <= k <= s@.len(),
        k == from + first_index(s@.skip(from as int), c),
{
    let n = s.unicode_len();
    let mut k = from;
    while k < n && s.get_char(k) != c
        invariant
            n == s@.len(),
            from <= k <= n,
            forall|i: int| from <= i < k ==> s@[i] != c,
        decreases n - k,
    {
        k = k + 1;
    }
    proof {
        let t = s@.skip(from as int);
        assert forall|i: int| 0 <= i < k - from implies t[i] != c by {
            assert(t[i] == s@[from + i]);
        }
        if k < n {
            assert(t[k - from] == s@[k as int]);
        }
        lemma_first_index_unique(t, c, k - from);
    }
    k
}

proof fn lemma_split_unfold(s: Seq<char>, sep: char, from: int, k: int)
    requires
        0 <= from <= k < s.len(),
        k == from + first_index(s.skip(from), sep),
    ensures
        split(s.skip(from), sep) == seq![s.subrange(from, k)] + split(s.skip(k + 1), sep),
{
    let t = s.skip(from);
    let j = first_index(t, sep);
    assert(t.take(j as int) =~= s.subrange(from, k));
    assert(t.skip(j + 1int) =~= s.skip(k + 1));
}

/// The pieces of `s` from position `from` on, split at `sep`.
pub(crate) fn split_from(s: &str, sep: char, from: usize) -> (parts: Vec<String>)
    requires
        from <= s@.len(),
    ensures
        parts@.map_values(|p: String| p@) == split(s@.skip(from as int), sep),
    decreases s@.len() - from,
{
    let n = s.unicode_len();
    let k = find_from(s, sep, from);
    let piece = s.substring_char(from, k).to_string();
    if k >= n {
        proof {
            assert(s@.skip(from as int).take(first_index(s@.skip(from as int), sep) as int)
                =~= s@.subrange(from as int, k as int));
        }
        let mut parts: Vec<String> = Vec::new();
        parts.push(piece);
        proof {
            assert(s@.skip(from as int) =~= s@.subrange(from as int, k as int));
            assert(parts@.map_values(|p: String| p@) =~= seq![piece@]);
        }
        parts
    } else {
        let rest = split_from(s, sep, k + 1);
        let mut parts: Vec<String> = Vec::new();
        parts.push(piece);
        let mut i: usize = 0;
        while i < rest.len()
            invariant
                0 <= i <= rest@.len(),
                parts@.len() == i + 1,
                parts@[0]@ == s@.subrange(from as int, k as int),
                forall|j: int| 0 <= j < i ==> #[trigger] parts@[j + 1]@ == rest@[j]@,
            decreases rest@.len() - i,
        {
            parts.push(rest[i].clone());
            i = i + 1;
        }
        proof {
            lemma_split_unfold(s@, sep, from as int, k as int);
            let lhs = parts@.map_values(|p: String| p@);
            let rhs = seq![s@.subrange(from as int, k as int)] + rest@.map_values(|p: String| p@);
            assert forall|j: int| 0 <= j < lhs.len() implies lhs[j] == rhs[j] by {
                if j > 0 {
                    assert(parts@[(j - 1) + 1]@ == rest@[j - 1]@);
                }
            }
            assert(lhs =~= rhs);
        }
        parts
    }
}

/// Whether `c` is a decimal digit.
pub open spec fn is_digit(c: char) -> bool {
    '0' <= c && c <= '9'
}

/// The value of the decimal digit `c`.
pub open spec fn digit_value(c: char) -> nat {
    ((c as int) - ('0' as int)) as nat
}

/// The value of the decimal digits `s`, most significant first.
pub open spec fn digits_value(s: Seq<char>) -> nat
    decreases s.len(),
{
    if s.len() == 0 {
        0
    } else {
        digits_value(s.drop_last()) * 10 + digit_value(s.last())
    }
}

/// Whether every character of `s` is a decimal digit.
pub open spec fn all_digits(s: Seq<char>) -> bool {
    forall|i: int| 0 <= i < s.len() ==> is_digit(#[trigger] s[i])
}

/// The digits of an unsigned numeral: the text without its leading `+`, if
/// it has one.
pub open spec fn unsigned_digits(s: Seq<char>) -> Seq<char> {
    if s.len() > 0 && s[0] == '+' {
        s.drop_first()
    } else {
        s
    }
}

/// What `str::parse::<u64>` makes of `s`: an optional `+` and at least one
/// decimal digit, of a value that fits in 64 bits; `None` for anything else.
pub open spec fn parsed_u64(s: Seq<char>) -> Option<u64> {
    let d = unsigned_digits(s);
    if d.len() > 0 && all_digits(d) && digits_value(d) <= u64::MAX {
        Some(digits_value(d) as u64)
    } else {
        None
    }
}

proof fn lemma_digits_value_grows(s: Seq<char>, i: int)
    requires
        0 <= i <= s.len(),
    ensures
        digits_value(s.take(i)) <= digits_value(s),
    decreases s.len() - i,
{
    if i < s.len() {
        lemma_digits_value_grows(s, i + 1);
        assert(s.take(i + 1).drop_last() =~= s.take(i));
    } else {
        assert(s.take(i) =~= s);
    }
}

proof fn lemma_decimal_digits(n: nat)
    ensures
        decimal(n).len() > 0,
        all_digits(decimal(n)),
        digits_value(decimal(n)) == n,
    decreases n,
{
    if n < 10 {
        let c = digit_char(n);
        assert((c as int) == ('0' as int) + n);
        assert(decimal(n).drop_last() =~= Seq::<char>::empty());
        assert(digits_value(decimal(n)) == digits_value(decimal(n).drop_last()) * 10 + digit_value(c));
    } else {
        lemma_decimal_digits(n / 10);
        let c = digit_char(n % 10);
        assert((c as int) == ('0' as int) + n % 10);
        let d = decimal(n);
        assert(d.drop_last() =~= decimal(n / 10));
        assert(d.last() == c);
        assert(digit_value(c) == n % 10);
        assert(digits_value(d) == digits_value(d.drop_last()) * 10 + digit_value(d.last()));
        assert((n / 10) * 10 + n % 10 == n);
        assert forall|i: int| 0 <= i < d.len() implies is_digit(#[trigger] d[i]) by {
            if i < d.len() - 1 {
                assert(d[i] == decimal(n / 10)[i]);
            }
        }
    }
}

/// A decimal numeral reads back as its number: what `decimal_text` writes
/// for `n`, `parse_decimal_u64` reads as `n`.
pub proof fn decimal_reads_back(n: u64)
    ensures
        parsed_u64(decimal(n as nat)) == Some(n),
{
    lemma_decimal_digits(n as nat);
    let d = decimal(n as nat);
    assert(is_digit(d[0]));
    assert(unsigned_digits(d) == d);
}

/// Reads an unsigned decimal numeral, as `str::parse::<u64>` does.
pub fn parse_decimal_u64(s: &str) -> (r: Option<u64>)
    ensures
        r == parsed_u64(s@),
{
    let n = s.unicode_len();
    let mut start: usize = 0;
    if n > 0 && s.get_char(0) == '+' {
        start = 1;
    }
    let ghost d = unsigned_digits(s@);
    proof {
        assert(d =~= s@.skip(start as int));
    }
    if start == n {
        return None;
    }
    let mut v: u64 = 0;
    let mut i: usize = start;
    proof {
        assert(d.take(0) =~= Seq::<char>::empty());
    }
    while i < n
        invariant
            n == s@.len(),
            start < n,
            start <= i <= n,
            d == s@.skip(start as int),
            d == unsigned_digits(s@),
            all_digits(d.take(i - start)),
            v == digits_value(d.take(i - start)),
        decreases n - i,
    {
        let c = s.get_char(i);
        let k = Ghost(i - start);
        proof {
            assert(d[k@] == c);
            assert(d.take(k@ + 1).drop_last() =~= d.take(k@));
            assert(d.take(k@ + 1).last() == c);
        }
        if !('0' <= c && c <= '9') {
            proof {
                assert(!is_digit(d[k@]));
                assert(!all_digits(d));
            }
            return None;
        }
        let digit: u64 = (c as u32 - '0' as u32) as u64;
        proof {
            assert(digit == digit_value(c));
            lemma_digits_value_grows(d, k@ + 1);
            assert(digits_value(d.take(k@ + 1)) == v * 10 + digit);
        }
        match v.checked_mul(10) {
            None => {
                return None;
            },
            Some(m) => match m.checked_add(digit) {
                None => {
                    return None;
                },
                Some(x) => {
                    v = x;
                },
            },
        }
        proof {
            assert forall|j: int| 0 <= j < k@ + 1 implies is_digit(#[trigger] d.take(k@ + 1)[j]) by {
                if j < k@ {
                    assert(d.take(k@ + 1)[j] == d.take(k@)[j]);
                }
            }
        }
        i = i + 1;
    }
    proof {
        assert(d.take(n - start) =~= d);
    }
    Some(v)
}

/// The pieces of `s` between occurrences of `sep` (`str::split`).
pub fn split_text(s: &str, sep: char) -> (parts: Vec<String>)
    ensures
        parts@.map_values(|p: String| p@) == split(s@, sep),
{
    proof {
        assert(s@.skip(0) =~= s@);
    }
    split_from(s, sep, 0)
}

} // verus!
