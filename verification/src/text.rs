//! Small helpers on texts: decimal numbers, and the parts of a dotted name.

use vstd::prelude::*;

verus! {

/// The views of a list of texts.
pub open spec fn texts(list: Seq<String>) -> Seq<Seq<char>> {
    Seq::new(list.len(), |i: int| list[i]@)
}

/// Whether two texts are the same.
pub fn same_text(a: &str, b: &str) -> (same: bool)
    ensures
        same == (a@ == b@),
{
    a.to_owned() == b.to_owned()
}

/// The character of one decimal digit.
pub open spec fn digit_char(d: nat) -> char {
    if d == 0 {
        '0'
    } else if d == 1 {
        '1'
    } else if d == 2 {
        '2'
    } else if d == 3 {
        '3'
    } else if d == 4 {
        '4'
    } else if d == 5 {
        '5'
    } else if d == 6 {
        '6'
    } else if d == 7 {
        '7'
    } else if d == 8 {
        '8'
    } else {
        '9'
    }
}

/// The decimal numeral of `n`, without leading zeros.
pub open spec fn decimal(n: nat) -> Seq<char>
    decreases n,
{
    if n < 10 {
        seq![digit_char(n)]
    } else {
        decimal(n / 10).push(digit_char(n % 10))
    }
}

/// `count` zeros.
pub open spec fn zeros(count: nat) -> Seq<char> {
    Seq::new(count, |i: int| '0')
}

/// The decimal numeral of `n`, filled with zeros on the left up to `width`
/// characters. A numeral that is already that long stays as it is.
pub open spec fn zero_padded(n: nat, width: nat) -> Seq<char> {
    if decimal(n).len() >= width {
        decimal(n)
    } else {
        zeros((width - decimal(n).len()) as nat) + decimal(n)
    }
}

/// The literal of one decimal digit.
fn digit_str(d: u64) -> (s: &'static str)
    requires
        d < 10,
    ensures
        s@ == seq![digit_char(d as nat)],
{
    proof {
        reveal_strlit("0");
        reveal_strlit("1");
        reveal_strlit("2");
        reveal_strlit("3");
        reveal_strlit("4");
        reveal_strlit("5");
        reveal_strlit("6");
        reveal_strlit("7");
        reveal_strlit("8");
        reveal_strlit("9");
    }
    if d == 0 {
        "0"
    } else if d == 1 {
        "1"
    } else if d == 2 {
        "2"
    } else if d == 3 {
        "3"
    } else if d == 4 {
        "4"
    } else if d == 5 {
        "5"
    } else if d == 6 {
        "6"
    } else if d == 7 {
        "7"
    } else if d == 8 {
        "8"
    } else {
        "9"
    }
}

/// Appends the decimal numeral of `n` to `out`.
pub fn push_decimal(out: &mut String, n: u64)
    ensures
        final(out)@ == old(out)@ + decimal(n as nat),
    decreases n,
{
    if n >= 10 {
        push_decimal(out, n / 10);
    }
    out.append(digit_str(n % 10));
    proof {
        assert(out@ =~= old(out)@ + decimal(n as nat));
    }
}

/// The decimal numeral of `n`.
pub fn decimal_string(n: u64) -> (s: String)
    ensures
        s@ == decimal(n as nat),
{
    let mut s = String::new();
    push_decimal(&mut s, n);
    proof {
        assert(Seq::<char>::empty() + decimal(n as nat) =~= decimal(n as nat));
    }
    s
}

/// The numeral of `n` has one digit more than that of `n / 10`.
pub proof fn lemma_decimal_len(n: nat)
    ensures
        decimal(n).len() == if n < 10 {
            1
        } else {
            decimal(n / 10).len() + 1
        },
        decimal(n).len() >= 1,
    decreases n,
{
    if n >= 10 {
        lemma_decimal_len(n / 10);
    }
}

/// How many digits the decimal numeral of `n` has.
pub fn decimal_len(n: u64) -> (len: usize)
    ensures
        len == decimal(n as nat).len(),
        1 <= len <= 20,
{
    let mut len: usize = 1;
    let mut rest: u64 = n;
    proof {
        lemma_decimal_len(n as nat);
    }
    while rest >= 10
        invariant
            1 <= len,
            len + decimal(rest as nat).len() == decimal(n as nat).len() + 1,
            len as int <= 20 - decimal_bound(rest),
        decreases rest,
    {
        proof {
            lemma_decimal_len(rest as nat);
            lemma_decimal_len((rest / 10) as nat);
        }
        rest = rest / 10;
        len += 1;
    }
    proof {
        lemma_decimal_len(rest as nat);
    }
    len
}

/// An upper bound on the number of digits that `n` still has beyond one.
pub open spec fn decimal_bound(n: u64) -> int {
    if n >= 10_000_000_000_000_000_000 {
        19
    } else if n >= 1_000_000_000_000_000_000 {
        18
    } else if n >= 100_000_000_000_000_000 {
        17
    } else if n >= 10_000_000_000_000_000 {
        16
    } else if n >= 1_000_000_000_000_000 {
        15
    } else if n >= 100_000_000_000_000 {
        14
    } else if n >= 10_000_000_000_000 {
        13
    } else if n >= 1_000_000_000_000 {
        12
    } else if n >= 100_000_000_000 {
        11
    } else if n >= 10_000_000_000 {
        10
    } else if n >= 1_000_000_000 {
        9
    } else if n >= 100_000_000 {
        8
    } else if n >= 10_000_000 {
        7
    } else if n >= 1_000_000 {
        6
    } else if n >= 100_000 {
        5
    } else if n >= 10_000 {
        4
    } else if n >= 1_000 {
        3
    } else if n >= 100 {
        2
    } else if n >= 10 {
        1
    } else {
        0
    }
}

/// Appends the decimal numeral of `n`, filled with zeros on the left up to
/// `width` characters, to `out`.
pub fn push_zero_padded(out: &mut String, n: u64, width: usize)
    ensures
        final(out)@ == old(out)@ + zero_padded(n as nat, width as nat),
{
    let len = decimal_len(n);
    let mut k: usize = 0;
    proof {
        reveal_strlit("0");
        assert(old(out)@ + zeros(0) =~= old(out)@);
    }
    if len < width {
        while k < width - len
            invariant
                len < width,
                k <= width - len,
                out@ == old(out)@ + zeros(k as nat),
                "0"@ == seq!['0'],
            decreases width - len - k,
        {
            out.append("0");
            proof {
                assert(zeros((k + 1) as nat) =~= zeros(k as nat) + seq!['0']);
            }
            k += 1;
        }
    }
    let ghost padded = out@;
    push_decimal(out, n);
    proof {
        if len < width {
            assert(out@ =~= old(out)@ + (zeros((width - len) as nat) + decimal(n as nat)));
        } else {
            assert(padded == old(out)@);
        }
    }
}

/// Where the last dot of `name` stands, or -1 where it has none.
pub open spec fn last_dot(name: Seq<char>) -> int
    decreases name.len(),
{
    if name.len() == 0 {
        -1
    } else if name.last() == '.' {
        name.len() - 1
    } else {
        last_dot(name.drop_last())
    }
}

/// What follows the last dot of `name`: the whole of a name without a dot.
pub open spec fn extension(name: Seq<char>) -> Seq<char> {
    name.skip(last_dot(name) + 1)
}

/// A dot after which no other dot follows is the last dot.
pub proof fn lemma_last_dot(name: Seq<char>, k: int)
    requires
        -1 <= k < name.len(),
        k >= 0 ==> name[k] == '.',
        forall|j: int| k < j < name.len() ==> name[j] != '.',
    ensures
        last_dot(name) == k,
    decreases name.len(),
{
    if name.len() > 0 {
        if name.last() == '.' {
            assert(k == name.len() - 1);
        } else {
            lemma_last_dot(name.drop_last(), k);
        }
    }
}

/// What follows the last dot of `name`: the whole of a name without a dot.
pub fn extension_of(name: &str) -> (ext: String)
    ensures
        ext@ == extension(name@),
{
    let len = name.unicode_len();
    let mut start: usize = len;
    while start > 0
        invariant
            start <= len,
            len == name@.len(),
            forall|j: int| start <= j < len ==> name@[j] != '.',
        decreases start,
    {
        if name.get_char(start - 1) == '.' {
            proof {
                lemma_last_dot(name@, start - 1);
            }
            let ext = name.substring_char(start, len);
            proof {
                assert(name@.subrange(start as int, len as int) =~= name@.skip(start as int));
            }
            return ext.to_owned();
        }
        start -= 1;
    }
    proof {
        lemma_last_dot(name@, -1);
        assert(name@.skip(0) =~= name@);
    }
    name.to_owned()
}

/// Whether a character is a decimal digit.
pub open spec fn is_digit(c: char) -> bool {
    '0' <= c && c <= '9'
}

/// The value of a decimal digit.
pub open spec fn digit_value(c: char) -> nat {
    (c as u32 - '0' as u32) as nat
}

/// The value of a numeral: of a text of decimal digits.
pub open spec fn numeral_value(digits: Seq<char>) -> nat
    decreases digits.len(),
{
    if digits.len() == 0 {
        0
    } else {
        numeral_value(digits.drop_last()) * 10 + digit_value(digits.last())
    }
}

/// Whether a text is a numeral: not empty, and of decimal digits only.
pub open spec fn is_numeral(digits: Seq<char>) -> bool {
    digits.len() > 0 && forall|i: int| 0 <= i < digits.len() ==> is_digit(#[trigger] digits[i])
}

/// A text without the plus sign that it may begin with.
pub open spec fn unsigned_part(text: Seq<char>) -> Seq<char> {
    if text.len() > 0 && text[0] == '+' {
        text.skip(1)
    } else {
        text
    }
}

/// The number that a text stands for: a numeral, which a plus sign may
/// precede, whose value the machine's integers hold. Any other text stands
/// for no number.
pub open spec fn number_of(text: Seq<char>) -> Option<u64> {
    let digits = unsigned_part(text);
    if is_numeral(digits) && numeral_value(digits) <= u64::MAX {
        Some(numeral_value(digits) as u64)
    } else {
        None
    }
}

/// The value of a numeral is at least the value of each of its beginnings.
pub proof fn lemma_numeral_grows(digits: Seq<char>, k: int)
    requires
        0 <= k <= digits.len(),
    ensures
        numeral_value(digits.take(k)) <= numeral_value(digits),
    decreases digits.len() - k,
{
    if k < digits.len() {
        lemma_numeral_grows(digits, k + 1);
        assert(digits.take(k + 1).drop_last() =~= digits.take(k));
    } else {
        assert(digits.take(k) =~= digits);
    }
}

/// The number that `text` stands for, if it stands for one.
pub fn parse_number(text: &str) -> (number: Option<u64>)
    ensures
        number == number_of(text@),
{
    let len = text.unicode_len();
    let start: usize = if len > 0 && text.get_char(0) == '+' {
        1
    } else {
        0
    };
    let ghost digits = unsigned_part(text@);
    if start == len {
        return None;
    }
    let mut value: u64 = 0;
    let mut k: usize = start;
    proof {
        assert(digits.take(0) =~= Seq::<char>::empty());
        assert(text@.skip(0) =~= text@);
    }
    while k < len
        invariant
            start <= k <= len,
            len == text@.len(),
            digits == unsigned_part(text@),
            digits =~= text@.skip(start as int),
            digits.len() == len - start,
            forall|i: int| 0 <= i < k - start ==> is_digit(#[trigger] digits[i]),
            value == numeral_value(digits.take(k - start)),
        decreases len - k,
    {
        let c = text.get_char(k);
        assert(digits[k - start] == c);
        if !(c >= '0' && c <= '9') {
            return None;
        }
        let d: u64 = (c as u32 - '0' as u32) as u64;
        proof {
            assert(digits.take(k - start + 1).drop_last() =~= digits.take(k - start));
            assert(digits.take(k - start + 1).last() == c);
            lemma_numeral_grows(digits, k - start + 1);
        }
        let tens = match value.checked_mul(10) {
            Some(tens) => tens,
            None => { return None; },
        };
        value = match tens.checked_add(d) {
            Some(sum) => sum,
            None => { return None; },
        };
        k += 1;
    }
    proof {
        assert(digits.take(k - start) =~= digits);
    }
    Some(value)
}

} // verus!
