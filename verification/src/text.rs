//! Character-level helpers for building strings.
use vstd::prelude::*;
use vstd::string::*;

verus! {

/// Appends `c` to `s` (`String::push`).
#[verifier::external_body]
pub fn push_char(s: &mut String, c: char)
    ensures
        final(s)@ == old(s)@.push(c),
{
    s.push(c)
}

/// The string holding exactly the characters of `v`.
pub fn string_from_chars(v: &Vec<char>) -> (s: String)
    ensures
        s@ == v@,
{
    let mut s = String::new();
    let mut i: usize = 0;
    while i < v.len()
        invariant
            i <= v.len(),
            s@ == v@.take(i as int),
        decreases v.len() - i,
    {
        push_char(&mut s, v[i]);
        assert(v@.take(i + 1) == v@.take(i as int).push(v@[i as int]));
        i = i + 1;
    }
    assert(v@.take(v.len() as int) == v@);
    s
}

/// The characters of `s`, in order.
pub fn chars_of(s: &str) -> (v: Vec<char>)
    ensures
        v@ == s@,
{
    let n = s.unicode_len();
    let mut v: Vec<char> = Vec::new();
    let mut i: usize = 0;
    while i < n
        invariant
            n == s@.len(),
            i <= n,
            v@ == s@.take(i as int),
        decreases n - i,
    {
        let c = s.get_char(i);
        v.push(c);
        assert(s@.take(i + 1) == s@.take(i as int).push(c));
        i = i + 1;
    }
    assert(s@.take(n as int) == s@);
    v
}

/// The string holding the single character `c`.
pub fn string_of_char(c: char) -> (s: String)
    ensures
        s@ == seq![c],
{
    let mut s = String::new();
    push_char(&mut s, c);
    s
}

/// `a` followed by `b`.
pub fn concat_strings(a: &String, b: &String) -> (s: String)
    ensures
        s@ == a@ + b@,
{
    let mut s = a.clone();
    s.append(b.as_str());
    s
}


/// The decimal digit for `d` (below ten).
pub open spec fn digit_char(d: nat) -> char {
    ('0' as nat + d) as char
}

/// Decimal notation of `n`, most significant digit first, no leading zeros.
pub open spec fn decimal_digits(n: nat) -> Seq<char>
    decreases n,
{
    if n < 10 {
        seq![digit_char(n)]
    } else {
        decimal_digits(n / 10).push(digit_char(n % 10))
    }
}

/// Decimal notation of `n`.
pub fn decimal(n: u128) -> (s: String)
    ensures
        s@ == decimal_digits(n as nat),
{
    // Digits least significant first.
    let mut rev: Vec<char> = Vec::new();
    let mut m: u128 = n;
    let ghost mut shown: Seq<char> = Seq::empty();
    loop
        invariant_except_break
            decimal_digits(n as nat) == decimal_digits(m as nat) + shown,
        invariant
            rev@.len() == shown.len(),
            forall|i: int| 0 <= i < shown.len() ==> #[trigger] shown[i] == rev@[rev@.len() - 1 - i],
        ensures
            shown =~= decimal_digits(n as nat),
        decreases m,
    {
        let d = (m % 10) as u32;
        let c = char_of_digit(d);
        if m < 10 {
            rev.push(c);
            proof {
                assert(decimal_digits(m as nat) == seq![c]);
                shown = seq![c] + shown;
            }
            break;
        }
        rev.push(c);
        proof {
            let old_shown = shown;
            shown = seq![c] + old_shown;
            assert(decimal_digits(m as nat) == decimal_digits((m / 10) as nat).push(c));
            assert(decimal_digits((m / 10) as nat).push(c) + old_shown =~= decimal_digits((m / 10) as nat) + shown);
        }
        m = m / 10;
    }
    assert(shown =~= decimal_digits(n as nat));
    let mut out: Vec<char> = Vec::new();
    let mut j: usize = rev.len();
    while j > 0
        invariant
            j <= rev.len(),
            rev@.len() == shown.len(),
            forall|i: int| 0 <= i < shown.len() ==> #[trigger] shown[i] == rev@[rev@.len() - 1 - i],
            out@ =~= shown.take((rev.len() - j) as int),
        decreases j,
    {
        j = j - 1;
        out.push(rev[j]);
        assert(shown.take((rev.len() - j) as int) =~= shown.take((rev.len() - j - 1) as int).push(
            shown[(rev.len() - j - 1) as int],
        ));
    }
    assert(shown.take(rev.len() as int) =~= shown);
    string_from_chars(&out)
}

fn char_of_digit(d: u32) -> (c: char)
    requires
        d < 10,
    ensures
        c == digit_char(d as nat),
{
    match d {
        0 => '0',
        1 => '1',
        2 => '2',
        3 => '3',
        4 => '4',
        5 => '5',
        6 => '6',
        7 => '7',
        8 => '8',
        _ => '9',
    }
}

} // verus!
