use vstd::prelude::*;
use vstd::string::StringExecFns;

verus! {

/// The character that stands for the decimal digit `d` (`0 <= d < 10`).
pub open spec fn digit_char(d: nat) -> char {
    if d == 0 { '0' }
    else if d == 1 { '1' }
    else if d == 2 { '2' }
    else if d == 3 { '3' }
    else if d == 4 { '4' }
    else if d == 5 { '5' }
    else if d == 6 { '6' }
    else if d == 7 { '7' }
    else if d == 8 { '8' }
    else { '9' }
}

/// The decimal representation of `n`, without sign or leading zeros
/// (the way `Display` writes an unsigned integer).
pub open spec fn decimal(n: nat) -> Seq<char>
    decreases n,
{
    if n < 10 {
        seq![digit_char(n)]
    } else {
        decimal(n / 10).push(digit_char(n % 10))
    }
}

/// The way `Display` writes a `bool`.
pub open spec fn bool_text(b: bool) -> Seq<char> {
    if b { "true"@ } else { "false"@ }
}

fn digit_str(d: u64) -> (s: &'static str)
    requires
        d < 10,
    ensures
        s@ == seq![digit_char(d as nat)],
{
    proof {
        reveal_strlit("0");
        reveal_strlit("1");
        reveal_strlit("2");
        reveal_strlit("3");
        reveal_strlit("4");
        reveal_strlit("5");
        reveal_strlit("6");
        reveal_strlit("7");
        reveal_strlit("8");
        reveal_strlit("9");
    }
    if d == 0 { "0" }
    else if d == 1 { "1" }
    else if d == 2 { "2" }
    else if d == 3 { "3" }
    else if d == 4 { "4" }
    else if d == 5 { "5" }
    else if d == 6 { "6" }
    else if d == 7 { "7" }
    else if d == 8 { "8" }
    else { "9" }
}

/// Appends the decimal representation of `n` to `out`.
pub fn push_decimal(out: &mut String, n: u64)
    ensures
        final(out)@ == old(out)@ + decimal(n as nat),
    decreases n,
{
    if n >= 10 {
        push_decimal(out, n / 10);
        out.append(digit_str(n % 10));
    } else {
        out.append(digit_str(n));
    }
    proof {
        if n >= 10 {
            assert(decimal(n as nat) == decimal((n / 10) as nat).push(digit_char((n % 10) as nat)));
        }
    }
}

/// The decimal representation of `n` as a new string.
pub fn decimal_string(n: u64) -> (s: String)
    ensures
        s@ == decimal(n as nat),
{
    let mut s = String::new();
    push_decimal(&mut s, n);
    assert(s@ =~= decimal(n as nat));
    s
}

/// A string holding a copy of the literal `lit`.
pub fn text(lit: &str) -> (s: String)
    ensures
        s@ == lit@,
{
    String::from_str(lit)
}

/// `"true"` or `"false"`, as `Display` writes a `bool`.
pub fn bool_string(b: bool) -> (s: String)
    ensures
        s@ == bool_text(b),
{
    proof {
        reveal_strlit("true");
        reveal_strlit("false");
    }
    if b { text("true") } else { text("false") }
}

/// Concatenation of two string views into a new string.
pub fn concat(a: &str, b: &str) -> (s: String)
    ensures
        s@ == a@ + b@,
{
    let mut s = text(a);
    s.append(b);
    s
}

/// A decimal representation is not empty and holds only the digits `0` to `9`.
pub proof fn lemma_decimal_digits(n: nat)
    ensures
        decimal(n).len() > 0,
        forall|i: int| 0 <= i < decimal(n).len() ==> '0' <= #[trigger] decimal(n)[i] <= '9',
    decreases n,
{
    if n >= 10 {
        lemma_decimal_digits(n / 10);
        let p = decimal(n / 10);
        assert forall|i: int| 0 <= i < decimal(n).len() implies '0' <= #[trigger] decimal(n)[i] <= '9' by {
            if i < p.len() {
                assert(decimal(n)[i] == p[i]);
            }
        }
    }
}

/// Two texts made of digits, each followed by the separator `sep` (not a digit)
/// and a rest, are equal only when the digit parts and the rests are equal.
pub proof fn lemma_split_at_separator(a: Seq<char>, b: Seq<char>, c: Seq<char>, d: Seq<char>, sep: char)
    requires
        forall|i: int| 0 <= i < a.len() ==> '0' <= #[trigger] a[i] <= '9',
        forall|i: int| 0 <= i < c.len() ==> '0' <= #[trigger] c[i] <= '9',
        !('0' <= sep <= '9'),
        a + seq![sep] + b == c + seq![sep] + d,
    ensures
        a == c,
        b == d,
{
    let x = a + seq![sep] + b;
    let y = c + seq![sep] + d;
    if a.len() < c.len() {
        assert(x[a.len() as int] == sep);
        assert(y[a.len() as int] == c[a.len() as int]);
    } else if c.len() < a.len() {
        assert(y[c.len() as int] == sep);
        assert(x[c.len() as int] == a[c.len() as int]);
    } else {
        assert(a =~= x.subrange(0, a.len() as int));
        assert(c =~= y.subrange(0, c.len() as int));
        assert(b =~= x.subrange(a.len() as int + 1, x.len() as int));
        assert(d =~= y.subrange(c.len() as int + 1, y.len() as int));
    }
}

/// Different numbers are written differently.
pub proof fn lemma_decimal_injective(p: nat, q: nat)
    requires
        decimal(p) == decimal(q),
    ensures
        p == q,
    decreases p,
{
    if p >= 10 {
        lemma_decimal_digits(p / 10);
    }
    if q >= 10 {
        lemma_decimal_digits(q / 10);
    }
    if p >= 10 && q >= 10 {
        let dp = decimal(p);
        let dq = decimal(q);
        assert(dp[dp.len() - 1] == digit_char(p % 10));
        assert(dq[dq.len() - 1] == digit_char(q % 10));
        assert(p % 10 == q % 10);
        assert(dp.drop_last() =~= decimal(p / 10));
        assert(dq.drop_last() =~= decimal(q / 10));
        lemma_decimal_injective(p / 10, q / 10);
        assert(p == 10 * (p / 10) + p % 10);
        assert(q == 10 * (q / 10) + q % 10);
    } else if p < 10 && q < 10 {
        assert(decimal(p)[0] == digit_char(p));
        assert(decimal(q)[0] == digit_char(q));
    } else if p < 10 {
        assert(decimal(p).len() == 1);
        assert(decimal(q).len() == decimal(q / 10).len() + 1);
    } else {
        assert(decimal(q).len() == 1);
        assert(decimal(p).len() == decimal(p / 10).len() + 1);
    }
}

} // verus!
