use vstd::prelude::*;

verus! {

/// The character of a decimal digit.
pub open spec fn digit_char(d: nat) -> char {
    if d == 0 { '0' }
    else if d == 1 { '1' }
    else if d == 2 { '2' }
    else if d == 3 { '3' }
    else if d == 4 { '4' }
    else if d == 5 { '5' }
    else if d == 6 { '6' }
    else if d == 7 { '7' }
    else if d == 8 { '8' }
    else { '9' }
}

/// The plain decimal form of a natural number, without sign or separators.
pub open spec fn decimal_of(n: nat) -> Seq<char>
    decreases n,
{
    if n < 10 {
        seq![digit_char(n)]
    } else {
        decimal_of(n / 10).push(digit_char(n % 10))
    }
}

fn digit_string(d: u64) -> (r: String)
    requires
        d < 10,
    ensures
        r@ == seq![digit_char(d as nat)],
{
    let s = if d == 0 { "0" }
        else if d == 1 { "1" }
        else if d == 2 { "2" }
        else if d == 3 { "3" }
        else if d == 4 { "4" }
        else if d == 5 { "5" }
        else if d == 6 { "6" }
        else if d == 7 { "7" }
        else if d == 8 { "8" }
        else { "9" };
    proof {
        reveal_strlit("0");
        reveal_strlit("1");
        reveal_strlit("2");
        reveal_strlit("3");
        reveal_strlit("4");
        reveal_strlit("5");
        reveal_strlit("6");
        reveal_strlit("7");
        reveal_strlit("8");
        reveal_strlit("9");
    }
    let r = String::from_str(s);
    assert(r@ =~= seq![digit_char(d as nat)]);
    r
}

/// The text holds no line break.
pub open spec fn one_line(t: Seq<char>) -> bool {
    forall|i: int| 0 <= i < t.len() ==> t[i] != '\n'
}

pub(crate) proof fn lemma_join_one_line(a: Seq<char>, b: Seq<char>)
    requires
        one_line(a),
        one_line(b),
    ensures
        one_line(a + b),
{
    assert forall|i: int| 0 <= i < (a + b).len() implies (a + b)[i] != '\n' by {
        if i >= a.len() {
            assert((a + b)[i] == b[i - a.len()]);
        }
    }
}

/// A decimal numeral is one line.
pub proof fn lemma_decimal_one_line(n: nat)
    ensures
        one_line(decimal_of(n)),
    decreases n,
{
    if n >= 10 {
        lemma_decimal_one_line(n / 10);
        lemma_join_one_line(decimal_of(n / 10), seq![digit_char(n % 10)]);
        assert(decimal_of(n) == decimal_of(n / 10) + seq![digit_char(n % 10)]);
    }
}

/// Writes `n` in plain decimal.
pub fn decimal(n: u64) -> (r: String)
    ensures
        r@ == decimal_of(n as nat),
    decreases n,
{
    if n < 10 {
        digit_string(n)
    } else {
        let mut s = decimal(n / 10);
        let d = digit_string(n % 10);
        s.append(d.as_str());
        assert(s@ =~= decimal_of(n as nat));
        s
    }
}

/// Whether two texts hold the same characters.
pub fn same_text(a: &str, b: &str) -> (r: bool)
    ensures
        r == (a@ == b@),
{
    let n = a.unicode_len();
    if n != b.unicode_len() {
        return false;
    }
    let mut i: usize = 0;
    while i < n
        invariant
            n == a@.len(),
            n == b@.len(),
            i <= n,
            a@.subrange(0, i as int) == b@.subrange(0, i as int),
        decreases n - i,
    {
        if a.get_char(i) != b.get_char(i) {
            assert(a@[i as int] != b@[i as int]);
            return false;
        }
        assert(a@.subrange(0, i + 1) =~= a@.subrange(0, i as int).push(a@[i as int]));
        assert(b@.subrange(0, i + 1) =~= b@.subrange(0, i as int).push(b@[i as int]));
        i = i + 1;
    }
    assert(a@ =~= a@.subrange(0, n as int));
    assert(b@ =~= b@.subrange(0, n as int));
    true
}

/// What readable's `Uptime` shows for a number of seconds.
pub uninterp spec fn uptime_text(secs: u64) -> Seq<char>;

/// What readable's `Percent` shows for a whole percentage.
pub uninterp spec fn percent_text(pct: u64) -> Seq<char>;

/// Relies on `readable::up::Uptime::from(u64)` and its `Display`: a duration
/// written on one line in years, months, days, hours, minutes and seconds,
/// which depends on the number of seconds alone.
#[verifier::external_body]
pub(crate) fn uptime_string(secs: u64) -> (r: String)
    ensures
        r@ == uptime_text(secs),
        one_line(r@),
{
    readable::up::Uptime::from(secs).to_string()
}

/// Relies on `readable::byte::Byte::from(u64)` and its `Display`: a size
/// with its unit, written in ASCII on one line. Which unit it picks goes
/// through a floating-point logarithm, so nothing more is claimed.
#[verifier::external_body]
pub(crate) fn byte_string(bytes: u64) -> (r: String)
    ensures
        one_line(r@),
{
    readable::byte::Byte::from(bytes).to_string()
}

/// Relies on `readable::num::Percent::from(u64)` and its `Display`: the number
/// with comma grouping, two zero decimals and a `%` sign, which depends on the
/// number alone; below 1000 there is no comma.
#[verifier::external_body]
pub(crate) fn percent_string(pct: u64) -> (r: String)
    ensures
        r@ == percent_text(pct),
        one_line(r@),
        pct <= 100 ==> r@ == decimal_of(pct as nat) + ".00%"@,
{
    readable::num::Percent::from(pct).to_string()
}

} // verus!
