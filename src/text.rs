//! Text helpers: substring tests on log and pod-name text, and integer
//! formatting for check messages.
use vstd::prelude::*;

verus! {

/// `pat` occurs somewhere inside `hay`.
pub open spec fn seq_contains(hay: Seq<char>, pat: Seq<char>) -> bool {
    exists|i: int|
        0 <= i && i + pat.len() <= hay.len() && #[trigger] hay.subrange(i, i + pat.len()) == pat
}

/// `hay` begins with `pat`.
pub open spec fn seq_starts_with(hay: Seq<char>, pat: Seq<char>) -> bool {
    pat.len() <= hay.len() && hay.subrange(0, pat.len() as int) == pat
}

/// What `str::to_lowercase` makes of a text.
pub uninterp spec fn lower_of(s: Seq<char>) -> Seq<char>;

/// The pieces of `s` between the non-overlapping occurrences of `pat`,
/// found from the left (what `str::split` yields for a non-empty pattern).
pub open spec fn split_pieces(s: Seq<char>, pat: Seq<char>) -> Seq<Seq<char>>
    decreases s.len(),
{
    if pat.len() == 0 || s.len() < pat.len() {
        seq![s]
    } else if s.subrange(0, pat.len() as int) == pat {
        seq![Seq::empty()] + split_pieces(s.subrange(pat.len() as int, s.len() as int), pat)
    } else {
        let rest = split_pieces(s.subrange(1, s.len() as int), pat);
        rest.update(0, seq![s[0]] + rest[0])
    }
}

/// A line without the carriage return that ended it.
pub open spec fn strip_cr(l: Seq<char>) -> Seq<char> {
    if l.len() > 0 && l.last() == '\r' {
        l.drop_last()
    } else {
        l
    }
}

/// The lines of a text as `str::lines` gives them: split at each '\n', a
/// '\r' right before a '\n' removed, and no empty line after a final '\n'.
pub open spec fn lines_of(s: Seq<char>) -> Seq<Seq<char>> {
    let pieces = split_pieces(s, seq!['\n']);
    let ended = pieces.drop_last().map_values(|l: Seq<char>| strip_cr(l));
    if s.len() == 0 || s.last() == '\n' {
        ended
    } else {
        ended.push(pieces.last())
    }
}

/// Relies on `str::contains` with a `&str` pattern: true exactly when the
/// pattern occurs as a contiguous run of characters.
#[verifier::external_body]
pub(crate) fn contains(hay: &str, pat: &str) -> (r: bool)
    ensures
        r == seq_contains(hay@, pat@),
{
    hay.contains(pat)
}

/// Relies on `str::starts_with` with a `&str` pattern.
#[verifier::external_body]
pub(crate) fn starts_with(hay: &str, pat: &str) -> (r: bool)
    ensures
        r == seq_starts_with(hay@, pat@),
{
    hay.starts_with(pat)
}

/// Relies on `str::to_lowercase`: the result depends on the characters alone,
/// and an empty text stays empty.
#[verifier::external_body]
pub(crate) fn to_lowercase(s: &str) -> (r: String)
    ensures
        r@ == lower_of(s@),
        s@.len() == 0 ==> r@.len() == 0,
{
    s.to_lowercase()
}

/// Relies on `str::lines`: splits a text at "\n" and "\r\n" line ends, the
/// final line end being optional.
#[verifier::external_body]
pub(crate) fn split_lines(s: &str) -> (r: Vec<String>)
    ensures
        r@.map_values(|l: String| l@) == lines_of(s@),
{
    s.lines().map(|l| l.to_string()).collect()
}

/// The lines joined back together with a newline between each two.
pub open spec fn join_lines(ls: Seq<Seq<char>>) -> Seq<char>
    decreases ls.len(),
{
    if ls.len() == 0 {
        Seq::empty()
    } else if ls.len() == 1 {
        ls[0]
    } else {
        join_lines(ls.drop_last()) + seq!['\n'] + ls.last()
    }
}

/// The part of a log text that the checks scan: its last `n` lines joined
/// with newlines when it has more than `n` lines, else the whole text.
pub open spec fn recent_text(s: Seq<char>, n: nat) -> Seq<char> {
    let ls = lines_of(s);
    if ls.len() > n {
        join_lines(ls.subrange(ls.len() - n, ls.len() as int))
    } else {
        s
    }
}

/// Joins `ls[from..]` with newlines.
pub fn join_tail(ls: &Vec<String>, from: usize) -> (r: String)
    requires
        from <= ls.len(),
    ensures
        r@ == join_lines(ls@.map_values(|l: String| l@).subrange(from as int, ls@.len() as int)),
{
    let ghost views = ls@.map_values(|l: String| l@);
    let mut out = String::new();
    let mut i = from;
    proof {
        reveal_strlit("\n");
        assert(views.subrange(from as int, from as int) =~= Seq::<Seq<char>>::empty());
    }
    while i < ls.len()
        invariant
            from <= i <= ls.len(),
            views == ls@.map_values(|l: String| l@),
            out@ == join_lines(views.subrange(from as int, i as int)),
        decreases ls.len() - i,
    {
        let ghost before = views.subrange(from as int, i as int);
        let ghost after = views.subrange(from as int, i + 1);
        let ghost prev = out@;
        assert(after.drop_last() =~= before);
        assert(after.last() == ls@[i as int]@);
        if i > from {
            proof { reveal_strlit("\n"); }
            out.append("\n");
            out.append(ls[i].as_str());
            assert(out@ =~= prev + seq!['\n'] + after.last());
        } else {
            assert(after =~= seq![ls@[i as int]@]);
            assert(out@ =~= Seq::<char>::empty());
            out.append(ls[i].as_str());
            assert(out@ =~= after[0]);
        }
        i = i + 1;
    }
    proof {
        assert(views.subrange(from as int, ls@.len() as int) == views.subrange(from as int, i as int));
    }
    out
}

/// The part of a log text that the checks scan (see `recent_text`).
pub fn recent_lines(s: &str, n: usize) -> (r: String)
    ensures
        r@ == recent_text(s@, n as nat),
{
    let ls = split_lines(s);
    if ls.len() > n {
        join_tail(&ls, ls.len() - n)
    } else {
        String::from_str(s)
    }
}

/// The digit character for `d`.
pub open spec fn digit_char(d: nat) -> char {
    if d == 0 { '0' } else if d == 1 { '1' } else if d == 2 { '2' } else if d == 3 { '3' }
    else if d == 4 { '4' } else if d == 5 { '5' } else if d == 6 { '6' } else if d == 7 { '7' }
    else if d == 8 { '8' } else if d == 9 { '9' } else if d == 10 { 'a' } else if d == 11 { 'b' }
    else if d == 12 { 'c' } else if d == 13 { 'd' } else if d == 14 { 'e' } else { 'f' }
}

/// The digits of `n` in base `b`, most significant first, without leading zeros.
pub open spec fn digits(n: nat, b: nat) -> Seq<char>
    recommends
        2 <= b <= 16,
    decreases n
    via digits_decreases
{
    if n < b || b < 2 {
        seq![digit_char(n)]
    } else {
        digits(n / b, b).push(digit_char(n % b))
    }
}

#[via_fn]
proof fn digits_decreases(n: nat, b: nat) {
    if !(n < b || b < 2) {
        assert(n / b < n) by (nonlinear_arith)
            requires
                n >= b,
                b >= 2,
        ;
    }
}

/// Decimal notation of a signed integer, with a leading '-' when negative.
pub open spec fn signed_decimal(n: int) -> Seq<char> {
    if n < 0 {
        seq!['-'] + digits((-n) as nat, 10)
    } else {
        digits(n as nat, 10)
    }
}

fn digit_str(d: u128) -> (r: &'static str)
    requires
        d < 16,
    ensures
        r@ == seq![digit_char(d as nat)],
{
    proof {
        reveal_strlit("0"); reveal_strlit("1"); reveal_strlit("2"); reveal_strlit("3");
        reveal_strlit("4"); reveal_strlit("5"); reveal_strlit("6"); reveal_strlit("7");
        reveal_strlit("8"); reveal_strlit("9"); reveal_strlit("a"); reveal_strlit("b");
        reveal_strlit("c"); reveal_strlit("d"); reveal_strlit("e"); reveal_strlit("f");
    }
    let r = if d == 0 { "0" } else if d == 1 { "1" } else if d == 2 { "2" } else if d == 3 { "3" }
    else if d == 4 { "4" } else if d == 5 { "5" } else if d == 6 { "6" } else if d == 7 { "7" }
    else if d == 8 { "8" } else if d == 9 { "9" } else if d == 10 { "a" } else if d == 11 { "b" }
    else if d == 12 { "c" } else if d == 13 { "d" } else if d == 14 { "e" } else { "f" };
    assert(r@ =~= seq![digit_char(d as nat)]);
    r
}

fn push_digits(out: &mut String, n: u128, b: u128)
    requires
        2 <= b <= 16,
    ensures
        final(out)@ == old(out)@ + digits(n as nat, b as nat),
    decreases n,
{
    if n < b {
        out.append(digit_str(n));
    } else {
        assert(n / b < n) by (nonlinear_arith)
            requires
                n >= b,
                b >= 2,
        ;
        push_digits(out, n / b, b);
        out.append(digit_str(n % b));
        assert(digits(n as nat, b as nat) == digits((n / b) as nat, b as nat).push(
            digit_char((n % b) as nat),
        ));
        assert(final(out)@ =~= old(out)@ + digits(n as nat, b as nat));
    }
}

/// Decimal notation of `n`.
pub fn decimal(n: u64) -> (r: String)
    ensures
        r@ == digits(n as nat, 10),
{
    let mut s = String::new();
    push_digits(&mut s, n as u128, 10);
    assert(s@ =~= digits(n as nat, 10));
    s
}

/// Lower-case hexadecimal notation of `n`.
pub fn hex(n: u64) -> (r: String)
    ensures
        r@ == digits(n as nat, 16),
{
    let mut s = String::new();
    push_digits(&mut s, n as u128, 16);
    assert(s@ =~= digits(n as nat, 16));
    s
}

/// Decimal notation of a signed `n`.
pub fn signed(n: i128) -> (r: String)
    ensures
        r@ == signed_decimal(n as int),
{
    let mut s = String::new();
    if n < 0 {
        proof { reveal_strlit("-"); }
        s.append("-");
        let m: u128 = if n == i128::MIN { (i128::MAX as u128) + 1 } else { (-n) as u128 };
        push_digits(&mut s, m, 10);
    } else {
        push_digits(&mut s, n as u128, 10);
    }
    assert(s@ =~= signed_decimal(n as int));
    s
}

} // verus!
