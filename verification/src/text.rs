//! Text utilities: decimal rendering, placeholder substitution and trimming.
use vstd::prelude::*;

verus! {

/// The character of a decimal digit `d` (0..=9).
pub open spec fn digit_char(d: nat) -> char {
    if d == 0 {
        '0'
    } else if d == 1 {
        '1'
    } else if d == 2 {
        '2'
    } else if d == 3 {
        '3'
    } else if d == 4 {
        '4'
    } else if d == 5 {
        '5'
    } else if d == 6 {
        '6'
    } else if d == 7 {
        '7'
    } else if d == 8 {
        '8'
    } else {
        '9'
    }
}

/// Decimal digits of a natural number, most significant first, without leading zeros.
pub open spec fn nat_text(n: nat) -> Seq<char>
    decreases n,
{
    if n < 10 {
        seq![digit_char(n)]
    } else {
        nat_text(n / 10).push(digit_char(n % 10))
    }
}

/// Decimal rendering of an integer, as `Display` writes it: a leading '-' for negatives.
pub open spec fn int_text(n: int) -> Seq<char> {
    if n < 0 {
        seq!['-'] + nat_text((-n) as nat)
    } else {
        nat_text(n as nat)
    }
}

/// `s` with every leftmost non-overlapping occurrence of `pat` replaced by `rep`,
/// scanning from the left (the semantics of `str::replace` for a non-empty pattern).
pub open spec fn replace_all(s: Seq<char>, pat: Seq<char>, rep: Seq<char>) -> Seq<char>
    decreases s.len(),
{
    if pat.len() == 0 || s.len() < pat.len() {
        s
    } else if s.take(pat.len() as int) == pat {
        rep + replace_all(s.skip(pat.len() as int), pat, rep)
    } else {
        seq![s[0]] + replace_all(s.skip(1), pat, rep)
    }
}

/// `s` without its leading run of `c`.
pub open spec fn trim_start_char(s: Seq<char>, c: char) -> Seq<char>
    decreases s.len(),
{
    if s.len() > 0 && s[0] == c {
        trim_start_char(s.skip(1), c)
    } else {
        s
    }
}

/// `s` without its trailing run of `c`.
pub open spec fn trim_end_char(s: Seq<char>, c: char) -> Seq<char>
    decreases s.len(),
{
    if s.len() > 0 && s.last() == c {
        trim_end_char(s.drop_last(), c)
    } else {
        s
    }
}

/// `s` without leading and trailing runs of `c` (the semantics of `str::trim_matches(c)`).
pub open spec fn trim_char(s: Seq<char>, c: char) -> Seq<char> {
    trim_end_char(trim_start_char(s, c), c)
}

/// Appends one character to a string (`String::push`).
#[verifier::external_body]
pub(crate) fn push_char(s: &mut String, c: char)
    ensures
        final(s)@ == old(s)@.push(c),
{
    s.push(c);
}

fn digit(d: u64) -> (c: char)
    requires
        d < 10,
    ensures
        c == digit_char(d as nat),
{
    match d {
        0 => '0',
        1 => '1',
        2 => '2',
        3 => '3',
        4 => '4',
        5 => '5',
        6 => '6',
        7 => '7',
        8 => '8',
        _ => '9',
    }
}

fn push_nat_text(s: &mut String, n: u64)
    ensures
        final(s)@ == old(s)@ + nat_text(n as nat),
    decreases n,
{
    if n >= 10 {
        push_nat_text(s, n / 10);
        push_char(s, digit(n % 10));
        assert(final(s)@ =~= old(s)@ + nat_text(n as nat));
    } else {
        push_char(s, digit(n));
        assert(final(s)@ =~= old(s)@ + nat_text(n as nat));
    }
}

/// Appends the decimal rendering of `n` to `s`.
pub fn push_int_text(s: &mut String, n: i64)
    ensures
        final(s)@ == old(s)@ + int_text(n as int),
{
    if n < 0 {
        push_char(s, '-');
        let magnitude: u64 = ((-(n + 1)) as u64) + 1;
        push_nat_text(s, magnitude);
        assert(final(s)@ =~= old(s)@ + int_text(n as int));
    } else {
        push_nat_text(s, n as u64);
    }
}

/// The decimal rendering of `n`, as `n.to_string()` gives it.
pub fn int_to_text(n: i64) -> (res: String)
    ensures
        res@ == int_text(n as int),
{
    let mut s = String::new();
    push_int_text(&mut s, n);
    assert(s@ =~= int_text(n as int));
    s
}


/// The characters of `s`, in order.
pub fn chars_of(s: &str) -> (res: Vec<char>)
    ensures
        res@ == s@,
{
    let n = s.unicode_len();
    let mut out: Vec<char> = Vec::new();
    let mut i: usize = 0;
    while i < n
        invariant
            n == s@.len(),
            i <= n,
            out@ == s@.take(i as int),
        decreases n - i,
    {
        out.push(s.get_char(i));
        i = i + 1;
        assert(out@ =~= s@.take(i as int));
    }
    assert(out@ =~= s@);
    out
}

/// A string holding exactly the characters `cs`.
pub fn string_of_chars(cs: &Vec<char>) -> (res: String)
    ensures
        res@ == cs@,
{
    let mut s = String::new();
    let mut i: usize = 0;
    while i < cs.len()
        invariant
            i <= cs.len(),
            s@ == cs@.take(i as int),
        decreases cs.len() - i,
    {
        push_char(&mut s, cs[i]);
        i = i + 1;
        assert(s@ =~= cs@.take(i as int));
    }
    assert(s@ =~= cs@);
    s
}

/// Whether `pat` occurs in `s` at position `at`.
fn occurs_at(s: &Vec<char>, at: usize, pat: &Vec<char>) -> (res: bool)
    requires
        at + pat.len() <= s.len(),
    ensures
        res == (s@.skip(at as int).take(pat.len() as int) == pat@),
{
    let mut k: usize = 0;
    while k < pat.len()
        invariant
            at + pat.len() <= s.len(),
            k <= pat.len(),
            forall|j: int| 0 <= j < k ==> s@[at + j] == pat@[j],
        decreases pat.len() - k,
    {
        if s[at + k] != pat[k] {
            assert(s@.skip(at as int).take(pat.len() as int)[k as int] != pat@[k as int]);
            return false;
        }
        k = k + 1;
    }
    assert(s@.skip(at as int).take(pat.len() as int) =~= pat@);
    true
}

proof fn lemma_replace_step_short(s: Seq<char>, pat: Seq<char>, rep: Seq<char>)
    requires
        0 < s.len() < pat.len(),
    ensures
        replace_all(s, pat, rep) == seq![s[0]] + replace_all(s.skip(1), pat, rep),
{
    assert(seq![s[0]] + s.skip(1) =~= s);
}

/// `template` with every occurrence of `pat` replaced by `value`, scanning from the
/// left as `str::replace` does.
pub fn replace_all_text(template: &str, pat: &str, value: &str) -> (res: String)
    requires
        pat@.len() > 0,
    ensures
        res@ == replace_all(template@, pat@, value@),
{
    let t = chars_of(template);
    let p = chars_of(pat);
    let v = chars_of(value);
    let n = t.len();
    let plen = p.len();
    let mut out: Vec<char> = Vec::new();
    let mut i: usize = 0;
    assert(t@.skip(0) =~= t@);
    assert(out@ + replace_all(t@, p@, v@) =~= replace_all(t@, p@, v@));
    while i < n
        invariant
            n == t@.len(),
            plen == p@.len(),
            plen > 0,
            t@ == template@,
            p@ == pat@,
            v@ == value@,
            i <= n,
            out@ + replace_all(t@.skip(i as int), p@, v@) == replace_all(t@, p@, v@),
        decreases n - i,
    {
        let ghost rest = t@.skip(i as int);
        if plen <= n - i && occurs_at(&t, i, &p) {
            assert(rest.take(plen as int) == p@);
            assert(rest.skip(plen as int) =~= t@.skip(i + plen));
            let mut k: usize = 0;
            let ghost before = out@;
            while k < v.len()
                invariant
                    k <= v.len(),
                    out@ == before + v@.take(k as int),
                decreases v.len() - k,
            {
                out.push(v[k]);
                k = k + 1;
                assert(out@ =~= before + v@.take(k as int));
            }
            assert(v@.take(v.len() as int) =~= v@);
            assert(out@ =~= before + v@);
            i = i + plen;
        } else {
            if plen <= n - i {
                assert(rest.take(plen as int) != p@);
            } else {
                proof {
                    lemma_replace_step_short(rest, p@, v@);
                }
            }
            assert(rest.skip(1) =~= t@.skip(i + 1));
            let ghost before = out@;
            out.push(t[i]);
            assert(out@ =~= before + seq![rest[0]]);
            i = i + 1;
        }
    }
    assert(t@.skip(n as int) =~= Seq::<char>::empty());
    assert(out@ =~= out@ + replace_all(t@.skip(n as int), p@, v@));
    string_of_chars(&out)
}

/// `s` without leading and trailing runs of `c`, as `str::trim_matches(c)` gives it.
pub fn trim_char_text(s: &str, c: char) -> (res: String)
    ensures
        res@ == trim_char(s@, c),
{
    let t = chars_of(s);
    let n = t.len();
    let mut i: usize = 0;
    assert(t@.skip(0) =~= t@);
    while i < n && t[i] == c
        invariant
            t@ == s@,
            n == t@.len(),
            i <= n,
            trim_start_char(t@, c) == trim_start_char(t@.skip(i as int), c),
        decreases n - i,
    {
        assert(t@.skip(i as int).skip(1) =~= t@.skip(i + 1));
        i = i + 1;
    }
    assert(trim_start_char(t@, c) == t@.subrange(i as int, n as int)) by {
        assert(t@.skip(i as int) =~= t@.subrange(i as int, n as int));
    }
    let mut j: usize = n;
    while j > i && t[j - 1] == c
        invariant
            t@ == s@,
            n == t@.len(),
            i <= j <= n,
            trim_end_char(t@.subrange(i as int, n as int), c) == trim_end_char(
                t@.subrange(i as int, j as int),
                c,
            ),
        decreases j,
    {
        assert(t@.subrange(i as int, j as int).drop_last() =~= t@.subrange(i as int, j - 1));
        j = j - 1;
    }
    let mut out: Vec<char> = Vec::new();
    let mut k: usize = i;
    while k < j
        invariant
            t@ == s@,
            n == t@.len(),
            i <= k <= j <= n,
            out@ == t@.subrange(i as int, k as int),
        decreases j - k,
    {
        out.push(t[k]);
        k = k + 1;
        assert(out@ =~= t@.subrange(i as int, k as int));
    }
    string_of_chars(&out)
}

/// Trimming twice removes nothing more than trimming once.
pub proof fn lemma_trim_char_idempotent(s: Seq<char>, c: char)
    ensures
        trim_char(trim_char(s, c), c) == trim_char(s, c),
{
    let a = trim_start_char(s, c);
    lemma_trim_start_stops(s, c);
    let b = trim_end_char(a, c);
    lemma_trim_end_is_prefix(a, c);
    lemma_trim_end_stops(a, c);
    if b.len() > 0 {
        assert(b[0] == a[0]);
    }
    assert(trim_start_char(b, c) == b);
    assert(trim_end_char(b, c) == b);
}

proof fn lemma_trim_start_stops(s: Seq<char>, c: char)
    ensures
        trim_start_char(s, c).len() > 0 ==> trim_start_char(s, c)[0] != c,
    decreases s.len(),
{
    if s.len() > 0 && s[0] == c {
        lemma_trim_start_stops(s.skip(1), c);
    }
}

proof fn lemma_trim_end_stops(s: Seq<char>, c: char)
    ensures
        trim_end_char(s, c).len() > 0 ==> trim_end_char(s, c).last() != c,
        trim_end_char(trim_end_char(s, c), c) == trim_end_char(s, c),
    decreases s.len(),
{
    if s.len() > 0 && s.last() == c {
        lemma_trim_end_stops(s.drop_last(), c);
    }
}

proof fn lemma_trim_end_is_prefix(s: Seq<char>, c: char)
    ensures
        trim_end_char(s, c).len() <= s.len(),
        trim_end_char(s, c) == s.take(trim_end_char(s, c).len() as int),
    decreases s.len(),
{
    if s.len() > 0 && s.last() == c {
        lemma_trim_end_is_prefix(s.drop_last(), c);
        let r = trim_end_char(s.drop_last(), c);
        assert(s.drop_last().take(r.len() as int) =~= s.take(r.len() as int));
    } else {
        assert(s.take(s.len() as int) =~= s);
    }
}

/// The value of a decimal digit character.
pub open spec fn digit_value(c: char) -> int {
    c as int - '0' as int
}

/// The number that a run of decimal digits spells.
pub open spec fn digits_value(s: Seq<char>) -> int
    decreases s.len(),
{
    if s.len() == 0 {
        0
    } else {
        digits_value(s.drop_last()) * 10 + digit_value(s.last())
    }
}

/// The number that an optionally signed run of decimal digits spells.
pub open spec fn signed_value(s: Seq<char>) -> int {
    if s.len() > 0 && s[0] == '-' {
        -digits_value(s.skip(1))
    } else {
        digits_value(s)
    }
}

proof fn lemma_digit_char_value(d: nat)
    requires
        d < 10,
    ensures
        digit_value(digit_char(d)) == d,
        '0' <= digit_char(d) <= '9',
        digit_char(d) == '0' ==> d == 0,
{
}

proof fn lemma_nat_text_reads_back(n: nat)
    ensures
        nat_text(n).len() > 0,
        forall|i: int| 0 <= i < nat_text(n).len() ==> '0' <= #[trigger] nat_text(n)[i] <= '9',
        digits_value(nat_text(n)) == n,
        nat_text(n)[0] == '0' ==> n == 0,
    decreases n,
{
    lemma_digit_char_value(n % 10);
    if n >= 10 {
        lemma_nat_text_reads_back(n / 10);
        assert(n == (n / 10) * 10 + n % 10);
        let t = nat_text(n);
        assert(t.drop_last() =~= nat_text(n / 10));
        assert(t.last() == digit_char(n % 10));
        assert(digits_value(t) == digits_value(t.drop_last()) * 10 + digit_value(t.last()));
        assert(t[0] == nat_text(n / 10)[0]);
    } else {
        let t = nat_text(n);
        assert(t.drop_last() =~= Seq::<char>::empty());
        assert(digits_value(t) == digits_value(t.drop_last()) * 10 + digit_value(t.last()));
    }
}

/// Decimal rendering is faithful: the rendering of `n` consists of an optional minus sign
/// and decimal digits without a leading zero (but for 0 itself), and reads back as `n`.
pub proof fn lemma_int_text_reads_back(n: int)
    ensures
        signed_value(int_text(n)) == n,
        forall|i: int|
            0 <= i < int_text(n).len() && (i > 0 || n >= 0) ==> '0' <= #[trigger] int_text(n)[i]
                <= '9',
        n < 0 ==> int_text(n)[0] == '-',
        n != 0 ==> int_text(n)[if n < 0 {
            1int
        } else {
            0int
        }] != '0',
{
    if n < 0 {
        let m = (-n) as nat;
        lemma_nat_text_reads_back(m);
        let t = int_text(n);
        assert(t.skip(1) =~= nat_text(m));
        assert forall|i: int| 0 <= i < t.len() && i > 0 implies '0' <= #[trigger] t[i] <= '9' by {
            assert(t[i] == nat_text(m)[i - 1]);
        }
    } else {
        lemma_nat_text_reads_back(n as nat);
    }
}

/// `pat` occurs in `s` at position `i`.
pub open spec fn occurs_at_spec(s: Seq<char>, pat: Seq<char>, i: int) -> bool {
    0 <= i && i + pat.len() <= s.len() && s.subrange(i, i + pat.len()) == pat
}

/// A template without the placeholder is left unchanged by the substitution.
pub proof fn lemma_replace_without_placeholder(s: Seq<char>, pat: Seq<char>, rep: Seq<char>)
    requires
        pat.len() > 0,
        forall|i: int| !#[trigger] occurs_at_spec(s, pat, i),
    ensures
        replace_all(s, pat, rep) == s,
    decreases s.len(),
{
    if s.len() >= pat.len() {
        assert(s.take(pat.len() as int) =~= s.subrange(0, pat.len() as int));
        assert(!occurs_at_spec(s, pat, 0));
        let r = s.skip(1);
        assert forall|i: int| !#[trigger] occurs_at_spec(r, pat, i) by {
            if occurs_at_spec(r, pat, i) {
                assert(s.subrange(i + 1, i + 1 + pat.len()) =~= r.subrange(i, i + pat.len()));
                assert(occurs_at_spec(s, pat, i + 1));
            }
        }
        lemma_replace_without_placeholder(r, pat, rep);
        assert(seq![s[0]] + r =~= s);
    }
}

/// The first occurrence of the placeholder is replaced by the whole value: where `pat`
/// does not occur in `a + pat` before the end of `a`, the substitution of `a + pat + b` is
/// `a`, then `rep`, then the substitution of `b`.
pub proof fn lemma_replace_first_occurrence(
    a: Seq<char>,
    pat: Seq<char>,
    rep: Seq<char>,
    b: Seq<char>,
)
    requires
        pat.len() > 0,
        forall|i: int| 0 <= i < a.len() ==> !#[trigger] occurs_at_spec(a + pat, pat, i),
    ensures
        replace_all(a + pat + b, pat, rep) == a + rep + replace_all(b, pat, rep),
    decreases a.len(),
{
    let s = a + pat + b;
    if a.len() == 0 {
        assert(a + pat + b =~= pat + b);
        assert(s.take(pat.len() as int) =~= pat);
        assert(s.skip(pat.len() as int) =~= b);
        assert(a + rep + replace_all(b, pat, rep) =~= rep + replace_all(b, pat, rep));
    } else {
        assert(!occurs_at_spec(a + pat, pat, 0));
        assert(s.take(pat.len() as int) =~= (a + pat).subrange(0, pat.len() as int));
        let a1 = a.skip(1);
        assert forall|i: int| 0 <= i < a1.len() implies !#[trigger] occurs_at_spec(
            a1 + pat,
            pat,
            i,
        ) by {
            assert(!occurs_at_spec(a + pat, pat, i + 1));
            assert((a1 + pat).subrange(i, i + pat.len()) =~= (a + pat).subrange(
                i + 1,
                i + 1 + pat.len(),
            ));
        }
        lemma_replace_first_occurrence(a1, pat, rep, b);
        assert(s.skip(1) =~= a1 + pat + b);
        assert(seq![a[0]] + (a1 + rep + replace_all(b, pat, rep)) =~= a + rep + replace_all(
            b,
            pat,
            rep,
        ));
    }
}

/// A template with exactly one occurrence of the placeholder, at `p`, becomes the text
/// before it, the whole value, and the text after it.
pub proof fn lemma_replace_single_occurrence(s: Seq<char>, pat: Seq<char>, rep: Seq<char>, p: int)
    requires
        pat.len() > 0,
        occurs_at_spec(s, pat, p),
        forall|i: int| i != p ==> !#[trigger] occurs_at_spec(s, pat, i),
    ensures
        replace_all(s, pat, rep) == s.take(p) + rep + s.skip(p + pat.len()),
{
    let a = s.take(p);
    let b = s.skip(p + pat.len());
    assert(a + pat + b =~= s);
    assert forall|i: int| 0 <= i < a.len() implies !#[trigger] occurs_at_spec(a + pat, pat, i) by {
        assert(!occurs_at_spec(s, pat, i));
        assert((a + pat).subrange(i, i + pat.len()) =~= s.subrange(i, i + pat.len()));
    }
    lemma_replace_first_occurrence(a, pat, rep, b);
    assert forall|i: int| !#[trigger] occurs_at_spec(b, pat, i) by {
        if occurs_at_spec(b, pat, i) {
            let j = i + p + pat.len();
            assert(s.subrange(j, j + pat.len()) =~= b.subrange(i, i + pat.len()));
            assert(occurs_at_spec(s, pat, j));
        }
    }
    lemma_replace_without_placeholder(b, pat, rep);
}

/// Narrowing an `i64` to `i32` keeps a value that fits unchanged, and keeps the low 32 bits
/// of any value.
pub proof fn lemma_i32_narrowing(n: i64)
    ensures
        i32::MIN <= n <= i32::MAX ==> n as i32 == n,
        ((n as i32) as i64 as u64) & 0xffff_ffffu64 == (n as u64) & 0xffff_ffffu64,
{
    assert(i32::MIN <= n <= i32::MAX ==> (n as i32) as i64 == n) by (bit_vector);
    assert(((n as i32) as i64 as u64) & 0xffff_ffffu64 == (n as u64) & 0xffff_ffffu64)
        by (bit_vector);
}

} // verus!
