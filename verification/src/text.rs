//! Character-level string operations used by the template renderer.
//!
//! Text is modelled as `Seq<char>` (the view of `str` and `String`). Each
//! operation has a short recursive specification and an executable
//! implementation proved against it.
use vstd::prelude::*;

verus! {

// ---------------------------------------------------------------------------
// Specifications
// ---------------------------------------------------------------------------

/// `pat` occurs in `s` starting at index `i`.
pub open spec fn occurs_at(s: Seq<char>, i: int, pat: Seq<char>) -> bool {
    0 <= i && i + pat.len() <= s.len() && s.subrange(i, i + pat.len()) == pat
}

/// `pat` occurs somewhere in `s` (the empty pattern occurs in every text).
pub open spec fn has_substring(s: Seq<char>, pat: Seq<char>) -> bool {
    exists|i: int| occurs_at(s, i, pat)
}

/// Every non-overlapping occurrence of `pat` in `s`, scanned from the left,
/// replaced by `rep`. Only meaningful for a non-empty `pat`.
pub open spec fn replaced(s: Seq<char>, pat: Seq<char>, rep: Seq<char>) -> Seq<char>
    decreases s.len(),
{
    if pat.len() == 0 || s.len() < pat.len() {
        s
    } else if s.take(pat.len() as int) == pat {
        rep + replaced(s.skip(pat.len() as int), pat, rep)
    } else {
        seq![s[0]] + replaced(s.drop_first(), pat, rep)
    }
}

/// The first occurrence of `pat` in `s` replaced by `rep`; `s` itself when
/// `pat` does not occur.
pub open spec fn first_replaced(s: Seq<char>, pat: Seq<char>, rep: Seq<char>) -> Seq<char>
    decreases s.len(),
{
    if s.len() < pat.len() {
        s
    } else if s.take(pat.len() as int) == pat {
        rep + s.skip(pat.len() as int)
    } else if s.len() == 0 {
        s
    } else {
        seq![s[0]] + first_replaced(s.drop_first(), pat, rep)
    }
}

/// The characters that `char::is_whitespace` accepts: Unicode `White_Space`.
pub open spec fn is_white(c: char) -> bool {
    ||| '\u{9}' <= c <= '\u{d}'
    ||| c == ' '
    ||| c == '\u{85}'
    ||| c == '\u{a0}'
    ||| c == '\u{1680}'
    ||| '\u{2000}' <= c <= '\u{200a}'
    ||| c == '\u{2028}'
    ||| c == '\u{2029}'
    ||| c == '\u{202f}'
    ||| c == '\u{205f}'
    ||| c == '\u{3000}'
}

/// `s` without its leading whitespace.
pub open spec fn trimmed_start(s: Seq<char>) -> Seq<char>
    decreases s.len(),
{
    if s.len() > 0 && is_white(s[0]) {
        trimmed_start(s.drop_first())
    } else {
        s
    }
}

/// `s` without its trailing whitespace.
pub open spec fn trimmed_end(s: Seq<char>) -> Seq<char>
    decreases s.len(),
{
    if s.len() > 0 && is_white(s.last()) {
        trimmed_end(s.drop_last())
    } else {
        s
    }
}

/// `s` without leading and trailing whitespace (`str::trim`).
pub open spec fn trimmed(s: Seq<char>) -> Seq<char> {
    trimmed_end(trimmed_start(s))
}

/// The ASCII digit for `d < 10`.
pub open spec fn digit_char(d: nat) -> char {
    (48 + d) as char
}

/// The decimal representation of `n`, as `usize`'s `Display` writes it.
pub open spec fn decimal(n: nat) -> Seq<char>
    decreases n,
{
    if n < 10 {
        seq![digit_char(n)]
    } else {
        decimal(n / 10).push(digit_char(n % 10))
    }
}

/// The number of occurrences of the character `c` in `s`.
pub open spec fn count_char(s: Seq<char>, c: char) -> nat
    decreases s.len(),
{
    if s.len() == 0 {
        0
    } else {
        count_char(s.drop_last(), c) + if s.last() == c {
            1nat
        } else {
            0nat
        }
    }
}

// ---------------------------------------------------------------------------
// Lemmas
// ---------------------------------------------------------------------------

/// Counting a character distributes over concatenation.
pub proof fn lemma_count_concat(a: Seq<char>, b: Seq<char>, c: char)
    ensures
        count_char(a + b, c) == count_char(a, c) + count_char(b, c),
    decreases b.len(),
{
    if b.len() == 0 {
        assert(a + b =~= a);
    } else {
        lemma_count_concat(a, b.drop_last(), c);
        assert((a + b).drop_last() =~= a + b.drop_last());
    }
}

/// A character occurs no more often than the text is long.
pub proof fn lemma_count_le_len(s: Seq<char>, c: char)
    ensures
        count_char(s, c) <= s.len(),
    decreases s.len(),
{
    if s.len() > 0 {
        lemma_count_le_len(s.drop_last(), c);
    }
}

/// The count of a single character.
pub proof fn lemma_count_single(x: char, c: char)
    ensures
        count_char(seq![x], c) == if x == c {
            1nat
        } else {
            0nat
        },
{
    reveal_with_fuel(count_char, 2);
    assert(seq![x].drop_last() =~= Seq::<char>::empty());
}

/// A text that starts with `c` holds at least one `c`.
pub proof fn lemma_count_first(s: Seq<char>, c: char)
    requires
        s.len() > 0,
        s[0] == c,
    ensures
        count_char(s, c) >= 1,
{
    lemma_count_concat(seq![s[0]], s.drop_first(), c);
    lemma_count_single(s[0], c);
    assert(seq![s[0]] + s.drop_first() =~= s);
}

/// Decimal representations are made of digits only, so they hold no `{`.
pub proof fn lemma_decimal_no_brace(n: nat)
    ensures
        count_char(decimal(n), '{') == 0,
        decimal(n).len() > 0,
    decreases n,
{
    if n < 10 {
        lemma_count_single(digit_char(n), '{');
    } else {
        lemma_decimal_no_brace(n / 10);
        assert(decimal(n).drop_last() =~= decimal(n / 10));
    }
}

/// Moving the scan one character to the right keeps the occurrences that
/// start after the first character.
pub proof fn lemma_has_substring_tail(s: Seq<char>, pat: Seq<char>)
    requires
        s.len() > 0,
        !occurs_at(s, 0, pat),
    ensures
        has_substring(s, pat) == has_substring(s.drop_first(), pat),
{
    let t = s.drop_first();
    if has_substring(s, pat) {
        let i = choose|i: int| occurs_at(s, i, pat);
        assert(i != 0);
        assert(t.subrange(i - 1, i - 1 + pat.len()) =~= s.subrange(i, i + pat.len()));
        assert(occurs_at(t, i - 1, pat));
    }
    if has_substring(t, pat) {
        let j = choose|j: int| occurs_at(t, j, pat);
        assert(t.subrange(j, j + pat.len()) =~= s.subrange(j + 1, j + 1 + pat.len()));
        assert(occurs_at(s, j + 1, pat));
    }
}

/// A text shorter than the pattern does not hold it.
pub proof fn lemma_short_has_no_substring(s: Seq<char>, pat: Seq<char>)
    requires
        s.len() < pat.len(),
    ensures
        !has_substring(s, pat),
{
}

/// Replacing a pattern that starts with `{` by text without `{` never adds
/// a `{`, removes at least one when the pattern occurs, and changes nothing
/// when it does not.
pub proof fn lemma_replaced_braces(s: Seq<char>, pat: Seq<char>, rep: Seq<char>)
    requires
        pat.len() > 0,
        pat[0] == '{',
        count_char(rep, '{') == 0,
    ensures
        count_char(replaced(s, pat, rep), '{') <= count_char(s, '{'),
        has_substring(s, pat) ==> count_char(replaced(s, pat, rep), '{') < count_char(s, '{'),
        !has_substring(s, pat) ==> replaced(s, pat, rep) == s,
    decreases s.len(),
{
    let k = pat.len() as int;
    if s.len() < pat.len() {
        lemma_short_has_no_substring(s, pat);
    } else if s.take(k) == pat {
        let rest = s.skip(k);
        lemma_replaced_braces(rest, pat, rep);
        lemma_count_concat(rep, replaced(rest, pat, rep), '{');
        assert(s.take(k) + rest =~= s);
        lemma_count_concat(s.take(k), rest, '{');
        lemma_count_first(pat, '{');
        assert(s.subrange(0, k) =~= s.take(k));
        assert(occurs_at(s, 0, pat));
    } else {
        let rest = s.drop_first();
        assert(s.subrange(0, k) =~= s.take(k));
        lemma_has_substring_tail(s, pat);
        lemma_replaced_braces(rest, pat, rep);
        lemma_count_concat(seq![s[0]], replaced(rest, pat, rep), '{');
        lemma_count_concat(seq![s[0]], rest, '{');
        assert(seq![s[0]] + rest =~= s);
    }
}

/// Replacing the first occurrence of a pattern that occurs trades the
/// pattern's characters for those of the replacement.
pub proof fn lemma_first_replaced_count(s: Seq<char>, pat: Seq<char>, rep: Seq<char>, c: char)
    requires
        has_substring(s, pat),
    ensures
        count_char(first_replaced(s, pat, rep), c) + count_char(pat, c) == count_char(s, c)
            + count_char(rep, c),
    decreases s.len(),
{
    let k = pat.len() as int;
    if s.len() < pat.len() {
        lemma_short_has_no_substring(s, pat);
    } else if s.take(k) == pat {
        let rest = s.skip(k);
        lemma_count_concat(rep, rest, c);
        assert(s.take(k) + rest =~= s);
        lemma_count_concat(s.take(k), rest, c);
    } else {
        assert(s.subrange(0, k) =~= s.take(k));
        if s.len() == 0 {
            assert(s.take(k) =~= pat);
        }
        let rest = s.drop_first();
        lemma_has_substring_tail(s, pat);
        lemma_first_replaced_count(rest, pat, rep, c);
        lemma_count_concat(seq![s[0]], first_replaced(rest, pat, rep), c);
        lemma_count_concat(seq![s[0]], rest, c);
        assert(seq![s[0]] + rest =~= s);
    }
}

/// When the first occurrence of `pat` is at `i`, it is the one replaced.
pub proof fn lemma_first_replaced_at(s: Seq<char>, pat: Seq<char>, rep: Seq<char>, i: int)
    requires
        occurs_at(s, i, pat),
        forall|j: int| 0 <= j < i ==> !occurs_at(s, j, pat),
    ensures
        first_replaced(s, pat, rep) == s.take(i) + rep + s.skip(i + pat.len()),
    decreases i,
{
    let k = pat.len() as int;
    assert(s.subrange(0, k) =~= s.take(k));
    if i == 0 {
        assert(s.take(0) + rep =~= rep);
    } else {
        assert(!occurs_at(s, 0, pat));
        let t = s.drop_first();
        assert(t.subrange(i - 1, i - 1 + k) =~= s.subrange(i, i + k));
        assert forall|j: int| 0 <= j < i - 1 implies !occurs_at(t, j, pat) by {
            assert(t.subrange(j, j + k) =~= s.subrange(j + 1, j + 1 + k));
            assert(!occurs_at(s, j + 1, pat));
        }
        lemma_first_replaced_at(t, pat, rep, i - 1);
        assert(seq![s[0]] + (t.take(i - 1) + rep + t.skip(i - 1 + k)) =~= s.take(i) + rep + s.skip(
            i + k,
        ));
    }
}

/// Replacing the first occurrence of an absent pattern changes nothing.
pub proof fn lemma_first_replaced_none(s: Seq<char>, pat: Seq<char>, rep: Seq<char>)
    requires
        !has_substring(s, pat),
    ensures
        first_replaced(s, pat, rep) == s,
    decreases s.len(),
{
    let k = pat.len() as int;
    if s.len() >= pat.len() {
        assert(s.subrange(0, k) =~= s.take(k));
        assert(!occurs_at(s, 0, pat));
        if s.len() > 0 {
            lemma_has_substring_tail(s, pat);
            lemma_first_replaced_none(s.drop_first(), pat, rep);
            assert(seq![s[0]] + s.drop_first() =~= s);
        }
    }
}

// ---------------------------------------------------------------------------
// Executable operations
// ---------------------------------------------------------------------------

/// Appends one character by calling `String::push`, which is trusted to put
/// `c` after the existing characters of `s` and change nothing else.
#[verifier::external_body]
fn push_char(s: &mut String, c: char)
    ensures
        final(s)@ == old(s)@.push(c),
{
    s.push(c);
}

/// The characters of `s`.
pub fn chars_of(s: &str) -> (v: Vec<char>)
    ensures
        v@ == s@,
{
    let mut v: Vec<char> = Vec::new();
    for c in it: s.chars()
        invariant
            v@ == it.seq().take(it.index() as int),
            it.seq() == s@,
    {
        v.push(c);
    }
    v
}

/// Appends the characters `cs` to `out`.
pub fn push_chars(out: &mut String, cs: &Vec<char>)
    ensures
        final(out)@ == old(out)@ + cs@,
{
    let ghost start = out@;
    let mut i: usize = 0;
    while i < cs.len()
        invariant
            i <= cs@.len(),
            out@ == start + cs@.take(i as int),
        decreases cs@.len() - i,
    {
        push_char(out, cs[i]);
        assert(cs@.take((i + 1) as int) =~= cs@.take(i as int).push(cs@[i as int]));
        i = i + 1;
    }
    assert(cs@.take(i as int) =~= cs@);
}

/// Two character sequences are equal.
pub fn chars_eq(a: &Vec<char>, b: &Vec<char>) -> (r: bool)
    ensures
        r == (a@ == b@),
{
    if a.len() != b.len() {
        return false;
    }
    let mut i: usize = 0;
    while i < a.len()
        invariant
            a@.len() == b@.len(),
            i <= a@.len(),
            forall|j: int| 0 <= j < i ==> a@[j] == b@[j],
        decreases a@.len() - i,
    {
        if a[i] != b[i] {
            return false;
        }
        i = i + 1;
    }
    assert(a@ =~= b@);
    true
}

/// `pat` occurs in `s` at index `i`.
pub fn occurs_at_index(s: &Vec<char>, i: usize, pat: &Vec<char>) -> (r: bool)
    ensures
        r == occurs_at(s@, i as int, pat@),
{
    if i > s.len() || pat.len() > s.len() - i {
        return false;
    }
    let mut j: usize = 0;
    while j < pat.len()
        invariant
            i + pat@.len() <= s@.len(),
            j <= pat@.len(),
            forall|k: int| 0 <= k < j ==> s@[i + k] == pat@[k],
        decreases pat@.len() - j,
    {
        assert(i + j < s.len());
        if s[i + j] != pat[j] {
            assert(s@.subrange(i as int, i + pat@.len())[j as int] != pat@[j as int]);
            return false;
        }
        j = j + 1;
    }
    assert(s@.subrange(i as int, i + pat@.len()) =~= pat@);
    true
}

/// `pat` occurs somewhere in `s` (`str::contains`).
pub fn contains(s: &Vec<char>, pat: &Vec<char>) -> (r: bool)
    ensures
        r == has_substring(s@, pat@),
{
    let mut i: usize = 0;
    while i < s.len()
        invariant
            i <= s@.len(),
            forall|j: int| 0 <= j < i ==> !occurs_at(s@, j, pat@),
        decreases s@.len() - i,
    {
        if occurs_at_index(s, i, pat) {
            return true;
        }
        i = i + 1;
    }
    occurs_at_index(s, i, pat)
}

/// Every occurrence of `pat` replaced by `rep` (`str::replace`).
pub fn replace_all(s: &Vec<char>, pat: &Vec<char>, rep: &Vec<char>) -> (r: Vec<char>)
    requires
        pat@.len() > 0,
    ensures
        r@ == replaced(s@, pat@, rep@),
{
    let mut out: Vec<char> = Vec::new();
    let mut i: usize = 0;
    assert(s@.skip(0) =~= s@);
    while i < s.len()
        invariant
            pat@.len() > 0,
            i <= s@.len(),
            out@ + replaced(s@.skip(i as int), pat@, rep@) == replaced(s@, pat@, rep@),
        decreases s@.len() - i,
    {
        let ghost rest = s@.skip(i as int);
        if occurs_at_index(s, i, pat) {
            assert(rest.take(pat@.len() as int) =~= s@.subrange(i as int, i + pat@.len()));
            assert(rest.skip(pat@.len() as int) =~= s@.skip(i + pat@.len()));
            let mut j: usize = 0;
            let ghost before = out@;
            while j < rep.len()
                invariant
                    j <= rep@.len(),
                    out@ == before + rep@.take(j as int),
                decreases rep@.len() - j,
            {
                out.push(rep[j]);
                assert(rep@.take((j + 1) as int) =~= rep@.take(j as int).push(rep@[j as int]));
                j = j + 1;
            }
            assert(rep@.take(j as int) =~= rep@);
            assert(out@ + replaced(s@.skip(i + pat@.len()), pat@, rep@) =~= before + (rep@
                + replaced(rest.skip(pat@.len() as int), pat@, rep@)));
            i = i + pat.len();
        } else {
            proof {
                if rest.len() >= pat@.len() {
                    assert(rest.take(pat@.len() as int) =~= s@.subrange(i as int, i + pat@.len()));
                }
                assert(rest.drop_first() =~= s@.skip(i + 1));
                if rest.len() < pat@.len() {
                    // the rest is copied unchanged
                    assert(replaced(rest, pat@, rep@) == rest);
                    assert(rest.drop_first().len() < pat@.len());
                    assert(replaced(rest.drop_first(), pat@, rep@) == rest.drop_first());
                    assert(rest =~= seq![s@[i as int]] + rest.drop_first());
                }
            }
            let ghost before = out@;
            out.push(s[i]);
            assert(out@ + replaced(s@.skip(i + 1), pat@, rep@) =~= before + (seq![s@[i as int]]
                + replaced(rest.drop_first(), pat@, rep@)));
            i = i + 1;
        }
    }
    assert(s@.skip(i as int) =~= Seq::<char>::empty());
    assert(out@ + Seq::<char>::empty() =~= out@);
    out
}

/// The first occurrence of `pat` replaced by `rep` (`str::replacen` with a
/// count of one).
pub fn replace_first(s: &Vec<char>, pat: &Vec<char>, rep: &Vec<char>) -> (r: Vec<char>)
    ensures
        r@ == first_replaced(s@, pat@, rep@),
{
    let mut i: usize = 0;
    let mut found = false;
    while i < s.len()
        invariant_except_break
            !found,
        invariant
            i <= s@.len(),
            forall|j: int| 0 <= j < i ==> !occurs_at(s@, j, pat@),
        ensures
            i <= s@.len(),
            forall|j: int| 0 <= j < i ==> !occurs_at(s@, j, pat@),
            found ==> occurs_at(s@, i as int, pat@),
            !found ==> i == s@.len(),
        decreases s@.len() - i,
    {
        if occurs_at_index(s, i, pat) {
            found = true;
            break;
        }
        i = i + 1;
    }
    if !found {
        found = occurs_at_index(s, i, pat);
    }
    if !found {
        proof {
            assert forall|j: int| !occurs_at(s@, j, pat@) by {
                if 0 <= j < i {
                } else if j == i {
                } else {
                }
            }
            lemma_first_replaced_none(s@, pat@, rep@);
        }
        let mut out: Vec<char> = Vec::new();
        let mut k: usize = 0;
        while k < s.len()
            invariant
                k <= s@.len(),
                out@ == s@.take(k as int),
            decreases s@.len() - k,
        {
            out.push(s[k]);
            assert(s@.take(k + 1) =~= s@.take(k as int).push(s@[k as int]));
            k = k + 1;
        }
        assert(s@.take(k as int) =~= s@);
        return out;
    }
    proof {
        lemma_first_replaced_at(s@, pat@, rep@, i as int);
    }
    let mut out: Vec<char> = Vec::new();
    let mut k: usize = 0;
    while k < i
        invariant
            k <= i,
            i <= s@.len(),
            out@ == s@.take(k as int),
        decreases i - k,
    {
        out.push(s[k]);
        assert(s@.take(k + 1) =~= s@.take(k as int).push(s@[k as int]));
        k = k + 1;
    }
    let mut j: usize = 0;
    while j < rep.len()
        invariant
            j <= rep@.len(),
            out@ == s@.take(i as int) + rep@.take(j as int),
        decreases rep@.len() - j,
    {
        out.push(rep[j]);
        assert(rep@.take((j + 1) as int) =~= rep@.take(j as int).push(rep@[j as int]));
        j = j + 1;
    }
    assert(rep@.take(j as int) =~= rep@);
    assert(i + pat.len() <= s.len());
    let mut m: usize = i + pat.len();
    while m < s.len()
        invariant
            i + pat@.len() <= m <= s@.len(),
            out@ == s@.take(i as int) + rep@ + s@.subrange(i + pat@.len(), m as int),
        decreases s@.len() - m,
    {
        out.push(s[m]);
        assert(s@.subrange(i + pat@.len(), m + 1) =~= s@.subrange(i + pat@.len(), m as int).push(
            s@[m as int],
        ));
        m = m + 1;
    }
    assert(s@.subrange(i + pat@.len(), s@.len() as int) =~= s@.skip(i + pat@.len()));
    out
}

/// `char::is_whitespace`.
pub fn is_whitespace(c: char) -> (r: bool)
    ensures
        r == is_white(c),
{
    ('\u{9}' <= c && c <= '\u{d}') || c == ' ' || c == '\u{85}' || c == '\u{a0}' || c
        == '\u{1680}' || ('\u{2000}' <= c && c <= '\u{200a}') || c == '\u{2028}' || c
        == '\u{2029}' || c == '\u{202f}' || c == '\u{205f}' || c == '\u{3000}'
}

/// `s` without leading and trailing whitespace (`str::trim`).
pub fn trim(s: &Vec<char>) -> (r: Vec<char>)
    ensures
        r@ == trimmed(s@),
{
    let mut a: usize = 0;
    assert(s@.skip(0) =~= s@);
    while a < s.len() && is_whitespace(s[a])
        invariant
            a <= s@.len(),
            trimmed_start(s@) == trimmed_start(s@.skip(a as int)),
        decreases s@.len() - a,
    {
        assert(s@.skip(a as int).drop_first() =~= s@.skip(a + 1));
        a = a + 1;
    }
    let ghost front = s@.skip(a as int);
    assert(trimmed_start(front) == front);
    let mut b: usize = s.len();
    while b > a && is_whitespace(s[b - 1])
        invariant
            a <= b <= s@.len(),
            front == s@.skip(a as int),
            trimmed_end(front) == trimmed_end(s@.subrange(a as int, b as int)),
        decreases b - a,
    {
        assert(s@.subrange(a as int, b as int).drop_last() =~= s@.subrange(a as int, b - 1));
        b = b - 1;
    }
    if b == s.len() {
        assert(s@.subrange(a as int, b as int) =~= front);
    }
    let mut out: Vec<char> = Vec::new();
    let mut k: usize = a;
    while k < b
        invariant
            a <= k <= b,
            b <= s@.len(),
            out@ == s@.subrange(a as int, k as int),
        decreases b - k,
    {
        out.push(s[k]);
        assert(s@.subrange(a as int, k + 1) =~= s@.subrange(a as int, k as int).push(
            s@[k as int],
        ));
        k = k + 1;
    }
    out
}

/// The digit character for `d < 10`.
fn digit(d: usize) -> (c: char)
    requires
        d < 10,
    ensures
        c == digit_char(d as nat),
{
    let b: u8 = 48 + d as u8;
    b as char
}

/// Appends the decimal representation of `n` to `out`.
pub fn push_decimal(out: &mut Vec<char>, n: usize)
    ensures
        final(out)@ == old(out)@ + decimal(n as nat),
    decreases n,
{
    if n >= 10 {
        push_decimal(out, n / 10);
    }
    let ghost mid = out@;
    out.push(digit(n % 10));
    if n >= 10 {
        assert(decimal(n as nat) == decimal((n / 10) as nat).push(digit_char((n % 10) as nat)));
        assert(out@ =~= old(out)@ + decimal(n as nat));
    } else {
        assert(out@ =~= old(out)@ + decimal(n as nat));
    }
}

} // verus!
