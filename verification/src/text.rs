//! Character-level string helpers with exact specifications.
use vstd::prelude::*;

verus! {

/// Appends one character to a `String` (`String::push`).
#[verifier::external_body]
pub(crate) fn push_char(s: &mut String, c: char)
    ensures
        final(s)@ == old(s)@.push(c),
{
    s.push(c);
}

/// The characters of a string slice, in order.
pub fn chars_of(s: &str) -> (v: Vec<char>)
    ensures
        v@ == s@,
{
    let mut v: Vec<char> = Vec::new();
    for c in it: s.chars()
        invariant
            v@ == it.seq().take(it.index() as int),
            it.seq() == s@,
    {
        v.push(c);
    }
    v
}

/// Builds a `String` holding the given characters.
pub fn string_of(cs: &Vec<char>) -> (s: String)
    ensures
        s@ == cs@,
{
    let mut s = String::new();
    let mut i: usize = 0;
    while i < cs.len()
        invariant
            i <= cs.len(),
            s@ == cs@.take(i as int),
        decreases cs.len() - i,
    {
        push_char(&mut s, cs[i]);
        assert(cs@.take(i as int).push(cs@[i as int]) == cs@.take(i + 1));
        i = i + 1;
    }
    assert(cs@.take(cs.len() as int) == cs@);
    s
}

/// Appends all characters of `t` to `out`.
pub fn append_chars(out: &mut Vec<char>, t: &Vec<char>)
    ensures
        final(out)@ == old(out)@ + t@,
{
    let mut i: usize = 0;
    while i < t.len()
        invariant
            i <= t.len(),
            out@ == old(out)@ + t@.take(i as int),
        decreases t.len() - i,
    {
        out.push(t[i]);
        assert(t@.take(i as int).push(t@[i as int]) == t@.take(i + 1));
        i = i + 1;
    }
    assert(t@.take(t.len() as int) == t@);
}

/// The concatenation of two strings.
pub fn concat_strs(a: &str, b: &str) -> (r: String)
    ensures
        r@ == a@ + b@,
{
    let mut v = chars_of(a);
    let w = chars_of(b);
    append_chars(&mut v, &w);
    string_of(&v)
}

/// Whether `p` occurs in `s` starting at position `i`.
pub open spec fn occurs_at(s: Seq<char>, i: int, p: Seq<char>) -> bool {
    0 <= i && i + p.len() <= s.len() && s.subrange(i, i + p.len()) == p
}

/// Tests [`occurs_at`].
pub fn matches_at(s: &Vec<char>, i: usize, p: &Vec<char>) -> (r: bool)
    ensures
        r == occurs_at(s@, i as int, p@),
{
    if i > s.len() || p.len() > s.len() - i {
        return false;
    }
    let mut k: usize = 0;
    while k < p.len()
        invariant
            i + p.len() <= s.len(),
            k <= p.len(),
            forall|j: int| 0 <= j < k ==> s@[i + j] == p@[j],
        decreases p.len() - k,
    {
        if s[i + k] != p[k] {
            assert(s@.subrange(i as int, i + p.len())[k as int] != p@[k as int]);
            return false;
        }
        k = k + 1;
    }
    assert(s@.subrange(i as int, i + p.len()) =~= p@);
    true
}

/// Whether the two strings are equal.
pub fn str_eq(a: &str, b: &str) -> (r: bool)
    ensures
        r == (a@ == b@),
{
    let x = chars_of(a);
    let y = chars_of(b);
    if x.len() != y.len() {
        return false;
    }
    let r = matches_at(&x, 0, &y);
    proof {
        assert(x@.subrange(0, x@.len() as int) =~= x@);
    }
    r
}

/// Whether `s` begins with `p` (`str::starts_with`).
pub fn starts_with(s: &str, p: &str) -> (r: bool)
    ensures
        r == occurs_at(s@, 0, p@),
{
    let x = chars_of(s);
    let y = chars_of(p);
    matches_at(&x, 0, &y)
}

/// Whether `s` ends with `p` (`str::ends_with`).
pub fn ends_with(s: &str, p: &str) -> (r: bool)
    ensures
        r == (p@.len() <= s@.len() && occurs_at(s@, s@.len() - p@.len(), p@)),
{
    let x = chars_of(s);
    let y = chars_of(p);
    if y.len() > x.len() {
        return false;
    }
    matches_at(&x, x.len() - y.len(), &y)
}

/// `s` with the prefix `p` removed, when `s` begins with `p` (`str::strip_prefix`).
pub fn strip_prefix(s: &str, p: &str) -> (r: Option<String>)
    ensures
        r is Some <==> occurs_at(s@, 0, p@),
        r matches Some(t) ==> t@ == s@.skip(p@.len() as int),
{
    let x = chars_of(s);
    let y = chars_of(p);
    if !matches_at(&x, 0, &y) {
        return None;
    }
    let mut out: Vec<char> = Vec::new();
    let mut i: usize = y.len();
    while i < x.len()
        invariant
            y.len() <= i <= x.len(),
            out@ == x@.subrange(y.len() as int, i as int),
        decreases x.len() - i,
    {
        out.push(x[i]);
        assert(x@.subrange(y.len() as int, i as int).push(x@[i as int]) == x@.subrange(
            y.len() as int,
            i + 1,
        ));
        i = i + 1;
    }
    assert(x@.subrange(y.len() as int, x.len() as int) == x@.skip(y.len() as int));
    Some(string_of(&out))
}

/// Whether `p` occurs anywhere in `s` (`str::contains`).
pub open spec fn contains_seq(s: Seq<char>, p: Seq<char>) -> bool {
    exists|i: int| #[trigger] occurs_at(s, i, p)
}

/// Tests [`contains_seq`].
pub fn contains(s: &str, p: &str) -> (r: bool)
    ensures
        r == contains_seq(s@, p@),
{
    let x = chars_of(s);
    let y = chars_of(p);
    if y.len() > x.len() {
        assert(forall|i: int| !#[trigger] occurs_at(x@, i, y@));
        return false;
    }
    if y.len() == 0 {
        assert(x@.subrange(0, 0) =~= y@);
        assert(occurs_at(x@, 0, y@));
        assert(contains_seq(x@, y@));
        return true;
    }
    let mut i: usize = 0;
    while y.len() <= x.len() - i
        invariant
            x@ == s@,
            y@ == p@,
            0 < y.len() <= x.len(),
            i <= x.len(),
            forall|j: int| 0 <= j < i ==> !#[trigger] occurs_at(x@, j, y@),
        decreases x.len() - i,
    {
        if matches_at(&x, i, &y) {
            assert(occurs_at(x@, i as int, y@));
            assert(contains_seq(x@, y@));
            return true;
        }
        i = i + 1;
    }
    assert forall|j: int| !#[trigger] occurs_at(x@, j, y@) by {
        if 0 <= j < i {
        }
    }
    false
}

/// `r` before each character of `s` and once more at its end: what an empty
/// pattern, which occurs at every character boundary, is replaced with.
pub open spec fn interleave(s: Seq<char>, r: Seq<char>) -> Seq<char>
    decreases s.len(),
{
    if s.len() == 0 {
        r
    } else {
        r + seq![s[0]] + interleave(s.skip(1), r)
    }
}

/// `s` with every non-overlapping occurrence of the pattern `p`, taken from
/// the left, replaced by `r` (`str::replace`). The empty pattern occurs at
/// every character boundary.
pub open spec fn replace_seq(s: Seq<char>, p: Seq<char>, r: Seq<char>) -> Seq<char>
    decreases s.len(),
{
    if p.len() == 0 {
        interleave(s, r)
    } else if s.len() == 0 {
        s
    } else if p.len() > 0 && occurs_at(s, 0, p) {
        r + replace_seq(s.skip(p.len() as int), p, r)
    } else {
        seq![s[0]] + replace_seq(s.skip(1), p, r)
    }
}

/// A text without any occurrence of the pattern is left as it is.
pub proof fn lemma_replace_absent(s: Seq<char>, p: Seq<char>, r: Seq<char>)
    requires
        p.len() > 0,
        !contains_seq(s, p),
    ensures
        replace_seq(s, p, r) == s,
    decreases s.len(),
{
    if s.len() > 0 {
        assert(!occurs_at(s, 0, p));
        assert forall|i: int| !#[trigger] occurs_at(s.skip(1), i, p) by {
            if occurs_at(s.skip(1), i, p) {
                assert(s.skip(1).subrange(i, i + p.len()) == s.subrange(i + 1, i + 1 + p.len()));
                assert(occurs_at(s, i + 1, p));
            }
        }
        lemma_replace_absent(s.skip(1), p, r);
        assert(seq![s[0]] + s.skip(1) =~= s);
    }
}

/// No character of `s` is `c`.
pub open spec fn has_no(s: Seq<char>, c: char) -> bool {
    forall|i: int| 0 <= i < s.len() ==> s[i] != c
}

/// A pattern that starts with a character the text lacks leaves it unchanged.
pub proof fn lemma_replace_missing_start(s: Seq<char>, p: Seq<char>, r: Seq<char>)
    requires
        p.len() > 0,
        has_no(s, p[0]),
    ensures
        replace_seq(s, p, r) == s,
{
    assert forall|i: int| !#[trigger] occurs_at(s, i, p) by {
        if occurs_at(s, i, p) {
            assert(s.subrange(i, i + p.len())[0] == s[i]);
        }
    }
    lemma_replace_absent(s, p, r);
}

/// A pattern does not occur in a text when it differs from the text's start
/// at some position and cannot start anywhere later: at each later position
/// one of the pattern's first two characters is missed.
pub proof fn lemma_not_contained(s: Seq<char>, p: Seq<char>, k: int)
    requires
        p.len() >= 2,
        0 <= k < p.len(),
        k < s.len(),
        s[k] != p[k],
        forall|i: int| 1 <= i && i + p.len() <= s.len() ==> #[trigger] s[i] != p[0] || s[i + 1] != p[1],
    ensures
        !contains_seq(s, p),
{
    assert forall|i: int| !#[trigger] occurs_at(s, i, p) by {
        if occurs_at(s, i, p) {
            let w = s.subrange(i, i + p.len());
            assert(w[0] == s[i]);
            assert(w[1] == s[i + 1]);
            if i == 0 {
                assert(w[k] == s[k]);
            }
        }
    }
}

/// A text that is exactly the pattern is replaced as a whole.
pub proof fn lemma_replace_whole(p: Seq<char>, r: Seq<char>)
    requires
        p.len() > 0,
    ensures
        replace_seq(p, p, r) == r,
{
    assert(p.subrange(0, p.len() as int) =~= p);
    assert(occurs_at(p, 0, p));
    assert(p.skip(p.len() as int) =~= Seq::<char>::empty());
    assert(replace_seq(Seq::<char>::empty(), p, r) == Seq::<char>::empty());
    assert(replace_seq(p, p, r) == r + replace_seq(p.skip(p.len() as int), p, r));
    assert(r + Seq::<char>::empty() =~= r);
}

/// Decimal notation holds only digits and a sign.
pub proof fn lemma_int_text_no_brace(n: int)
    ensures
        has_no(int_text(n), '{'),
{
    if n < 0 {
        lemma_nat_text_no_brace((-n) as nat);
        let t = nat_text((-n) as nat);
        assert forall|i: int| 0 <= i < int_text(n).len() implies int_text(n)[i] != '{' by {
            if i > 0 {
                assert(int_text(n)[i] == t[i - 1]);
            }
        }
    } else {
        lemma_nat_text_no_brace(n as nat);
    }
}

proof fn lemma_nat_text_no_brace(n: nat)
    ensures
        has_no(nat_text(n), '{'),
    decreases n,
{
    if n >= 10 {
        lemma_nat_text_no_brace(n / 10);
        let a = nat_text(n / 10);
        let d = digit_char((n % 10) as int);
        assert(d != '{');
        assert forall|i: int| 0 <= i < nat_text(n).len() implies nat_text(n)[i] != '{' by {
            if i < a.len() {
                assert(nat_text(n)[i] == a[i]);
            } else {
                assert(nat_text(n)[i] == d);
            }
        }
    } else {
        assert(digit_char(n as int) != '{');
    }
}

/// Replaces every occurrence of the pattern `p` in `s` by `r`.
pub fn replace(s: &str, p: &str, r: &str) -> (out: String)
    ensures
        out@ == replace_seq(s@, p@, r@),
{
    let x = chars_of(s);
    let y = chars_of(p);
    let z = chars_of(r);
    let mut out: Vec<char> = Vec::new();
    let mut i: usize = 0;
    assert(x@.skip(0) =~= x@);
    if y.len() == 0 {
        while i < x.len()
            invariant
                i <= x.len(),
                out@ + interleave(x@.skip(i as int), z@) == interleave(x@, z@),
            decreases x.len() - i,
        {
            let ghost rest = x@.skip(i as int);
            let ghost out0 = out@;
            append_chars(&mut out, &z);
            out.push(x[i]);
            i = i + 1;
            proof {
                assert(rest.skip(1) =~= x@.skip(i as int));
                assert(rest[0] == x@[i - 1]);
                assert(out@ + interleave(x@.skip(i as int), z@) =~= out0 + (z@ + seq![rest[0]]
                    + interleave(rest.skip(1), z@)));
            }
        }
        assert(x@.skip(x.len() as int) =~= Seq::<char>::empty());
        append_chars(&mut out, &z);
        return string_of(&out);
    }
    while i < x.len()
        invariant
            i <= x.len(),
            y@.len() > 0,
            out@ + replace_seq(x@.skip(i as int), y@, z@) == replace_seq(x@, y@, z@),
        decreases x.len() - i,
    {
        let ghost rest = x@.skip(i as int);
        if matches_at(&x, i, &y) {
            proof {
                assert(rest.subrange(0, y@.len() as int) =~= x@.subrange(i as int, i + y@.len()));
                assert(occurs_at(rest, 0, y@));
                assert(rest.skip(y@.len() as int) =~= x@.skip(i + y@.len()));
            }
            let ghost out0 = out@;
            append_chars(&mut out, &z);
            i = i + y.len();
            proof {
                assert(out@ + replace_seq(x@.skip(i as int), y@, z@) =~= out0 + (z@
                    + replace_seq(x@.skip(i as int), y@, z@)));
            }
        } else {
            proof {
                if y@.len() <= rest.len() {
                    assert(rest.subrange(0, y@.len() as int) =~= x@.subrange(
                        i as int,
                        i + y@.len(),
                    ));
                }
                assert(!occurs_at(rest, 0, y@));
                assert(rest.skip(1) =~= x@.skip(i + 1));
            }
            let ghost out0 = out@;
            out.push(x[i]);
            i = i + 1;
            proof {
                assert(out@ + replace_seq(x@.skip(i as int), y@, z@) =~= out0 + (seq![rest[0]]
                    + replace_seq(x@.skip(i as int), y@, z@)));
            }
        }
    }
    assert(x@.skip(x.len() as int) =~= Seq::<char>::empty());
    assert(out@ + replace_seq(x@.skip(i as int), y@, z@) =~= out@);
    string_of(&out)
}

/// The decimal digit character for `d` (`0 <= d < 10`).
pub open spec fn digit_char(d: int) -> char {
    ((d + 48) as u32) as char
}

/// The decimal notation of a natural number, without leading zeros.
pub open spec fn nat_text(n: nat) -> Seq<char>
    decreases n,
{
    if n < 10 {
        seq![digit_char(n as int)]
    } else {
        nat_text(n / 10) + seq![digit_char((n % 10) as int)]
    }
}

/// The decimal notation of an integer, as `Display` prints it.
pub open spec fn int_text(n: int) -> Seq<char> {
    if n < 0 {
        seq!['-'] + nat_text((-n) as nat)
    } else {
        nat_text(n as nat)
    }
}

fn digit_of(d: u64) -> (c: char)
    requires
        d < 10,
    ensures
        c == digit_char(d as int),
{
    if d == 0 { '0' } else if d == 1 { '1' } else if d == 2 { '2' } else if d == 3 { '3' }
    else if d == 4 { '4' } else if d == 5 { '5' } else if d == 6 { '6' } else if d == 7 { '7' }
    else if d == 8 { '8' } else { '9' }
}

fn push_nat_digits(n: u64, out: &mut Vec<char>)
    ensures
        final(out)@ == old(out)@ + nat_text(n as nat),
    decreases n,
{
    if n < 10 {
        out.push(digit_of(n));
        assert(old(out)@.push(digit_char(n as int)) =~= old(out)@ + seq![digit_char(n as int)]);
    } else {
        push_nat_digits(n / 10, out);
        let ghost mid = out@;
        out.push(digit_of(n % 10));
        assert(mid.push(digit_char((n % 10) as int)) =~= old(out)@ + nat_text(n as nat));
    }
}

/// The decimal notation of a signed integer (`i64::to_string`).
pub fn int_to_text(n: i64) -> (s: String)
    ensures
        s@ == int_text(n as int),
{
    let mut out: Vec<char> = Vec::new();
    if n < 0 {
        out.push('-');
        let m: u64 = if n == i64::MIN {
            9_223_372_036_854_775_808u64
        } else {
            (-n) as u64
        };
        push_nat_digits(m, &mut out);
        assert(out@ =~= seq!['-'] + nat_text(m as nat));
    } else {
        push_nat_digits(n as u64, &mut out);
        assert(out@ =~= nat_text(n as nat));
    }
    string_of(&out)
}

/// The decimal notation of an unsigned integer (`u64::to_string`).
pub fn nat_to_text(n: u64) -> (s: String)
    ensures
        s@ == nat_text(n as nat),
{
    let mut out: Vec<char> = Vec::new();
    push_nat_digits(n, &mut out);
    assert(out@ =~= nat_text(n as nat));
    string_of(&out)
}

/// ASCII letters folded to lower case; every other character unchanged.
pub open spec fn ascii_lower(c: char) -> char {
    if 'A' <= c <= 'Z' {
        ((c as u32) + 32) as char
    } else {
        c
    }
}

/// Equal up to the case of ASCII letters (`str::eq_ignore_ascii_case`).
pub open spec fn eq_ignore_ascii_case_seq(a: Seq<char>, b: Seq<char>) -> bool {
    a.len() == b.len() && forall|i: int| 0 <= i < a.len() ==> ascii_lower(#[trigger] a[i]) == ascii_lower(b[i])
}

fn lower_char(c: char) -> (r: char)
    ensures
        r == ascii_lower(c),
{
    if 'A' <= c && c <= 'Z' {
        let v: u32 = c as u32 + 32;
        char_from_ascii(v)
    } else {
        c
    }
}

fn char_from_ascii(v: u32) -> (c: char)
    requires
        97 <= v <= 122,
    ensures
        c == v as char,
{
    let b: u8 = v as u8;
    b as char
}

/// Tests [`eq_ignore_ascii_case_seq`].
pub fn eq_ignore_ascii_case(a: &str, b: &str) -> (r: bool)
    ensures
        r == eq_ignore_ascii_case_seq(a@, b@),
{
    let x = chars_of(a);
    let y = chars_of(b);
    if x.len() != y.len() {
        return false;
    }
    let mut i: usize = 0;
    while i < x.len()
        invariant
            x@ == a@,
            y@ == b@,
            x.len() == y.len(),
            i <= x.len(),
            forall|j: int| 0 <= j < i ==> ascii_lower(#[trigger] x@[j]) == ascii_lower(y@[j]),
        decreases x.len() - i,
    {
        if lower_char(x[i]) != lower_char(y[i]) {
            return false;
        }
        i = i + 1;
    }
    true
}

/// Unicode white space, as `char::is_whitespace` decides it.
pub open spec fn is_white(c: char) -> bool {
    ||| c == '\t' || c == '\n' || c == '\u{0B}' || c == '\u{0C}' || c == '\r' || c == ' '
    ||| c == '\u{85}' || c == '\u{A0}' || c == '\u{1680}'
    ||| ('\u{2000}' <= c && c <= '\u{200A}')
    ||| c == '\u{2028}' || c == '\u{2029}' || c == '\u{202F}' || c == '\u{205F}' || c == '\u{3000}'
}

fn white(c: char) -> (r: bool)
    ensures
        r == is_white(c),
{
    c == '\t' || c == '\n' || c == '\u{0B}' || c == '\u{0C}' || c == '\r' || c == ' ' || c == '\u{85}'
        || c == '\u{A0}' || c == '\u{1680}' || ('\u{2000}' <= c && c <= '\u{200A}') || c == '\u{2028}'
        || c == '\u{2029}' || c == '\u{202F}' || c == '\u{205F}' || c == '\u{3000}'
}

/// The number of white-space characters that `s` begins with.
pub open spec fn leading_white(s: Seq<char>) -> nat
    decreases s.len(),
{
    if s.len() == 0 || !is_white(s[0]) {
        0
    } else {
        1 + leading_white(s.drop_first())
    }
}

/// The number of white-space characters that `s` ends with.
pub open spec fn trailing_white(s: Seq<char>) -> nat
    decreases s.len(),
{
    if s.len() == 0 || !is_white(s.last()) {
        0
    } else {
        1 + trailing_white(s.drop_last())
    }
}

/// `s` without leading and trailing white space (`str::trim`).
pub open spec fn trimmed(s: Seq<char>) -> Seq<char> {
    let t = s.skip(leading_white(s) as int);
    t.take(t.len() - trailing_white(t))
}

proof fn lemma_leading_white(s: Seq<char>, i: int)
    requires
        0 <= i <= s.len(),
        forall|j: int| 0 <= j < i ==> is_white(#[trigger] s[j]),
        i == s.len() || !is_white(s[i]),
    ensures
        leading_white(s) == i,
    decreases i,
{
    if i > 0 {
        let t = s.drop_first();
        assert forall|j: int| 0 <= j < i - 1 implies is_white(#[trigger] t[j]) by {
            assert(t[j] == s[j + 1]);
        }
        lemma_leading_white(t, i - 1);
    }
}

proof fn lemma_trailing_white(s: Seq<char>, k: int)
    requires
        0 <= k <= s.len(),
        forall|j: int| s.len() - k <= j < s.len() ==> is_white(#[trigger] s[j]),
        k == s.len() || !is_white(s[s.len() - k - 1]),
    ensures
        trailing_white(s) == k,
    decreases k,
{
    if k > 0 {
        let t = s.drop_last();
        assert forall|j: int| t.len() - (k - 1) <= j < t.len() implies is_white(#[trigger] t[j]) by {
            assert(t[j] == s[j]);
        }
        lemma_trailing_white(t, k - 1);
    }
}

/// Removes leading and trailing white space.
pub fn trim_chars(s: &Vec<char>) -> (r: Vec<char>)
    ensures
        r@ == trimmed(s@),
{
    let mut a: usize = 0;
    while a < s.len() && white(s[a])
        invariant
            a <= s.len(),
            forall|j: int| 0 <= j < a ==> is_white(#[trigger] s@[j]),
        decreases s.len() - a,
    {
        a = a + 1;
    }
    proof {
        lemma_leading_white(s@, a as int);
    }
    let ghost t = s@.skip(a as int);
    let mut b: usize = s.len();
    while b > a && white(s[b - 1])
        invariant
            a <= b <= s.len(),
            t == s@.skip(a as int),
            forall|j: int| b <= j < s.len() ==> is_white(#[trigger] s@[j]),
        decreases b - a,
    {
        b = b - 1;
    }
    proof {
        assert forall|j: int| t.len() - (s.len() - b) <= j < t.len() implies is_white(#[trigger] t[j]) by {
            assert(t[j] == s@[j + a]);
        }
        if b > a {
            assert(t[t.len() - (s.len() - b) - 1] == s@[b - 1]);
        }
        lemma_trailing_white(t, (s.len() - b) as int);
    }
    let mut out: Vec<char> = Vec::new();
    let mut i: usize = a;
    while i < b
        invariant
            a <= i <= b <= s.len(),
            out@ == s@.subrange(a as int, i as int),
        decreases b - i,
    {
        out.push(s[i]);
        assert(s@.subrange(a as int, i as int).push(s@[i as int]) =~= s@.subrange(a as int, i + 1));
        i = i + 1;
    }
    assert(out@ =~= trimmed(s@));
    out
}

/// `s` cut at every `sep` (`str::split` with a character), keeping empty pieces.
pub open spec fn split_seq(s: Seq<char>, sep: char) -> Seq<Seq<char>>
    decreases s.len(),
{
    if s.len() == 0 {
        seq![Seq::<char>::empty()]
    } else {
        let r = split_seq(s.drop_last(), sep);
        if s.last() == sep {
            r.push(Seq::<char>::empty())
        } else {
            r.update(r.len() - 1, r.last().push(s.last()))
        }
    }
}

proof fn lemma_split_nonempty(s: Seq<char>, sep: char)
    ensures
        split_seq(s, sep).len() >= 1,
    decreases s.len(),
{
    if s.len() > 0 {
        lemma_split_nonempty(s.drop_last(), sep);
    }
}

/// The pieces of `s` between the separators.
pub fn split_chars(s: &Vec<char>, sep: char) -> (r: Vec<Vec<char>>)
    ensures
        r@.len() == split_seq(s@, sep).len(),
        forall|i: int| 0 <= i < r@.len() ==> #[trigger] r@[i]@ == split_seq(s@, sep)[i],
{
    let mut parts: Vec<Vec<char>> = Vec::new();
    let mut cur: Vec<char> = Vec::new();
    let mut i: usize = 0;
    assert(s@.take(0) =~= Seq::<char>::empty());
    while i < s.len()
        invariant
            i <= s.len(),
            parts@.len() + 1 == split_seq(s@.take(i as int), sep).len(),
            forall|j: int| 0 <= j < parts@.len() ==> #[trigger] parts@[j]@ == split_seq(s@.take(i as int), sep)[j],
            cur@ == split_seq(s@.take(i as int), sep).last(),
        decreases s.len() - i,
    {
        let ghost prev = split_seq(s@.take(i as int), sep);
        assert(s@.take(i + 1).drop_last() =~= s@.take(i as int));
        assert(s@.take(i + 1).last() == s@[i as int]);
        proof {
            lemma_split_nonempty(s@.take(i as int), sep);
        }
        if s[i] == sep {
            parts.push(cur);
            cur = Vec::new();
        } else {
            cur.push(s[i]);
        }
        i = i + 1;
    }
    assert(s@.take(s.len() as int) =~= s@);
    proof {
        lemma_split_nonempty(s@, sep);
    }
    let ghost before = parts@;
    parts.push(cur);
    assert forall|j: int| 0 <= j < parts@.len() implies #[trigger] parts@[j]@ == split_seq(s@, sep)[j] by {
        if j < before.len() {
            assert(parts@[j] == before[j]);
        }
    }
    parts
}

} // verus!
