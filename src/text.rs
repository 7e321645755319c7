//! Text helpers over character sequences: lexicographic comparison,
//! substring search, decimal rendering, and the two conversions that need
//! std's own code.

use vstd::prelude::*;

verus! {

/// Three-way lexicographic comparison of two texts by character code,
/// which is the order `str` uses (UTF-8 keeps code point order).
pub open spec fn text_cmp(a: Seq<char>, b: Seq<char>) -> int
    decreases a.len(),
{
    if a.len() == 0 {
        if b.len() == 0 {
            0
        } else {
            -1
        }
    } else if b.len() == 0 {
        1
    } else if a[0] != b[0] {
        if a[0] < b[0] {
            -1
        } else {
            1
        }
    } else {
        text_cmp(a.drop_first(), b.drop_first())
    }
}

/// `p` occurs in `t` starting at position `i`.
pub open spec fn occurs_at(t: Seq<char>, p: Seq<char>, i: int) -> bool {
    0 <= i && i + p.len() <= t.len() && t.subrange(i, i + p.len()) == p
}

/// `t` holds `p` as a contiguous run of characters.
pub open spec fn text_contains(t: Seq<char>, p: Seq<char>) -> bool {
    exists|i: int| #[trigger] occurs_at(t, p, i)
}

/// `t` begins with `p`.
pub open spec fn starts_with(t: Seq<char>, p: Seq<char>) -> bool {
    p.len() <= t.len() && t.subrange(0, p.len() as int) == p
}

/// `t` ends with `p`.
pub open spec fn ends_with(t: Seq<char>, p: Seq<char>) -> bool {
    p.len() <= t.len() && t.subrange(t.len() - p.len(), t.len() as int) == p
}

/// The character for a decimal digit.
pub open spec fn digit_char(d: int) -> char {
    if d == 0 {
        '0'
    } else if d == 1 {
        '1'
    } else if d == 2 {
        '2'
    } else if d == 3 {
        '3'
    } else if d == 4 {
        '4'
    } else if d == 5 {
        '5'
    } else if d == 6 {
        '6'
    } else if d == 7 {
        '7'
    } else if d == 8 {
        '8'
    } else {
        '9'
    }
}

/// The decimal digits of a natural number, most significant first, with no
/// leading zero.
pub open spec fn digits_of(n: nat) -> Seq<char>
    decreases n,
{
    if n < 10 {
        seq![digit_char(n as int)]
    } else {
        digits_of(n / 10) + seq![digit_char((n % 10) as int)]
    }
}

/// The decimal text of an integer, with a leading `-` when it is negative.
pub open spec fn decimal(n: int) -> Seq<char> {
    if n < 0 {
        seq!['-'] + digits_of((-n) as nat)
    } else {
        digits_of(n as nat)
    }
}

/// What `str::to_lowercase` makes of a text.
pub uninterp spec fn lower_of(s: Seq<char>) -> Seq<char>;

/// Relies on `str::to_lowercase`: the lowercase form depends on the
/// characters alone.
#[verifier::external_body]
pub(crate) fn lowercase(s: &str) -> (r: String)
    ensures
        r@ == lower_of(s@),
{
    s.to_lowercase()
}

/// Relies on `String`'s `FromIterator<char>`: the string holds exactly the
/// given characters, in order.
#[verifier::external_body]
pub(crate) fn text_from_chars(cs: &Vec<char>) -> (r: String)
    ensures
        r@ == cs@,
{
    cs.iter().collect()
}

/// The characters of a text, in order.
pub fn chars_of(s: &str) -> (r: Vec<char>)
    ensures
        r@ == s@,
{
    let mut r: Vec<char> = Vec::new();
    for c in it: s.chars()
        invariant
            r@ == it.seq().subrange(0, it.index() as int),
            it.seq() == s@,
    {
        r.push(c);
    }
    r
}

/// A string holding the given text.
pub fn string_of(s: &str) -> (r: String)
    ensures
        r@ == s@,
{
    s.to_owned()
}

/// Compares two texts; the result is the sign of `text_cmp`.
pub fn compare_text(a: &Vec<char>, b: &Vec<char>) -> (r: i8)
    ensures
        r as int == text_cmp(a@, b@),
{
    let mut i: usize = 0;
    assert(a@.subrange(0, a.len() as int) =~= a@);
    assert(b@.subrange(0, b.len() as int) =~= b@);
    while i < a.len() && i < b.len()
        invariant
            i <= a.len(),
            i <= b.len(),
            text_cmp(a@, b@) == text_cmp(
                a@.subrange(i as int, a.len() as int),
                b@.subrange(i as int, b.len() as int),
            ),
        decreases a.len() - i,
    {
        let x = a[i];
        let y = b[i];
        assert(a@.subrange(i as int, a.len() as int)[0] == x);
        assert(b@.subrange(i as int, b.len() as int)[0] == y);
        if x != y {
            if x < y {
                return -1;
            } else {
                return 1;
            }
        }
        assert(a@.subrange(i as int, a.len() as int).drop_first() =~= a@.subrange(
            i + 1,
            a.len() as int,
        ));
        assert(b@.subrange(i as int, b.len() as int).drop_first() =~= b@.subrange(
            i + 1,
            b.len() as int,
        ));
        i += 1;
    }
    if a.len() == b.len() {
        0
    } else if i == a.len() {
        -1
    } else {
        1
    }
}

/// Swapping the arguments negates the comparison.
pub proof fn lemma_text_cmp_flip(a: Seq<char>, b: Seq<char>)
    ensures
        text_cmp(a, b) == -text_cmp(b, a),
        -1 <= text_cmp(a, b) <= 1,
    decreases a.len(),
{
    if a.len() > 0 && b.len() > 0 && a[0] == b[0] {
        lemma_text_cmp_flip(a.drop_first(), b.drop_first());
    }
}

/// Two texts compare equal exactly when they are the same text.
pub proof fn lemma_text_cmp_zero(a: Seq<char>, b: Seq<char>)
    ensures
        text_cmp(a, b) == 0 <==> a == b,
    decreases a.len(),
{
    if a.len() == 0 && b.len() == 0 {
        assert(a =~= b);
    }
    if a.len() > 0 && b.len() > 0 {
        if a[0] == b[0] {
            lemma_text_cmp_zero(a.drop_first(), b.drop_first());
            if a.drop_first() == b.drop_first() {
                assert forall|i: int| 0 <= i < a.len() implies a[i] == b[i] by {
                    if i > 0 {
                        assert(a[i] == a.drop_first()[i - 1]);
                        assert(b[i] == b.drop_first()[i - 1]);
                    }
                }
                assert(a =~= b);
            }
            if a == b {
                assert(a.drop_first() =~= b.drop_first());
            }
        }
    }
}

/// The order on texts is transitive.
pub proof fn lemma_text_cmp_trans(a: Seq<char>, b: Seq<char>, c: Seq<char>)
    requires
        text_cmp(a, b) <= 0,
        text_cmp(b, c) <= 0,
    ensures
        text_cmp(a, c) <= 0,
    decreases a.len(),
{
    if a.len() > 0 && b.len() > 0 && c.len() > 0 {
        if a[0] == b[0] && b[0] == c[0] {
            lemma_text_cmp_trans(a.drop_first(), b.drop_first(), c.drop_first());
        }
    }
}

fn occurs_at_exec(t: &Vec<char>, p: &Vec<char>, i: usize) -> (r: bool)
    requires
        i + p.len() <= t.len(),
    ensures
        r == occurs_at(t@, p@, i as int),
{
    let mut j: usize = 0;
    while j < p.len()
        invariant
            j <= p.len(),
            i + p.len() <= t.len(),
            forall|k: int| 0 <= k < j ==> t@[i + k] == p@[k],
        decreases p.len() - j,
    {
        if t[i + j] != p[j] {
            assert(t@.subrange(i as int, i + p.len())[j as int] != p@[j as int]);
            return false;
        }
        j += 1;
    }
    assert(t@.subrange(i as int, i + p.len()) =~= p@);
    true
}

/// Whether `t` holds `p` as a contiguous run of characters.
pub fn contains_text(t: &Vec<char>, p: &Vec<char>) -> (r: bool)
    ensures
        r == text_contains(t@, p@),
{
    if p.len() > t.len() {
        assert forall|k: int| !occurs_at(t@, p@, k) by {}
        return false;
    }
    let last = t.len() - p.len();
    let mut i: usize = 0;
    loop
        invariant
            last == t.len() - p.len(),
            p.len() <= t.len(),
            i <= last,
            forall|k: int| 0 <= k < i ==> !#[trigger] occurs_at(t@, p@, k),
        decreases last - i,
    {
        if occurs_at_exec(t, p, i) {
            return true;
        }
        if i == last {
            assert forall|k: int| !#[trigger] occurs_at(t@, p@, k) by {
                if 0 <= k < i {
                }
            }
            return false;
        }
        i += 1;
    }
}

/// Whether `t` begins with `p`.
pub fn starts_with_text(t: &Vec<char>, p: &Vec<char>) -> (r: bool)
    ensures
        r == starts_with(t@, p@),
{
    if p.len() > t.len() {
        return false;
    }
    let r = occurs_at_exec(t, p, 0);
    r
}

/// Whether `t` ends with `p`.
pub fn ends_with_text(t: &Vec<char>, p: &Vec<char>) -> (r: bool)
    ensures
        r == ends_with(t@, p@),
{
    if p.len() > t.len() {
        return false;
    }
    let r = occurs_at_exec(t, p, t.len() - p.len());
    r
}

fn digit_exec(d: u64) -> (c: char)
    requires
        d < 10,
    ensures
        c == digit_char(d as int),
{
    if d == 0 {
        '0'
    } else if d == 1 {
        '1'
    } else if d == 2 {
        '2'
    } else if d == 3 {
        '3'
    } else if d == 4 {
        '4'
    } else if d == 5 {
        '5'
    } else if d == 6 {
        '6'
    } else if d == 7 {
        '7'
    } else if d == 8 {
        '8'
    } else {
        '9'
    }
}

/// The decimal digits of `n`.
pub fn digits_chars(n: u64) -> (r: Vec<char>)
    ensures
        r@ == digits_of(n as nat),
{
    let mut rest: u64 = n;
    let mut acc: Vec<char> = Vec::new();
    loop
        invariant
            digits_of(n as nat) == digits_of(rest as nat) + acc@,
        decreases rest,
    {
        let d = digit_exec(rest % 10);
        let ghost before = acc@;
        acc.insert(0, d);
        if rest < 10 {
            assert(acc@ =~= seq![d] + before);
            return acc;
        }
        assert(acc@ =~= seq![d] + before);
        assert(digits_of(rest as nat) == digits_of((rest / 10) as nat) + seq![d]);
        assert(digits_of((rest / 10) as nat) + seq![d] + before =~= digits_of(
            (rest / 10) as nat,
        ) + acc@);
        rest = rest / 10;
    }
}

/// The decimal text of `n`.
pub fn decimal_chars(n: i64) -> (r: Vec<char>)
    requires
        n > i64::MIN,
    ensures
        r@ == decimal(n as int),
{
    if n < 0 {
        let digits = digits_chars((-n) as u64);
        let mut r: Vec<char> = Vec::new();
        r.push('-');
        let mut i: usize = 0;
        while i < digits.len()
            invariant
                i <= digits.len(),
                r@ == seq!['-'] + digits@.subrange(0, i as int),
            decreases digits.len() - i,
        {
            r.push(digits[i]);
            assert(digits@.subrange(0, i + 1) =~= digits@.subrange(0, i as int).push(digits@[i as int]));
            assert(r@ =~= seq!['-'] + digits@.subrange(0, i + 1));
            i += 1;
        }
        assert(digits@.subrange(0, digits.len() as int) =~= digits@);
        r
    } else {
        digits_chars(n as u64)
    }
}

/// Appends the characters of `b` to `a`.
pub fn append_chars(a: &mut Vec<char>, b: &Vec<char>)
    ensures
        final(a)@ == old(a)@ + b@,
{
    let mut i: usize = 0;
    while i < b.len()
        invariant
            i <= b.len(),
            a@ == old(a)@ + b@.subrange(0, i as int),
        decreases b.len() - i,
    {
        a.push(b[i]);
        assert(b@.subrange(0, i + 1) =~= b@.subrange(0, i as int).push(b@[i as int]));
        assert(a@ =~= old(a)@ + b@.subrange(0, i + 1));
        i += 1;
    }
    assert(b@.subrange(0, b.len() as int) =~= b@);
}

} // verus!
