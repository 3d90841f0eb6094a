//! Text utilities over the character view of strings.

use vstd::prelude::*;

verus! {

/// Lexicographic order on character sequences, comparing characters by code point.
/// This is the order of `str` in Rust: UTF-8 preserves the code-point order.
pub open spec fn text_le(a: Seq<char>, b: Seq<char>) -> bool
    decreases a.len(),
{
    if a.len() == 0 {
        true
    } else if b.len() == 0 {
        false
    } else if a[0] != b[0] {
        (a[0] as int) < (b[0] as int)
    } else {
        text_le(a.drop_first(), b.drop_first())
    }
}

/// `text_le` compares position by position: the first differing character decides,
/// and a prefix is not greater than the sequence it starts.
proof fn lemma_text_le_at(a: Seq<char>, b: Seq<char>, k: int)
    requires
        0 <= k <= a.len(),
        k <= b.len(),
        forall|j: int| 0 <= j < k ==> a[j] == b[j],
    ensures
        text_le(a, b) == text_le(a.subrange(k, a.len() as int), b.subrange(k, b.len() as int)),
    decreases k,
{
    if k > 0 {
        assert(a[0] == b[0]);
        lemma_text_le_at(a.drop_first(), b.drop_first(), k - 1);
        assert(a.drop_first().subrange(k - 1, a.len() - 1) =~= a.subrange(k, a.len() as int));
        assert(b.drop_first().subrange(k - 1, b.len() - 1) =~= b.subrange(k, b.len() as int));
    } else {
        assert(a.subrange(0, a.len() as int) =~= a);
        assert(b.subrange(0, b.len() as int) =~= b);
    }
}

/// Decides `text_le` on two strings.
pub fn str_le(a: &str, b: &str) -> (res: bool)
    ensures
        res == text_le(a@, b@),
{
    let la = a.unicode_len();
    let lb = b.unicode_len();
    let mut k: usize = 0;
    while k < la && k < lb
        invariant
            la == a@.len(),
            lb == b@.len(),
            k <= la,
            k <= lb,
            forall|j: int| 0 <= j < k ==> a@[j] == b@[j],
        decreases la - k,
    {
        let ca = a.get_char(k);
        let cb = b.get_char(k);
        if ca != cb {
            proof {
                lemma_text_le_at(a@, b@, k as int);
                let sa = a@.subrange(k as int, a@.len() as int);
                let sb = b@.subrange(k as int, b@.len() as int);
                assert(sa[0] == ca && sb[0] == cb);
            }
            return (ca as u32) < (cb as u32);
        }
        k = k + 1;
    }
    proof {
        lemma_text_le_at(a@, b@, k as int);
    }
    k == la
}

/// `text_le` is total: of two texts, one is not greater than the other.
pub proof fn lemma_text_le_total(a: Seq<char>, b: Seq<char>)
    ensures
        text_le(a, b) || text_le(b, a),
    decreases a.len(),
{
    if a.len() > 0 && b.len() > 0 {
        if a[0] == b[0] {
            lemma_text_le_total(a.drop_first(), b.drop_first());
        } else {
            assert((a[0] as int) != (b[0] as int));
        }
    }
}

/// `text_le` is transitive.
pub proof fn lemma_text_le_transitive(a: Seq<char>, b: Seq<char>, c: Seq<char>)
    requires
        text_le(a, b),
        text_le(b, c),
    ensures
        text_le(a, c),
    decreases a.len(),
{
    if a.len() > 0 && b.len() > 0 && c.len() > 0 && a[0] == b[0] && b[0] == c[0] {
        lemma_text_le_transitive(a.drop_first(), b.drop_first(), c.drop_first());
    }
}

/// `text_le` is antisymmetric: two texts each not greater than the other are equal.
pub proof fn lemma_text_le_antisymmetric(a: Seq<char>, b: Seq<char>)
    requires
        text_le(a, b),
        text_le(b, a),
    ensures
        a == b,
    decreases a.len(),
{
    if a.len() > 0 && b.len() > 0 {
        lemma_text_le_antisymmetric(a.drop_first(), b.drop_first());
        assert(a =~= seq![a[0]] + a.drop_first());
        assert(b =~= seq![b[0]] + b.drop_first());
    } else {
        assert(a =~= b);
    }
}

/// `text_le` is reflexive.
pub proof fn lemma_text_le_reflexive(a: Seq<char>)
    ensures
        text_le(a, a),
    decreases a.len(),
{
    if a.len() > 0 {
        lemma_text_le_reflexive(a.drop_first());
    }
}

/// Decides whether two strings are equal.
pub fn str_eq(a: &str, b: &str) -> (res: bool)
    ensures
        res == (a@ == b@),
{
    let la = a.unicode_len();
    let lb = b.unicode_len();
    if la != lb {
        return false;
    }
    let mut k: usize = 0;
    while k < la
        invariant
            la == a@.len(),
            lb == b@.len(),
            la == lb,
            k <= la,
            forall|j: int| 0 <= j < k ==> a@[j] == b@[j],
        decreases la - k,
    {
        if a.get_char(k) != b.get_char(k) {
            return false;
        }
        k = k + 1;
    }
    assert(a@ =~= b@);
    true
}

/// A copy of a string.
pub fn copy_text(s: &str) -> (res: String)
    ensures
        res@ == s@,
{
    String::from_str(s)
}

/// A copy of an optional string.
pub fn copy_opt_text(s: &Option<String>) -> (res: Option<String>)
    ensures
        opt_view(res) == opt_view(*s),
{
    match s {
        Some(t) => Some(copy_text(t.as_str())),
        None => None,
    }
}

/// The character view of an optional string.
pub open spec fn opt_view(o: Option<String>) -> Option<Seq<char>> {
    match o {
        Some(s) => Some(s@),
        None => None,
    }
}

/// Position of the first `-` of a text; its length when there is none.
pub open spec fn first_dash(v: Seq<char>) -> int
    decreases v.len(),
{
    if v.len() == 0 {
        0
    } else if v[0] == '-' {
        0
    } else {
        1 + first_dash(v.drop_first())
    }
}

pub proof fn lemma_first_dash(v: Seq<char>)
    ensures
        0 <= first_dash(v) <= v.len(),
        first_dash(v) < v.len() ==> v[first_dash(v)] == '-',
        forall|j: int| 0 <= j < first_dash(v) ==> v[j] != '-',
    decreases v.len(),
{
    if v.len() > 0 && v[0] != '-' {
        lemma_first_dash(v.drop_first());
        assert forall|j: int| 0 <= j < first_dash(v) implies v[j] != '-' by {
            if j > 0 {
                assert(v[j] == v.drop_first()[j - 1]);
            }
        }
    }
}

/// The first two pieces of a text split at `-`: what precedes the first `-`, and what
/// lies between the first and the second `-` (or the end). The second piece is empty
/// when there is no `-`.
pub open spec fn dash_pieces(v: Seq<char>) -> (Seq<char>, Seq<char>) {
    let i = first_dash(v);
    if i == v.len() {
        (v, seq![])
    } else {
        let rest = v.subrange(i + 1, v.len() as int);
        (v.subrange(0, i), rest.subrange(0, first_dash(rest)))
    }
}

/// Position of the first `-` of `s` at or after `from`; the length of `s` when there is none.
fn find_dash(s: &str, from: usize) -> (res: usize)
    requires
        from <= s@.len(),
    ensures
        res == from + first_dash(s@.subrange(from as int, s@.len() as int)),
{
    let len = s.unicode_len();
    let mut k: usize = from;
    proof {
        lemma_first_dash(s@.subrange(from as int, s@.len() as int));
    }
    while k < len && s.get_char(k) != '-'
        invariant
            len == s@.len(),
            from <= k <= len,
            forall|j: int| from <= j < k ==> s@[j] != '-',
        decreases len - k,
    {
        k = k + 1;
    }
    proof {
        let t = s@.subrange(from as int, s@.len() as int);
        lemma_first_dash(t);
        let f = first_dash(t);
        if f < k - from {
            assert(t[f] == s@[from + f]);
        }
        if k - from < f {
            assert(t[k - from] == s@[k as int]);
        }
    }
    k
}

/// Splits a version at `-` into its first two pieces.
pub fn split_dash(s: &str) -> (res: (String, String))
    ensures
        (res.0@, res.1@) == dash_pieces(s@),
{
    let len = s.unicode_len();
    let i = find_dash(s, 0);
    proof {
        assert(s@.subrange(0, s@.len() as int) =~= s@);
        lemma_first_dash(s@);
    }
    if i == len {
        proof {
            assert(s@.subrange(0, len as int) =~= s@);
        }
        return (copy_text(s.substring_char(0, len)), String::new());
    }
    let j = find_dash(s, i + 1);
    proof {
        lemma_first_dash(s@.subrange(i + 1, s@.len() as int));
    }
    let first = copy_text(s.substring_char(0, i));
    let second = copy_text(s.substring_char(i + 1, j));
    proof {
        let rest = s@.subrange(i + 1, s@.len() as int);
        assert(rest.subrange(0, first_dash(rest)) =~= s@.subrange(i + 1, j as int));
    }
    (first, second)
}

/// An ASCII decimal digit.
pub open spec fn is_digit(c: char) -> bool {
    '0' <= c && c <= '9'
}

/// The value of a sequence of decimal digits.
pub open spec fn digits_value(s: Seq<char>) -> int
    decreases s.len(),
{
    if s.len() == 0 {
        0
    } else {
        digits_value(s.drop_last()) * 10 + (s.last() as int - '0' as int)
    }
}

/// A non-empty sequence of decimal digits.
pub open spec fn all_digits(s: Seq<char>) -> bool {
    s.len() > 0 && forall|i: int| 0 <= i < s.len() ==> is_digit(#[trigger] s[i])
}

/// The integer a text writes in decimal: an optional `+` or `-` sign followed by one
/// or more ASCII digits, and nothing else.
pub open spec fn decimal_value(s: Seq<char>) -> Option<int> {
    if s.len() > 0 && (s[0] == '+' || s[0] == '-') {
        let d = s.drop_first();
        if all_digits(d) {
            Some(if s[0] == '-' { -digits_value(d) } else { digits_value(d) })
        } else {
            None
        }
    } else if all_digits(s) {
        Some(digits_value(s))
    } else {
        None
    }
}

/// The `i32` a text writes in decimal, if it writes one in range.
pub open spec fn i32_of_text(s: Seq<char>) -> Option<i32> {
    match decimal_value(s) {
        Some(v) => if i32::MIN <= v <= i32::MAX { Some(v as i32) } else { None },
        None => None,
    }
}

/// The `i64` a text writes in decimal, if it writes one in range.
pub open spec fn i64_of_text(s: Seq<char>) -> Option<i64> {
    match decimal_value(s) {
        Some(v) => if i64::MIN <= v <= i64::MAX { Some(v as i64) } else { None },
        None => None,
    }
}

/// Parses a decimal `i32` with `str::parse`, which per std's documentation accepts an
/// optional sign followed by ASCII digits only, and fails on anything else and on
/// values out of range.
#[verifier::external_body]
pub(crate) fn parse_i32(s: &str) -> (res: Option<i32>)
    ensures
        res == i32_of_text(s@),
{
    s.parse::<i32>().ok()
}

/// Parses a decimal `i64` with `str::parse`, which per std's documentation accepts an
/// optional sign followed by ASCII digits only, and fails on anything else and on
/// values out of range.
#[verifier::external_body]
pub(crate) fn parse_i64(s: &str) -> (res: Option<i64>)
    ensures
        res == i64_of_text(s@),
{
    s.parse::<i64>().ok()
}

/// Hexadecimal digit of a value below 16, upper case when `upper`.
pub open spec fn hex_digit(v: int, upper: bool) -> char {
    if v < 10 {
        ('0' as int + v) as char
    } else if upper {
        ('A' as int + v - 10) as char
    } else {
        ('a' as int + v - 10) as char
    }
}

/// Bytes written as two hexadecimal digits each, most significant first.
pub open spec fn hex_text(data: Seq<u8>, upper: bool) -> Seq<char>
    decreases data.len(),
{
    if data.len() == 0 {
        seq![]
    } else {
        hex_text(data.drop_last(), upper) + seq![
            hex_digit(data.last() as int / 16, upper),
            hex_digit(data.last() as int % 16, upper),
        ]
    }
}

/// Hex writing takes two digits per byte.
pub proof fn lemma_hex_text_len(data: Seq<u8>, upper: bool)
    ensures
        hex_text(data, upper).len() == 2 * data.len(),
    decreases data.len(),
{
    if data.len() > 0 {
        lemma_hex_text_len(data.drop_last(), upper);
    }
}

fn hex_char(v: u8, upper: bool) -> (c: char)
    requires
        v < 16,
    ensures
        c == hex_digit(v as int, upper),
{
    if v < 10 {
        ((48 + v) as char)
    } else if upper {
        ((55 + v) as char)
    } else {
        ((87 + v) as char)
    }
}

/// Writes bytes as hexadecimal, two digits per byte.
pub fn to_hex(data: &[u8], upper: bool) -> (res: String)
    ensures
        res@ == hex_text(data@, upper),
        res@.len() == 2 * data@.len(),
{
    proof {
        lemma_hex_text_len(data@, upper);
    }
    let mut res = String::new();
    let mut i: usize = 0;
    while i < data.len()
        invariant
            i <= data@.len(),
            res@ == hex_text(data@.take(i as int), upper),
        decreases data@.len() - i,
    {
        let b = data[i];
        let hi = hex_char(b / 16, upper);
        let lo = hex_char(b % 16, upper);
        let mut pair = String::new();
        push_char(&mut pair, hi);
        push_char(&mut pair, lo);
        res.append(pair.as_str());
        proof {
            let t = data@.take(i + 1);
            assert(t.drop_last() =~= data@.take(i as int));
            assert(t.last() == b);
            assert(pair@ =~= seq![hi, lo]);
        }
        i = i + 1;
    }
    proof {
        assert(data@.take(data@.len() as int) =~= data@);
    }
    res
}

/// Appends a character with `String::push`.
#[verifier::external_body]
fn push_char(s: &mut String, c: char)
    ensures
        final(s)@ == old(s)@.push(c),
{
    s.push(c);
}

/// `p` occurs in `s` at position `i`.
pub open spec fn occurs_at(s: Seq<char>, p: Seq<char>, i: int) -> bool {
    0 <= i && i + p.len() <= s.len() && s.subrange(i, i + p.len()) == p
}

/// `p` occurs somewhere in `s`.
pub open spec fn contains_text(s: Seq<char>, p: Seq<char>) -> bool {
    exists|i: int| #[trigger] occurs_at(s, p, i)
}

/// Decides whether `p` occurs in `s`.
pub fn str_contains(s: &str, p: &str) -> (res: bool)
    ensures
        res == contains_text(s@, p@),
{
    let ls = s.unicode_len();
    let lp = p.unicode_len();
    if lp > ls {
        assert forall|i: int| !occurs_at(s@, p@, i) by {}
        return false;
    }
    let mut i: usize = 0;
    while i <= ls - lp
        invariant
            ls == s@.len(),
            lp == p@.len(),
            lp <= ls,
            i <= ls - lp + 1,
            forall|k: int| 0 <= k < i ==> !occurs_at(s@, p@, k),
        decreases ls - i,
    {
        let mut j: usize = 0;
        while j < lp && s.get_char(i + j) == p.get_char(j)
            invariant
                ls == s@.len(),
                lp == p@.len(),
                i + lp <= ls,
                j <= lp,
                forall|m: int| 0 <= m < j ==> s@[i + m] == p@[m],
            decreases lp - j,
        {
            j = j + 1;
        }
        if j == lp {
            assert(s@.subrange(i as int, i + lp) =~= p@);
            assert(occurs_at(s@, p@, i as int));
            return true;
        }
        assert(!occurs_at(s@, p@, i as int)) by {
            if occurs_at(s@, p@, i as int) {
                assert(s@.subrange(i as int, i + lp)[j as int] == s@[i + j]);
            }
        }
        i = i + 1;
    }
    assert forall|k: int| !occurs_at(s@, p@, k) by {
        if 0 <= k < i {
        }
    }
    false
}

} // verus!
