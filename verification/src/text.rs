//! Character sequences: the order of names, blank text, and small builders.

use vstd::prelude::*;
use vstd::string::*;

verus! {

/// `String::push` of the standard library appends one character to the end
/// of the string and leaves the characters before it as they were.
pub assume_specification[ String::push ](s: &mut String, ch: char)
    ensures
        final(s)@ == old(s)@.push(ch),
;

/// How one name stands to another in the order of names.
#[derive(Debug, Clone, Copy, PartialEq, Eq, Structural)]
pub enum Rank {
    Before,
    Same,
    After,
}

/// `a` and `b` hold the same characters at every index below `k`.
pub open spec fn agree_before(a: Seq<char>, b: Seq<char>, k: int) -> bool {
    &&& 0 <= k <= a.len()
    &&& k <= b.len()
    &&& forall|i: int| 0 <= i < k ==> a[i] == b[i]
}

/// `k` is the first index at which `a` and `b` part, and `a` is the smaller
/// there: it has ended, or holds the character with the lower code point.
pub open spec fn parts_below(a: Seq<char>, b: Seq<char>, k: int) -> bool {
    &&& agree_before(a, b, k)
    &&& k < b.len()
    &&& (k == a.len() || a[k] < b[k])
}

/// The lexicographic order of names by code point: `a` comes strictly before `b`.
pub open spec fn lex_lt(a: Seq<char>, b: Seq<char>) -> bool {
    exists|k: int| parts_below(a, b, k)
}

/// No name comes before itself.
pub proof fn lemma_lex_irreflexive(a: Seq<char>)
    ensures
        !lex_lt(a, a),
{
    assert forall|k: int| !parts_below(a, a, k) by {}
}

/// The order of names is transitive.
pub proof fn lemma_lex_transitive(a: Seq<char>, b: Seq<char>, c: Seq<char>)
    requires
        lex_lt(a, b),
        lex_lt(b, c),
    ensures
        lex_lt(a, c),
{
    let k1 = choose|k: int| parts_below(a, b, k);
    let k2 = choose|k: int| parts_below(b, c, k);
    let k = if k1 <= k2 { k1 } else { k2 };
    assert(parts_below(a, c, k));
}

/// Of two names that come one before the other, only one does.
pub proof fn lemma_lex_asymmetric(a: Seq<char>, b: Seq<char>)
    requires
        lex_lt(a, b),
    ensures
        !lex_lt(b, a),
        a != b,
{
    lemma_lex_irreflexive(a);
    if lex_lt(b, a) {
        lemma_lex_transitive(a, b, a);
    }
}

/// Two names are equal, or one comes before the other.
pub proof fn lemma_lex_total(a: Seq<char>, b: Seq<char>)
    ensures
        a == b || lex_lt(a, b) || lex_lt(b, a),
{
    lemma_lex_total_from(a, b, 0);
}

proof fn lemma_lex_total_from(a: Seq<char>, b: Seq<char>, k: int)
    requires
        agree_before(a, b, k),
    ensures
        a == b || lex_lt(a, b) || lex_lt(b, a),
    decreases a.len() - k,
{
    if k == a.len() {
        if k == b.len() {
            assert(a =~= b);
        } else {
            assert(parts_below(a, b, k));
        }
    } else if k == b.len() {
        assert(agree_before(b, a, k));
        assert(parts_below(b, a, k));
    } else if a[k] == b[k] {
        lemma_lex_total_from(a, b, k + 1);
    } else if a[k] < b[k] {
        assert(parts_below(a, b, k));
    } else {
        assert(agree_before(b, a, k));
        assert(parts_below(b, a, k));
    }
}

/// The characters of a string, in order.
pub fn chars_of(s: &str) -> (v: Vec<char>)
    ensures
        v@ == s@,
{
    let mut v: Vec<char> = Vec::new();
    for c in it: s.chars()
        invariant
            v@.len() == it.index(),
            forall|j: int| 0 <= j < v@.len() ==> v@[j] == it.seq()[j],
            it.seq() == s@,
    {
        v.push(c);
    }
    v
}

/// The string made of the characters `v[from..to]`.
pub fn string_of(v: &Vec<char>, from: usize, to: usize) -> (s: String)
    requires
        from <= to <= v@.len(),
    ensures
        s@ == v@.subrange(from as int, to as int),
{
    let mut s = String::new();
    let mut i: usize = from;
    while i < to
        invariant
            from <= i <= to,
            to <= v@.len(),
            s@ == v@.subrange(from as int, i as int),
        decreases to - i,
    {
        s.push(v[i]);
        i += 1;
        assert(s@ =~= v@.subrange(from as int, i as int));
    }
    s
}

/// Where `a` stands to `b` in the order of names.
pub fn rank(a: &str, b: &str) -> (r: Rank)
    ensures
        r == Rank::Before <==> lex_lt(a@, b@),
        r == Rank::Same <==> a@ == b@,
        r == Rank::After <==> lex_lt(b@, a@),
{
    let x = chars_of(a);
    let y = chars_of(b);
    let mut i: usize = 0;
    while i < x.len() && i < y.len()
        invariant
            x@ == a@,
            y@ == b@,
            agree_before(x@, y@, i as int),
        decreases x.len() - i,
    {
        if x[i] != y[i] {
            if x[i] < y[i] {
                proof {
                    assert(parts_below(a@, b@, i as int));
                    lemma_lex_asymmetric(a@, b@);
                }
                return Rank::Before;
            } else {
                proof {
                    assert(agree_before(b@, a@, i as int));
                    assert(parts_below(b@, a@, i as int));
                    lemma_lex_asymmetric(b@, a@);
                }
                return Rank::After;
            }
        }
        i += 1;
    }
    if x.len() == y.len() {
        proof {
            assert(a@ =~= b@);
            lemma_lex_irreflexive(a@);
        }
        Rank::Same
    } else if x.len() < y.len() {
        proof {
            assert(parts_below(a@, b@, i as int));
            lemma_lex_asymmetric(a@, b@);
        }
        Rank::Before
    } else {
        proof {
            assert(agree_before(b@, a@, i as int));
            assert(parts_below(b@, a@, i as int));
            lemma_lex_asymmetric(b@, a@);
        }
        Rank::After
    }
}

/// Whether `a` and `b` hold the same characters.
pub fn same_text(a: &str, b: &str) -> (same: bool)
    ensures
        same == (a@ == b@),
{
    rank(a, b) == Rank::Same
}

/// The characters that count as white space: those of Unicode's property
/// `White_Space`.
pub open spec fn is_space(c: char) -> bool {
    let n = c as u32;
    ||| 0x09 <= n <= 0x0D
    ||| n == 0x20
    ||| n == 0x85
    ||| n == 0xA0
    ||| n == 0x1680
    ||| 0x2000 <= n <= 0x200A
    ||| n == 0x2028
    ||| n == 0x2029
    ||| n == 0x202F
    ||| n == 0x205F
    ||| n == 0x3000
}

/// A text is blank when nothing but white space is in it.
pub open spec fn is_blank(text: Seq<char>) -> bool {
    forall|i: int| 0 <= i < text.len() ==> is_space(#[trigger] text[i])
}

/// Whether `c` is white space.
pub fn char_is_space(c: char) -> (b: bool)
    ensures
        b == is_space(c),
{
    let n: u32 = c as u32;
    (0x09 <= n && n <= 0x0D) || n == 0x20 || n == 0x85 || n == 0xA0 || n == 0x1680 || (0x2000 <= n
        && n <= 0x200A) || n == 0x2028 || n == 0x2029 || n == 0x202F || n == 0x205F || n == 0x3000
}

/// Whether nothing would be left of `s` once white space is trimmed from both ends.
pub fn str_is_blank(s: &str) -> (b: bool)
    ensures
        b == is_blank(s@),
{
    let v = chars_of(s);
    let mut i: usize = 0;
    while i < v.len()
        invariant
            v@ == s@,
            i <= v.len(),
            forall|j: int| 0 <= j < i ==> is_space(#[trigger] v@[j]),
        decreases v.len() - i,
    {
        if !char_is_space(v[i]) {
            return false;
        }
        i += 1;
    }
    true
}

/// `head` followed by `tail`.
pub fn join(head: &str, tail: &str) -> (s: String)
    ensures
        s@ == head@ + tail@,
{
    let mut s = String::from_str(head);
    s.append(tail);
    s
}

/// A copy of an optional text.
pub fn copy_label(label: &Option<String>) -> (copy: Option<String>)
    ensures
        copy.deep_view() == label.deep_view(),
{
    match label {
        Some(text) => Some(text.clone()),
        None => None,
    }
}

/// A copy of a list of numbers.
pub fn copy_ids(ids: &Vec<usize>) -> (copy: Vec<usize>)
    ensures
        copy@ == ids@,
{
    let mut copy: Vec<usize> = Vec::new();
    let mut i: usize = 0;
    while i < ids.len()
        invariant
            i <= ids.len(),
            copy@ == ids@.subrange(0, i as int),
        decreases ids.len() - i,
    {
        copy.push(ids[i]);
        i += 1;
        assert(copy@ =~= ids@.subrange(0, i as int));
    }
    assert(ids@.subrange(0, ids@.len() as int) =~= ids@);
    copy
}

/// A copy of a list of bytes.
pub fn copy_bytes(bytes: &Vec<u8>) -> (copy: Vec<u8>)
    ensures
        copy@ == bytes@,
{
    let mut copy: Vec<u8> = Vec::new();
    let mut i: usize = 0;
    while i < bytes.len()
        invariant
            i <= bytes.len(),
            copy@ == bytes@.subrange(0, i as int),
        decreases bytes.len() - i,
    {
        copy.push(bytes[i]);
        i += 1;
        assert(copy@ =~= bytes@.subrange(0, i as int));
    }
    assert(bytes@.subrange(0, bytes@.len() as int) =~= bytes@);
    copy
}

/// A copy of a list of pairs of texts.
pub fn copy_pairs(pairs: &Vec<(String, String)>) -> (copy: Vec<(String, String)>)
    ensures
        copy.deep_view() == pairs.deep_view(),
{
    let mut copy: Vec<(String, String)> = Vec::new();
    let mut i: usize = 0;
    while i < pairs.len()
        invariant
            i <= pairs.len(),
            copy@.len() == i,
            forall|j: int| 0 <= j < i ==> copy@[j].deep_view() == pairs@[j].deep_view(),
        decreases pairs.len() - i,
    {
        copy.push((pairs[i].0.clone(), pairs[i].1.clone()));
        i += 1;
    }
    assert(copy.deep_view() =~= pairs.deep_view());
    copy
}

/// The character that writes the digit `d`.
pub open spec fn digit(d: int) -> char {
    if d == 0 {
        '0'
    } else if d == 1 {
        '1'
    } else if d == 2 {
        '2'
    } else if d == 3 {
        '3'
    } else if d == 4 {
        '4'
    } else if d == 5 {
        '5'
    } else if d == 6 {
        '6'
    } else if d == 7 {
        '7'
    } else if d == 8 {
        '8'
    } else {
        '9'
    }
}

/// The number `n` written in decimal, without leading zeros.
pub open spec fn digits(n: nat) -> Seq<char>
    decreases n,
{
    if n < 10 {
        seq![digit(n as int)]
    } else {
        digits(n / 10).push(digit((n % 10) as int))
    }
}

/// The digits of `n` that stand before those already written: all of them
/// while something of `n` is left, none once nothing is.
spec fn digits_left(n: nat) -> Seq<char> {
    if n > 0 {
        digits(n)
    } else {
        Seq::empty()
    }
}

fn digit_char(d: u64) -> (c: char)
    requires
        d < 10,
    ensures
        c == digit(d as int),
{
    if d == 0 {
        '0'
    } else if d == 1 {
        '1'
    } else if d == 2 {
        '2'
    } else if d == 3 {
        '3'
    } else if d == 4 {
        '4'
    } else if d == 5 {
        '5'
    } else if d == 6 {
        '6'
    } else if d == 7 {
        '7'
    } else if d == 8 {
        '8'
    } else {
        '9'
    }
}

/// Writes `n` in decimal.
pub fn decimal(n: u64) -> (text: String)
    ensures
        text@ == digits(n as nat),
{
    let mut low_first: Vec<char> = Vec::new();
    let mut rest: u64 = n;
    if n == 0 {
        low_first.push('0');
    }
    assert(digits(n as nat) =~= digits_left(rest as nat) + low_first@.reverse());
    while rest > 0
        invariant
            digits(n as nat) == digits_left(rest as nat) + low_first@.reverse(),
        decreases rest,
    {
        let ghost written = low_first@;
        let d: u64 = rest % 10;
        low_first.push(digit_char(d));
        proof {
            let next = (rest / 10) as nat;
            assert(low_first@.reverse() =~= seq![digit(d as int)] + written.reverse());
            assert(digits(rest as nat) =~= digits_left(next) + seq![digit(d as int)]);
            assert(digits(n as nat) =~= digits_left(next) + low_first@.reverse());
        }
        rest = rest / 10;
    }
    let mut text = String::new();
    let mut i: usize = low_first.len();
    assert(text@ =~= low_first@.reverse().subrange(0, 0));
    while i > 0
        invariant
            i <= low_first.len(),
            text@ == low_first@.reverse().subrange(0, low_first.len() - i),
        decreases i,
    {
        i -= 1;
        text.push(low_first[i]);
        assert(text@ =~= low_first@.reverse().subrange(0, low_first.len() - i));
    }
    assert(low_first@.reverse().subrange(0, low_first.len() as int) =~= low_first@.reverse());
    assert(digits(n as nat) =~= low_first@.reverse());
    text
}

/// The whole number `n` written in decimal, with a minus sign before it
/// where it is below zero.
pub open spec fn signed_digits(n: int) -> Seq<char> {
    if n < 0 {
        seq!['-'] + digits((-n) as nat)
    } else {
        digits(n as nat)
    }
}

/// Writes the whole number `n` in decimal.
pub fn decimal_signed(n: i64) -> (text: String)
    ensures
        text@ == signed_digits(n as int),
{
    if n < 0 {
        let below: u64 = if n == i64::MIN {
            9223372036854775808u64
        } else {
            (-n) as u64
        };
        proof {
            reveal_strlit("-");
        }
        let text = join("-", decimal(below).as_str());
        assert(text@ =~= signed_digits(n as int));
        text
    } else {
        decimal(n as u64)
    }
}

} // verus!
