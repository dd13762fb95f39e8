//! Character-level building blocks for the terminal output: decimal
//! numbers, escape sequences and appending to `String`s.
use vstd::prelude::*;

verus! {

/// The character of a decimal digit `d` (0..=9).
pub open spec fn digit_char(d: int) -> char {
    (48 + d) as char
}

/// The decimal notation of `n`, without leading zeros.
pub open spec fn decimal(n: nat) -> Seq<char>
    decreases n,
{
    if n < 10 {
        seq![digit_char(n as int)]
    } else {
        decimal(n / 10).push(digit_char((n % 10) as int))
    }
}

/// Appends one character (`String::push`).
#[verifier::external_body]
pub(crate) fn push_char(s: &mut String, c: char)
    ensures
        final(s)@ == old(s)@.push(c),
{
    s.push(c)
}

/// The digit character for `d`.
pub fn digit(d: u8) -> (c: char)
    requires
        d < 10,
    ensures
        c == digit_char(d as int),
{
    let code: u8 = 48 + d;
    code as char
}

/// Appends the decimal notation of `n`.
pub fn push_decimal(s: &mut String, n: u64)
    ensures
        final(s)@ == old(s)@ + decimal(n as nat),
    decreases n,
{
    if n >= 10 {
        push_decimal(s, n / 10);
    }
    let d = (n % 10) as u8;
    push_char(s, digit(d));
    proof {
        if n >= 10 {
            assert(decimal(n as nat) == decimal((n / 10) as nat).push(digit_char((n % 10) as int)));
        }
    }
}

/// Appends every character of `extra`.
pub fn push_chars(s: &mut String, extra: &Vec<char>)
    ensures
        final(s)@ == old(s)@ + extra@,
{
    let ghost start = s@;
    let mut i: usize = 0;
    while i < extra.len()
        invariant
            i <= extra.len(),
            s@ == start + extra@.subrange(0, i as int),
        decreases extra.len() - i,
    {
        push_char(s, extra[i]);
        assert(extra@.subrange(0, (i + 1) as int) == extra@.subrange(0, i as int).push(extra@[i as int]));
        i = i + 1;
    }
    assert(extra@.subrange(0, extra.len() as int) == extra@);
}

} // verus!

verus! {

/// Whether `code` is a Unicode scalar value (what `char` can hold).
pub open spec fn is_scalar_value(code: u32) -> bool {
    code < 0xD800 || (0xE000 <= code && code <= 0x10FFFF)
}

/// `char::from_u32`: the character with code point `code`, or `None` when
/// `code` is a surrogate or above `0x10FFFF`, as std documents it.
#[verifier::external_body]
pub(crate) fn char_from_u32(code: u32) -> (r: Option<char>)
    ensures
        is_scalar_value(code) ==> r == Some(code as char),
        !is_scalar_value(code) ==> r is None,
{
    char::from_u32(code)
}

} // verus!

verus! {

/// What `str::to_lowercase` returns for a string (Unicode lowercase mapping).
pub uninterp spec fn lowercase_of(s: Seq<char>) -> Seq<char>;

/// `str::to_lowercase`, handed back as its characters; the result is
/// `lowercase_of` of the argument (std fixes the mapping, so equal inputs give
/// equal outputs).
#[verifier::external_body]
pub(crate) fn lowercase_chars(s: &str) -> (r: Vec<char>)
    ensures
        r@ == lowercase_of(s@),
{
    s.to_lowercase().chars().collect()
}

/// A `String` holding exactly the characters `cs`.
pub fn string_of(cs: &Vec<char>) -> (s: String)
    ensures
        s@ == cs@,
{
    let mut s = String::new();
    push_chars(&mut s, cs);
    s
}

/// The characters of `s`, in order.
pub fn chars_of(s: &str) -> (r: Vec<char>)
    ensures
        r@ == s@,
{
    let n = s.unicode_len();
    let mut r: Vec<char> = Vec::new();
    let mut i: usize = 0;
    while i < n
        invariant
            i <= n,
            n == s@.len(),
            r@ == s@.subrange(0, i as int),
        decreases n - i,
    {
        r.push(s.get_char(i));
        assert(s@.subrange(0, i + 1) == s@.subrange(0, i as int).push(s@[i as int]));
        i = i + 1;
    }
    assert(s@.subrange(0, n as int) == s@);
    r
}

/// Whether `a` sorts after `b` in code-point order (how `String`s compare:
/// UTF-8 byte order is code-point order).
pub open spec fn chars_after(a: Seq<char>, b: Seq<char>) -> bool
    decreases a.len(),
{
    if a.len() == 0 {
        false
    } else if b.len() == 0 {
        true
    } else if (a[0] as u32) != (b[0] as u32) {
        (a[0] as u32) > (b[0] as u32)
    } else {
        chars_after(a.drop_first(), b.drop_first())
    }
}

proof fn lemma_prefix_order(a: Seq<char>, b: Seq<char>)
    ensures
        b.len() < a.len() && a.take(b.len() as int) == b ==> chars_after(a, b),
        a.len() <= b.len() && b.take(a.len() as int) == a ==> !chars_after(a, b),
    decreases a.len(),
{
    if a.len() > 0 && b.len() > 0 {
        let a1 = a.drop_first();
        let b1 = b.drop_first();
        if b.len() < a.len() && a.take(b.len() as int) == b {
            assert(a[0] == b[0]) by {
                assert(a.take(b.len() as int)[0] == a[0]);
            }
            assert(a1.take(b1.len() as int) == b1) by {
                assert forall|k: int| 0 <= k < b1.len() implies #[trigger] a1.take(b1.len() as int)[k] == b1[k] by {
                    assert(a.take(b.len() as int)[k + 1] == a[k + 1]);
                }
                assert(a1.take(b1.len() as int) =~= b1);
            }
        }
        if a.len() <= b.len() && b.take(a.len() as int) == a {
            assert(a[0] == b[0]) by {
                assert(b.take(a.len() as int)[0] == b[0]);
            }
            assert(b1.take(a1.len() as int) == a1) by {
                assert forall|k: int| 0 <= k < a1.len() implies #[trigger] b1.take(a1.len() as int)[k] == a1[k] by {
                    assert(b.take(a.len() as int)[k + 1] == b[k + 1]);
                }
                assert(b1.take(a1.len() as int) =~= a1);
            }
        }
        lemma_prefix_order(a1, b1);
    }
}

proof fn lemma_first_difference(a: Seq<char>, b: Seq<char>, i: int)
    requires
        0 <= i < a.len(),
        i < b.len(),
        a.take(i) == b.take(i),
        a[i] != b[i],
    ensures
        chars_after(a, b) == ((a[i] as u32) > (b[i] as u32)),
    decreases i,
{
    if i > 0 {
        assert(a[0] == b[0]) by {
            assert(a.take(i)[0] == a[0]);
            assert(b.take(i)[0] == b[0]);
        }
        let a1 = a.drop_first();
        let b1 = b.drop_first();
        assert(a1.take(i - 1) == b1.take(i - 1)) by {
            assert forall|k: int| 0 <= k < i - 1 implies #[trigger] a1.take(i - 1)[k] == b1.take(i - 1)[k] by {
                assert(a.take(i)[k + 1] == a[k + 1]);
                assert(b.take(i)[k + 1] == b[k + 1]);
                assert(a.take(i)[k + 1] == b.take(i)[k + 1]);
            }
            assert(a1.take(i - 1) =~= b1.take(i - 1));
        }
        lemma_first_difference(a1, b1, i - 1);
    } else {
        vstd::utf8::char_u32_cast(a[0], a[0] as u32);
        vstd::utf8::char_u32_cast(b[0], b[0] as u32);
    }
}

/// `chars_after` is the lexicographic order of code points (the order of
/// `String`s): a proper prefix sorts before the longer sequence, no sequence
/// sorts after itself, and otherwise the first position where the two differ
/// decides, by the larger code point.
pub proof fn chars_after_is_lexicographic(a: Seq<char>, b: Seq<char>)
    ensures
        b.len() < a.len() && a.take(b.len() as int) == b ==> chars_after(a, b) && !chars_after(b, a),
        !chars_after(a, a),
        forall|i: int|
            #![trigger a[i], b[i]]
            0 <= i < a.len() && i < b.len() && a.take(i) == b.take(i) && a[i] != b[i] ==> (chars_after(a, b)
                <==> (a[i] as u32) > (b[i] as u32)),
{
    lemma_prefix_order(a, b);
    lemma_prefix_order(b, a);
    lemma_prefix_order(a, a);
    assert(a.take(a.len() as int) == a);
    assert forall|i: int|
        #![trigger a[i], b[i]]
        0 <= i < a.len() && i < b.len() && a.take(i) == b.take(i) && a[i] != b[i] implies (chars_after(a, b)
            <==> (a[i] as u32) > (b[i] as u32)) by {
        lemma_first_difference(a, b, i);
    }
}

/// Whether `a` sorts after `b`, compared character by character.
pub fn chars_after_exec(a: &Vec<char>, b: &Vec<char>) -> (r: bool)
    ensures
        r == chars_after(a@, b@),
{
    let mut i: usize = 0;
    assert(a@.skip(0) == a@);
    assert(b@.skip(0) == b@);
    while i < a.len() && i < b.len() && (a[i] as u32) == (b[i] as u32)
        invariant
            i <= a.len(),
            i <= b.len(),
            chars_after(a@, b@) == chars_after(a@.skip(i as int), b@.skip(i as int)),
        decreases a.len() - i,
    {
        assert(a@.skip(i as int).drop_first() == a@.skip(i + 1));
        assert(b@.skip(i as int).drop_first() == b@.skip(i + 1));
        i = i + 1;
    }
    if i == a.len() {
        false
    } else if i == b.len() {
        true
    } else {
        (a[i] as u32) > (b[i] as u32)
    }
}

} // verus!

verus! {

/// A `String` holding `prefix` followed by `value`.
pub fn labeled(prefix: &str, value: &Vec<char>) -> (s: String)
    ensures
        s@ == prefix@ + value@,
{
    let mut s = String::from_str(prefix);
    push_chars(&mut s, value);
    s
}

/// A `String` holding `prefix` followed by `value`.
pub fn labeled_str(prefix: &str, value: &str) -> (s: String)
    ensures
        s@ == prefix@ + value@,
{
    let mut s = String::from_str(prefix);
    s.append(value);
    s
}

} // verus!

verus! {

/// Whether `needle` occurs in `hay` as a contiguous run (`str::contains`).
pub open spec fn has_substring(hay: Seq<char>, needle: Seq<char>) -> bool {
    exists|i: int| 0 <= i && i + needle.len() <= hay.len() && #[trigger] hay.subrange(i, i + needle.len()) == needle
}

fn matches_at(hay: &Vec<char>, needle: &Vec<char>, i: usize) -> (r: bool)
    requires
        i + needle@.len() <= hay@.len(),
    ensures
        r == (hay@.subrange(i as int, i + needle@.len()) == needle@),
{
    let hl = hay.len();
    let mut j: usize = 0;
    while j < needle.len()
        invariant
            hl == hay@.len(),
            j <= needle@.len(),
            i + needle@.len() <= hay@.len(),
            forall|k: int| 0 <= k < j ==> hay@[i + k] == needle@[k],
        decreases needle@.len() - j,
    {
        if hay[i + j] != needle[j] {
            assert(hay@.subrange(i as int, i + needle@.len())[j as int] != needle@[j as int]);
            return false;
        }
        j = j + 1;
    }
    assert(hay@.subrange(i as int, i + needle@.len()) == needle@);
    true
}

/// Whether `needle` occurs in `hay`.
pub fn contains_chars(hay: &Vec<char>, needle: &Vec<char>) -> (r: bool)
    ensures
        r == has_substring(hay@, needle@),
{
    if needle.len() > hay.len() {
        return false;
    }
    let last = hay.len() - needle.len();
    let mut i: usize = 0;
    loop
        invariant
            i <= last,
            last + needle@.len() == hay@.len(),
            forall|k: int| 0 <= k < i ==> #[trigger] hay@.subrange(k, k + needle@.len()) != needle@,
        decreases last - i,
    {
        if matches_at(hay, needle, i) {
            return true;
        }
        if i == last {
            assert forall|k: int| 0 <= k && k + needle@.len() <= hay@.len() implies #[trigger] hay@.subrange(
                k,
                k + needle@.len(),
            ) != needle@ by {
                assert(k <= last);
            }
            return false;
        }
        i = i + 1;
    }
}

} // verus!
