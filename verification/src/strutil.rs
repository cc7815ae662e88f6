use vstd::prelude::*;
use vstd::string::StrSliceExecFns;

verus! {

/// The whitespace characters that menu output may carry around a selection.
pub open spec fn is_space(c: char) -> bool {
    c == ' ' || c == '\t' || c == '\n' || c == '\r'
}

pub fn char_is_space(c: char) -> (r: bool)
    ensures
        r == is_space(c),
{
    c == ' ' || c == '\t' || c == '\n' || c == '\r'
}

/// An ASCII letter or digit.
pub open spec fn is_ascii_alnum(c: char) -> bool {
    (48 <= c as u32 && c as u32 <= 57) || (65 <= c as u32 && c as u32 <= 90) || (97 <= c as u32
        && c as u32 <= 122)
}

pub fn char_is_ascii_alnum(c: char) -> (r: bool)
    ensures
        r == is_ascii_alnum(c),
{
    let u = c as u32;
    (48 <= u && u <= 57) || (65 <= u && u <= 90) || (97 <= u && u <= 122)
}

/// The longest prefix of `s` whose characters all satisfy `pred`.
pub open spec fn spec_take_while(s: Seq<char>, pred: spec_fn(char) -> bool) -> Seq<char>
    decreases s.len(),
{
    if s.len() == 0 {
        s
    } else if pred(s[0]) {
        seq![s[0]] + spec_take_while(s.drop_first(), pred)
    } else {
        Seq::empty()
    }
}

/// `s` without its longest prefix of characters satisfying `pred`.
pub open spec fn spec_drop_while(s: Seq<char>, pred: spec_fn(char) -> bool) -> Seq<char>
    decreases s.len(),
{
    if s.len() == 0 {
        s
    } else if pred(s[0]) {
        spec_drop_while(s.drop_first(), pred)
    } else {
        s
    }
}

/// `s` without its longest suffix of characters satisfying `pred`.
pub open spec fn spec_drop_last_while(s: Seq<char>, pred: spec_fn(char) -> bool) -> Seq<char>
    decreases s.len(),
{
    if s.len() == 0 {
        s
    } else if pred(s.last()) {
        spec_drop_last_while(s.drop_last(), pred)
    } else {
        s
    }
}

/// `s` with surrounding whitespace removed.
pub open spec fn spec_trim(s: Seq<char>) -> Seq<char> {
    spec_drop_last_while(spec_drop_while(s, |c: char| is_space(c)), |c: char| is_space(c))
}

/// If the first `n` characters satisfy `pred` and the `n`-th (if any) does
/// not, the prefix taken is exactly the first `n` characters.
pub proof fn lemma_take_while_prefix(s: Seq<char>, pred: spec_fn(char) -> bool, n: int)
    requires
        0 <= n <= s.len(),
        forall|k: int| 0 <= k < n ==> pred(#[trigger] s[k]),
        n == s.len() || !pred(s[n]),
    ensures
        spec_take_while(s, pred) == s.take(n),
    decreases n,
{
    if n == 0 {
        assert(s.take(0) =~= Seq::empty());
        if s.len() != 0 {
            assert(!pred(s[0]));
        }
    } else {
        assert(pred(s[0]));
        let rest = s.drop_first();
        assert(forall|k: int| 0 <= k < n - 1 ==> pred(#[trigger] rest[k]));
        lemma_take_while_prefix(rest, pred, n - 1);
        assert(seq![s[0]] + rest.take(n - 1) =~= s.take(n));
    }
}

/// If the first `n` characters satisfy `pred` and the `n`-th (if any) does
/// not, dropping the prefix leaves exactly `s.skip(n)`.
pub proof fn lemma_drop_while_skip(s: Seq<char>, pred: spec_fn(char) -> bool, n: int)
    requires
        0 <= n <= s.len(),
        forall|k: int| 0 <= k < n ==> pred(#[trigger] s[k]),
        n == s.len() || !pred(s[n]),
    ensures
        spec_drop_while(s, pred) == s.skip(n),
    decreases n,
{
    if n == 0 {
        assert(s.skip(0) =~= s);
    } else {
        assert(pred(s[0]));
        let rest = s.drop_first();
        assert(forall|k: int| 0 <= k < n - 1 ==> pred(#[trigger] rest[k]));
        lemma_drop_while_skip(rest, pred, n - 1);
        assert(rest.skip(n - 1) =~= s.skip(n));
    }
}

/// If the last characters from position `n` on satisfy `pred` and the one
/// before (if any) does not, dropping the suffix leaves exactly `s.take(n)`.
pub proof fn lemma_drop_last_while_take(s: Seq<char>, pred: spec_fn(char) -> bool, n: int)
    requires
        0 <= n <= s.len(),
        forall|k: int| n <= k < s.len() ==> pred(#[trigger] s[k]),
        n == 0 || !pred(s[n - 1]),
    ensures
        spec_drop_last_while(s, pred) == s.take(n),
    decreases s.len() - n,
{
    if n == s.len() {
        if s.len() == 0 {
            assert(s.take(0) =~= s);
        } else {
            assert(!pred(s.last()));
            assert(s.take(n) =~= s);
        }
    } else {
        assert(pred(s.last()));
        let rest = s.drop_last();
        lemma_drop_last_while_take(rest, pred, n);
        assert(rest.take(n) =~= s.take(n));
    }
}

/// Character-by-character string equality, proved against the string views.
pub fn str_eq(a: &str, b: &str) -> (r: bool)
    ensures
        r == (a@ == b@),
{
    let alen = a.unicode_len();
    let blen = b.unicode_len();
    if alen != blen {
        return false;
    }
    let mut i: usize = 0;
    while i < alen
        invariant
            alen == a@.len(),
            alen == b@.len(),
            i <= alen,
            forall|j: int| 0 <= j < i ==> a@[j] == b@[j],
        decreases alen - i,
    {
        if a.get_char(i) != b.get_char(i) {
            return false;
        }
        i += 1;
    }
    proof {
        assert(a@ =~= b@);
    }
    true
}

/// Relies on `alloc::string::String::push`: appends exactly the given
/// character to the end of the string.
#[verifier::external_body]
pub(crate) fn push_char(s: &mut String, c: char)
    ensures
        final(s)@ == old(s)@.push(c),
{
    s.push(c);
}

/// A run of `n` space characters.
pub open spec fn spec_spaces(n: nat) -> Seq<char>
    decreases n,
{
    if n == 0 {
        Seq::empty()
    } else {
        spec_spaces((n - 1) as nat).push(' ')
    }
}

pub fn spaces(n: usize) -> (r: String)
    ensures
        r@ == spec_spaces(n as nat),
{
    let mut r = String::new();
    let mut i: usize = 0;
    while i < n
        invariant
            i <= n,
            r@ == spec_spaces(i as nat),
        decreases n - i,
    {
        push_char(&mut r, ' ');
        i += 1;
    }
    r
}

/// `s` with surrounding whitespace removed, as a fresh string.
pub fn trim_str(s: &str) -> (r: String)
    ensures
        r@ == spec_trim(s@),
{
    let len = s.unicode_len();
    let mut a: usize = 0;
    while a < len && char_is_space(s.get_char(a))
        invariant
            a <= len,
            len == s@.len(),
            forall|k: int| 0 <= k < a ==> is_space(#[trigger] s@[k]),
        decreases len - a,
    {
        a += 1;
    }
    proof {
        lemma_drop_while_skip(s@, |c: char| is_space(c), a as int);
    }
    let ghost mid = s@.skip(a as int);
    let mut b: usize = len;
    while b > a && char_is_space(s.get_char(b - 1))
        invariant
            a <= b <= len,
            len == s@.len(),
            forall|k: int| 0 <= k < a ==> is_space(#[trigger] s@[k]),
            forall|k: int| b <= k < len ==> is_space(#[trigger] s@[k]),
        decreases b,
    {
        b -= 1;
    }
    proof {
        assert(forall|k: int| #![auto] 0 <= k < mid.len() ==> mid[k] == s@[k + a]);
        lemma_drop_last_while_take(mid, |c: char| is_space(c), b - a);
    }
    let part = s.substring_char(a, b);
    proof {
        assert(part@ =~= mid.take(b - a));
    }
    part.to_owned()
}

/// The prefix of `s` that comes before the first occurrence of `stop`
/// (the whole of `s` when `stop` does not occur).
pub fn before_char(s: &str, stop: char) -> (r: String)
    ensures
        r@ == spec_take_while(s@, |c: char| c != stop),
{
    let len = s.unicode_len();
    let mut i: usize = 0;
    while i < len && s.get_char(i) != stop
        invariant
            i <= len,
            len == s@.len(),
            forall|k: int| 0 <= k < i ==> #[trigger] s@[k] != stop,
        decreases len - i,
    {
        i += 1;
    }
    proof {
        lemma_take_while_prefix(s@, |c: char| c != stop, i as int);
    }
    let part = s.substring_char(0, i);
    proof {
        assert(part@ =~= s@.take(i as int));
    }
    part.to_owned()
}

/// `s` without its leading run of characters that are not ASCII letters or
/// digits.
pub fn skip_to_ascii_alnum(s: &str) -> (r: String)
    ensures
        r@ == spec_drop_while(s@, |c: char| !is_ascii_alnum(c)),
{
    let len = s.unicode_len();
    let mut i: usize = 0;
    while i < len && !char_is_ascii_alnum(s.get_char(i))
        invariant
            i <= len,
            len == s@.len(),
            forall|k: int| 0 <= k < i ==> !is_ascii_alnum(#[trigger] s@[k]),
        decreases len - i,
    {
        i += 1;
    }
    proof {
        lemma_drop_while_skip(s@, |c: char| !is_ascii_alnum(c), i as int);
    }
    let part = s.substring_char(i, len);
    proof {
        assert(part@ =~= s@.skip(i as int));
    }
    part.to_owned()
}

/// `needle` occurs in `hay` starting at position `i`.
pub open spec fn spec_contains_at(hay: Seq<char>, needle: Seq<char>, i: int) -> bool {
    0 <= i && i + needle.len() <= hay.len() && hay.subrange(i, i + needle.len()) == needle
}

/// `needle` occurs somewhere in `hay`.
pub open spec fn spec_contains(hay: Seq<char>, needle: Seq<char>) -> bool {
    exists|i: int| spec_contains_at(hay, needle, i)
}

/// Substring containment, proved against the string views.
pub fn contains_str(hay: &str, needle: &str) -> (r: bool)
    ensures
        r == spec_contains(hay@, needle@),
{
    let hay_len = hay.unicode_len();
    let needle_len = needle.unicode_len();
    if needle_len > hay_len {
        proof {
            assert(forall|k: int| !spec_contains_at(hay@, needle@, k));
        }
        return false;
    }
    if needle_len == 0 {
        proof {
            assert(needle@ =~= Seq::<char>::empty());
            assert(hay@.subrange(0, 0) =~= needle@);
            assert(spec_contains_at(hay@, needle@, 0));
        }
        return true;
    }
    let mut i: usize = 0;
    while i <= hay_len - needle_len
        invariant
            1 <= needle_len <= hay_len,
            hay_len == hay@.len(),
            needle_len == needle@.len(),
            i <= hay_len - needle_len + 1,
            forall|k: int| 0 <= k < i ==> !spec_contains_at(hay@, needle@, k),
        decreases hay_len - needle_len - i + 1,
    {
        let part = hay.substring_char(i, i + needle_len);
        if str_eq(part, needle) {
            proof {
                assert(spec_contains_at(hay@, needle@, i as int));
            }
            return true;
        }
        proof {
            assert(!spec_contains_at(hay@, needle@, i as int));
        }
        i += 1;
    }
    proof {
        assert(forall|k: int| !spec_contains_at(hay@, needle@, k));
    }
    false
}

/// The decimal digit `d` as a character.
pub open spec fn spec_digit_char(d: int) -> char {
    if d == 0 {
        '0'
    } else if d == 1 {
        '1'
    } else if d == 2 {
        '2'
    } else if d == 3 {
        '3'
    } else if d == 4 {
        '4'
    } else if d == 5 {
        '5'
    } else if d == 6 {
        '6'
    } else if d == 7 {
        '7'
    } else if d == 8 {
        '8'
    } else {
        '9'
    }
}

pub fn digit_char(d: u32) -> (c: char)
    requires
        d < 10,
    ensures
        c == spec_digit_char(d as int),
{
    match d {
        0 => '0',
        1 => '1',
        2 => '2',
        3 => '3',
        4 => '4',
        5 => '5',
        6 => '6',
        7 => '7',
        8 => '8',
        _ => '9',
    }
}

/// The decimal rendering of a byte-sized number, without padding.
pub open spec fn spec_u8_decimal(b: u8) -> Seq<char> {
    if b < 10 {
        seq![spec_digit_char(b as int)]
    } else if b < 100 {
        seq![spec_digit_char(b as int / 10), spec_digit_char(b as int % 10)]
    } else {
        seq![
            spec_digit_char(b as int / 100),
            spec_digit_char(b as int / 10 % 10),
            spec_digit_char(b as int % 10),
        ]
    }
}

pub fn u8_decimal(b: u8) -> (r: String)
    ensures
        r@ == spec_u8_decimal(b),
{
    let mut r = String::new();
    if b >= 100 {
        push_char(&mut r, digit_char(b as u32 / 100));
    }
    if b >= 10 {
        push_char(&mut r, digit_char(b as u32 / 10 % 10));
    }
    push_char(&mut r, digit_char(b as u32 % 10));
    proof {
        assert(r@ =~= spec_u8_decimal(b));
    }
    r
}

} // verus!
