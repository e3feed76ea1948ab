//! Character-level helpers over `&str`: Unicode white space, blank text,
//! white-space word splitting and unsigned decimal fields.
use vstd::prelude::*;

verus! {

/// The characters with the Unicode `White_Space` property, which is what
/// `char::is_whitespace` tests.
pub open spec fn is_space(c: char) -> bool {
    ||| ('\u{9}' <= c && c <= '\u{d}')
    ||| c == ' '
    ||| c == '\u{85}'
    ||| c == '\u{a0}'
    ||| c == '\u{1680}'
    ||| ('\u{2000}' <= c && c <= '\u{200a}')
    ||| c == '\u{2028}'
    ||| c == '\u{2029}'
    ||| c == '\u{202f}'
    ||| c == '\u{205f}'
    ||| c == '\u{3000}'
}

/// A text is blank when trimming white space leaves nothing.
pub open spec fn is_blank(s: Seq<char>) -> bool {
    forall|i: int| 0 <= i < s.len() ==> is_space(#[trigger] s[i])
}

pub fn space_char(c: char) -> (r: bool)
    ensures
        r == is_space(c),
{
    ('\u{9}' <= c && c <= '\u{d}') || c == ' ' || c == '\u{85}' || c == '\u{a0}' || c
        == '\u{1680}' || ('\u{2000}' <= c && c <= '\u{200a}') || c == '\u{2028}' || c
        == '\u{2029}' || c == '\u{202f}' || c == '\u{205f}' || c == '\u{3000}'
}

pub fn blank(s: &str) -> (r: bool)
    ensures
        r == is_blank(s@),
{
    let n = s.unicode_len();
    let mut i: usize = 0;
    while i < n
        invariant
            n == s@.len(),
            i <= n,
            forall|j: int| 0 <= j < i ==> is_space(#[trigger] s@[j]),
        decreases n - i,
    {
        if !space_char(s.get_char(i)) {
            return false;
        }
        i = i + 1;
    }
    true
}

/// The words of `s` read left to right: the finished words, and the word
/// that the last characters are building (empty after white space).
pub open spec fn scan_words(s: Seq<char>) -> (Seq<Seq<char>>, Seq<char>)
    decreases s.len(),
{
    if s.len() == 0 {
        (seq![], seq![])
    } else {
        let (done, cur) = scan_words(s.drop_last());
        if is_space(s.last()) {
            if cur.len() == 0 {
                (done, cur)
            } else {
                (done.push(cur), seq![])
            }
        } else {
            (done, cur.push(s.last()))
        }
    }
}

/// The maximal runs of non-white-space characters of `s`, in order: what
/// `str::split_whitespace` yields.
pub open spec fn space_words(s: Seq<char>) -> Seq<Seq<char>> {
    let (done, cur) = scan_words(s);
    if cur.len() == 0 {
        done
    } else {
        done.push(cur)
    }
}

pub open spec fn views_of(v: Seq<String>) -> Seq<Seq<char>> {
    v.map_values(|w: String| w@)
}

/// Splits `s` at white space, dropping empty words.
pub fn split_on_space(s: &str) -> (r: Vec<String>)
    ensures
        views_of(r@) == space_words(s@),
{
    let n = s.unicode_len();
    let mut words: Vec<String> = Vec::new();
    let mut in_word = false;
    let mut start: usize = 0;
    let mut i: usize = 0;
    while i < n
        invariant
            n == s@.len(),
            i <= n,
            start <= i,
            in_word ==> start < i,
            views_of(words@) == scan_words(s@.subrange(0, i as int)).0,
            scan_words(s@.subrange(0, i as int)).1 == (if in_word {
                s@.subrange(start as int, i as int)
            } else {
                seq![]
            }),
        decreases n - i,
    {
        let c = s.get_char(i);
        assert(s@.subrange(0, i + 1).drop_last() == s@.subrange(0, i as int));
        if space_char(c) {
            if in_word {
                let w = s.substring_char(start, i).to_string();
                let ghost before = words@;
                words.push(w);
                in_word = false;
                assert(views_of(words@) =~= views_of(before).push(w@));
            }
        } else {
            if !in_word {
                start = i;
                in_word = true;
            }
            assert(s@.subrange(start as int, i + 1) =~= s@.subrange(start as int, i as int).push(c));
        }
        i = i + 1;
    }
    assert(s@.subrange(0, n as int) == s@);
    if in_word {
        let w = s.substring_char(start, n).to_string();
        let ghost before = words@;
        words.push(w);
        assert(views_of(words@) =~= views_of(before).push(w@));
    }
    words
}

/// The value of a run of decimal digits.
pub open spec fn digits_value(s: Seq<char>) -> nat
    decreases s.len(),
{
    if s.len() == 0 {
        0
    } else {
        digits_value(s.drop_last()) * 10 + (s.last() as nat - '0' as nat) as nat
    }
}

pub open spec fn is_digit(c: char) -> bool {
    '0' <= c && c <= '9'
}

pub open spec fn all_digits(t: Seq<char>) -> bool {
    forall|i: int| 0 <= i < t.len() ==> is_digit(#[trigger] t[i])
}

/// The field without its one optional leading `+`.
pub open spec fn unsigned_part(s: Seq<char>) -> Seq<char> {
    if s.len() > 0 && s[0] == '+' {
        s.drop_first()
    } else {
        s
    }
}

/// The number that an unsigned decimal field holds: one optional `+`, then
/// one or more ASCII digits, as `u32::from_str` reads them.
pub open spec fn decimal_field(s: Seq<char>) -> Option<nat> {
    let t = unsigned_part(s);
    if t.len() > 0 && all_digits(t) {
        Some(digits_value(t))
    } else {
        None
    }
}

/// The number held by the field, when it is one and is below `bound`.
pub open spec fn field_below(s: Seq<char>, bound: nat) -> Option<nat> {
    match decimal_field(s) {
        Some(v) => if v < bound {
            Some(v)
        } else {
            None
        },
        None => None,
    }
}

/// Reads an unsigned decimal field that must stay below `bound`.
pub fn parse_field_below(s: &str, bound: u32) -> (r: Option<u32>)
    ensures
        r matches Some(v) ==> field_below(s@, bound as nat) == Some(v as nat),
        r is None ==> field_below(s@, bound as nat) is None,
{
    let n = s.unicode_len();
    let mut i: usize = 0;
    if n > 0 && s.get_char(0) == '+' {
        i = 1;
    }
    let first = i;
    let ghost t = s@.subrange(first as int, n as int);
    assert(t == unsigned_part(s@));
    if first == n {
        return None;
    }
    // `acc` is the value read so far, held at `bound` once it reaches it.
    let mut acc: u64 = 0;
    while i < n
        invariant
            n == s@.len(),
            first <= i <= n,
            t == s@.subrange(first as int, n as int),
            t == unsigned_part(s@),
            forall|j: int| first <= j < i ==> is_digit(#[trigger] s@[j]),
            acc as nat == if digits_value(s@.subrange(first as int, i as int)) < bound as nat {
                digits_value(s@.subrange(first as int, i as int))
            } else {
                bound as nat
            },
        decreases n - i,
    {
        let c = s.get_char(i);
        if !('0' <= c && c <= '9') {
            assert(t[i - first] == c);
            assert(!is_digit(t[i - first]));
            assert(t.len() > 0);
            assert(!all_digits(t));
            return None;
        }
        let d = (c as u32 - '0' as u32) as u64;
        assert(s@.subrange(first as int, i + 1).drop_last() == s@.subrange(first as int, i as int));
        assert(s@.subrange(first as int, i + 1).last() == c);
        let next = acc * 10 + d;
        acc = if next < bound as u64 {
            next
        } else {
            bound as u64
        };
        i = i + 1;
    }
    assert(s@.subrange(first as int, n as int) == t);
    assert(all_digits(t)) by {
        assert(forall|j: int| 0 <= j < t.len() ==> t[j] == s@[j + first]);
    }
    if acc < bound as u64 {
        Some(acc as u32)
    } else {
        None
    }
}

pub fn same_text(a: &str, b: &str) -> (r: bool)
    ensures
        r == (a@ == b@),
{
    let n = a.unicode_len();
    if n != b.unicode_len() {
        return false;
    }
    let mut i: usize = 0;
    while i < n
        invariant
            n == a@.len(),
            n == b@.len(),
            i <= n,
            a@.subrange(0, i as int) == b@.subrange(0, i as int),
        decreases n - i,
    {
        if a.get_char(i) != b.get_char(i) {
            return false;
        }
        assert(a@.subrange(0, i + 1) =~= a@.subrange(0, i as int).push(a@[i as int]));
        assert(b@.subrange(0, i + 1) =~= b@.subrange(0, i as int).push(b@[i as int]));
        i = i + 1;
    }
    assert(a@ =~= a@.subrange(0, n as int));
    assert(b@ =~= b@.subrange(0, n as int));
    true
}

} // verus!
