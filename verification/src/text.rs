//! Text on the level of characters: the small vocabulary of operations on
//! strings that the rest of the library is written in.

use vstd::prelude::*;
use vstd::string::*;

verus! {

broadcast use vstd::string::group_string_axioms;

/// `String::push` of the standard library: the character is added at the end.
#[verifier::external_body]
pub(crate) fn push_char(s: &mut String, c: char)
    ensures
        final(s)@ == old(s)@.push(c),
{
    s.push(c)
}

/// `String::pop` of the standard library: the last character is taken off
/// and handed out, if there is one.
#[verifier::external_body]
pub(crate) fn pop_char(s: &mut String) -> (r: Option<char>)
    ensures
        old(s)@.len() > 0 ==> final(s)@ == old(s)@.drop_last() && r == Some(old(s)@.last()),
        old(s)@.len() == 0 ==> final(s)@ == old(s)@ && r is None,
{
    s.pop()
}

/// Whether two string slices hold the same characters.
pub fn str_eq(a: &str, b: &str) -> (r: bool)
    ensures
        r == (a@ == b@),
{
    a.to_owned() == b.to_owned()
}

/// What a list of strings holds, each string as its characters.
pub open spec fn texts(v: Seq<String>) -> Seq<Seq<char>> {
    v.map_values(|s: String| s@)
}

/// The text of an optional string.
pub open spec fn opt_text(s: Option<String>) -> Option<Seq<char>> {
    match s {
        Some(t) => Some(t@),
        None => None,
    }
}

/// The characters of a string, in order.
pub fn chars_of(s: &str) -> (v: Vec<char>)
    ensures
        v@ == s@,
{
    let mut v: Vec<char> = Vec::new();
    for c in it: s.chars()
        invariant
            it.seq() == s@,
            v@ == it.seq().take(it.index()),
    {
        v.push(c);
        assert(it.seq().take(it.index() + 1) == it.seq().take(it.index()).push(c));
    }
    assert(s@.take(s@.len() as int) == s@);
    v
}

/// The string that holds the characters from position `from` up to, and
/// without, position `to`.
pub fn substring(v: &Vec<char>, from: usize, to: usize) -> (s: String)
    requires
        from <= to <= v.len(),
    ensures
        s@ == v@.subrange(from as int, to as int),
{
    let mut s = String::new();
    let mut i: usize = from;
    while i < to
        invariant
            from <= i <= to <= v.len(),
            s@ == v@.subrange(from as int, i as int),
        decreases to - i,
    {
        push_char(&mut s, v[i]);
        i += 1;
        assert(v@.subrange(from as int, i as int) == v@.subrange(from as int, i as int - 1).push(
            v@[i as int - 1],
        ));
    }
    s
}

/// The string that holds the given characters.
pub fn string_of(v: &Vec<char>) -> (s: String)
    ensures
        s@ == v@,
{
    let s = substring(v, 0, v.len());
    assert(v@.subrange(0, v.len() as int) == v@);
    s
}

/// White space, as Unicode defines it.
pub open spec fn is_space(c: char) -> bool {
    let n = c as u32;
    ||| 0x09 <= n <= 0x0D
    ||| n == 0x20
    ||| n == 0x85
    ||| n == 0xA0
    ||| n == 0x1680
    ||| 0x2000 <= n <= 0x200A
    ||| n == 0x2028
    ||| n == 0x2029
    ||| n == 0x202F
    ||| n == 0x205F
    ||| n == 0x3000
}

pub fn is_whitespace(c: char) -> (r: bool)
    ensures
        r == is_space(c),
{
    let n: u32 = c as u32;
    (0x09 <= n && n <= 0x0D) || n == 0x20 || n == 0x85 || n == 0xA0 || n == 0x1680 || (0x2000 <= n
        && n <= 0x200A) || n == 0x2028 || n == 0x2029 || n == 0x202F || n == 0x205F || n == 0x3000
}

/// The line without the carriage return that goes with its line feed.
pub open spec fn strip_cr(line: Seq<char>) -> Seq<char> {
    if line.len() > 0 && line.last() == '\r' {
        line.drop_last()
    } else {
        line
    }
}

/// The lines of `s` from position `i` on, where `cur` holds what has been
/// read of the line that `i` stands in. A line ends at a line feed, a
/// carriage return just before the line feed is not part of it, and what
/// follows the last line feed is a line unless it is empty.
pub open spec fn lines_from(s: Seq<char>, i: int, cur: Seq<char>) -> Seq<Seq<char>>
    decreases s.len() - i,
{
    if i < 0 || i >= s.len() {
        if cur.len() > 0 {
            seq![cur]
        } else {
            Seq::empty()
        }
    } else if s[i] == '\n' {
        seq![strip_cr(cur)] + lines_from(s, i + 1, Seq::empty())
    } else {
        lines_from(s, i + 1, cur.push(s[i]))
    }
}

/// The lines of a text.
pub open spec fn lines_of(s: Seq<char>) -> Seq<Seq<char>> {
    lines_from(s, 0, Seq::empty())
}

/// The lines of a text that hold at least one character.
pub open spec fn non_empty_lines_of(s: Seq<char>) -> Seq<Seq<char>> {
    lines_of(s).filter(|line: Seq<char>| line.len() > 0)
}

/// The lines of a text, in order.
pub fn lines(text: &str) -> (out: Vec<String>)
    ensures
        texts(out@) == lines_of(text@),
{
    let v = chars_of(text);
    let ghost s = text@;
    let mut out: Vec<String> = Vec::new();
    let mut start: usize = 0;
    let mut i: usize = 0;
    assert(v@.subrange(0, 0) =~= Seq::<char>::empty());
    assert(texts(out@) =~= Seq::<Seq<char>>::empty());
    while i < v.len()
        invariant
            v@ == s,
            start <= i <= v.len(),
            texts(out@) + lines_from(s, i as int, s.subrange(start as int, i as int)) == lines_of(
                s,
            ),
        decreases v.len() - i,
    {
        let ghost cur = s.subrange(start as int, i as int);
        if v[i] == '\n' {
            let end = if start < i && v[i - 1] == '\r' {
                i - 1
            } else {
                i
            };
            let line = substring(&v, start, end);
            proof {
                if start < i && v[i - 1] == '\r' {
                    assert(cur.drop_last() =~= s.subrange(start as int, end as int));
                }
                assert(line@ == strip_cr(cur));
                assert(texts(out@.push(line)) =~= texts(out@).push(line@));
                assert(s.subrange(i as int + 1, i as int + 1) =~= Seq::<char>::empty());
                assert(texts(out@).push(line@) + lines_from(s, i as int + 1, Seq::empty())
                    =~= texts(out@) + (seq![line@] + lines_from(s, i as int + 1, Seq::empty())));
            }
            out.push(line);
            start = i + 1;
        } else {
            assert(cur.push(s[i as int]) =~= s.subrange(start as int, i as int + 1));
        }
        i += 1;
    }
    if start < i {
        let line = substring(&v, start, i);
        proof {
            assert(texts(out@.push(line)) =~= texts(out@).push(line@));
            assert(texts(out@).push(line@) =~= texts(out@) + seq![line@]);
        }
        out.push(line);
    } else {
        assert(texts(out@) + Seq::<Seq<char>>::empty() =~= texts(out@));
    }
    out
}

/// The lines of a text that hold at least one character, in order.
pub fn non_empty_lines(text: &str) -> (out: Vec<String>)
    ensures
        texts(out@) == non_empty_lines_of(text@),
{
    let all = lines(text);
    let ghost pred = |line: Seq<char>| line.len() > 0;
    let mut out: Vec<String> = Vec::new();
    let mut i: usize = 0;
    assert(texts(all@).take(0).filter(pred) =~= Seq::<Seq<char>>::empty());
    assert(texts(out@) =~= Seq::<Seq<char>>::empty());
    while i < all.len()
        invariant
            i <= all.len(),
            pred == |line: Seq<char>| line.len() > 0,
            texts(out@) == texts(all@).take(i as int).filter(pred),
        decreases all.len() - i,
    {
        proof {
            assert(texts(all@).take(i as int + 1) =~= texts(all@).take(i as int).push(all@[i as int]@));
            texts(all@).take(i as int).lemma_filter_push(all@[i as int]@, pred);
        }
        if all[i].as_str().unicode_len() > 0 {
            let line = all[i].clone();
            assert(texts(out@.push(line)) =~= texts(out@).push(line@));
            out.push(line);
        }
        i += 1;
    }
    assert(texts(all@).take(all.len() as int) =~= texts(all@));
    out
}

/// Whether a character is one of those that are taken off: the given one,
/// or any white space where none is given.
pub open spec fn strips(only: Option<char>, c: char) -> bool {
    match only {
        Some(x) => c == x,
        None => is_space(c),
    }
}

/// The first position at or after `i` whose character is not taken off.
pub open spec fn leading(s: Seq<char>, only: Option<char>, i: int) -> int
    decreases s.len() - i,
{
    if 0 <= i < s.len() && strips(only, s[i]) {
        leading(s, only, i + 1)
    } else {
        i
    }
}

/// The position at or before `j` that stands behind the last character
/// before `j` that is not taken off.
pub open spec fn trailing(s: Seq<char>, only: Option<char>, j: int) -> int
    decreases j,
{
    if 0 < j <= s.len() && strips(only, s[j - 1]) {
        trailing(s, only, j - 1)
    } else {
        j
    }
}

/// The text without the characters to take off at its start and at its end.
pub open spec fn stripped(s: Seq<char>, only: Option<char>) -> Seq<char> {
    let a = leading(s, only, 0);
    let b = trailing(s, only, s.len() as int);
    if a < b {
        s.subrange(a, b)
    } else {
        Seq::empty()
    }
}

/// The text without the white space at its start and at its end.
pub open spec fn trimmed(s: Seq<char>) -> Seq<char> {
    stripped(s, None)
}

proof fn lemma_trailing_bound(s: Seq<char>, only: Option<char>, j: int)
    ensures
        trailing(s, only, j) <= j,
    decreases j,
{
    if 0 < j <= s.len() && strips(only, s[j - 1]) {
        lemma_trailing_bound(s, only, j - 1);
    }
}

fn is_stripped(only: Option<char>, c: char) -> (r: bool)
    ensures
        r == strips(only, c),
{
    match only {
        Some(x) => c == x,
        None => is_whitespace(c),
    }
}

fn strip(text: &str, only: Option<char>) -> (r: String)
    ensures
        r@ == stripped(text@, only),
{
    let v = chars_of(text);
    let ghost s = text@;
    let n = v.len();
    let mut a: usize = 0;
    while a < n && is_stripped(only, v[a])
        invariant
            v@ == s,
            n == v.len(),
            a <= n,
            leading(s, only, a as int) == leading(s, only, 0),
        decreases n - a,
    {
        a += 1;
    }
    let mut b: usize = n;
    while b > a && is_stripped(only, v[b - 1])
        invariant
            v@ == s,
            n == v.len(),
            a <= b <= n,
            trailing(s, only, b as int) == trailing(s, only, n as int),
        decreases b,
    {
        b -= 1;
    }
    proof {
        lemma_trailing_bound(s, only, a as int);
        assert(v@.subrange(a as int, a as int) =~= Seq::<char>::empty());
    }
    substring(&v, a, b)
}

/// The text without the white space at its start and at its end.
pub fn trim(text: &str) -> (r: String)
    ensures
        r@ == trimmed(text@),
{
    strip(text, None)
}

/// The text without the given character at its start and at its end,
/// however often it stands there.
pub fn trim_matches(text: &str, c: char) -> (r: String)
    ensures
        r@ == stripped(text@, Some(c)),
{
    strip(text, Some(c))
}

/// Whether the text begins with the given characters.
pub open spec fn has_prefix(s: Seq<char>, prefix: Seq<char>) -> bool {
    prefix.len() <= s.len() && s.subrange(0, prefix.len() as int) == prefix
}

/// What follows the given beginning, if the text begins with it.
pub fn strip_prefix(text: &str, prefix: &str) -> (r: Option<String>)
    ensures
        match r {
            Some(rest) => has_prefix(text@, prefix@) && rest@ == text@.skip(prefix@.len() as int),
            None => !has_prefix(text@, prefix@),
        },
{
    let v = chars_of(text);
    let p = chars_of(prefix);
    if p.len() > v.len() {
        return None;
    }
    let mut i: usize = 0;
    while i < p.len()
        invariant
            i <= p.len() <= v.len(),
            v@ == text@,
            p@ == prefix@,
            forall|j: int| 0 <= j < i ==> v@[j] == p@[j],
        decreases p.len() - i,
    {
        if v[i] != p[i] {
            assert(text@.subrange(0, prefix@.len() as int)[i as int] != prefix@[i as int]);
            return None;
        }
        i += 1;
    }
    assert(text@.subrange(0, prefix@.len() as int) =~= prefix@);
    let rest = substring(&v, p.len(), v.len());
    assert(text@.skip(prefix@.len() as int) =~= v@.subrange(p.len() as int, v.len() as int));
    Some(rest)
}

/// Whether the text holds the given characters somewhere, one after the
/// other.
pub open spec fn has_part(s: Seq<char>, part: Seq<char>) -> bool {
    exists|i: int| 0 <= i <= s.len() - part.len() && #[trigger] s.subrange(i, i + part.len()) == part
}

fn part_at(v: &Vec<char>, p: &Vec<char>, at: usize) -> (r: bool)
    requires
        at + p.len() <= v.len(),
    ensures
        r == (v@.subrange(at as int, at + p.len()) == p@),
{
    let mut j: usize = 0;
    while j < p.len()
        invariant
            j <= p.len(),
            at + p.len() <= v.len(),
            forall|k: int| 0 <= k < j ==> v@[at + k] == p@[k],
        decreases p.len() - j,
    {
        if v[at + j] != p[j] {
            assert(v@.subrange(at as int, at + p.len())[j as int] != p@[j as int]);
            return false;
        }
        j += 1;
    }
    assert(v@.subrange(at as int, at + p.len()) =~= p@);
    true
}

/// Whether the text holds the given characters somewhere, one after the
/// other.
pub fn contains(text: &str, part: &str) -> (r: bool)
    ensures
        r == has_part(text@, part@),
{
    let v = chars_of(text);
    let p = chars_of(part);
    if p.len() > v.len() {
        return false;
    }
    if p.len() == 0 {
        assert(text@.subrange(0int, 0int + part@.len()) =~= part@);
        return true;
    }
    let last = v.len() - p.len();
    let mut i: usize = 0;
    while i <= last
        invariant
            i <= last + 1,
            last == v.len() - p.len(),
            last < v.len(),
            v@ == text@,
            p@ == part@,
            forall|k: int| 0 <= k < i ==> #[trigger] v@.subrange(k, k + p.len()) != p@,
        decreases last + 1 - i,
    {
        if part_at(&v, &p, i) {
            return true;
        }
        i += 1;
    }
    false
}

/// The position of the first occurrence of the character at or after
/// position `i`, and the length of the text where there is none.
pub open spec fn position_of(s: Seq<char>, c: char, i: int) -> int
    decreases s.len() - i,
{
    if i < 0 || i >= s.len() {
        s.len() as int
    } else if s[i] == c {
        i
    } else {
        position_of(s, c, i + 1)
    }
}

/// The position of the first occurrence of the character, if there is one.
pub fn find_char(v: &Vec<char>, c: char) -> (r: Option<usize>)
    ensures
        match r {
            Some(i) => i < v.len() && i == position_of(v@, c, 0),
            None => position_of(v@, c, 0) == v@.len(),
        },
{
    let mut i: usize = 0;
    while i < v.len()
        invariant
            i <= v.len(),
            position_of(v@, c, i as int) == position_of(v@, c, 0),
        decreases v.len() - i,
    {
        if v[i] == c {
            return Some(i);
        }
        i += 1;
    }
    None
}

/// The words of `s` from position `i` on, where `cur` holds what has been
/// read of the word that `i` stands in. A word is a stretch of characters
/// that are no white space, as long as it can be.
pub open spec fn words_from(s: Seq<char>, i: int, cur: Seq<char>) -> Seq<Seq<char>>
    decreases s.len() - i,
{
    if i < 0 || i >= s.len() {
        if cur.len() > 0 {
            seq![cur]
        } else {
            Seq::empty()
        }
    } else if is_space(s[i]) {
        (if cur.len() > 0 {
            seq![cur]
        } else {
            Seq::empty()
        }) + words_from(s, i + 1, Seq::empty())
    } else {
        words_from(s, i + 1, cur.push(s[i]))
    }
}

/// The words of a text: what stands between its white space.
pub open spec fn words_of(s: Seq<char>) -> Seq<Seq<char>> {
    words_from(s, 0, Seq::empty())
}

/// The words of a text, in order.
pub fn words(text: &str) -> (out: Vec<String>)
    ensures
        texts(out@) == words_of(text@),
{
    let v = chars_of(text);
    let ghost s = text@;
    let mut out: Vec<String> = Vec::new();
    let mut start: usize = 0;
    let mut i: usize = 0;
    assert(v@.subrange(0, 0) =~= Seq::<char>::empty());
    assert(texts(out@) =~= Seq::<Seq<char>>::empty());
    while i < v.len()
        invariant
            v@ == s,
            start <= i <= v.len(),
            texts(out@) + words_from(s, i as int, s.subrange(start as int, i as int)) == words_of(
                s,
            ),
        decreases v.len() - i,
    {
        let ghost cur = s.subrange(start as int, i as int);
        if is_whitespace(v[i]) {
            assert(s.subrange(i as int + 1, i as int + 1) =~= Seq::<char>::empty());
            if start < i {
                let word = substring(&v, start, i);
                proof {
                    assert(texts(out@.push(word)) =~= texts(out@).push(word@));
                    assert(texts(out@).push(word@) + words_from(s, i as int + 1, Seq::empty())
                        =~= texts(out@) + (seq![word@] + words_from(
                        s,
                        i as int + 1,
                        Seq::empty(),
                    )));
                }
                out.push(word);
            } else {
                assert(Seq::<Seq<char>>::empty() + words_from(s, i as int + 1, Seq::empty())
                    =~= words_from(s, i as int + 1, Seq::empty()));
            }
            start = i + 1;
        } else {
            assert(cur.push(s[i as int]) =~= s.subrange(start as int, i as int + 1));
        }
        i += 1;
    }
    if start < i {
        let word = substring(&v, start, i);
        proof {
            assert(texts(out@.push(word)) =~= texts(out@).push(word@));
            assert(texts(out@).push(word@) =~= texts(out@) + seq![word@]);
        }
        out.push(word);
    } else {
        assert(texts(out@) + Seq::<Seq<char>>::empty() =~= texts(out@));
    }
    out
}

/// One of the ten decimal digits.
pub open spec fn is_digit(c: char) -> bool {
    0x30 <= c as u32 <= 0x39
}

/// The number that a string of decimal digits stands for.
pub open spec fn digits_value(s: Seq<char>) -> nat
    decreases s.len(),
{
    if s.len() == 0 {
        0
    } else {
        (digits_value(s.drop_last()) * 10 + (s.last() as u32 - 0x30)) as nat
    }
}

/// The text without the plus sign that it may begin with.
pub open spec fn unsigned_part(s: Seq<char>) -> Seq<char> {
    if s.len() > 0 && s[0] == '+' {
        s.drop_first()
    } else {
        s
    }
}

/// The number that a text stands for, if it is a number in decimal
/// notation that a `u64` can hold: decimal digits, at least one, with
/// nothing before them but, if one likes, a plus sign, and nothing after.
pub open spec fn parsed_u64(s: Seq<char>) -> Option<u64> {
    let body = unsigned_part(s);
    if body.len() > 0 && (forall|i: int| 0 <= i < body.len() ==> is_digit(#[trigger] body[i]))
        && digits_value(body) <= u64::MAX {
        Some(digits_value(body) as u64)
    } else {
        None
    }
}

proof fn lemma_digits_value_step(s: Seq<char>, i: int)
    requires
        0 <= i < s.len(),
        is_digit(s[i]),
    ensures
        digits_value(s.take(i + 1)) == digits_value(s.take(i)) * 10 + (s[i] as u32 - 0x30),
{
    assert(s.take(i + 1).drop_last() =~= s.take(i));
    assert(s.take(i + 1).last() == s[i]);
}

proof fn lemma_digits_value_grows(s: Seq<char>, i: int)
    requires
        0 <= i <= s.len(),
        forall|k: int| 0 <= k < s.len() ==> is_digit(#[trigger] s[k]),
    ensures
        digits_value(s.take(i)) <= digits_value(s),
    decreases s.len() - i,
{
    if i < s.len() {
        lemma_digits_value_grows(s, i + 1);
        assert(is_digit(s[i]));
        lemma_digits_value_step(s, i);
    } else {
        assert(s.take(i) =~= s);
    }
}

proof fn lemma_prefix_too_large(s: Seq<char>, i: int)
    requires
        0 <= i <= s.len(),
        digits_value(s.take(i)) > u64::MAX,
    ensures
        !((forall|k: int| 0 <= k < s.len() ==> is_digit(#[trigger] s[k])) && digits_value(s)
            <= u64::MAX),
{
    if forall|k: int| 0 <= k < s.len() ==> is_digit(#[trigger] s[k]) {
        lemma_digits_value_grows(s, i);
    }
}

fn with_digit(value: u64, d: u64) -> (r: Option<u64>)
    requires
        d < 10,
    ensures
        match r {
            Some(next) => next == value * 10 + d,
            None => value * 10 + d > u64::MAX,
        },
{
    if value > (u64::MAX - d) / 10 {
        None
    } else {
        Some(value * 10 + d)
    }
}

/// Reads a number in decimal notation.
pub fn parse_u64(text: &str) -> (r: Option<u64>)
    ensures
        r == parsed_u64(text@),
{
    let v = chars_of(text);
    let first: usize = if v.len() > 0 && v[0] == '+' {
        1
    } else {
        0
    };
    let ghost body = v@.subrange(first as int, v.len() as int);
    assert(body =~= unsigned_part(text@));
    if v.len() == first {
        return None;
    }
    let mut value: u64 = 0;
    let mut i: usize = first;
    assert(body.take(0) =~= Seq::<char>::empty());
    while i < v.len()
        invariant
            first <= i <= v.len(),
            body == v@.subrange(first as int, v.len() as int),
            body == unsigned_part(text@),
            forall|k: int| 0 <= k < i - first ==> is_digit(#[trigger] body[k]),
            value == digits_value(body.take(i - first)),
        decreases v.len() - i,
    {
        let c = v[i];
        let n: u32 = c as u32;
        if n < 0x30 || n > 0x39 {
            assert(!is_digit(body[i - first]));
            return None;
        }
        let d: u64 = (n - 0x30) as u64;
        proof {
            assert(body[i - first] == c);
            lemma_digits_value_step(body, i - first);
        }
        match with_digit(value, d) {
            Some(next) => {
                value = next;
            },
            None => {
                proof {
                    lemma_prefix_too_large(body, i - first + 1);
                }
                return None;
            },
        }
        i += 1;
    }
    assert(body.take(v.len() - first) =~= body);
    Some(value)
}

/// The character that stands for one decimal digit.
pub open spec fn digit(d: int) -> char {
    if d == 0 {
        '0'
    } else if d == 1 {
        '1'
    } else if d == 2 {
        '2'
    } else if d == 3 {
        '3'
    } else if d == 4 {
        '4'
    } else if d == 5 {
        '5'
    } else if d == 6 {
        '6'
    } else if d == 7 {
        '7'
    } else if d == 8 {
        '8'
    } else {
        '9'
    }
}

/// The decimal digits of a natural number, without leading zeros.
pub open spec fn digits(n: nat) -> Seq<char>
    decreases n,
{
    if n < 10 {
        seq![digit(n as int)]
    } else {
        digits(n / 10).push(digit((n % 10) as int))
    }
}

/// A whole number in decimal notation, with a minus sign where it is negative.
pub open spec fn decimal(n: int) -> Seq<char> {
    if n < 0 {
        seq!['-'] + digits((-n) as nat)
    } else {
        digits(n as nat)
    }
}

fn digit_char(d: u64) -> (c: char)
    requires
        d < 10,
    ensures
        c == digit(d as int),
{
    if d == 0 {
        '0'
    } else if d == 1 {
        '1'
    } else if d == 2 {
        '2'
    } else if d == 3 {
        '3'
    } else if d == 4 {
        '4'
    } else if d == 5 {
        '5'
    } else if d == 6 {
        '6'
    } else if d == 7 {
        '7'
    } else if d == 8 {
        '8'
    } else {
        '9'
    }
}

fn push_digits(s: &mut String, n: u64)
    ensures
        final(s)@ == old(s)@ + digits(n as nat),
    decreases n,
{
    if n < 10 {
        push_char(s, digit_char(n));
        assert(s@ =~= old(s)@ + digits(n as nat));
    } else {
        push_digits(s, n / 10);
        push_char(s, digit_char(n % 10));
        assert(s@ =~= old(s)@ + digits(n as nat));
    }
}

/// A natural number in decimal notation.
pub fn unsigned_text(n: u64) -> (r: String)
    ensures
        r@ == decimal(n as int),
{
    let mut r = String::new();
    push_digits(&mut r, n);
    assert(r@ =~= decimal(n as int));
    r
}

/// A count in decimal notation.
pub fn count_text(n: usize) -> (r: String)
    ensures
        r@ == decimal(n as int),
{
    unsigned_text(n as u64)
}

/// A whole number in decimal notation.
pub fn number_text(n: i32) -> (r: String)
    ensures
        r@ == decimal(n as int),
{
    let mut r = String::new();
    if n < 0 {
        push_char(&mut r, '-');
        let m: i64 = -(n as i64);
        push_digits(&mut r, m as u64);
    } else {
        push_digits(&mut r, n as u64);
    }
    assert(r@ =~= decimal(n as int));
    r
}

/// The parts one after the other, with the separator between each two.
pub open spec fn joined(parts: Seq<Seq<char>>, sep: Seq<char>) -> Seq<char>
    decreases parts.len(),
{
    if parts.len() == 0 {
        Seq::empty()
    } else if parts.len() == 1 {
        parts[0]
    } else {
        joined(parts.drop_last(), sep) + sep + parts.last()
    }
}

/// The parts one after the other, with the separator between each two.
pub fn join(parts: &Vec<String>, sep: &str) -> (r: String)
    ensures
        r@ == joined(texts(parts@), sep@),
{
    let mut r = String::new();
    let mut i: usize = 0;
    let ghost all = texts(parts@);
    assert(all.take(0) =~= Seq::<Seq<char>>::empty());
    while i < parts.len()
        invariant
            i <= parts.len(),
            all == texts(parts@),
            r@ == joined(all.take(i as int), sep@),
        decreases parts.len() - i,
    {
        if i > 0 {
            r.append(sep);
        }
        r.append(parts[i].as_str());
        proof {
            let next = all.take(i as int + 1);
            assert(next.drop_last() =~= all.take(i as int));
            assert(next.last() == parts@[i as int]@);
            if i == 0 {
                assert(r@ =~= next[0]);
            }
        }
        i += 1;
    }
    assert(all.take(parts.len() as int) =~= all);
    r
}

} // verus!
