//! Character-level helpers on text, specified over `Seq<char>`.

use vstd::prelude::*;
use vstd::string::StrSliceExecFns;
use vstd::string::StringExecFns;

verus! {

/// A set of characters that the trimming functions can strip.
#[derive(Clone, Copy, Debug, PartialEq, Eq)]
pub enum CharClass {
    /// Carriage return and line feed.
    LineBreak,
    /// Every character that Unicode classes as `White_Space`.
    Whitespace,
}

/// Whether `c` is a carriage return or a line feed.
pub open spec fn is_line_break(c: char) -> bool {
    c == '\r' || c == '\n'
}

/// Whether Unicode classes `c` as `White_Space`.
pub open spec fn is_whitespace(c: char) -> bool {
    ||| '\u{9}' <= c <= '\u{D}'
    ||| c == ' '
    ||| c == '\u{85}'
    ||| c == '\u{A0}'
    ||| c == '\u{1680}'
    ||| '\u{2000}' <= c <= '\u{200A}'
    ||| c == '\u{2028}'
    ||| c == '\u{2029}'
    ||| c == '\u{202F}'
    ||| c == '\u{205F}'
    ||| c == '\u{3000}'
}

impl CharClass {
    /// Whether `c` belongs to the class.
    pub open spec fn holds(self, c: char) -> bool {
        match self {
            CharClass::LineBreak => is_line_break(c),
            CharClass::Whitespace => is_whitespace(c),
        }
    }

    /// Decides membership of `c` in the class.
    pub fn contains(self, c: char) -> (r: bool)
        ensures
            r == self.holds(c),
    {
        match self {
            CharClass::LineBreak => c == '\r' || c == '\n',
            CharClass::Whitespace => {
                (c >= '\u{9}' && c <= '\u{D}') || c == ' ' || c == '\u{85}' || c == '\u{A0}'
                    || c == '\u{1680}' || (c >= '\u{2000}' && c <= '\u{200A}') || c == '\u{2028}'
                    || c == '\u{2029}' || c == '\u{202F}' || c == '\u{205F}' || c == '\u{3000}'
            },
        }
    }
}

/// The length of the longest prefix of `s` whose characters all belong to `class`.
pub open spec fn leading(s: Seq<char>, class: CharClass) -> nat
    decreases s.len(),
{
    if s.len() > 0 && class.holds(s[0]) {
        1 + leading(s.skip(1), class)
    } else {
        0
    }
}

/// The length of the longest suffix of `s` whose characters all belong to `class`.
pub open spec fn trailing(s: Seq<char>, class: CharClass) -> nat
    decreases s.len(),
{
    if s.len() > 0 && class.holds(s.last()) {
        1 + trailing(s.drop_last(), class)
    } else {
        0
    }
}

/// `s` without its leading characters of `class`.
pub open spec fn trimmed_start(s: Seq<char>, class: CharClass) -> Seq<char> {
    s.skip(leading(s, class) as int)
}

/// `s` without its trailing characters of `class`.
pub open spec fn trimmed_end(s: Seq<char>, class: CharClass) -> Seq<char> {
    s.take(s.len() - trailing(s, class))
}

/// `s` without its leading and trailing characters of `class`.
pub open spec fn trimmed(s: Seq<char>, class: CharClass) -> Seq<char> {
    trimmed_end(trimmed_start(s, class), class)
}

/// `n` is where the leading run of `class` in `s` stops: everything before
/// position `n` is in the class, and position `n` is not (or is the end).
pub open spec fn leading_run_ends(s: Seq<char>, class: CharClass, n: int) -> bool {
    &&& 0 <= n <= s.len()
    &&& forall|i: int| 0 <= i < n ==> class.holds(#[trigger] s[i])
    &&& n < s.len() ==> !class.holds(s[n])
}

/// `n` is the length of the trailing run of `class` in `s`.
pub open spec fn trailing_run_has(s: Seq<char>, class: CharClass, n: int) -> bool {
    &&& 0 <= n <= s.len()
    &&& forall|i: int| s.len() - n <= i < s.len() ==> class.holds(#[trigger] s[i])
    &&& n < s.len() ==> !class.holds(s[s.len() - n - 1])
}

/// The leading run is bounded by the length, and it is the only position
/// at which the run can stop.
pub proof fn lemma_leading(s: Seq<char>, class: CharClass)
    ensures
        leading_run_ends(s, class, leading(s, class) as int),
        forall|n: int| leading_run_ends(s, class, n) ==> n == leading(s, class),
    decreases s.len(),
{
    if s.len() > 0 && class.holds(s[0]) {
        let t = s.skip(1);
        lemma_leading(t, class);
        let k = leading(t, class) as int;
        assert forall|i: int| 0 <= i < k + 1 implies class.holds(#[trigger] s[i]) by {
            if i > 0 {
                assert(s[i] == t[i - 1]);
            }
        }
        if k + 1 < s.len() {
            assert(s[k + 1] == t[k]);
        }
        assert forall|n: int| leading_run_ends(s, class, n) implies n == k + 1 by {
            assert(n > 0);
            assert forall|i: int| 0 <= i < n - 1 implies class.holds(#[trigger] t[i]) by {
                assert(t[i] == s[i + 1]);
            }
            if n - 1 < t.len() {
                assert(t[n - 1] == s[n]);
            }
            assert(leading_run_ends(t, class, n - 1));
        }
    } else {
        assert forall|n: int| leading_run_ends(s, class, n) implies n == 0 by {
            if n > 0 {
                assert(class.holds(s[0]));
            }
        }
    }
}

/// The trailing run is bounded by the length, and it is the only length
/// that a trailing run can have.
pub proof fn lemma_trailing(s: Seq<char>, class: CharClass)
    ensures
        trailing_run_has(s, class, trailing(s, class) as int),
        forall|n: int| trailing_run_has(s, class, n) ==> n == trailing(s, class),
    decreases s.len(),
{
    if s.len() > 0 && class.holds(s.last()) {
        let t = s.drop_last();
        lemma_trailing(t, class);
        let k = trailing(t, class) as int;
        assert forall|i: int| s.len() - (k + 1) <= i < s.len() implies class.holds(
            #[trigger] s[i],
        ) by {
            if i < s.len() - 1 {
                assert(s[i] == t[i]);
            }
        }
        if k + 1 < s.len() {
            assert(s[s.len() - (k + 1) - 1] == t[t.len() - k - 1]);
        }
        assert forall|n: int| trailing_run_has(s, class, n) implies n == k + 1 by {
            assert(n > 0);
            assert forall|i: int| t.len() - (n - 1) <= i < t.len() implies class.holds(
                #[trigger] t[i],
            ) by {
                assert(t[i] == s[i]);
            }
            if n - 1 < t.len() {
                assert(t[t.len() - (n - 1) - 1] == s[s.len() - n - 1]);
            }
            assert(trailing_run_has(t, class, n - 1));
        }
    } else {
        assert forall|n: int| trailing_run_has(s, class, n) implies n == 0 by {
            if n > 0 {
                assert(class.holds(s[s.len() - 1]));
            }
        }
    }
}

/// Trimming the start twice gives what trimming it once gives: what is left
/// after the first time begins with no character of the class.
pub proof fn lemma_trim_start_idempotent(s: Seq<char>, class: CharClass)
    ensures
        leading(trimmed_start(s, class), class) == 0,
        trimmed_start(trimmed_start(s, class), class) == trimmed_start(s, class),
{
    let t = trimmed_start(s, class);
    lemma_leading(s, class);
    lemma_leading(t, class);
    assert(leading_run_ends(t, class, 0)) by {
        if t.len() > 0 {
            assert(t[0] == s[leading(s, class) as int]);
        }
    }
    assert(t.skip(0) =~= t);
}

/// Trimming the end twice gives what trimming it once gives.
pub proof fn lemma_trim_end_idempotent(s: Seq<char>, class: CharClass)
    ensures
        trailing(trimmed_end(s, class), class) == 0,
        trimmed_end(trimmed_end(s, class), class) == trimmed_end(s, class),
{
    let t = trimmed_end(s, class);
    lemma_trailing(s, class);
    lemma_trailing(t, class);
    assert(trailing_run_has(t, class, 0)) by {
        if t.len() > 0 {
            assert(t[t.len() - 1] == s[s.len() - trailing(s, class) - 1]);
        }
    }
    assert(t.take(t.len() as int) =~= t);
}

/// The characters of each text, in order.
pub open spec fn text_views(texts: Seq<String>) -> Seq<Seq<char>> {
    texts.map_values(|text: String| text@)
}

/// The characters of `s`, in order.
pub fn chars_of(s: &str) -> (v: Vec<char>)
    ensures
        v@ == s@,
{
    let mut v: Vec<char> = Vec::new();
    for c in it: s.chars()
        invariant
            it.seq() == s@,
            v@ == it.seq().take(it.index() as int),
    {
        v.push(c);
    }
    v
}

/// Counts the leading characters of `chars` that belong to `class`.
pub fn count_leading(chars: &Vec<char>, class: CharClass) -> (n: usize)
    ensures
        n == leading(chars@, class),
        n <= chars.len(),
{
    let mut n: usize = 0;
    while n < chars.len() && class.contains(chars[n])
        invariant
            n <= chars.len(),
            forall|i: int| 0 <= i < n ==> class.holds(#[trigger] chars@[i]),
        decreases chars.len() - n,
    {
        n += 1;
    }
    proof {
        lemma_leading(chars@, class);
        assert(leading_run_ends(chars@, class, n as int));
    }
    n
}

/// Counts the trailing characters of `chars` that belong to `class`.
pub fn count_trailing(chars: &Vec<char>, class: CharClass) -> (n: usize)
    ensures
        n == trailing(chars@, class),
        n <= chars.len(),
{
    let len: usize = chars.len();
    let mut n: usize = 0;
    while n < len && class.contains(chars[len - n - 1])
        invariant
            len == chars.len(),
            n <= len,
            forall|i: int| len - n <= i < len ==> class.holds(#[trigger] chars@[i]),
        decreases len - n,
    {
        n += 1;
    }
    proof {
        lemma_trailing(chars@, class);
        assert(trailing_run_has(chars@, class, n as int));
    }
    n
}

/// Strips the leading characters of `class` from `s`.
pub fn trim_start<'a>(s: &'a str, class: CharClass) -> (r: &'a str)
    ensures
        r@ == trimmed_start(s@, class),
{
    let chars = chars_of(s);
    let n = count_leading(&chars, class);
    s.substring_char(n, chars.len())
}

/// Strips the trailing characters of `class` from `s`.
pub fn trim_end<'a>(s: &'a str, class: CharClass) -> (r: &'a str)
    ensures
        r@ == trimmed_end(s@, class),
{
    let chars = chars_of(s);
    let n = count_trailing(&chars, class);
    s.substring_char(0, chars.len() - n)
}

/// Strips the characters of `class` from both ends of `s`.
pub fn trim<'a>(s: &'a str, class: CharClass) -> (r: &'a str)
    ensures
        r@ == trimmed(s@, class),
{
    trim_end(trim_start(s, class), class)
}

/// Whether `pat` stands in `s` at position `at`.
pub open spec fn occurs_at(s: Seq<char>, pat: Seq<char>, at: int) -> bool {
    &&& 0 <= at
    &&& at + pat.len() <= s.len()
    &&& s.subrange(at, at + pat.len()) == pat
}

/// The first position at or after `from` at which `pat` stands in `s`.
pub open spec fn search_from(s: Seq<char>, pat: Seq<char>, from: int) -> Option<int>
    decreases s.len() - pat.len() - from + 1,
{
    if from < 0 || from + pat.len() > s.len() {
        None
    } else if occurs_at(s, pat, from) {
        Some(from)
    } else {
        search_from(s, pat, from + 1)
    }
}

/// The first position at which `pat` stands in `s`.
pub open spec fn first_occurrence(s: Seq<char>, pat: Seq<char>) -> Option<int> {
    search_from(s, pat, 0)
}

/// `search_from` finds an occurrence, skips none at or after `from`, and
/// finds one whenever there is one.
pub proof fn lemma_search_from(s: Seq<char>, pat: Seq<char>, from: int)
    requires
        0 <= from,
    ensures
        match search_from(s, pat, from) {
            Some(i) => from <= i && occurs_at(s, pat, i) && forall|j: int|
                from <= j < i ==> !occurs_at(s, pat, j),
            None => forall|j: int| from <= j ==> !occurs_at(s, pat, j),
        },
    decreases s.len() - pat.len() - from + 1,
{
    if from + pat.len() <= s.len() && !occurs_at(s, pat, from) {
        lemma_search_from(s, pat, from + 1);
    }
}

/// Decides whether `pat` stands in `hay` at position `at`.
pub fn matches_at(hay: &Vec<char>, pat: &Vec<char>, at: usize) -> (r: bool)
    ensures
        r == occurs_at(hay@, pat@, at as int),
{
    if at > hay.len() || pat.len() > hay.len() - at {
        return false;
    }
    let mut k: usize = 0;
    while k < pat.len()
        invariant
            k <= pat.len(),
            at + pat.len() <= hay.len(),
            forall|i: int| 0 <= i < k ==> hay@[at + i] == #[trigger] pat@[i],
        decreases pat.len() - k,
    {
        if hay[at + k] != pat[k] {
            assert(hay@.subrange(at as int, at + pat.len())[k as int] == hay@[at + k]);
            return false;
        }
        k += 1;
    }
    assert(hay@.subrange(at as int, at + pat.len()) =~= pat@);
    true
}

/// Finds the first position at which `pat` stands in `hay`.
pub fn find_in(hay: &Vec<char>, pat: &Vec<char>) -> (r: Option<usize>)
    ensures
        match r {
            Some(i) => {
                &&& first_occurrence(hay@, pat@) == Some(i as int)
                &&& i + pat.len() <= hay.len()
                &&& occurs_at(hay@, pat@, i as int)
                &&& forall|j: int| 0 <= j < i ==> !occurs_at(hay@, pat@, j)
            },
            None => {
                &&& first_occurrence(hay@, pat@) is None
                &&& forall|j: int| !occurs_at(hay@, pat@, j)
            },
        },
{
    proof {
        lemma_search_from(hay@, pat@, 0);
    }
    if pat.len() > hay.len() {
        return None;
    }
    let last: usize = hay.len() - pat.len();
    let mut at: usize = 0;
    loop
        invariant
            last + pat.len() == hay.len(),
            at <= last,
            first_occurrence(hay@, pat@) == search_from(hay@, pat@, at as int),
        decreases last - at,
    {
        if matches_at(hay, pat, at) {
            proof {
                lemma_search_from(hay@, pat@, 0);
            }
            return Some(at);
        }
        if at == last {
            proof {
                assert(search_from(hay@, pat@, at + 1) is None);
                lemma_search_from(hay@, pat@, 0);
            }
            return None;
        }
        at += 1;
    }
}

/// Decides whether `s` begins with `prefix`.
pub fn starts_with(s: &str, prefix: &str) -> (r: bool)
    ensures
        r == prefix@.is_prefix_of(s@),
{
    let hay = chars_of(s);
    let pat = chars_of(prefix);
    matches_at(&hay, &pat, 0)
}

/// What follows `prefix` in `s`, where `s` begins with it.
pub fn strip_prefix<'a>(s: &'a str, prefix: &str) -> (r: Option<&'a str>)
    ensures
        match r {
            Some(rest) => prefix@.is_prefix_of(s@) && rest@ == s@.skip(prefix@.len() as int),
            None => !prefix@.is_prefix_of(s@),
        },
{
    let hay = chars_of(s);
    let pat = chars_of(prefix);
    if matches_at(&hay, &pat, 0) {
        Some(s.substring_char(pat.len(), hay.len()))
    } else {
        None
    }
}

/// Decides whether `a` and `b` hold the same characters.
pub fn same_text(a: &str, b: &str) -> (r: bool)
    ensures
        r == (a@ == b@),
{
    let left = chars_of(a);
    let right = chars_of(b);
    assert(left@.subrange(0, left@.len() as int) =~= left@);
    left.len() == right.len() && matches_at(&left, &right, 0)
}

/// The character that writes the digit `d`.
pub open spec fn digit(d: nat) -> char
    recommends
        d < 10,
{
    if d == 0 {
        '0'
    } else if d == 1 {
        '1'
    } else if d == 2 {
        '2'
    } else if d == 3 {
        '3'
    } else if d == 4 {
        '4'
    } else if d == 5 {
        '5'
    } else if d == 6 {
        '6'
    } else if d == 7 {
        '7'
    } else if d == 8 {
        '8'
    } else {
        '9'
    }
}

/// `n` in decimal notation, without leading zeros.
pub open spec fn decimal(n: nat) -> Seq<char>
    decreases n,
{
    if n < 10 {
        seq![digit(n)]
    } else {
        decimal(n / 10).push(digit(n % 10))
    }
}

/// The one-character text of the digit `d`.
fn digit_text(d: u64) -> (r: &'static str)
    requires
        d < 10,
    ensures
        r@ == seq![digit(d as nat)],
{
    proof {
        reveal_strlit("0");
        reveal_strlit("1");
        reveal_strlit("2");
        reveal_strlit("3");
        reveal_strlit("4");
        reveal_strlit("5");
        reveal_strlit("6");
        reveal_strlit("7");
        reveal_strlit("8");
        reveal_strlit("9");
    }
    let r = if d == 0 {
        "0"
    } else if d == 1 {
        "1"
    } else if d == 2 {
        "2"
    } else if d == 3 {
        "3"
    } else if d == 4 {
        "4"
    } else if d == 5 {
        "5"
    } else if d == 6 {
        "6"
    } else if d == 7 {
        "7"
    } else if d == 8 {
        "8"
    } else {
        "9"
    };
    assert(r@ =~= seq![digit(d as nat)]);
    r
}

/// Writes `n` in decimal notation.
pub fn to_decimal(n: u64) -> (r: String)
    ensures
        r@ == decimal(n as nat),
    decreases n,
{
    if n < 10 {
        digit_text(n).to_owned()
    } else {
        let mut r = to_decimal(n / 10);
        r.append(digit_text(n % 10));
        assert(r@ =~= decimal(n as nat));
        r
    }
}

/// Joins `a` and `b` into one text.
pub fn join(a: &str, b: &str) -> (r: String)
    ensures
        r@ == a@ + b@,
{
    let mut r = a.to_owned();
    r.append(b);
    r
}

} // verus!
