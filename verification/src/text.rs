//! Text helpers shared by the orchestration modules: whitespace, trimming,
//! the last word of a line, decimal numbers and character replacement.

use vstd::prelude::*;

verus! {

/// The characters that `char::is_ascii_whitespace` accepts.
pub open spec fn is_ascii_space(c: char) -> bool {
    c == ' ' || c == '\t' || c == '\n' || c == '\x0C' || c == '\r'
}

/// The characters with the Unicode property `White_Space`.
pub open spec fn is_space(c: char) -> bool {
    let n = c as u32;
    (0x09 <= n && n <= 0x0D) || n == 0x20 || n == 0x85 || n == 0xA0 || n == 0x1680 || (0x2000 <= n
        && n <= 0x200A) || n == 0x2028 || n == 0x2029 || n == 0x202F || n == 0x205F || n == 0x3000
}

/// `s` without its leading white space.
pub open spec fn trim_start(s: Seq<char>) -> Seq<char>
    decreases s.len(),
{
    if s.len() > 0 && is_space(s[0]) {
        trim_start(s.drop_first())
    } else {
        s
    }
}

/// `s` without its trailing white space.
pub open spec fn trim_end(s: Seq<char>) -> Seq<char>
    decreases s.len(),
{
    if s.len() > 0 && is_space(s.last()) {
        trim_end(s.drop_last())
    } else {
        s
    }
}

/// `s` without leading and trailing white space.
pub open spec fn trimmed(s: Seq<char>) -> Seq<char> {
    trim_end(trim_start(s))
}

/// The longest suffix of `s` that holds no ASCII white space.
pub open spec fn last_word(s: Seq<char>) -> Seq<char>
    decreases s.len(),
{
    if s.len() == 0 || is_ascii_space(s.last()) {
        Seq::empty()
    } else {
        last_word(s.drop_last()).push(s.last())
    }
}

/// The last word of a line once it is trimmed, if the line holds one.
pub open spec fn last_token(line: Seq<char>) -> Option<Seq<char>> {
    if trimmed(line).len() == 0 {
        None
    } else {
        Some(last_word(trimmed(line)))
    }
}

/// The character of one decimal digit.
pub open spec fn digit_char(d: nat) -> char {
    if d == 0 {
        '0'
    } else if d == 1 {
        '1'
    } else if d == 2 {
        '2'
    } else if d == 3 {
        '3'
    } else if d == 4 {
        '4'
    } else if d == 5 {
        '5'
    } else if d == 6 {
        '6'
    } else if d == 7 {
        '7'
    } else if d == 8 {
        '8'
    } else {
        '9'
    }
}

/// The decimal digits of `n`, most significant first, without leading zeros.
pub open spec fn decimal(n: nat) -> Seq<char>
    decreases n,
{
    if n < 10 {
        seq![digit_char(n)]
    } else {
        decimal(n / 10).push(digit_char(n % 10))
    }
}

/// The decimal form of an integer, with a minus sign where it is negative.
pub open spec fn signed_decimal(i: int) -> Seq<char> {
    if i < 0 {
        seq!['-'] + decimal((-i) as nat)
    } else {
        decimal(i as nat)
    }
}

/// `s` with every `from` turned into `to`.
pub open spec fn replaced(s: Seq<char>, from: char, to: char) -> Seq<char> {
    Seq::new(
        s.len(),
        |i: int|
            if s[i] == from {
                to
            } else {
                s[i]
            },
    )
}

/// `s` with every `c` left out.
pub open spec fn without(s: Seq<char>, c: char) -> Seq<char>
    decreases s.len(),
{
    if s.len() == 0 {
        s
    } else if s.last() == c {
        without(s.drop_last(), c)
    } else {
        without(s.drop_last(), c).push(s.last())
    }
}

/// `count` copies of `c`.
pub open spec fn repeated(c: char, count: nat) -> Seq<char> {
    Seq::new(count, |i: int| c)
}

/// The views of a sequence of strings.
pub open spec fn texts(v: Seq<String>) -> Seq<Seq<char>> {
    Seq::new(v.len(), |i: int| v[i]@)
}

/// Whether no text occurs twice: the list stands for a set.
pub open spec fn distinct(names: Seq<Seq<char>>) -> bool {
    forall|i: int, j: int| 0 <= i < j < names.len() ==> names[i] != names[j]
}

/// The set of the names of a list. A name may stand in the list more than
/// once: only whether it occurs counts.
pub open spec fn name_set(names: Seq<String>) -> Set<Seq<char>> {
    Set::new(|name: Seq<char>| listed(names, name))
}

/// Whether `name` is one of `names`.
pub open spec fn listed(names: Seq<String>, name: Seq<char>) -> bool {
    exists|i: int| 0 <= i < names.len() && #[trigger] names[i]@ == name
}

/// `String::push`: the character is appended to the end of the string.
pub assume_specification[ String::push ](s: &mut String, ch: char)
    ensures
        final(s)@ == old(s)@.push(ch),
;

/// The characters of a string, in order.
pub fn chars_of(s: &str) -> (out: Vec<char>)
    ensures
        out@ == s@,
{
    let mut out: Vec<char> = Vec::new();
    for c in it: s.chars()
        invariant
            it.seq() == s@,
            out@ == s@.take(it.index() as int),
    {
        out.push(c);
        proof {
            assert(out@ =~= s@.take(it.index() + 1));
        }
    }
    proof {
        assert(s@.take(s@.len() as int) =~= s@);
    }
    out
}

/// The string of a list of characters, in order.
pub fn string_of(chars: &Vec<char>) -> (out: String)
    ensures
        out@ == chars@,
{
    let mut out = String::new();
    let mut i: usize = 0;
    while i < chars.len()
        invariant
            i <= chars@.len(),
            out@ == chars@.take(i as int),
        decreases chars@.len() - i,
    {
        out.push(chars[i]);
        proof {
            assert(out@ =~= chars@.take(i + 1));
        }
        i += 1;
    }
    proof {
        assert(chars@.take(chars@.len() as int) =~= chars@);
    }
    out
}

/// Tells whether two strings hold the same characters.
pub fn same_text(a: &str, b: &str) -> (same: bool)
    ensures
        same == (a@ == b@),
{
    let left = String::from_str(a);
    let right = String::from_str(b);
    left == right
}

/// Tells whether a character is ASCII white space.
pub fn ascii_space(c: char) -> (yes: bool)
    ensures
        yes == is_ascii_space(c),
{
    c == ' ' || c == '\t' || c == '\n' || c == '\x0C' || c == '\r'
}

/// Tells whether a character is Unicode white space.
pub fn space(c: char) -> (yes: bool)
    ensures
        yes == is_space(c),
{
    let n: u32 = c as u32;
    (0x09 <= n && n <= 0x0D) || n == 0x20 || n == 0x85 || n == 0xA0 || n == 0x1680 || (0x2000 <= n
        && n <= 0x200A) || n == 0x2028 || n == 0x2029 || n == 0x202F || n == 0x205F || n == 0x3000
}

proof fn trim_start_of_suffix(s: Seq<char>, i: int)
    requires
        0 <= i <= s.len(),
        forall|k: int| 0 <= k < i ==> is_space(s[k]),
    ensures
        trim_start(s) == trim_start(s.subrange(i, s.len() as int)),
    decreases i,
{
    if i == 0 {
        assert(s.subrange(0, s.len() as int) =~= s);
    } else {
        trim_start_of_suffix(s.drop_first(), i - 1);
        assert(s.drop_first().subrange(i - 1, s.len() - 1) =~= s.subrange(i, s.len() as int));
    }
}

proof fn trim_end_of_prefix(s: Seq<char>, j: int)
    requires
        0 <= j <= s.len(),
        forall|k: int| j <= k < s.len() ==> is_space(s[k]),
    ensures
        trim_end(s) == trim_end(s.subrange(0, j)),
    decreases s.len() - j,
{
    if j == s.len() {
        assert(s.subrange(0, j) =~= s);
    } else {
        trim_end_of_prefix(s.drop_last(), j);
        assert(s.drop_last().subrange(0, j) =~= s.subrange(0, j));
    }
}

/// The trimmed text keeps no white space at its end.
pub proof fn trimmed_ends_in_text(s: Seq<char>)
    ensures
        trim_end(s).len() > 0 ==> !is_space(trim_end(s).last()),
        trim_end(s).len() <= s.len(),
    decreases s.len(),
{
    if s.len() > 0 && is_space(s.last()) {
        trimmed_ends_in_text(s.drop_last());
    }
}

/// A line that holds anything but white space has a last token, and that
/// token is not empty.
pub proof fn last_token_is_not_empty(line: Seq<char>)
    ensures
        last_token(line) matches Some(word) ==> word.len() > 0,
{
    let t = trimmed(line);
    trimmed_ends_in_text(trim_start(line));
    if t.len() > 0 {
        assert(!is_space(t.last()));
        assert(!is_ascii_space(t.last()));
        assert(last_word(t) == last_word(t.drop_last()).push(t.last()));
    }
}

/// Finds where the trimmed text of `s` starts and ends.
pub fn trim_bounds(s: &Vec<char>) -> (bounds: (usize, usize))
    ensures
        bounds.0 <= bounds.1 <= s@.len(),
        s@.subrange(bounds.0 as int, bounds.1 as int) == trimmed(s@),
{
    let n: usize = s.len();
    let mut a: usize = 0;
    while a < n && space(s[a])
        invariant
            a <= n,
            n == s@.len(),
            forall|k: int| 0 <= k < a ==> is_space(s@[k]),
        decreases n - a,
    {
        a += 1;
    }
    let mut b: usize = n;
    while b > a && space(s[b - 1])
        invariant
            a <= b <= n,
            n == s@.len(),
            forall|k: int| b <= k < n ==> is_space(s@[k]),
        decreases b,
    {
        b -= 1;
    }
    proof {
        let rest = s@.subrange(a as int, n as int);
        trim_start_of_suffix(s@, a as int);
        if a < n {
            assert(rest[0] == s@[a as int]);
            assert(!is_space(rest[0]));
        }
        assert(trim_start(rest) == rest);
        assert forall|k: int| b - a <= k < rest.len() implies is_space(rest[k]) by {
            assert(rest[k] == s@[k + a]);
        }
        trim_end_of_prefix(rest, b - a);
        let kept = rest.subrange(0, b - a);
        assert(kept =~= s@.subrange(a as int, b as int));
        if b > a {
            assert(kept.last() == s@[b - 1]);
            assert(!is_space(kept.last()));
        }
        assert(trim_end(kept) == kept);
    }
    (a, b)
}

/// The trimmed text of a line.
pub fn trim(line: &str) -> (out: String)
    ensures
        out@ == trimmed(line@),
{
    let chars = chars_of(line);
    let (a, b) = trim_bounds(&chars);
    let mut kept: Vec<char> = Vec::new();
    let mut i: usize = a;
    while i < b
        invariant
            a <= i <= b <= chars@.len(),
            kept@ == chars@.subrange(a as int, i as int),
        decreases b - i,
    {
        kept.push(chars[i]);
        proof {
            assert(kept@ =~= chars@.subrange(a as int, i + 1));
        }
        i += 1;
    }
    string_of(&kept)
}

proof fn last_word_split(s: Seq<char>, j: int)
    requires
        0 <= j <= s.len(),
        forall|k: int| j <= k < s.len() ==> !is_ascii_space(s[k]),
    ensures
        last_word(s) == last_word(s.subrange(0, j)) + s.subrange(j, s.len() as int),
    decreases s.len() - j,
{
    if j == s.len() {
        assert(s.subrange(0, j) =~= s);
        assert(last_word(s) + s.subrange(j, s.len() as int) =~= last_word(s));
    } else {
        let front = s.drop_last();
        last_word_split(front, j);
        assert(front.subrange(0, j) =~= s.subrange(0, j));
        assert((last_word(front.subrange(0, j)) + front.subrange(j, front.len() as int)).push(
            s.last(),
        ) =~= last_word(s.subrange(0, j)) + s.subrange(j, s.len() as int));
    }
}

/// The last token of a line: the line is trimmed, cut at ASCII white space,
/// and the last piece is returned. A line of white space alone has none.
pub fn last_token_of(line: &str) -> (token: Option<String>)
    ensures
        match token {
            Some(word) => last_token(line@) == Some(word@),
            None => last_token(line@) is None,
        },
{
    let chars = chars_of(line);
    let (a, b) = trim_bounds(&chars);
    if a == b {
        return None;
    }
    let mut j: usize = b;
    while j > a && !ascii_space(chars[j - 1])
        invariant
            a <= j <= b <= chars@.len(),
            forall|k: int| j <= k < b ==> !is_ascii_space(chars@[k]),
        decreases j,
    {
        j -= 1;
    }
    let mut word: Vec<char> = Vec::new();
    let mut i: usize = j;
    while i < b
        invariant
            j <= i <= b <= chars@.len(),
            word@ == chars@.subrange(j as int, i as int),
        decreases b - i,
    {
        word.push(chars[i]);
        proof {
            assert(word@ =~= chars@.subrange(j as int, i + 1));
        }
        i += 1;
    }
    proof {
        let t = chars@.subrange(a as int, b as int);
        assert forall|k: int| j - a <= k < t.len() implies !is_ascii_space(t[k]) by {
            assert(t[k] == chars@[k + a]);
        }
        last_word_split(t, j - a);
        let front = t.subrange(0, j - a);
        if j > a {
            assert(front.last() == chars@[j - 1]);
        }
        assert(last_word(front) =~= Seq::<char>::empty());
        assert(t.subrange(j - a, t.len() as int) =~= chars@.subrange(j as int, b as int));
        assert(last_word(t) =~= word@);
    }
    Some(string_of(&word))
}

/// Writes one decimal digit.
fn digit(d: u64) -> (c: char)
    requires
        d < 10,
    ensures
        c == digit_char(d as nat),
{
    if d == 0 {
        '0'
    } else if d == 1 {
        '1'
    } else if d == 2 {
        '2'
    } else if d == 3 {
        '3'
    } else if d == 4 {
        '4'
    } else if d == 5 {
        '5'
    } else if d == 6 {
        '6'
    } else if d == 7 {
        '7'
    } else if d == 8 {
        '8'
    } else {
        '9'
    }
}

fn push_decimal(n: u64, out: &mut Vec<char>)
    ensures
        final(out)@ == old(out)@ + decimal(n as nat),
    decreases n,
{
    if n >= 10 {
        push_decimal(n / 10, out);
    }
    out.push(digit(n % 10));
    proof {
        assert(final(out)@ =~= old(out)@ + decimal(n as nat));
    }
}

/// The decimal form of an unsigned number.
pub fn decimal_string(n: u64) -> (out: String)
    ensures
        out@ == decimal(n as nat),
{
    let mut digits: Vec<char> = Vec::new();
    push_decimal(n, &mut digits);
    proof {
        assert(digits@ =~= decimal(n as nat));
    }
    string_of(&digits)
}

/// The decimal form of a signed number.
pub fn signed_decimal_string(i: i64) -> (out: String)
    ensures
        out@ == signed_decimal(i as int),
{
    let mut digits: Vec<char> = Vec::new();
    if i < 0 {
        digits.push('-');
        let below: i64 = -(i + 1);
        let size: u64 = below as u64 + 1;
        push_decimal(size, &mut digits);
        proof {
            assert(size as int == -(i as int));
            assert(digits@ =~= seq!['-'] + decimal((-(i as int)) as nat));
        }
    } else {
        push_decimal(i as u64, &mut digits);
        proof {
            assert(digits@ =~= decimal(i as nat));
        }
    }
    string_of(&digits)
}

/// Turns every `from` of `s` into `to`.
pub fn replace_char(s: &str, from: char, to: char) -> (out: String)
    ensures
        out@ == replaced(s@, from, to),
{
    let chars = chars_of(s);
    let mut changed: Vec<char> = Vec::new();
    let mut i: usize = 0;
    while i < chars.len()
        invariant
            i <= chars@.len(),
            chars@ == s@,
            changed@ == replaced(s@.subrange(0, i as int), from, to),
        decreases chars@.len() - i,
    {
        let c = chars[i];
        if c == from {
            changed.push(to);
        } else {
            changed.push(c);
        }
        proof {
            assert(changed@ =~= replaced(s@.subrange(0, i + 1), from, to));
        }
        i += 1;
    }
    proof {
        assert(s@.subrange(0, i as int) =~= s@);
    }
    string_of(&changed)
}

/// Leaves every `c` out of `s`.
pub fn remove_char(s: &str, c: char) -> (out: String)
    ensures
        out@ == without(s@, c),
{
    let chars = chars_of(s);
    let mut kept: Vec<char> = Vec::new();
    let mut i: usize = 0;
    while i < chars.len()
        invariant
            i <= chars@.len(),
            chars@ == s@,
            kept@ == without(s@.subrange(0, i as int), c),
        decreases chars@.len() - i,
    {
        proof {
            let next = s@.subrange(0, i + 1);
            assert(next.drop_last() =~= s@.subrange(0, i as int));
            assert(next.last() == chars@[i as int]);
        }
        if chars[i] != c {
            kept.push(chars[i]);
        }
        i += 1;
    }
    proof {
        assert(s@.subrange(0, i as int) =~= s@);
    }
    string_of(&kept)
}

/// Tells whether `name` is one of `names`.
pub fn is_listed(names: &Vec<String>, name: &str) -> (found: bool)
    ensures
        found == listed(names@, name@),
{
    let mut i: usize = 0;
    while i < names.len()
        invariant
            i <= names@.len(),
            forall|k: int| 0 <= k < i ==> names@[k]@ != name@,
        decreases names@.len() - i,
    {
        if same_text(names[i].as_str(), name) {
            return true;
        }
        i += 1;
    }
    false
}

} // verus!
