//! Text helpers shared by the parsers and formatters of this crate.

use vstd::prelude::*;
use vstd::string::StringExecFns;

verus! {

/// Appends one character to a string.
///
/// Trusted: `String::push` of the standard library, which appends the given
/// character to the end of the string and touches nothing else.
#[verifier::external_body]
pub(crate) fn push_char(s: &mut String, c: char)
    ensures
        final(s)@ == old(s)@.push(c),
{
    s.push(c)
}

/// The character that writes a single decimal digit.
pub open spec fn digit(d: int) -> char {
    if d == 0 {
        '0'
    } else if d == 1 {
        '1'
    } else if d == 2 {
        '2'
    } else if d == 3 {
        '3'
    } else if d == 4 {
        '4'
    } else if d == 5 {
        '5'
    } else if d == 6 {
        '6'
    } else if d == 7 {
        '7'
    } else if d == 8 {
        '8'
    } else {
        '9'
    }
}

/// The decimal notation of a natural number, without leading zeros.
pub open spec fn decimal(n: nat) -> Seq<char>
    decreases n,
{
    if n < 10 {
        seq![digit(n as int)]
    } else {
        decimal(n / 10).push(digit((n % 10) as int))
    }
}

/// The decimal notation of an integer, with a minus sign when negative.
pub open spec fn signed_decimal(i: int) -> Seq<char> {
    if i < 0 {
        seq!['-'] + decimal((-i) as nat)
    } else {
        decimal(i as nat)
    }
}

fn digit_char(d: u64) -> (c: char)
    requires
        d < 10,
    ensures
        c == digit(d as int),
{
    if d == 0 {
        '0'
    } else if d == 1 {
        '1'
    } else if d == 2 {
        '2'
    } else if d == 3 {
        '3'
    } else if d == 4 {
        '4'
    } else if d == 5 {
        '5'
    } else if d == 6 {
        '6'
    } else if d == 7 {
        '7'
    } else if d == 8 {
        '8'
    } else {
        '9'
    }
}

/// Appends the decimal notation of `n`.
pub fn append_decimal(s: &mut String, n: u64)
    ensures
        final(s)@ == old(s)@ + decimal(n as nat),
    decreases n,
{
    if n >= 10 {
        append_decimal(s, n / 10);
    }
    push_char(s, digit_char(n % 10));
}

/// Appends the decimal notation of `i`, with its sign.
pub fn append_signed_decimal(s: &mut String, i: i64)
    ensures
        final(s)@ == old(s)@ + signed_decimal(i as int),
{
    if i < 0 {
        push_char(s, '-');
        let magnitude: u64 = ((-(i + 1)) as u64) + 1;
        append_decimal(s, magnitude);
    } else {
        append_decimal(s, i as u64);
    }
}

/// The characters of a string, in order.
pub fn chars_of(s: &str) -> (v: Vec<char>)
    ensures
        v@ == s@,
{
    let n = s.unicode_len();
    let mut v: Vec<char> = Vec::new();
    let mut i: usize = 0;
    while i < n
        invariant
            n == s@.len(),
            i <= n,
            v@ == s@.take(i as int),
        decreases n - i,
    {
        v.push(s.get_char(i));
        i += 1;
    }
    v
}

/// The string made of the characters `v[from..to]`.
pub fn string_of(v: &Vec<char>, from: usize, to: usize) -> (s: String)
    requires
        from <= to <= v.len(),
    ensures
        s@ == v@.subrange(from as int, to as int),
{
    let mut s = String::new();
    let mut i: usize = from;
    while i < to
        invariant
            from <= i <= to <= v.len(),
            s@ == v@.subrange(from as int, i as int),
        decreases to - i,
    {
        push_char(&mut s, v[i]);
        i += 1;
    }
    s
}

/// Whether two strings hold the same characters.
pub fn same_text(a: &str, b: &str) -> (r: bool)
    ensures
        r == (a@ == b@),
{
    let x = a.to_owned();
    let y = b.to_owned();
    x == y
}

/// The views of a sequence of values.
pub open spec fn views<T: View>(v: Seq<T>) -> Seq<T::V> {
    Seq::new(v.len(), |i: int| v[i]@)
}

/// The view of a string that may be absent.
pub open spec fn opt_view(text: Option<String>) -> Option<Seq<char>> {
    match text {
        Some(t) => Some(t@),
        None => None,
    }
}

/// The views of a sequence of pairs of strings.
pub open spec fn pair_views(v: Seq<(String, String)>) -> Seq<(Seq<char>, Seq<char>)> {
    Seq::new(v.len(), |i: int| (v[i].0@, v[i].1@))
}

/// A path below a base directory: the two are joined by a slash unless the
/// base already ends in one. An empty base leaves the path as it is.
pub open spec fn joined(base: Seq<char>, rel: Seq<char>) -> Seq<char> {
    if base.len() == 0 {
        rel
    } else if base.last() == '/' {
        base + rel
    } else {
        base + seq!['/'] + rel
    }
}

/// Joins a path to a base directory.
pub fn join(base: &str, rel: &str) -> (full: String)
    ensures
        full@ == joined(base@, rel@),
{
    let n = base.unicode_len();
    if n == 0 {
        rel.to_owned()
    } else if base.get_char(n - 1) == '/' {
        base.to_owned().concat(rel)
    } else {
        proof {
            reveal_strlit("/");
            assert("/"@ =~= seq!['/']);
        }
        base.to_owned().concat("/").concat(rel)
    }
}

/// The pieces of `s` between separators, where `a` and `b` separate. There is
/// one piece more than there are separators, and a piece may be empty.
pub open spec fn split(s: Seq<char>, a: char, b: char) -> Seq<Seq<char>>
    decreases s.len(),
{
    if s.len() == 0 {
        seq![Seq::<char>::empty()]
    } else {
        let before = split(s.drop_last(), a, b);
        if s.last() == a || s.last() == b {
            before.push(Seq::<char>::empty())
        } else {
            before.drop_last().push(before.last().push(s.last()))
        }
    }
}

/// A split always yields at least one piece.
pub proof fn lemma_split_nonempty(s: Seq<char>, a: char, b: char)
    ensures
        split(s, a, b).len() >= 1,
    decreases s.len(),
{
    if s.len() > 0 {
        lemma_split_nonempty(s.drop_last(), a, b);
    }
}

/// Splits a string at every occurrence of `a` or `b`.
pub fn split_on(s: &str, a: char, b: char) -> (pieces: Vec<String>)
    ensures
        views(pieces@) == split(s@, a, b),
        pieces@.len() >= 1,
{
    let chars = chars_of(s);
    let mut done: Vec<String> = Vec::new();
    let mut current = String::new();
    let mut i: usize = 0;
    while i < chars.len()
        invariant
            chars@ == s@,
            i <= chars.len(),
            views(done@).push(current@) == split(s@.take(i as int), a, b),
        decreases chars.len() - i,
    {
        let c = chars[i];
        proof {
            let upto = s@.take(i as int + 1);
            assert(upto.drop_last() == s@.take(i as int));
            assert(upto.last() == c);
        }
        if c == a || c == b {
            let ghost before = views(done@).push(current@);
            done.push(current);
            current = String::new();
            assert(views(done@) == before);
        } else {
            let ghost before = views(done@).push(current@);
            push_char(&mut current, c);
            assert(views(done@).push(current@) == before.drop_last().push(before.last().push(c)));
        }
        i += 1;
    }
    let ghost before = views(done@).push(current@);
    done.push(current);
    assert(views(done@) == before);
    assert(s@.take(i as int) == s@);
    done
}

/// The value of the first pair whose key is `name`, if there is one.
pub open spec fn value_of(pairs: Seq<(Seq<char>, Seq<char>)>, name: Seq<char>) -> Option<Seq<char>>
    decreases pairs.len(),
{
    if pairs.len() == 0 {
        None
    } else if pairs[0].0 == name {
        Some(pairs[0].1)
    } else {
        value_of(pairs.skip(1), name)
    }
}

/// Looks a key up in a list of pairs.
pub fn lookup<'a>(pairs: &'a Vec<(String, String)>, name: &str) -> (value: Option<&'a String>)
    ensures
        opt_ref_view(value) == value_of(pair_views(pairs@), name@),
{
    let mut i: usize = 0;
    assert(pair_views(pairs@).skip(0) == pair_views(pairs@));
    while i < pairs.len()
        invariant
            i <= pairs.len(),
            value_of(pair_views(pairs@), name@) == value_of(
                pair_views(pairs@).skip(i as int),
                name@,
            ),
        decreases pairs.len() - i,
    {
        let ghost rest = pair_views(pairs@).skip(i as int);
        assert(rest[0] == (pairs@[i as int].0@, pairs@[i as int].1@));
        if same_text(pairs[i].0.as_str(), name) {
            return Some(&pairs[i].1);
        }
        assert(rest.skip(1) == pair_views(pairs@).skip(i as int + 1));
        i += 1;
    }
    None
}

/// The view of a borrowed string that may be absent.
pub open spec fn opt_ref_view(text: Option<&String>) -> Option<Seq<char>> {
    match text {
        Some(t) => Some(t@),
        None => None,
    }
}

/// Whether a character is white space, as Unicode defines it.
pub open spec fn is_whitespace(c: char) -> bool {
    let u = c as u32;
    ||| 0x09 <= u <= 0x0d
    ||| u == 0x20
    ||| u == 0x85
    ||| u == 0xa0
    ||| u == 0x1680
    ||| 0x2000 <= u <= 0x200a
    ||| u == 0x2028
    ||| u == 0x2029
    ||| u == 0x202f
    ||| u == 0x205f
    ||| u == 0x3000
}

/// A letter of `A` to `Z` in lower case; any other character as it is.
pub open spec fn ascii_lower(c: char) -> char {
    if 'A' <= c <= 'Z' {
        ((c as u8) + 32) as u8 as char
    } else {
        c
    }
}

/// A text without the white space it starts with.
pub open spec fn trim_start(s: Seq<char>) -> Seq<char>
    decreases s.len(),
{
    if s.len() > 0 && is_whitespace(s[0]) {
        trim_start(s.skip(1))
    } else {
        s
    }
}

/// A text without the white space it ends with.
pub open spec fn trim_end(s: Seq<char>) -> Seq<char>
    decreases s.len(),
{
    if s.len() > 0 && is_whitespace(s.last()) {
        trim_end(s.drop_last())
    } else {
        s
    }
}

/// A text without the white space around it, in lower case.
pub open spec fn normalized(s: Seq<char>) -> Seq<char> {
    let core = trim_end(trim_start(s));
    Seq::new(core.len(), |i: int| ascii_lower(core[i]))
}

/// Whether a character is white space.
pub fn char_is_whitespace(c: char) -> (white: bool)
    ensures
        white == is_whitespace(c),
{
    let u = c as u32;
    (0x09 <= u && u <= 0x0d) || u == 0x20 || u == 0x85 || u == 0xa0 || u == 0x1680 || (0x2000 <= u
        && u <= 0x200a) || u == 0x2028 || u == 0x2029 || u == 0x202f || u == 0x205f || u == 0x3000
}

/// A character in lower case, if it is a letter of `A` to `Z`.
pub fn char_to_ascii_lower(c: char) -> (lower: char)
    ensures
        lower == ascii_lower(c),
{
    if 'A' <= c && c <= 'Z' {
        ((c as u8) + 32) as char
    } else {
        c
    }
}

/// Strips the white space around a text and puts it in lower case.
pub fn normalize(text: &str) -> (token: String)
    ensures
        token@ == normalized(text@),
{
    let chars = chars_of(text);
    let n = chars.len();
    let mut a: usize = 0;
    assert(chars@.skip(0) == chars@);
    while a < n && char_is_whitespace(chars[a])
        invariant
            n == chars.len(),
            a <= n,
            trim_start(chars@) == trim_start(chars@.skip(a as int)),
        decreases n - a,
    {
        assert(chars@.skip(a as int).skip(1) == chars@.skip(a as int + 1));
        a += 1;
    }
    assert(trim_start(chars@) == chars@.subrange(a as int, n as int)) by {
        assert(chars@.skip(a as int) == chars@.subrange(a as int, n as int));
        if a < n {
            assert(chars@.skip(a as int)[0] == chars@[a as int]);
        }
    }
    let mut b: usize = n;
    while b > a && char_is_whitespace(chars[b - 1])
        invariant
            n == chars.len(),
            a <= b <= n,
            trim_end(trim_start(chars@)) == trim_end(chars@.subrange(a as int, b as int)),
        decreases b - a,
    {
        assert(chars@.subrange(a as int, b as int).last() == chars@[b as int - 1]);
        assert(chars@.subrange(a as int, b as int).drop_last() == chars@.subrange(
            a as int,
            b as int - 1,
        ));
        b -= 1;
    }
    assert(trim_end(trim_start(chars@)) == chars@.subrange(a as int, b as int)) by {
        if b > a {
            assert(chars@.subrange(a as int, b as int).last() == chars@[b as int - 1]);
        }
    }
    let ghost core = chars@.subrange(a as int, b as int);
    let mut token = String::new();
    let mut i: usize = a;
    while i < b
        invariant
            a <= i <= b <= n,
            n == chars.len(),
            core == chars@.subrange(a as int, b as int),
            token@ == Seq::new((i - a) as nat, |k: int| ascii_lower(core[k])),
        decreases b - i,
    {
        let ghost before = token@;
        push_char(&mut token, char_to_ascii_lower(chars[i]));
        assert(token@ =~= Seq::new((i + 1 - a) as nat, |k: int| ascii_lower(core[k])));
        i += 1;
    }
    assert(token@ =~= normalized(text@));
    token
}

} // verus!
