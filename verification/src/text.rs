//! Text helpers over `&str` and `String`, specified on `Seq<char>`.

use vstd::prelude::*;
use vstd::string::*;

verus! {

/// The character sequences of a sequence of strings.
pub open spec fn texts(items: Seq<String>) -> Seq<Seq<char>> {
    Seq::new(items.len(), |i: int| items[i]@)
}

/// `p` is an initial segment of `s`.
pub open spec fn has_prefix(s: Seq<char>, p: Seq<char>) -> bool {
    p.len() <= s.len() && s.subrange(0, p.len() as int) == p
}

/// `p` is a final segment of `s`.
pub open spec fn has_suffix(s: Seq<char>, p: Seq<char>) -> bool {
    p.len() <= s.len() && s.subrange(s.len() - p.len(), s.len() as int) == p
}

/// `p` occurs in `s` starting at position `i`.
pub open spec fn occurs_at(s: Seq<char>, p: Seq<char>, i: int) -> bool {
    0 <= i && i + p.len() <= s.len() && s.subrange(i, i + p.len()) == p
}

/// `p` occurs somewhere in `s`.
pub open spec fn has_infix(s: Seq<char>, p: Seq<char>) -> bool {
    exists|i: int| occurs_at(s, p, i)
}

/// The position just after the last `/` of `s`, or 0 when there is none.
pub open spec fn base_start(s: Seq<char>) -> int
    decreases s.len(),
{
    if s.len() == 0 {
        0
    } else if s.last() == '/' {
        s.len() as int
    } else {
        base_start(s.drop_last())
    }
}

/// What follows the last `/` of `s`; all of `s` when it holds none.
pub open spec fn base_name(s: Seq<char>) -> Seq<char> {
    s.subrange(base_start(s), s.len() as int)
}

/// What precedes the last `/` of `s`; empty when it holds none.
pub open spec fn parent_dir(s: Seq<char>) -> Seq<char> {
    if base_start(s) == 0 {
        Seq::empty()
    } else {
        s.subrange(0, base_start(s) - 1)
    }
}

/// The decimal digit for `d`, which is below ten.
pub open spec fn digit(d: int) -> char {
    if d == 0 {
        '0'
    } else if d == 1 {
        '1'
    } else if d == 2 {
        '2'
    } else if d == 3 {
        '3'
    } else if d == 4 {
        '4'
    } else if d == 5 {
        '5'
    } else if d == 6 {
        '6'
    } else if d == 7 {
        '7'
    } else if d == 8 {
        '8'
    } else {
        '9'
    }
}

/// The decimal numeral of `n`, without leading zeros.
pub open spec fn decimal_digits(n: nat) -> Seq<char>
    decreases n,
{
    if n < 10 {
        seq![digit(n as int)]
    } else {
        decimal_digits(n / 10).push(digit((n % 10) as int))
    }
}

/// The items of `items` with `sep` between neighbours.
pub open spec fn joined(items: Seq<Seq<char>>, sep: Seq<char>) -> Seq<char>
    decreases items.len(),
{
    if items.len() == 0 {
        Seq::empty()
    } else if items.len() == 1 {
        items[0]
    } else {
        joined(items.drop_last(), sep) + sep + items.last()
    }
}

/// The base starts inside the text, right after a `/` if it does not start the
/// text, and holds no `/`.
pub proof fn lemma_base_start_bounds(s: Seq<char>)
    ensures
        0 <= base_start(s) <= s.len(),
        base_start(s) > 0 ==> s[base_start(s) - 1] == '/',
        forall|k: int| base_start(s) <= k < s.len() ==> s[k] != '/',
    decreases s.len(),
{
    if s.len() > 0 && s.last() != '/' {
        let t = s.drop_last();
        lemma_base_start_bounds(t);
        assert forall|k: int| base_start(s) <= k < s.len() implies s[k] != '/' by {
            if k < t.len() {
                assert(s[k] == t[k]);
            }
        }
    }
}

/// The characters of `s`.
pub fn chars_of(s: &str) -> (v: Vec<char>)
    ensures
        v@ == s@,
{
    let mut v: Vec<char> = Vec::new();
    for c in it: s.chars()
        invariant
            v@ == it.seq().take(it.index() as int),
    {
        v.push(c);
    }
    v
}

/// Whether `a` and `b` are the same text.
pub fn str_eq(a: &str, b: &str) -> (r: bool)
    ensures
        r == (a@ == b@),
{
    let x = String::from_str(a);
    let y = String::from_str(b);
    x == y
}

/// Whether `s` begins with `p`.
pub fn starts_with(s: &str, p: &str) -> (r: bool)
    ensures
        r == has_prefix(s@, p@),
{
    let n = s.unicode_len();
    let m = p.unicode_len();
    if m > n {
        return false;
    }
    str_eq(s.substring_char(0, m), p)
}

/// Whether `s` ends with `p`.
pub fn ends_with(s: &str, p: &str) -> (r: bool)
    ensures
        r == has_suffix(s@, p@),
{
    let n = s.unicode_len();
    let m = p.unicode_len();
    if m > n {
        return false;
    }
    str_eq(s.substring_char(n - m, n), p)
}

/// `s` without its first `n` characters.
pub fn skip_chars(s: &str, n: usize) -> (r: String)
    requires
        n <= s@.len(),
    ensures
        r@ == s@.skip(n as int),
{
    let len = s.unicode_len();
    String::from_str(s.substring_char(n, len))
}

/// The first `n` characters of `s`, or all of it when it is shorter.
pub fn take_chars(s: &str, n: usize) -> (r: String)
    ensures
        r@ == s@.take(if n <= s@.len() { n as int } else { s@.len() as int }),
{
    let len = s.unicode_len();
    let m = if n <= len { n } else { len };
    String::from_str(s.substring_char(0, m))
}

fn matches_at(hay: &Vec<char>, pat: &Vec<char>, i: usize) -> (r: bool)
    requires
        i + pat.len() <= hay.len(),
    ensures
        r == occurs_at(hay@, pat@, i as int),
{
    let mut j: usize = 0;
    while j < pat.len()
        invariant
            j <= pat.len(),
            i + pat.len() <= hay.len(),
            forall|k: int| 0 <= k < j ==> hay@[i + k] == pat@[k],
        decreases pat.len() - j,
    {
        if hay[i + j] != pat[j] {
            assert(hay@.subrange(i as int, i + pat.len())[j as int] != pat@[j as int]);
            return false;
        }
        j += 1;
    }
    assert(hay@.subrange(i as int, i + pat.len()) =~= pat@);
    true
}

/// Whether `p` occurs in `s`.
pub fn contains(s: &str, p: &str) -> (r: bool)
    ensures
        r == has_infix(s@, p@),
{
    let hay = chars_of(s);
    let pat = chars_of(p);
    if pat.len() > hay.len() {
        return false;
    }
    let last = hay.len() - pat.len();
    let mut i: usize = 0;
    loop
        invariant
            i <= last,
            last == hay.len() - pat.len(),
            pat.len() <= hay.len(),
            hay@ == s@,
            pat@ == p@,
            forall|k: int| 0 <= k < i ==> !occurs_at(hay@, pat@, k),
        decreases last - i,
    {
        if matches_at(&hay, &pat, i) {
            return true;
        }
        if i == last {
            return false;
        }
        i += 1;
    }
}

/// The last component of a `/`-separated path.
pub fn file_name(path: &str) -> (r: String)
    ensures
        r@ == base_name(path@),
{
    let v = chars_of(path);
    let mut i: usize = v.len();
    assert(v@.take(v.len() as int) =~= v@);
    while i > 0 && v[i - 1] != '/'
        invariant
            i <= v.len(),
            base_start(v@) == base_start(v@.take(i as int)),
        decreases i,
    {
        assert(v@.take(i as int).drop_last() =~= v@.take(i - 1));
        i -= 1;
    }
    proof {
        assert(v@.take(v.len() as int) =~= v@);
        let t = v@.take(i as int);
        if i > 0 {
            assert(t.last() == '/');
        }
        assert(base_start(t) == i);
    }
    skip_chars(path, i)
}

/// The directory part of a `/`-separated path.
pub fn parent_of(path: &str) -> (r: String)
    ensures
        r@ == parent_dir(path@),
{
    let name = file_name(path);
    let n = path.unicode_len();
    let m = name.as_str().unicode_len();
    proof {
        lemma_base_start_bounds(path@);
    }
    let start = n - m;
    if start == 0 {
        String::new()
    } else {
        String::from_str(path.substring_char(0, start - 1))
    }
}

fn digit_text(d: u128) -> (s: &'static str)
    requires
        d < 10,
    ensures
        s@ == seq![digit(d as int)],
{
    proof {
        reveal_strlit("0");
        reveal_strlit("1");
        reveal_strlit("2");
        reveal_strlit("3");
        reveal_strlit("4");
        reveal_strlit("5");
        reveal_strlit("6");
        reveal_strlit("7");
        reveal_strlit("8");
        reveal_strlit("9");
    }
    let s = if d == 0 {
        "0"
    } else if d == 1 {
        "1"
    } else if d == 2 {
        "2"
    } else if d == 3 {
        "3"
    } else if d == 4 {
        "4"
    } else if d == 5 {
        "5"
    } else if d == 6 {
        "6"
    } else if d == 7 {
        "7"
    } else if d == 8 {
        "8"
    } else {
        "9"
    };
    assert(s@ =~= seq![digit(d as int)]);
    s
}

/// The decimal numeral of `n`.
pub fn decimal(n: u128) -> (s: String)
    ensures
        s@ == decimal_digits(n as nat),
    decreases n,
{
    if n < 10 {
        String::from_str(digit_text(n))
    } else {
        let head = decimal(n / 10);
        let r = head.concat(digit_text(n % 10));
        assert(r@ =~= decimal_digits((n / 10) as nat).push(digit((n % 10) as int)));
        r
    }
}

/// The items with `sep` between neighbours.
pub fn join(items: &Vec<String>, sep: &str) -> (r: String)
    ensures
        r@ == joined(texts(items@), sep@),
{
    let mut out = String::new();
    let mut i: usize = 0;
    while i < items.len()
        invariant
            i <= items.len(),
            out@ == joined(texts(items@).take(i as int), sep@),
        decreases items.len() - i,
    {
        proof {
            let next = texts(items@).take(i + 1);
            assert(next.drop_last() =~= texts(items@).take(i as int));
            assert(next.last() == items@[i as int]@);
        }
        if i > 0 {
            out.append(sep);
        }
        out.append(items[i].as_str());
        i += 1;
    }
    assert(texts(items@).take(items.len() as int) =~= texts(items@));
    out
}

/// `a` followed by `b`.
pub fn cat(a: &str, b: &str) -> (r: String)
    ensures
        r@ == a@ + b@,
{
    String::from_str(a).concat(b)
}

/// `a`, `b` and `c` in a row.
pub fn cat3(a: &str, b: &str, c: &str) -> (r: String)
    ensures
        r@ == a@ + b@ + c@,
{
    String::from_str(a).concat(b).concat(c)
}

/// The pieces of `s` between the occurrences of `sep`: one more piece than
/// there are separators, so a text without separator is its own single piece.
pub open spec fn split_on(s: Seq<char>, sep: char) -> Seq<Seq<char>>
    decreases s.len(),
{
    if s.len() == 0 {
        seq![Seq::empty()]
    } else if s.last() == sep {
        split_on(s.drop_last(), sep).push(Seq::empty())
    } else {
        let before = split_on(s.drop_last(), sep);
        before.drop_last().push(before.last().push(s.last()))
    }
}

/// A text always splits into at least one piece.
pub proof fn lemma_split_nonempty(s: Seq<char>, sep: char)
    ensures
        split_on(s, sep).len() > 0,
    decreases s.len(),
{
    if s.len() > 0 {
        lemma_split_nonempty(s.drop_last(), sep);
    }
}

/// The pieces of `s` between the occurrences of `sep`.
pub fn split(s: &str, sep: char) -> (r: Vec<String>)
    ensures
        texts(r@) == split_on(s@, sep),
{
    let chars = chars_of(s);
    let mut pieces: Vec<String> = Vec::new();
    let mut start: usize = 0;
    let mut i: usize = 0;
    proof {
        assert(s@.take(0) =~= Seq::<char>::empty());
        assert(s@.subrange(0, 0) =~= Seq::<char>::empty());
        assert(texts(pieces@).push(s@.subrange(0, 0)) =~= split_on(s@.take(0), sep));
    }
    while i < chars.len()
        invariant
            start <= i <= chars.len(),
            chars@ == s@,
            split_on(s@.take(i as int), sep) == texts(pieces@).push(
                s@.subrange(start as int, i as int),
            ),
        decreases chars.len() - i,
    {
        proof {
            let next = s@.take(i + 1);
            assert(next.drop_last() =~= s@.take(i as int));
            assert(next.last() == s@[i as int]);
            let before = split_on(s@.take(i as int), sep);
            assert(before.drop_last() =~= texts(pieces@));
            assert(before.last() == s@.subrange(start as int, i as int));
        }
        if chars[i] == sep {
            let ghost old_pieces = texts(pieces@);
            let ghost old_start = start;
            pieces.push(String::from_str(s.substring_char(start, i)));
            start = i + 1;
            proof {
                assert(texts(pieces@) =~= old_pieces.push(s@.subrange(old_start as int, i as int)));
                assert(s@.subrange(start as int, i + 1) =~= Seq::<char>::empty());
            }
        } else {
            proof {
                let piece = s@.subrange(start as int, i as int);
                assert(s@.subrange(start as int, i + 1) =~= piece.push(s@[i as int]));
            }
        }
        i += 1;
    }
    proof {
        assert(s@.take(chars.len() as int) =~= s@);
    }
    let ghost old_pieces = texts(pieces@);
    pieces.push(String::from_str(s.substring_char(start, i)));
    assert(texts(pieces@) =~= old_pieces.push(s@.subrange(start as int, i as int)));
    pieces
}

/// The lower-case form of a text, as `str::to_lowercase` gives it.
pub uninterp spec fn lowercased(s: Seq<char>) -> Seq<char>;

/// A text without the white space at its two ends, as `str::trim` gives it.
pub uninterp spec fn trimmed(s: Seq<char>) -> Seq<char>;

/// `str::to_lowercase`: the text with every character in lower case, by
/// the rules of Unicode.
#[verifier::external_body]
pub(crate) fn to_lowercase(s: &str) -> (r: String)
    ensures
        r@ == lowercased(s@),
{
    s.to_lowercase()
}

/// `str::trim`: the text without leading and trailing white space.
#[verifier::external_body]
pub(crate) fn trim(s: &str) -> (r: String)
    ensures
        r@ == trimmed(s@),
{
    s.trim().to_string()
}

/// What the expansion of a home directory may make of `path`: a path
/// that does not open with a tilde stays as it is; one that does either
/// stays as it is or has some home directory in place of the tilde.
pub open spec fn tilde_expanded(path: Seq<char>, expanded: Seq<char>) -> bool {
    expanded == path || (has_prefix(path, "~"@) && exists|home: Seq<char>|
        expanded == home + path.skip(1))
}

/// The home-directory expansion of a path by `shellexpand::tilde`: a
/// leading `~` that stands alone or before a `/` is replaced by the home
/// directory of whoever runs the program, if there is one; every other
/// path comes back unchanged. Which home directory is taken depends on the
/// environment and is left open.
#[verifier::external_body]
pub(crate) fn expand_tilde(path: &str) -> (r: String)
    ensures
        tilde_expanded(path@, r@),
{
    shellexpand::tilde(path).to_string()
}

/// `String::push`: appends one character.
#[verifier::external_body]
pub(crate) fn push_char(s: &mut String, c: char)
    ensures
        final(s)@ == old(s)@.push(c),
{
    s.push(c);
}

/// `String::pop`: removes the last character, if there is one.
#[verifier::external_body]
pub(crate) fn pop_char(s: &mut String)
    ensures
        final(s)@ == if old(s)@.len() > 0 {
            old(s)@.drop_last()
        } else {
            old(s)@
        },
{
    s.pop();
}

/// A copy of each string.
pub fn clone_strings(items: &Vec<String>) -> (r: Vec<String>)
    ensures
        texts(r@) == texts(items@),
{
    let mut out: Vec<String> = Vec::new();
    let mut i: usize = 0;
    while i < items.len()
        invariant
            i <= items.len(),
            out.len() == i,
            forall|k: int| 0 <= k < i ==> out@[k]@ == items@[k]@,
        decreases items.len() - i,
    {
        out.push(items[i].clone());
        i += 1;
    }
    assert(texts(out@) =~= texts(items@));
    out
}

} // verus!
