use vstd::prelude::*;

verus! {

/// Appends one character to a `String` (`String::push` from std, documented as
/// appending the given char to the end of the string).
#[verifier::external_body]
pub(crate) fn push_char(s: &mut String, c: char)
    ensures
        final(s)@ == old(s)@.push(c),
{
    s.push(c);
}

/// The characters of `s`, in order.
pub fn chars_of(s: &str) -> (v: Vec<char>)
    ensures
        v@ == s@,
{
    let mut v: Vec<char> = Vec::new();
    for c in it: s.chars()
        invariant
            v@ == it.seq().take(it.index() as int),
            it.seq() == s@,
    {
        v.push(c);
    }
    assert(v@ =~= s@);
    v
}

/// A `String` holding `v[lo..hi]`.
pub fn string_from_range(v: &Vec<char>, lo: usize, hi: usize) -> (s: String)
    requires
        lo <= hi <= v@.len(),
    ensures
        s@ == v@.subrange(lo as int, hi as int),
{
    let mut s = String::new();
    let mut i = lo;
    while i < hi
        invariant
            lo <= i <= hi <= v@.len(),
            s@ == v@.subrange(lo as int, i as int),
        decreases hi - i,
    {
        push_char(&mut s, v[i]);
        i = i + 1;
        assert(s@ =~= v@.subrange(lo as int, i as int));
    }
    s
}

/// A `String` holding the characters of `v`.
pub fn string_from_chars(v: &Vec<char>) -> (s: String)
    ensures
        s@ == v@,
{
    let s = string_from_range(v, 0, v.len());
    assert(v@.subrange(0, v@.len() as int) =~= v@);
    s
}

/// A `String` holding the characters of `s`.
pub fn owned(s: &str) -> (r: String)
    ensures
        r@ == s@,
{
    let v = chars_of(s);
    string_from_chars(&v)
}

/// Appends the characters of `t` to `s`.
pub fn append_str(s: &mut String, t: &str)
    ensures
        final(s)@ == old(s)@ + t@,
{
    let v = chars_of(t);
    let mut i: usize = 0;
    while i < v.len()
        invariant
            i <= v@.len(),
            v@ == t@,
            s@ == old(s)@ + t@.subrange(0, i as int),
        decreases v@.len() - i,
    {
        push_char(s, v[i]);
        i = i + 1;
        assert(s@ =~= old(s)@ + t@.subrange(0, i as int));
    }
    assert(t@.subrange(0, i as int) =~= t@);
}

// ---------------------------------------------------------------------------
// Whitespace and trimming
/// The Unicode `White_Space` property, which `char::is_whitespace` tests.
pub open spec fn is_whitespace(c: char) -> bool {
    let x = c as u32;
    ||| 0x9 <= x <= 0xd
    ||| x == 0x20
    ||| x == 0x85
    ||| x == 0xa0
    ||| x == 0x1680
    ||| 0x2000 <= x <= 0x200a
    ||| x == 0x2028
    ||| x == 0x2029
    ||| x == 0x202f
    ||| x == 0x205f
    ||| x == 0x3000
}

/// Whether `c` has the Unicode `White_Space` property.
pub fn char_is_whitespace(c: char) -> (b: bool)
    ensures
        b == is_whitespace(c),
{
    let x = c as u32;
    (0x9 <= x && x <= 0xd) || x == 0x20 || x == 0x85 || x == 0xa0 || x == 0x1680 || (0x2000
        <= x && x <= 0x200a) || x == 0x2028 || x == 0x2029 || x == 0x202f || x == 0x205f || x
        == 0x3000
}

/// `s` without its leading whitespace.
pub open spec fn trim_start_seq(s: Seq<char>) -> Seq<char>
    decreases s.len(),
{
    if s.len() > 0 && is_whitespace(s[0]) {
        trim_start_seq(s.drop_first())
    } else {
        s
    }
}

/// `s` without its trailing whitespace.
pub open spec fn trim_end_seq(s: Seq<char>) -> Seq<char>
    decreases s.len(),
{
    if s.len() > 0 && is_whitespace(s.last()) {
        trim_end_seq(s.drop_last())
    } else {
        s
    }
}

/// `s` without leading and trailing whitespace, as `str::trim` gives it.
pub open spec fn trim_seq(s: Seq<char>) -> Seq<char> {
    trim_end_seq(trim_start_seq(s))
}

/// The bounds `lo..hi` of the trimmed part of `v`.
fn trim_bounds(v: &Vec<char>) -> (r: (usize, usize))
    ensures
        r.0 <= r.1 <= v@.len(),
        v@.subrange(r.0 as int, r.1 as int) == trim_seq(v@),
{
    let n = v.len();
    let mut i: usize = 0;
    assert(v@.subrange(0, n as int) =~= v@);
    while i < n && char_is_whitespace(v[i])
        invariant
            i <= n == v@.len(),
            trim_start_seq(v@) == trim_start_seq(v@.subrange(i as int, n as int)),
        decreases n - i,
    {
        assert(v@.subrange(i as int, n as int).drop_first() =~= v@.subrange(
            i as int + 1,
            n as int,
        ));
        i = i + 1;
    }
    assert(trim_start_seq(v@.subrange(i as int, n as int)) == v@.subrange(i as int, n as int));
    let mut j: usize = n;
    while j > i && char_is_whitespace(v[j - 1])
        invariant
            i <= j <= n == v@.len(),
            trim_seq(v@) == trim_end_seq(v@.subrange(i as int, j as int)),
        decreases j,
    {
        assert(v@.subrange(i as int, j as int).drop_last() =~= v@.subrange(
            i as int,
            j as int - 1,
        ));
        j = j - 1;
    }
    (i, j)
}

/// `s` without leading and trailing whitespace (`str::trim`), as an owned string.
pub fn trim(s: &str) -> (r: String)
    ensures
        r@ == trim_seq(s@),
{
    let v = chars_of(s);
    let (lo, hi) = trim_bounds(&v);
    string_from_range(&v, lo, hi)
}

/// Whether `s` is empty once trimmed, i.e. holds only whitespace.
pub fn is_blank(s: &str) -> (b: bool)
    ensures
        b == (trim_seq(s@).len() == 0),
{
    let v = chars_of(s);
    let (lo, hi) = trim_bounds(&v);
    lo == hi
}

// ---------------------------------------------------------------------------
// Prefixes, suffixes and separators
/// `s` without the suffix `p`, if it ends with it (`str::strip_suffix`).
pub open spec fn strip_suffix_seq(s: Seq<char>, p: Seq<char>) -> Option<Seq<char>> {
    if s.len() >= p.len() && s.subrange(s.len() - p.len(), s.len() as int) == p {
        Some(s.subrange(0, s.len() - p.len()))
    } else {
        None
    }
}

/// `s` without the prefix `p`, if it starts with it (`str::strip_prefix`).
pub open spec fn strip_prefix_seq(s: Seq<char>, p: Seq<char>) -> Option<Seq<char>> {
    if s.len() >= p.len() && s.subrange(0, p.len() as int) == p {
        Some(s.subrange(p.len() as int, s.len() as int))
    } else {
        None
    }
}

/// Whether `v[at..at + p.len()]` equals `p`.
fn matches_at(v: &Vec<char>, at: usize, p: &Vec<char>) -> (b: bool)
    requires
        at + p@.len() <= v@.len(),
    ensures
        b == (v@.subrange(at as int, at + p@.len()) == p@),
{
    let vn = v.len();
    let mut i: usize = 0;
    while i < p.len()
        invariant
            i <= p@.len(),
            vn == v@.len(),
            at + p@.len() <= v@.len(),
            forall|j: int| 0 <= j < i ==> v@[at + j] == p@[j],
        decreases p@.len() - i,
    {
        if v[at + i] != p[i] {
            assert(v@.subrange(at as int, at + p@.len())[i as int] != p@[i as int]);
            return false;
        }
        i = i + 1;
    }
    assert(v@.subrange(at as int, at + p@.len()) =~= p@);
    true
}

/// `s` without the suffix `p`, if it ends with it.
pub fn strip_suffix(s: &str, p: &str) -> (r: Option<String>)
    ensures
        match r {
            Some(t) => strip_suffix_seq(s@, p@) == Some(t@),
            None => strip_suffix_seq(s@, p@) is None,
        },
{
    let v = chars_of(s);
    let w = chars_of(p);
    if v.len() >= w.len() && matches_at(&v, v.len() - w.len(), &w) {
        Some(string_from_range(&v, 0, v.len() - w.len()))
    } else {
        None
    }
}

/// `s` without the prefix `p`, if it starts with it.
pub fn strip_prefix(s: &str, p: &str) -> (r: Option<String>)
    ensures
        match r {
            Some(t) => strip_prefix_seq(s@, p@) == Some(t@),
            None => strip_prefix_seq(s@, p@) is None,
        },
{
    let v = chars_of(s);
    let w = chars_of(p);
    if v.len() >= w.len() && matches_at(&v, 0, &w) {
        Some(string_from_range(&v, w.len(), v.len()))
    } else {
        None
    }
}

/// `s` without any number of trailing `c` (`str::trim_end_matches` with a char).
pub open spec fn trim_end_char_seq(s: Seq<char>, c: char) -> Seq<char>
    decreases s.len(),
{
    if s.len() > 0 && s.last() == c {
        trim_end_char_seq(s.drop_last(), c)
    } else {
        s
    }
}

/// `s` without any number of leading `c` (`str::trim_start_matches` with a char).
pub open spec fn trim_start_char_seq(s: Seq<char>, c: char) -> Seq<char>
    decreases s.len(),
{
    if s.len() > 0 && s[0] == c {
        trim_start_char_seq(s.drop_first(), c)
    } else {
        s
    }
}

/// `s` without any number of trailing `c`.
pub fn trim_end_char(s: &str, c: char) -> (r: String)
    ensures
        r@ == trim_end_char_seq(s@, c),
{
    let v = chars_of(s);
    let mut j: usize = v.len();
    assert(v@.subrange(0, j as int) =~= v@);
    while j > 0 && v[j - 1] == c
        invariant
            j <= v@.len(),
            trim_end_char_seq(s@, c) == trim_end_char_seq(v@.subrange(0, j as int), c),
            v@ == s@,
        decreases j,
    {
        assert(v@.subrange(0, j as int).drop_last() =~= v@.subrange(0, j as int - 1));
        j = j - 1;
    }
    string_from_range(&v, 0, j)
}

/// `s` without any number of leading `c`.
pub fn trim_start_char(s: &str, c: char) -> (r: String)
    ensures
        r@ == trim_start_char_seq(s@, c),
{
    let v = chars_of(s);
    let n = v.len();
    let mut i: usize = 0;
    assert(v@.subrange(0, n as int) =~= v@);
    while i < n && v[i] == c
        invariant
            i <= n == v@.len(),
            trim_start_char_seq(s@, c) == trim_start_char_seq(v@.subrange(i as int, n as int), c),
            v@ == s@,
        decreases n - i,
    {
        assert(v@.subrange(i as int, n as int).drop_first() =~= v@.subrange(i as int + 1, n as int));
        i = i + 1;
    }
    string_from_range(&v, i, n)
}

/// The part of `s` after its last `c`, if `s` holds a `c`
/// (`str::rsplit_once(c).map(|(_, tail)| tail)`).
pub open spec fn after_last_seq(s: Seq<char>, c: char) -> Option<Seq<char>>
    decreases s.len(),
{
    if s.len() == 0 {
        None
    } else if s.last() == c {
        Some(Seq::empty())
    } else {
        match after_last_seq(s.drop_last(), c) {
            Some(t) => Some(t.push(s.last())),
            None => None,
        }
    }
}

/// The part of `s` after its last `c`, if `s` holds a `c`.
pub fn after_last(s: &str, c: char) -> (r: Option<String>)
    ensures
        match r {
            Some(t) => after_last_seq(s@, c) == Some(t@),
            None => after_last_seq(s@, c) is None,
        },
{
    let v = chars_of(s);
    let n = v.len();
    let mut j: usize = n;
    assert(v@.subrange(0, n as int) =~= v@);
    proof {
        match after_last_seq(s@, c) {
            Some(t) => {
                assert(t + v@.subrange(n as int, n as int) =~= t);
            },
            None => {},
        }
    }
    while j > 0 && v[j - 1] != c
        invariant
            j <= n == v@.len(),
            v@ == s@,
            after_last_seq(s@, c) == match after_last_seq(v@.subrange(0, j as int), c) {
                Some(t) => Some(t + v@.subrange(j as int, n as int)),
                None => None::<Seq<char>>,
            },
        decreases j,
    {
        let ghost pre = v@.subrange(0, j as int);
        assert(pre.drop_last() =~= v@.subrange(0, j as int - 1));
        assert(pre.last() == v@[j - 1]);
        proof {
            match after_last_seq(v@.subrange(0, j as int - 1), c) {
                Some(t) => {
                    assert(t.push(v@[j - 1]) + v@.subrange(j as int, n as int) =~= t
                        + v@.subrange(j as int - 1, n as int));
                },
                None => {},
            }
        }
        j = j - 1;
    }
    if j == 0 {
        assert(v@.subrange(0, 0).len() == 0);
        None
    } else {
        let ghost pre = v@.subrange(0, j as int);
        assert(pre.last() == c);
        assert(Seq::<char>::empty() + v@.subrange(j as int, n as int) =~= v@.subrange(
            j as int,
            n as int,
        ));
        Some(string_from_range(&v, j, n))
    }
}

/// `s` with every `from` replaced by `to` (`str::replace` with chars).
pub open spec fn replace_char_seq(s: Seq<char>, from: char, to: char) -> Seq<char> {
    Seq::new(s.len(), |i: int| if s[i] == from { to } else { s[i] })
}

/// The pieces of `s` between the separators `sep`, before the last piece: the
/// finished pieces and the piece still being read.
pub open spec fn split_state(s: Seq<char>, sep: char) -> (Seq<Seq<char>>, Seq<char>)
    decreases s.len(),
{
    if s.len() == 0 {
        (Seq::empty(), Seq::empty())
    } else {
        let (done, cur) = split_state(s.drop_last(), sep);
        if s.last() == sep {
            (done.push(cur), Seq::empty())
        } else {
            (done, cur.push(s.last()))
        }
    }
}

/// The pieces of `s` between the separators `sep` (`str::split` with a char):
/// one more piece than there are separators.
pub open spec fn split_seq(s: Seq<char>, sep: char) -> Seq<Seq<char>> {
    split_state(s, sep).0.push(split_state(s, sep).1)
}

/// `parts` joined with `sep` between consecutive parts (`[T]::join`).
pub open spec fn join_seq(parts: Seq<Seq<char>>, sep: Seq<char>) -> Seq<char>
    decreases parts.len(),
{
    if parts.len() == 0 {
        Seq::empty()
    } else if parts.len() == 1 {
        parts[0]
    } else {
        join_seq(parts.drop_last(), sep) + sep + parts.last()
    }
}

/// The views of a sequence of strings.
pub open spec fn string_views(v: Seq<String>) -> Seq<Seq<char>> {
    v.map_values(|x: String| x@)
}

/// `parts` joined with `sep` between consecutive parts.
pub fn join(parts: &Vec<String>, sep: &str) -> (r: String)
    ensures
        r@ == join_seq(string_views(parts@), sep@),
{
    let mut r = String::new();
    let ghost views = string_views(parts@);
    let mut i: usize = 0;
    while i < parts.len()
        invariant
            i <= parts@.len(),
            views == string_views(parts@),
            r@ == join_seq(views.take(i as int), sep@),
        decreases parts@.len() - i,
    {
        if i > 0 {
            append_str(&mut r, sep);
        }
        append_str(&mut r, parts[i].as_str());
        assert(views.take(i as int + 1).drop_last() =~= views.take(i as int));
        i = i + 1;
    }
    assert(views.take(i as int) =~= views);
    r
}

/// `s` with every `from` replaced by `to`.
pub fn replace_char(s: &str, from: char, to: char) -> (r: String)
    ensures
        r@ == replace_char_seq(s@, from, to),
{
    let v = chars_of(s);
    let mut r = String::new();
    let mut i: usize = 0;
    while i < v.len()
        invariant
            i <= v@.len(),
            v@ == s@,
            r@ == replace_char_seq(s@, from, to).take(i as int),
        decreases v@.len() - i,
    {
        let c = if v[i] == from {
            to
        } else {
            v[i]
        };
        push_char(&mut r, c);
        i = i + 1;
        assert(r@ =~= replace_char_seq(s@, from, to).take(i as int));
    }
    assert(r@ =~= replace_char_seq(s@, from, to));
    r
}

/// The pieces of `s` between the separators `sep`.
pub fn split_on(s: &str, sep: char) -> (parts: Vec<String>)
    ensures
        string_views(parts@) == split_seq(s@, sep),
{
    let v = chars_of(s);
    let mut done: Vec<String> = Vec::new();
    let mut cur: Vec<char> = Vec::new();
    let mut i: usize = 0;
    assert(v@.take(0) =~= Seq::<char>::empty());
    assert(string_views(done@) =~= Seq::<Seq<char>>::empty());
    while i < v.len()
        invariant
            i <= v@.len(),
            v@ == s@,
            (string_views(done@), cur@) == split_state(v@.take(i as int), sep),
        decreases v@.len() - i,
    {
        assert(v@.take(i as int + 1).drop_last() =~= v@.take(i as int));
        assert(v@.take(i as int + 1).last() == v@[i as int]);
        if v[i] == sep {
            let piece = string_from_chars(&cur);
            done.push(piece);
            cur = Vec::new();
            assert(string_views(done@) =~= split_state(v@.take(i as int), sep).0.push(piece@));
            assert(cur@ =~= Seq::<char>::empty());
        } else {
            cur.push(v[i]);
        }
        i = i + 1;
    }
    assert(v@.take(i as int) =~= s@);
    let last = string_from_chars(&cur);
    done.push(last);
    assert(string_views(done@) =~= split_seq(s@, sep));
    done
}

/// The trimmed pieces of `parts` that are not empty once trimmed, in order.
pub open spec fn nonblank_trimmed(parts: Seq<Seq<char>>) -> Seq<Seq<char>>
    decreases parts.len(),
{
    if parts.len() == 0 {
        Seq::empty()
    } else if trim_seq(parts.last()).len() > 0 {
        nonblank_trimmed(parts.drop_last()).push(trim_seq(parts.last()))
    } else {
        nonblank_trimmed(parts.drop_last())
    }
}

/// The trimmed pieces of `parts` that are not empty once trimmed, in order.
pub fn keep_nonblank_trimmed(parts: &Vec<String>) -> (r: Vec<String>)
    ensures
        string_views(r@) == nonblank_trimmed(string_views(parts@)),
{
    let ghost views = string_views(parts@);
    let mut r: Vec<String> = Vec::new();
    let mut i: usize = 0;
    assert(views.take(0) =~= Seq::<Seq<char>>::empty());
    assert(string_views(r@) =~= Seq::<Seq<char>>::empty());
    while i < parts.len()
        invariant
            i <= parts@.len(),
            views == string_views(parts@),
            string_views(r@) == nonblank_trimmed(views.take(i as int)),
        decreases parts@.len() - i,
    {
        assert(views.take(i as int + 1).drop_last() =~= views.take(i as int));
        assert(views.take(i as int + 1).last() == parts@[i as int]@);
        let t = trim(parts[i].as_str());
        if !t.as_str().is_empty() {
            let ghost before = string_views(r@);
            r.push(t);
            assert(string_views(r@) =~= before.push(t@));
        }
        i = i + 1;
    }
    assert(views.take(i as int) =~= views);
    r
}

// ---------------------------------------------------------------------------
// Case-insensitive search
/// `c` in ASCII lower case (`char::to_ascii_lowercase`).
pub open spec fn ascii_lower(c: char) -> char {
    if 'A' <= c <= 'Z' {
        ((c as u32) + 32) as char
    } else {
        c
    }
}

/// `s` in ASCII lower case (`str::to_ascii_lowercase`).
pub open spec fn ascii_lower_seq(s: Seq<char>) -> Seq<char> {
    Seq::new(s.len(), |i: int| ascii_lower(s[i]))
}

/// `p` occurs in `s` (`str::contains`).
pub open spec fn contains_seq(s: Seq<char>, p: Seq<char>) -> bool {
    exists|i: int| 0 <= i && i + p.len() <= s.len() && #[trigger] s.subrange(i, i + p.len()) == p
}

fn lower_char(c: char) -> (r: char)
    ensures
        r == ascii_lower(c),
{
    if 'A' <= c && c <= 'Z' {
        let x = c as u8 + 32;
        x as char
    } else {
        c
    }
}

/// Whether `s`, in ASCII lower case, contains `p`.
pub fn lowercase_contains(s: &str, p: &str) -> (b: bool)
    ensures
        b == contains_seq(ascii_lower_seq(s@), p@),
{
    let v = chars_of(s);
    let w = chars_of(p);
    let mut lower: Vec<char> = Vec::new();
    let mut i: usize = 0;
    while i < v.len()
        invariant
            i <= v@.len(),
            lower@ == ascii_lower_seq(v@).take(i as int),
        decreases v@.len() - i,
    {
        lower.push(lower_char(v[i]));
        i = i + 1;
        assert(lower@ =~= ascii_lower_seq(v@).take(i as int));
    }
    assert(lower@ =~= ascii_lower_seq(s@));
    if w.len() > lower.len() {
        return false;
    }
    if w.len() == 0 {
        assert(ascii_lower_seq(s@).subrange(0int, 0int + p@.len()) =~= p@);
        return true;
    }
    let ln = lower.len();
    let last = lower.len() - w.len();
    let mut at: usize = 0;
    while at <= last
        invariant
            w@ == p@,
            lower@ == ascii_lower_seq(s@),
            0 < w@.len() <= lower@.len(),
            last == lower@.len() - w@.len(),
            ln == lower@.len(),
            at <= last + 1,
            forall|j: int| 0 <= j < at ==> #[trigger] lower@.subrange(j, j + w@.len()) != w@,
        decreases lower@.len() - at,
    {
        if matches_at(&lower, at, &w) {
            return true;
        }
        at = at + 1;
    }
    false
}

// ---------------------------------------------------------------------------
// Decimal numbers
/// The decimal digit for `d < 10`.
pub open spec fn digit_char(d: nat) -> char {
    (('0' as u32) + d) as char
}

/// The decimal representation of `n`, without sign or leading zeros
/// (`usize`'s `Display`).
pub open spec fn decimal_seq(n: nat) -> Seq<char>
    decreases n,
{
    if n < 10 {
        seq![digit_char(n)]
    } else {
        decimal_seq(n / 10).push(digit_char(n % 10))
    }
}

fn digit(d: u128) -> (c: char)
    requires
        d < 10,
    ensures
        c == digit_char(d as nat),
{
    let x = 0x30u8 + d as u8;
    x as char
}

/// Appends the decimal representation of `n` to `out`.
pub fn push_decimal(out: &mut String, n: u128)
    ensures
        final(out)@ == old(out)@ + decimal_seq(n as nat),
    decreases n,
{
    if n >= 10 {
        push_decimal(out, n / 10);
    }
    push_char(out, digit(n % 10));
    assert(final(out)@ =~= old(out)@ + decimal_seq(n as nat));
}

/// The value of the decimal digit `c`, if it is one.
pub open spec fn digit_value(c: char) -> Option<nat> {
    if '0' <= c <= '9' {
        Some(((c as u32) - ('0' as u32)) as nat)
    } else {
        None
    }
}

/// All characters of `s` are decimal digits.
pub open spec fn all_digits(s: Seq<char>) -> bool {
    forall|i: int| 0 <= i < s.len() ==> digit_value(#[trigger] s[i]) is Some
}

/// The number that the digits `s` spell.
pub open spec fn digits_value(s: Seq<char>) -> nat
    decreases s.len(),
{
    if s.len() == 0 {
        0
    } else {
        digits_value(s.drop_last()) * 10 + digit_value(s.last()).unwrap_or(0)
    }
}

/// `s` read as a `usize` the way `usize::from_str` reads it: an optional `+`,
/// then at least one decimal digit and nothing else, with a value that fits.
pub open spec fn parse_usize_seq(s: Seq<char>) -> Option<usize> {
    let d = if s.len() > 0 && s[0] == '+' {
        s.drop_first()
    } else {
        s
    };
    if d.len() > 0 && all_digits(d) && digits_value(d) <= usize::MAX {
        Some(digits_value(d) as usize)
    } else {
        None
    }
}

proof fn lemma_digits_value_grows(s: Seq<char>, i: int)
    requires
        0 <= i <= s.len(),
    ensures
        digits_value(s.take(i)) <= digits_value(s),
    decreases s.len() - i,
{
    if i < s.len() {
        lemma_digits_value_grows(s, i + 1);
        assert(s.take(i + 1).drop_last() =~= s.take(i));
        assert(digits_value(s.take(i)) <= digits_value(s.take(i)) * 10) by (nonlinear_arith);
    } else {
        assert(s.take(i) =~= s);
    }
}

/// `s` read as a `usize` (see `parse_usize_seq`).
pub fn parse_usize(s: &str) -> (r: Option<usize>)
    ensures
        r == parse_usize_seq(s@),
{
    let v = chars_of(s);
    let n = v.len();
    let start: usize = if n > 0 && v[0] == '+' {
        1
    } else {
        0
    };
    let ghost d = if s@.len() > 0 && s@[0] == '+' {
        s@.drop_first()
    } else {
        s@
    };
    assert(d =~= v@.subrange(start as int, n as int));
    if start == n {
        return None;
    }
    let mut value: usize = 0;
    let mut i: usize = start;
    while i < n
        invariant
            start <= i <= n == v@.len(),
            d == v@.subrange(start as int, n as int),
            d == (if s@.len() > 0 && s@[0] == '+' {
                s@.drop_first()
            } else {
                s@
            }),
            value == digits_value(d.take(i - start)),
            all_digits(d.take(i - start)),
        decreases n - i,
    {
        let c = v[i];
        assert(d[i - start] == c);
        if !('0' <= c && c <= '9') {
            assert(digit_value(d[i - start]) is None);
            assert(!all_digits(d));
            return None;
        }
        let dv = (c as u32 - 0x30) as usize;
        assert(digit_value(c) == Some(dv as nat));
        assert(d.take(i - start + 1).drop_last() =~= d.take(i - start));
        assert(d.take(i - start + 1).last() == c);
        assert(all_digits(d.take(i - start + 1))) by {
            assert forall|j: int| 0 <= j < i - start + 1 implies digit_value(
                #[trigger] d.take(i - start + 1)[j],
            ) is Some by {
                if j < i - start {
                    assert(d.take(i - start + 1)[j] == d.take(i - start)[j]);
                }
            }
        }
        match value.checked_mul(10) {
            None => {
                proof {
                    lemma_digits_value_grows(d, i - start + 1);
                    assert(digits_value(d.take(i - start + 1)) == value * 10 + dv);
                }
                return None;
            },
            Some(m) => match m.checked_add(dv) {
                None => {
                    proof {
                        lemma_digits_value_grows(d, i - start + 1);
                        assert(digits_value(d.take(i - start + 1)) == value * 10 + dv);
                    }
                    return None;
                },
                Some(next) => {
                    value = next;
                },
            },
        }
        i = i + 1;
    }
    assert(d.take(n - start) =~= d);
    Some(value)
}

} // verus!
