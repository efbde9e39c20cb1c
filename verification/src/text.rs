//! Character-level text helpers shared by the mappers and the renderers.
//!
//! Every helper is specified over `Seq<char>`, the view of `str` and `String`.
use vstd::prelude::*;

verus! {

/// The character sequences of a list of strings.
pub open spec fn views(v: Seq<String>) -> Seq<Seq<char>> {
    v.map_values(|s: String| s@)
}

/// An optional string, by its characters.
pub open spec fn opt_view(o: Option<String>) -> Option<Seq<char>> {
    match o {
        Some(s) => Some(s@),
        None => None,
    }
}

/// The characters of an optional string, or nothing when it is absent.
pub open spec fn or_empty(o: Option<String>) -> Seq<char> {
    match o {
        Some(s) => s@,
        None => Seq::empty(),
    }
}

/// The items of an optional list, or none when it is absent.
pub open spec fn opt_seq<T>(o: Option<Vec<T>>) -> Seq<T> {
    match o {
        Some(v) => v@,
        None => Seq::empty(),
    }
}

/// The string, or the empty string when it is absent (`unwrap_or_default`).
pub fn string_or_default(o: Option<String>) -> (r: String)
    ensures
        r@ == or_empty(o),
{
    match o {
        Some(s) => s,
        None => String::new(),
    }
}

/// The list, or the empty list when it is absent (`unwrap_or_default`).
pub fn vec_or_empty<T>(o: Option<Vec<T>>) -> (r: Vec<T>)
    ensures
        r@ == opt_seq(o),
{
    match o {
        Some(v) => v,
        None => Vec::new(),
    }
}

/// Appends one character to a string (std `String::push`).
#[verifier::external_body]
pub(crate) fn push_char(s: &mut String, c: char)
    ensures
        final(s)@ == old(s)@.push(c),
{
    s.push(c)
}

/// The characters of a string slice, in order.
pub fn chars_of(s: &str) -> (r: Vec<char>)
    ensures
        r@ == s@,
{
    let mut out: Vec<char> = Vec::new();
    for c in it: s.chars()
        invariant
            it.seq() == s@,
            out@ == it.seq().take(it.index() as int),
    {
        out.push(c);
    }
    out
}

/// The string made of `chars[start..end]`.
pub fn string_from_chars(chars: &Vec<char>, start: usize, end: usize) -> (r: String)
    requires
        start <= end <= chars@.len(),
    ensures
        r@ == chars@.subrange(start as int, end as int),
{
    let mut out = String::new();
    let mut i = start;
    while i < end
        invariant
            start <= i <= end <= chars@.len(),
            out@ == chars@.subrange(start as int, i as int),
        decreases end - i,
    {
        push_char(&mut out, chars[i]);
        assert(chars@.subrange(start as int, i + 1) == chars@.subrange(start as int, i as int).push(
            chars@[i as int],
        ));
        i = i + 1;
    }
    out
}

/// A copy of an optional string.
pub fn clone_opt(o: &Option<String>) -> (r: Option<String>)
    ensures
        r == *o,
{
    match o {
        Some(s) => Some(s.clone()),
        None => None,
    }
}

/// The concatenation `a + b` as a new string.
pub fn cat(a: &str, b: &str) -> (r: String)
    ensures
        r@ == a@ + b@,
{
    let mut s = String::from_str(a);
    s.append(b);
    s
}

/// The concatenation `a + b + c` as a new string.
pub fn cat3(a: &str, b: &str, c: &str) -> (r: String)
    ensures
        r@ == a@ + b@ + c@,
{
    let mut s = String::from_str(a);
    s.append(b);
    s.append(c);
    s
}

/// Whether two string slices hold the same characters.
pub fn str_eq(a: &str, b: &str) -> (r: bool)
    ensures
        r == (a@ == b@),
{
    let x = String::from_str(a);
    let y = String::from_str(b);
    x == y
}

// ---------------------------------------------------------------------
// Decimal numbers
// ---------------------------------------------------------------------

/// The ASCII digit for `d` (taken modulo ten).
pub open spec fn digit_char(d: nat) -> char {
    let m = d % 10;
    if m == 0 {
        '0'
    } else if m == 1 {
        '1'
    } else if m == 2 {
        '2'
    } else if m == 3 {
        '3'
    } else if m == 4 {
        '4'
    } else if m == 5 {
        '5'
    } else if m == 6 {
        '6'
    } else if m == 7 {
        '7'
    } else if m == 8 {
        '8'
    } else {
        '9'
    }
}

/// The decimal representation of `n`, without sign or leading zeros.
pub open spec fn decimal(n: nat) -> Seq<char>
    decreases n,
{
    if n < 10 {
        seq![digit_char(n)]
    } else {
        decimal(n / 10).push(digit_char(n % 10))
    }
}

fn digit(d: u64) -> (c: char)
    requires
        d < 10,
    ensures
        c == digit_char(d as nat),
{
    if d == 0 {
        '0'
    } else if d == 1 {
        '1'
    } else if d == 2 {
        '2'
    } else if d == 3 {
        '3'
    } else if d == 4 {
        '4'
    } else if d == 5 {
        '5'
    } else if d == 6 {
        '6'
    } else if d == 7 {
        '7'
    } else if d == 8 {
        '8'
    } else {
        '9'
    }
}

/// The decimal text of `n`, as `n.to_string()` writes it.
pub fn decimal_string(n: u64) -> (r: String)
    ensures
        r@ == decimal(n as nat),
{
    let mut rev: Vec<char> = Vec::new();
    let mut m = n;
    while m >= 10
        invariant
            decimal(n as nat) == decimal(m as nat) + rev@.reverse(),
        decreases m,
    {
        let d = digit(m % 10);
        proof {
            assert(decimal(m as nat) == decimal((m / 10) as nat).push(digit_char((m % 10) as nat)));
            assert(rev@.push(d).reverse() =~= seq![d] + rev@.reverse());
            assert(decimal((m / 10) as nat).push(d) + rev@.reverse() =~= decimal((m / 10) as nat)
                + rev@.push(d).reverse());
        }
        rev.push(d);
        m = m / 10;
    }
    let mut out = String::new();
    push_char(&mut out, digit(m));
    let ghost full = rev@.reverse();
    let mut i = rev.len();
    while i > 0
        invariant
            i <= rev@.len(),
            full == rev@.reverse(),
            decimal(n as nat) == seq![digit_char(m as nat)] + full,
            out@ == seq![digit_char(m as nat)] + full.take(rev@.len() - i),
        decreases i,
    {
        i = i - 1;
        let c = rev[i];
        proof {
            assert(full[rev@.len() - 1 - i] == rev@[i as int]);
            assert(full.take(rev@.len() - i) =~= full.take(rev@.len() - 1 - i).push(c));
        }
        push_char(&mut out, c);
    }
    assert(full.take(rev@.len() as int) =~= full);
    out
}

/// The decimal text of a `usize`.
pub fn usize_string(n: usize) -> (r: String)
    ensures
        r@ == decimal(n as nat),
{
    decimal_string(n as u64)
}

// ---------------------------------------------------------------------
// Whitespace and trimming
// ---------------------------------------------------------------------

/// Characters with the Unicode `White_Space` property (what `char::is_whitespace` tests).
pub open spec fn is_ws(c: char) -> bool {
    let u = c as u32;
    ||| 0x09 <= u <= 0x0d
    ||| u == 0x20
    ||| u == 0x85
    ||| u == 0xa0
    ||| u == 0x1680
    ||| 0x2000 <= u <= 0x200a
    ||| u == 0x2028
    ||| u == 0x2029
    ||| u == 0x202f
    ||| u == 0x205f
    ||| u == 0x3000
}

/// Whether `c` is Unicode whitespace.
pub fn is_whitespace(c: char) -> (r: bool)
    ensures
        r == is_ws(c),
{
    let u = c as u32;
    (0x09 <= u && u <= 0x0d) || u == 0x20 || u == 0x85 || u == 0xa0 || u == 0x1680 || (0x2000 <= u
        && u <= 0x200a) || u == 0x2028 || u == 0x2029 || u == 0x202f || u == 0x205f || u == 0x3000
}

/// `s` without its leading whitespace.
pub open spec fn trim_start(s: Seq<char>) -> Seq<char>
    decreases s.len(),
{
    if s.len() > 0 && is_ws(s[0]) {
        trim_start(s.drop_first())
    } else {
        s
    }
}

/// `s` without its trailing whitespace.
pub open spec fn trim_end(s: Seq<char>) -> Seq<char>
    decreases s.len(),
{
    if s.len() > 0 && is_ws(s.last()) {
        trim_end(s.drop_last())
    } else {
        s
    }
}

/// `s` without leading and trailing whitespace (what `str::trim` returns).
pub open spec fn trim(s: Seq<char>) -> Seq<char> {
    trim_end(trim_start(s))
}

/// The first index at or after `i` whose character is not whitespace.
fn skip_ws_forward(chars: &Vec<char>) -> (i: usize)
    ensures
        i <= chars@.len(),
        trim_start(chars@) == chars@.skip(i as int),
{
    let mut i: usize = 0;
    assert(chars@.skip(0) =~= chars@);
    while i < chars.len() && is_whitespace(chars[i])
        invariant
            i <= chars@.len(),
            trim_start(chars@) == trim_start(chars@.skip(i as int)),
        decreases chars@.len() - i,
    {
        assert(chars@.skip(i as int).drop_first() =~= chars@.skip(i + 1));
        i = i + 1;
    }
    i
}

/// The end of `chars[start..]` once its trailing whitespace is removed.
fn skip_ws_backward(chars: &Vec<char>, start: usize) -> (j: usize)
    requires
        start <= chars@.len(),
    ensures
        start <= j <= chars@.len(),
        trim_end(chars@.skip(start as int)) == chars@.subrange(start as int, j as int),
{
    let mut j: usize = chars.len();
    assert(chars@.skip(start as int) =~= chars@.subrange(start as int, chars@.len() as int));
    while j > start && is_whitespace(chars[j - 1])
        invariant
            start <= j <= chars@.len(),
            trim_end(chars@.skip(start as int)) == trim_end(
                chars@.subrange(start as int, j as int),
            ),
        decreases j,
    {
        assert(chars@.subrange(start as int, j as int).drop_last() =~= chars@.subrange(
            start as int,
            j - 1,
        ));
        j = j - 1;
    }
    j
}

/// The characters of `s` without leading and trailing whitespace.
pub fn trim_chars(s: &str) -> (r: Vec<char>)
    ensures
        r@ == trim(s@),
{
    let chars = chars_of(s);
    trim_vec(&chars)
}

/// `chars` without leading and trailing whitespace.
pub fn trim_vec(chars: &Vec<char>) -> (r: Vec<char>)
    ensures
        r@ == trim(chars@),
{
    let i = skip_ws_forward(chars);
    let j = skip_ws_backward(chars, i);
    let mut out: Vec<char> = Vec::new();
    let mut k = i;
    while k < j
        invariant
            i <= k <= j <= chars@.len(),
            out@ == chars@.subrange(i as int, k as int),
        decreases j - k,
    {
        out.push(chars[k]);
        assert(chars@.subrange(i as int, k + 1) =~= chars@.subrange(i as int, k as int).push(
            chars@[k as int],
        ));
        k = k + 1;
    }
    out
}

/// Whether two character lists are equal.
pub fn chars_eq(a: &Vec<char>, b: &Vec<char>) -> (r: bool)
    ensures
        r == (a@ == b@),
{
    if a.len() != b.len() {
        return false;
    }
    let mut i: usize = 0;
    while i < a.len()
        invariant
            a@.len() == b@.len(),
            i <= a@.len(),
            forall|k: int| 0 <= k < i ==> a@[k] == b@[k],
        decreases a@.len() - i,
    {
        if a[i] != b[i] {
            return false;
        }
        i = i + 1;
    }
    assert(a@ =~= b@);
    true
}

/// `s` starts with `p`.
pub open spec fn has_prefix(s: Seq<char>, p: Seq<char>) -> bool {
    p.len() <= s.len() && s.take(p.len() as int) == p
}

/// `s` ends with `p`.
pub open spec fn has_suffix(s: Seq<char>, p: Seq<char>) -> bool {
    p.len() <= s.len() && s.skip(s.len() - p.len()) == p
}

/// Whether `s` starts with `p`.
pub fn starts_with(s: &Vec<char>, p: &str) -> (r: bool)
    ensures
        r == has_prefix(s@, p@),
{
    let pc = chars_of(p);
    if pc.len() > s.len() {
        return false;
    }
    let mut i: usize = 0;
    while i < pc.len()
        invariant
            pc@ == p@,
            pc@.len() <= s@.len(),
            i <= pc@.len(),
            forall|k: int| 0 <= k < i ==> s@[k] == pc@[k],
        decreases pc@.len() - i,
    {
        if s[i] != pc[i] {
            assert(s@.take(pc@.len() as int)[i as int] != pc@[i as int]);
            return false;
        }
        i = i + 1;
    }
    assert(s@.take(pc@.len() as int) =~= pc@);
    true
}

/// Whether `s` ends with `p`.
pub fn ends_with(s: &Vec<char>, p: &str) -> (r: bool)
    ensures
        r == has_suffix(s@, p@),
{
    let pc = chars_of(p);
    if pc.len() > s.len() {
        return false;
    }
    let n = s.len();
    let off = n - pc.len();
    let mut i: usize = 0;
    while i < pc.len()
        invariant
            pc@ == p@,
            n == s@.len(),
            off == n - pc@.len(),
            pc@.len() <= n,
            i <= pc@.len(),
            forall|k: int| 0 <= k < i ==> s@[off + k] == pc@[k],
        decreases pc@.len() - i,
    {
        if s[off + i] != pc[i] {
            assert(s@.skip(off as int)[i as int] != pc@[i as int]);
            return false;
        }
        i = i + 1;
    }
    assert(s@.skip(off as int) =~= pc@);
    true
}

/// Whether the characters of `s` are those of `t`.
pub fn chars_equal_str(s: &Vec<char>, t: &str) -> (r: bool)
    ensures
        r == (s@ == t@),
{
    let tc = chars_of(t);
    chars_eq(s, &tc)
}

/// `s.trim()` as a new string.
pub fn trim_string(s: &str) -> (r: String)
    ensures
        r@ == trim(s@),
{
    let t = trim_chars(s);
    string_from_chars(&t, 0, t.len())
}

// ---------------------------------------------------------------------
// Joining
// ---------------------------------------------------------------------

/// The parts joined by `sep` (what `[..].join(sep)` returns).
pub open spec fn seq_join(parts: Seq<Seq<char>>, sep: Seq<char>) -> Seq<char>
    decreases parts.len(),
{
    if parts.len() == 0 {
        Seq::empty()
    } else if parts.len() == 1 {
        parts[0]
    } else {
        seq_join(parts.drop_last(), sep) + sep + parts.last()
    }
}

/// The strings of `parts` joined by `sep`.
pub fn join(parts: &Vec<String>, sep: &str) -> (r: String)
    ensures
        r@ == seq_join(views(parts@), sep@),
{
    let mut out = String::new();
    let mut i: usize = 0;
    while i < parts.len()
        invariant
            i <= parts@.len(),
            out@ == seq_join(views(parts@).take(i as int), sep@),
        decreases parts@.len() - i,
    {
        let ghost before = views(parts@).take(i as int);
        assert(views(parts@).take(i + 1).drop_last() =~= before);
        if i != 0 {
            out.append(sep);
        } else {
            assert(views(parts@).take(1) =~= seq![parts@[0]@]);
        }
        out.append(parts[i].as_str());
        i = i + 1;
    }
    assert(views(parts@).take(parts@.len() as int) =~= views(parts@));
    out
}

/// Lines joined by newlines.
pub open spec fn unlines(lines: Seq<Seq<char>>) -> Seq<char> {
    seq_join(lines, "\n"@)
}

/// Appends the strings of `more` to `lines`.
pub fn push_all(lines: &mut Vec<String>, more: Vec<String>)
    ensures
        views(final(lines)@) == views(old(lines)@) + views(more@),
{
    let mut more = more;
    let ghost m = more@;
    lines.append(&mut more);
    assert(views(lines@) =~= views(old(lines)@) + views(m));
}

/// `s` split at every newline (what `str::split('\n')` yields).
pub open spec fn split_newlines(s: Seq<char>) -> Seq<Seq<char>>
    decreases s.len(),
{
    if s.len() == 0 {
        seq![Seq::empty()]
    } else {
        let prev = split_newlines(s.drop_last());
        if s.last() == '\n' {
            prev.push(Seq::empty())
        } else {
            prev.update(prev.len() - 1, prev.last().push(s.last()))
        }
    }
}

/// A line without the carriage return that ended it.
pub open spec fn strip_cr(l: Seq<char>) -> Seq<char> {
    if l.len() > 0 && l.last() == '\r' {
        l.drop_last()
    } else {
        l
    }
}

/// The lines of `s` (what `str::lines` yields): split at `\n`, a `\r` before
/// the `\n` dropped, and no empty last line after a final newline.
pub open spec fn text_lines(s: Seq<char>) -> Seq<Seq<char>> {
    if s.len() == 0 {
        Seq::empty()
    } else if s.last() == '\n' {
        split_newlines(s).drop_last().map_values(|l: Seq<char>| strip_cr(l))
    } else {
        split_newlines(s).drop_last().map_values(|l: Seq<char>| strip_cr(l)).push(
            split_newlines(s).last(),
        )
    }
}

proof fn lemma_split_newlines_nonempty(s: Seq<char>)
    ensures
        split_newlines(s).len() >= 1,
    decreases s.len(),
{
    if s.len() > 0 {
        lemma_split_newlines_nonempty(s.drop_last());
    }
}

/// The lines of `s`, as `str::lines` splits them.
pub fn lines_of(s: &Vec<char>) -> (r: Vec<Vec<char>>)
    ensures
        r@.map_values(|l: Vec<char>| l@) == text_lines(s@),
{
    let mut done: Vec<Vec<char>> = Vec::new();
    let mut cur: Vec<char> = Vec::new();
    let mut k: usize = 0;
    assert(s@.take(0) =~= Seq::<char>::empty());
    while k < s.len()
        invariant
            k <= s@.len(),
            split_newlines(s@.take(k as int)).len() >= 1,
            done@.map_values(|l: Vec<char>| l@) == split_newlines(s@.take(k as int)).drop_last().map_values(
                |l: Seq<char>| strip_cr(l),
            ),
            cur@ == split_newlines(s@.take(k as int)).last(),
        decreases s@.len() - k,
    {
        let c = s[k];
        let ghost p = s@.take(k as int);
        let ghost sp = split_newlines(p);
        assert(s@.take(k + 1) =~= p.push(c));
        assert(s@.take(k + 1).drop_last() =~= p);
        if c == '\n' {
            let mut line = cur;
            let n = line.len();
            if n > 0 && line[n - 1] == '\r' {
                line.pop();
            }
            let ghost before = done@.map_values(|l: Vec<char>| l@);
            done.push(line);
            cur = Vec::new();
            proof {
                assert(done@.map_values(|l: Vec<char>| l@) =~= before.push(strip_cr(sp.last())));
                assert(split_newlines(s@.take(k + 1)) == sp.push(Seq::empty()));
                assert(sp.push(Seq::<char>::empty()).drop_last() =~= sp);
                assert(sp.map_values(|l: Seq<char>| strip_cr(l)) =~= sp.drop_last().map_values(
                    |l: Seq<char>| strip_cr(l),
                ).push(strip_cr(sp.last())));
                assert(cur@ =~= Seq::<char>::empty());
            }
        } else {
            cur.push(c);
            proof {
                let nsp = sp.update(sp.len() - 1, sp.last().push(c));
                assert(split_newlines(s@.take(k + 1)) == nsp);
                assert(nsp.drop_last() =~= sp.drop_last());
            }
        }
        k = k + 1;
    }
    assert(s@.take(s@.len() as int) =~= s@);
    proof {
        lemma_split_newlines_nonempty(s@);
    }
    if cur.len() > 0 {
        let ghost before = done@.map_values(|l: Vec<char>| l@);
        let ghost last = cur@;
        done.push(cur);
        proof {
            assert(done@.map_values(|l: Vec<char>| l@) =~= before.push(last));
            if s@.len() > 0 && s@.last() == '\n' {
                assert(split_newlines(s@) == split_newlines(s@.drop_last()).push(Seq::empty()));
            }
        }
    } else {
        proof {
            if s@.len() > 0 && s@.last() != '\n' {
                let sp = split_newlines(s@.drop_last());
                lemma_split_newlines_nonempty(s@.drop_last());
                assert(split_newlines(s@).last() == sp.last().push(s@.last()));
            }
            if s@.len() > 0 && s@.last() == '\n' {
                let sp = split_newlines(s@.drop_last());
                assert(split_newlines(s@) == sp.push(Seq::empty()));
            }
        }
    }
    done
}

} // verus!
