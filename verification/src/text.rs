//! Character-level helpers on `String` and `&str`, with contracts over their
//! character sequences.
use vstd::prelude::*;

verus! {

/// Appends one character to a `String` (calls `String::push`).
/// The contract states what std documents: the character is added at the end.
#[verifier::external_body]
pub(crate) fn push_char(s: &mut String, c: char)
    ensures
        final(s)@ == old(s)@.push(c),
{
    s.push(c);
}

/// The characters of a string slice, in order.
pub fn chars_of(s: &str) -> (v: Vec<char>)
    ensures
        v@ == s@,
{
    let mut v: Vec<char> = Vec::new();
    for c in it: s.chars()
        invariant
            v@ == it.seq().take(it.index() as int),
    {
        v.push(c);
    }
    v
}

} // verus!

verus! {

/// The string whose UTF-8 encoding is `bytes`, when `bytes` is valid UTF-8
/// (calls `String::from_utf8`). As std documents, the conversion fails exactly
/// on byte sequences that are not UTF-8, and otherwise keeps the text the
/// bytes encode.
#[verifier::external_body]
pub(crate) fn string_from_utf8(bytes: Vec<u8>) -> (res: Option<String>)
    ensures
        res is Some <==> vstd::utf8::valid_utf8(bytes@),
        res matches Some(s) ==> s@ == vstd::utf8::decode_utf8(bytes@),
{
    String::from_utf8(bytes).ok()
}

} // verus!

verus! {

/// Appends a string slice to a `String`.
pub fn push_str(s: &mut String, t: &str)
    ensures
        final(s)@ == old(s)@ + t@,
{
    s.append(t);
}

/// The concatenation of two string slices.
pub fn concat(a: &str, b: &str) -> (res: String)
    ensures
        res@ == a@ + b@,
{
    let mut s = a.to_owned();
    push_str(&mut s, b);
    s
}

/// The concatenation of three string slices.
pub fn concat3(a: &str, b: &str, c: &str) -> (res: String)
    ensures
        res@ == a@ + b@ + c@,
{
    let mut s = a.to_owned();
    push_str(&mut s, b);
    push_str(&mut s, c);
    s
}

/// Whether two string slices hold the same characters.
pub fn str_eq(a: &str, b: &str) -> (r: bool)
    ensures
        r == (a@ == b@),
{
    let x = chars_of(a);
    let y = chars_of(b);
    if x.len() != y.len() {
        return false;
    }
    let mut i: usize = 0;
    while i < x.len()
        invariant
            x@.len() == y@.len(),
            x@ == a@,
            y@ == b@,
            i <= x@.len(),
            forall|j: int| 0 <= j < i ==> x@[j] == y@[j],
        decreases x@.len() - i,
    {
        if x[i] != y[i] {
            assert(x@[i as int] != y@[i as int]);
            return false;
        }
        i = i + 1;
    }
    assert(x@ =~= y@);
    true
}

/// The string made of the characters `v[lo..hi]`.
pub fn string_from_chars(v: &Vec<char>, lo: usize, hi: usize) -> (s: String)
    requires
        lo <= hi <= v@.len(),
    ensures
        s@ == v@.subrange(lo as int, hi as int),
{
    let mut s = String::new();
    let mut i = lo;
    while i < hi
        invariant
            lo <= i <= hi,
            hi <= v@.len(),
            s@ == v@.subrange(lo as int, i as int),
        decreases hi - i,
    {
        push_char(&mut s, v[i]);
        assert(v@.subrange(lo as int, i + 1) =~= v@.subrange(lo as int, i as int).push(v@[i as int]));
        i = i + 1;
    }
    s
}

/// Whether `c` occurs in `s`.
pub open spec fn has_char(s: Seq<char>, c: char) -> bool {
    exists|i: int| 0 <= i < s.len() && s[i] == c
}

/// `i` is the position of the first `c` in `s`.
pub open spec fn is_first_index(s: Seq<char>, c: char, i: int) -> bool {
    &&& 0 <= i < s.len()
    &&& s[i] == c
    &&& forall|j: int| 0 <= j < i ==> s[j] != c
}

/// The position of the first `c` in `s`, if `c` occurs in it.
pub open spec fn first_index(s: Seq<char>, c: char) -> Option<int> {
    if has_char(s, c) {
        Some(choose|i: int| is_first_index(s, c, i))
    } else {
        None
    }
}

/// The first index `i` is the only index with `is_first_index`.
pub proof fn lemma_first_index(s: Seq<char>, c: char, i: int)
    requires
        is_first_index(s, c, i),
    ensures
        first_index(s, c) == Some(i),
{
    assert(has_char(s, c));
    let k = choose|k: int| is_first_index(s, c, k);
    assert(is_first_index(s, c, k));
    if k < i {
        assert(s[k] != c);
    }
    if i < k {
        assert(s[i] != c);
    }
}

/// Finds the first `c` in `v`.
pub fn find_char(v: &Vec<char>, c: char) -> (r: Option<usize>)
    ensures
        r matches Some(i) ==> first_index(v@, c) == Some(i as int) && is_first_index(v@, c, i as int),
        r is None ==> first_index(v@, c) is None,
{
    let mut i: usize = 0;
    while i < v.len()
        invariant
            i <= v@.len(),
            forall|j: int| 0 <= j < i ==> v@[j] != c,
        decreases v@.len() - i,
    {
        if v[i] == c {
            proof {
                lemma_first_index(v@, c, i as int);
            }
            return Some(i);
        }
        i = i + 1;
    }
    None
}

} // verus!

verus! {

/// The position of the first `c` in `s`, or the length of `s` when `c` does
/// not occur.
pub open spec fn index_of(s: Seq<char>, c: char) -> int
    decreases s.len(),
{
    if s.len() == 0 {
        0
    } else if s[0] == c {
        0
    } else {
        1 + index_of(s.drop_first(), c)
    }
}

/// `index_of` is within `s`, points at a `c` when it is not the end, and no
/// `c` comes before it.
pub proof fn lemma_index_of(s: Seq<char>, c: char)
    ensures
        0 <= index_of(s, c) <= s.len(),
        index_of(s, c) < s.len() ==> s[index_of(s, c)] == c,
        forall|j: int| 0 <= j < index_of(s, c) ==> s[j] != c,
    decreases s.len(),
{
    if s.len() > 0 && s[0] != c {
        lemma_index_of(s.drop_first(), c);
        assert forall|j: int| 0 <= j < index_of(s, c) implies s[j] != c by {
            if j > 0 {
                assert(s[j] == s.drop_first()[j - 1]);
            }
        }
    }
}

/// Finds the first `c` in `v` at or after `from`; `v.len()` when there is none.
pub fn find_char_from(v: &Vec<char>, c: char, from: usize) -> (r: usize)
    requires
        from <= v@.len(),
    ensures
        r == from + index_of(v@.skip(from as int), c),
        from <= r <= v@.len(),
{
    let mut i = from;
    while i < v.len()
        invariant
            from <= i <= v@.len(),
            index_of(v@.skip(from as int), c) == (i - from) + index_of(v@.skip(i as int), c),
        decreases v@.len() - i,
    {
        if v[i] == c {
            return i;
        }
        assert(v@.skip(i as int).drop_first() =~= v@.skip(i + 1));
        i = i + 1;
    }
    i
}

/// A line without the carriage return of a `\r\n` ending.
pub open spec fn strip_cr(line: Seq<char>) -> Seq<char> {
    if line.len() > 0 && line.last() == '\r' {
        line.drop_last()
    } else {
        line
    }
}

/// The lines of a text as `str::lines` yields them: split at each `\n`, a
/// `\r` before the `\n` removed, no empty line after a final `\n`.
pub open spec fn spec_lines(s: Seq<char>) -> Seq<Seq<char>>
    decreases s.len(),
{
    if s.len() == 0 {
        seq![]
    } else {
        let i = index_of(s, '\n');
        proof {
            lemma_index_of(s, '\n');
        }
        if i == s.len() {
            seq![s]
        } else {
            seq![strip_cr(s.take(i))] + spec_lines(s.skip(i + 1))
        }
    }
}

/// Lines put back together, with a `\n` between each two.
pub open spec fn join_lines(lines: Seq<Seq<char>>) -> Seq<char>
    decreases lines.len(),
{
    if lines.len() == 0 {
        seq![]
    } else if lines.len() == 1 {
        lines[0]
    } else {
        lines[0] + seq!['\n'] + join_lines(lines.drop_first())
    }
}

/// Splitting into lines loses only the line ends: no line holds a `\n`, and
/// a text without `\r` is its lines joined by `\n`, followed by the final
/// `\n` when it ends with one.
pub proof fn lemma_lines_split_at_newlines(s: Seq<char>)
    ensures
        forall|i: int| 0 <= i < spec_lines(s).len() ==> !has_char(#[trigger] spec_lines(s)[i], '\n'),
        !has_char(s, '\r') ==> s == join_lines(spec_lines(s)) + (if s.len() > 0 && s.last() == '\n' {
            seq!['\n']
        } else {
            Seq::<char>::empty()
        }),
    decreases s.len(),
{
    if s.len() > 0 {
        let i = index_of(s, '\n');
        lemma_index_of(s, '\n');
        if i == s.len() {
            assert(spec_lines(s) =~= seq![s]);
            assert(!has_char(s, '\n'));
            assert(s.last() != '\n');
            assert(s + Seq::<char>::empty() =~= s);
        } else {
            let head = s.take(i);
            let rest = s.skip(i + 1);
            lemma_lines_split_at_newlines(rest);
            let lines = spec_lines(s);
            assert(lines =~= seq![strip_cr(head)] + spec_lines(rest));
            assert(!has_char(strip_cr(head), '\n')) by {
                if has_char(strip_cr(head), '\n') {
                    let k = choose|k: int| 0 <= k < strip_cr(head).len() && strip_cr(head)[k] == '\n';
                    assert(head[k] == '\n');
                }
            }
            assert forall|j: int| 0 <= j < lines.len() implies !has_char(#[trigger] lines[j], '\n') by {
                if j > 0 {
                    assert(lines[j] == spec_lines(rest)[j - 1]);
                }
            }
            if !has_char(s, '\r') {
                if i > 0 {
                    assert(head.last() != '\r') by {
                        assert(head.last() == s[i - 1]);
                    }
                }
                assert(strip_cr(head) == head);
                assert(!has_char(rest, '\r')) by {
                    if has_char(rest, '\r') {
                        let k = choose|k: int| 0 <= k < rest.len() && rest[k] == '\r';
                        assert(s[i + 1 + k] == '\r');
                    }
                }
                assert(s =~= head + seq!['\n'] + rest);
                if rest.len() == 0 {
                    assert(spec_lines(rest) =~= Seq::<Seq<char>>::empty());
                    assert(lines =~= seq![head]);
                    assert(s.last() == '\n');
                    assert(join_lines(lines) == head);
                } else {
                    assert(spec_lines(rest).len() > 0);
                    assert(lines.drop_first() =~= spec_lines(rest));
                    assert(join_lines(lines) == head + seq!['\n'] + join_lines(spec_lines(rest)));
                    assert(s.last() == rest.last());
                }
            }
        }
    }
}

/// The lines of a text, as `str::lines` yields them.
pub fn lines_of(s: &str) -> (res: Vec<String>)
    ensures
        res@.map_values(|l: String| l@) == spec_lines(s@),
{
    let v = chars_of(s);
    let n = v.len();
    let mut out: Vec<String> = Vec::new();
    let mut pos: usize = 0;
    assert(v@.skip(0) =~= v@);
    while pos < n
        invariant
            n == v@.len(),
            v@ == s@,
            pos <= n,
            spec_lines(s@) == out@.map_values(|l: String| l@) + spec_lines(v@.skip(pos as int)),
        decreases n - pos,
    {
        let ghost rest = v@.skip(pos as int);
        proof {
            lemma_index_of(rest, '\n');
        }
        let end = find_char_from(&v, '\n', pos);
        let mut line_end = end;
        if line_end > pos && end < n && v[line_end - 1] == '\r' {
            line_end = line_end - 1;
        }
        let line = string_from_chars(&v, pos, line_end);
        let ghost old_out = out@.map_values(|l: String| l@);
        out.push(line);
        if end == n {
            assert(rest.take(end - pos) =~= rest);
            assert(out@.map_values(|l: String| l@) =~= old_out.push(rest));
            assert(v@.skip(n as int) =~= seq![]);
            pos = n;
        } else {
            let ghost taken = rest.take(end - pos);
            assert(strip_cr(taken) =~= v@.subrange(pos as int, line_end as int));
            assert(rest.skip(end - pos + 1) =~= v@.skip(end + 1));
            assert(out@.map_values(|l: String| l@) =~= old_out.push(strip_cr(taken)));
            assert(seq![strip_cr(taken)] + spec_lines(v@.skip(end + 1)) =~= spec_lines(rest));
            assert(old_out + spec_lines(rest) =~= old_out.push(strip_cr(taken)) + spec_lines(v@.skip(end + 1)));
            pos = end + 1;
        }
    }
    assert(v@.skip(n as int) =~= seq![]);
    assert(spec_lines(v@.skip(n as int)) =~= seq![]);
    assert(spec_lines(s@) =~= out@.map_values(|l: String| l@));
    out
}

} // verus!

verus! {

/// Whether `c` has the Unicode `White_Space` property, as `char::is_whitespace`
/// documents.
pub open spec fn is_ws(c: char) -> bool {
    ||| ('\u{9}' <= c && c <= '\u{d}')
    ||| c == ' '
    ||| c == '\u{85}'
    ||| c == '\u{a0}'
    ||| c == '\u{1680}'
    ||| ('\u{2000}' <= c && c <= '\u{200a}')
    ||| c == '\u{2028}'
    ||| c == '\u{2029}'
    ||| c == '\u{202f}'
    ||| c == '\u{205f}'
    ||| c == '\u{3000}'
}

/// Whether `c` is white space.
pub fn is_whitespace(c: char) -> (r: bool)
    ensures
        r == is_ws(c),
{
    ('\u{9}' <= c && c <= '\u{d}') || c == ' ' || c == '\u{85}' || c == '\u{a0}' || c == '\u{1680}'
        || ('\u{2000}' <= c && c <= '\u{200a}') || c == '\u{2028}' || c == '\u{2029}' || c == '\u{202f}'
        || c == '\u{205f}' || c == '\u{3000}'
}

/// The number of white-space characters at the start of `s`.
pub open spec fn lead_ws(s: Seq<char>) -> int
    decreases s.len(),
{
    if s.len() > 0 && is_ws(s[0]) {
        1 + lead_ws(s.drop_first())
    } else {
        0
    }
}

/// The number of white-space characters at the end of `s`.
pub open spec fn trail_ws(s: Seq<char>) -> int
    decreases s.len(),
{
    if s.len() > 0 && is_ws(s.last()) {
        1 + trail_ws(s.drop_last())
    } else {
        0
    }
}

/// The leading white space of `s` is part of `s`.
pub proof fn lemma_lead_ws(s: Seq<char>)
    ensures
        0 <= lead_ws(s) <= s.len(),
    decreases s.len(),
{
    if s.len() > 0 && is_ws(s[0]) {
        lemma_lead_ws(s.drop_first());
    }
}

/// The trailing white space of `s` is part of `s`.
pub proof fn lemma_trail_ws(s: Seq<char>)
    ensures
        0 <= trail_ws(s) <= s.len(),
    decreases s.len(),
{
    if s.len() > 0 && is_ws(s.last()) {
        lemma_trail_ws(s.drop_last());
    }
}

/// The white space counted at the start of `s` is white space, and the
/// character after it is not.
proof fn lemma_lead_ws_chars(s: Seq<char>)
    ensures
        0 <= lead_ws(s) <= s.len(),
        forall|k: int| 0 <= k < lead_ws(s) ==> is_ws(s[k]),
        lead_ws(s) < s.len() ==> !is_ws(s[lead_ws(s)]),
    decreases s.len(),
{
    if s.len() > 0 && is_ws(s[0]) {
        let r = s.drop_first();
        lemma_lead_ws_chars(r);
        assert forall|k: int| 0 <= k < lead_ws(s) implies is_ws(s[k]) by {
            if k > 0 {
                assert(s[k] == r[k - 1]);
            }
        }
        if lead_ws(s) < s.len() {
            assert(s[lead_ws(s)] == r[lead_ws(r)]);
        }
    }
}

/// The white space counted at the end of `s` is white space, and the
/// character before it is not.
proof fn lemma_trail_ws_chars(s: Seq<char>)
    ensures
        0 <= trail_ws(s) <= s.len(),
        forall|k: int| s.len() - trail_ws(s) <= k < s.len() ==> is_ws(s[k]),
        trail_ws(s) < s.len() ==> !is_ws(s[s.len() - 1 - trail_ws(s)]),
    decreases s.len(),
{
    if s.len() > 0 && is_ws(s.last()) {
        let r = s.drop_last();
        lemma_trail_ws_chars(r);
        assert forall|k: int| s.len() - trail_ws(s) <= k < s.len() implies is_ws(s[k]) by {
            if k < s.len() - 1 {
                assert(s[k] == r[k]);
            }
        }
        if trail_ws(s) < s.len() {
            assert(s[s.len() - 1 - trail_ws(s)] == r[r.len() - 1 - trail_ws(r)]);
        }
    }
}

/// Trimming removes white space at both ends and nothing else: the trimmed
/// text is a piece of `s` with only white space before and after it, and it
/// neither starts nor ends with white space.
pub proof fn lemma_trim_strips_ends(s: Seq<char>)
    ensures
        exists|a: int, b: int|
            0 <= a <= b <= s.len() && spec_trim(s) == s.subrange(a, b) && (forall|k: int|
                0 <= k < a ==> is_ws(#[trigger] s[k])) && (forall|k: int| b <= k < s.len() ==> is_ws(#[trigger] s[k])),
        spec_trim(s).len() > 0 ==> !is_ws(spec_trim(s)[0]) && !is_ws(spec_trim(s).last()),
{
    lemma_lead_ws_chars(s);
    let l = lead_ws(s);
    let t = s.skip(l);
    lemma_trail_ws_chars(t);
    let n = t.len() - trail_ws(t);
    assert(spec_trim(s) =~= s.subrange(l, l + n));
    assert forall|k: int| l + n <= k < s.len() implies is_ws(s[k]) by {
        assert(s[k] == t[k - l]);
    }
    if n > 0 {
        assert(spec_trim(s)[0] == s[l]);
        assert(spec_trim(s).last() == t[t.len() - 1 - trail_ws(t)]);
    }
    assert(0 <= l <= l + n <= s.len());
}

/// `s` without leading and trailing white space, as `str::trim` gives it.
pub open spec fn spec_trim(s: Seq<char>) -> Seq<char> {
    let t = s.skip(lead_ws(s));
    t.take(t.len() - trail_ws(t))
}

/// `s` without leading and trailing white space.
pub fn trim(s: &str) -> (res: String)
    ensures
        res@ == spec_trim(s@),
{
    let v = chars_of(s);
    let n = v.len();
    let mut a: usize = 0;
    assert(v@.skip(0) =~= v@);
    while a < n && is_whitespace(v[a])
        invariant
            n == v@.len(),
            a <= n,
            lead_ws(v@) == a + lead_ws(v@.skip(a as int)),
        decreases n - a,
    {
        assert(v@.skip(a as int).drop_first() =~= v@.skip(a + 1));
        a = a + 1;
    }
    let ghost t = v@.skip(a as int);
    assert(lead_ws(v@) == a);
    let mut b: usize = n;
    assert(t.take(t.len() as int) =~= t);
    while b > a && is_whitespace(v[b - 1])
        invariant
            n == v@.len(),
            a <= b <= n,
            t == v@.skip(a as int),
            trail_ws(t) == (n - b) + trail_ws(t.take(b - a)),
        decreases b - a,
    {
        assert(t.take(b - a).drop_last() =~= t.take(b - a - 1));
        b = b - 1;
    }
    assert(trail_ws(t) == n - b);
    let res = string_from_chars(&v, a, b);
    assert(res@ =~= t.take(t.len() - trail_ws(t)));
    res
}

} // verus!

verus! {

/// Whether `t` occurs in `s` at position `i`.
pub open spec fn occurs_at(s: Seq<char>, t: Seq<char>, i: int) -> bool {
    0 <= i && i + t.len() <= s.len() && s.subrange(i, i + t.len()) == t
}

/// Whether `t` occurs in `s`.
pub open spec fn contains_seq(s: Seq<char>, t: Seq<char>) -> bool {
    exists|i: int| occurs_at(s, t, i)
}

/// Whether `s` begins with `t`.
pub open spec fn starts_with_seq(s: Seq<char>, t: Seq<char>) -> bool {
    occurs_at(s, t, 0)
}

fn occurs_at_exec(x: &Vec<char>, y: &Vec<char>, i: usize) -> (r: bool)
    requires
        i + y@.len() <= x@.len(),
        x@.len() <= usize::MAX,
    ensures
        r == occurs_at(x@, y@, i as int),
{
    let mut k: usize = 0;
    while k < y.len()
        invariant
            i + y@.len() <= x@.len(),
            x@.len() <= usize::MAX,
            k <= y@.len(),
            forall|j: int| 0 <= j < k ==> x@[i + j] == y@[j],
        decreases y@.len() - k,
    {
        assert(i + k < x@.len());
        if x[i + k] != y[k] {
            assert(x@.subrange(i as int, i + y@.len())[k as int] != y@[k as int]);
            return false;
        }
        k = k + 1;
    }
    assert(x@.subrange(i as int, i + y@.len()) =~= y@);
    true
}

/// Whether `t` occurs in `s`.
pub fn str_contains(s: &str, t: &str) -> (r: bool)
    ensures
        r == contains_seq(s@, t@),
{
    let x = chars_of(s);
    let y = chars_of(t);
    if y.len() > x.len() {
        return false;
    }
    if y.len() == 0 {
        assert(s@.subrange(0, 0) =~= t@);
        assert(occurs_at(s@, t@, 0));
        return true;
    }
    let last = x.len() - y.len();
    let mut i: usize = 0;
    while i <= last
        invariant
            x@ == s@,
            y@ == t@,
            last == x@.len() - y@.len(),
            y@.len() > 0,
            x@.len() <= usize::MAX,
            i <= last + 1,
            forall|j: int| 0 <= j < i ==> !occurs_at(s@, t@, j),
        decreases last + 1 - i,
    {
        if occurs_at_exec(&x, &y, i) {
            return true;
        }
        i = i + 1;
    }
    false
}

/// Whether `s` begins with `t`.
pub fn str_starts_with(s: &str, t: &str) -> (r: bool)
    ensures
        r == starts_with_seq(s@, t@),
{
    let x = chars_of(s);
    let y = chars_of(t);
    if y.len() > x.len() {
        return false;
    }
    assert(x@.len() <= usize::MAX);
    occurs_at_exec(&x, &y, 0)
}

} // verus!

verus! {

/// The characters of an optional string.
pub open spec fn opt_view(o: Option<String>) -> Option<Seq<char>> {
    match o {
        Some(s) => Some(s@),
        None => None,
    }
}

} // verus!
