//! Text building blocks: decimal and hexadecimal numerals, joining, trimming.
use vstd::prelude::*;

verus! {

/// The character of a decimal digit.
pub open spec fn digit_char(d: nat) -> char {
    if d == 0 { '0' }
    else if d == 1 { '1' }
    else if d == 2 { '2' }
    else if d == 3 { '3' }
    else if d == 4 { '4' }
    else if d == 5 { '5' }
    else if d == 6 { '6' }
    else if d == 7 { '7' }
    else if d == 8 { '8' }
    else { '9' }
}

/// The decimal numeral of `n`, without leading zeros.
pub open spec fn decimal(n: nat) -> Seq<char>
    decreases n,
{
    if n < 10 {
        seq![digit_char(n)]
    } else {
        decimal(n / 10).push(digit_char(n % 10))
    }
}

fn digit_str(d: usize) -> (r: &'static str)
    requires
        d < 10,
    ensures
        r@ == seq![digit_char(d as nat)],
{
    proof {
        reveal_strlit("0");
        reveal_strlit("1");
        reveal_strlit("2");
        reveal_strlit("3");
        reveal_strlit("4");
        reveal_strlit("5");
        reveal_strlit("6");
        reveal_strlit("7");
        reveal_strlit("8");
        reveal_strlit("9");
    }
    if d == 0 { "0" }
    else if d == 1 { "1" }
    else if d == 2 { "2" }
    else if d == 3 { "3" }
    else if d == 4 { "4" }
    else if d == 5 { "5" }
    else if d == 6 { "6" }
    else if d == 7 { "7" }
    else if d == 8 { "8" }
    else { "9" }
}

/// The decimal numeral of `n`, as `format!("{}", n)` writes it.
pub fn decimal_text(n: usize) -> (r: String)
    ensures
        r@ == decimal(n as nat),
    decreases n,
{
    if n < 10 {
        let mut s = String::new();
        s.append(digit_str(n));
        s
    } else {
        let mut s = decimal_text(n / 10);
        s.append(digit_str(n % 10));
        s
    }
}

} // verus!

verus! {

/// The character of an uppercase hexadecimal digit.
pub open spec fn hex_char(d: nat) -> char {
    if d < 10 { digit_char(d) }
    else if d == 10 { 'A' }
    else if d == 11 { 'B' }
    else if d == 12 { 'C' }
    else if d == 13 { 'D' }
    else if d == 14 { 'E' }
    else { 'F' }
}

/// A byte as two uppercase hexadecimal digits, as `format!("{:02X}", b)` writes it.
pub open spec fn hex2(b: u8) -> Seq<char> {
    seq![hex_char((b / 16) as nat), hex_char((b % 16) as nat)]
}

/// `parts` joined with `sep` between neighbours, as `[..].join(sep)` does.
pub open spec fn joined(parts: Seq<Seq<char>>, sep: Seq<char>) -> Seq<char>
    decreases parts.len(),
{
    if parts.len() == 0 {
        Seq::empty()
    } else if parts.len() == 1 {
        parts[0]
    } else {
        joined(parts.drop_last(), sep) + sep + parts.last()
    }
}

/// The views of a list of strings.
pub open spec fn views(items: Seq<String>) -> Seq<Seq<char>> {
    items.map_values(|s: String| s@)
}

fn hex_str(d: u8) -> (r: &'static str)
    requires
        d < 16,
    ensures
        r@ == seq![hex_char(d as nat)],
{
    proof {
        reveal_strlit("A");
        reveal_strlit("B");
        reveal_strlit("C");
        reveal_strlit("D");
        reveal_strlit("E");
        reveal_strlit("F");
    }
    if d < 10 { digit_str(d as usize) }
    else if d == 10 { "A" }
    else if d == 11 { "B" }
    else if d == 12 { "C" }
    else if d == 13 { "D" }
    else if d == 14 { "E" }
    else { "F" }
}

/// Appends the two uppercase hexadecimal digits of `b` to `out`.
pub fn push_hex2(out: &mut String, b: u8)
    ensures
        final(out)@ == old(out)@ + hex2(b),
{
    out.append(hex_str(b / 16));
    out.append(hex_str(b % 16));
}

proof fn lemma_joined_step(parts: Seq<Seq<char>>, sep: Seq<char>, i: int)
    requires
        1 <= i < parts.len(),
    ensures
        joined(parts.take(i + 1), sep) == joined(parts.take(i), sep) + sep + parts[i],
{
    assert(parts.take(i + 1).drop_last() =~= parts.take(i));
}

/// The strings of `parts` joined with `sep` between neighbours.
pub fn join_text(parts: &[String], sep: &str) -> (r: String)
    ensures
        r@ == joined(views(parts@), sep@),
{
    let mut out = String::new();
    let n = parts.len();
    let ghost ps = views(parts@);
    let mut i: usize = 0;
    while i < n
        invariant
            n == parts@.len(),
            ps == views(parts@),
            ps.len() == n,
            i <= n,
            out@ == joined(ps.take(i as int), sep@),
        decreases n - i,
    {
        if i == 0 {
            assert(ps.take(1) =~= seq![ps[0]]);
        } else {
            proof { lemma_joined_step(ps, sep@, i as int); }
            out.append(sep);
        }
        out.append(parts[i].as_str());
        i = i + 1;
    }
    assert(ps.take(n as int) =~= ps);
    out
}

/// Whether `c` has the Unicode `White_Space` property, the test that
/// `char::is_whitespace` and `str::trim` use.
pub open spec fn is_white_space(c: char) -> bool {
    ||| ('\u{9}' <= c && c <= '\u{d}')
    ||| c == ' '
    ||| c == '\u{85}'
    ||| c == '\u{a0}'
    ||| c == '\u{1680}'
    ||| ('\u{2000}' <= c && c <= '\u{200a}')
    ||| c == '\u{2028}'
    ||| c == '\u{2029}'
    ||| c == '\u{202f}'
    ||| c == '\u{205f}'
    ||| c == '\u{3000}'
}

/// `s` without its leading white space.
pub open spec fn trim_start(s: Seq<char>) -> Seq<char>
    decreases s.len(),
{
    if s.len() > 0 && is_white_space(s[0]) {
        trim_start(s.drop_first())
    } else {
        s
    }
}

/// `s` without its trailing white space.
pub open spec fn trim_end(s: Seq<char>) -> Seq<char>
    decreases s.len(),
{
    if s.len() > 0 && is_white_space(s.last()) {
        trim_end(s.drop_last())
    } else {
        s
    }
}

/// `s` without leading or trailing white space, as `str::trim` returns it.
pub open spec fn trimmed(s: Seq<char>) -> Seq<char> {
    trim_end(trim_start(s))
}

fn is_white_space_char(c: char) -> (r: bool)
    ensures
        r == is_white_space(c),
{
    ('\u{9}' <= c && c <= '\u{d}') || c == ' ' || c == '\u{85}' || c == '\u{a0}' || c
        == '\u{1680}' || ('\u{2000}' <= c && c <= '\u{200a}') || c == '\u{2028}' || c
        == '\u{2029}' || c == '\u{202f}' || c == '\u{205f}' || c == '\u{3000}'
}

/// `s` with leading and trailing white space removed.
pub fn trim_text(s: &str) -> (r: String)
    ensures
        r@ == trimmed(s@),
{
    let n = s.unicode_len();
    let mut lo: usize = 0;
    assert(s@.subrange(0, n as int) =~= s@);
    while lo < n && is_white_space_char(s.get_char(lo))
        invariant
            n == s@.len(),
            lo <= n,
            trim_start(s@) == trim_start(s@.subrange(lo as int, n as int)),
        decreases n - lo,
    {
        assert(s@.subrange(lo as int, n as int).drop_first() =~= s@.subrange(
            lo + 1,
            n as int,
        ));
        lo = lo + 1;
    }
    assert(trim_start(s@) == s@.subrange(lo as int, n as int));
    let mut hi: usize = n;
    while hi > lo && is_white_space_char(s.get_char(hi - 1))
        invariant
            n == s@.len(),
            lo <= hi <= n,
            trim_end(s@.subrange(lo as int, n as int)) == trim_end(
                s@.subrange(lo as int, hi as int),
            ),
        decreases hi,
    {
        assert(s@.subrange(lo as int, hi as int).drop_last() =~= s@.subrange(
            lo as int,
            hi - 1,
        ));
        hi = hi - 1;
    }
    assert(trim_end(s@.subrange(lo as int, hi as int)) == s@.subrange(lo as int, hi as int));
    let part = s.substring_char(lo, hi);
    String::from_str(part)
}

/// A list of bytes as `format!("{:?}", bytes)` writes it: the decimal
/// numerals between square brackets, separated by `", "`.
pub open spec fn byte_list_text(bytes: Seq<u8>) -> Seq<char> {
    "["@ + joined(Seq::new(bytes.len(), |i: int| decimal(bytes[i] as nat)), ", "@) + "]"@
}

/// A list of bytes written as `[1, 2, 3]`.
pub fn byte_list(bytes: &[u8]) -> (r: String)
    ensures
        r@ == byte_list_text(bytes@),
{
    let n = bytes.len();
    let ghost parts = Seq::new(bytes@.len(), |i: int| decimal(bytes@[i] as nat));
    let mut out = String::from_str("[");
    let ghost start = out@;
    let mut i: usize = 0;
    while i < n
        invariant
            n == bytes@.len(),
            parts == Seq::new(bytes@.len(), |i: int| decimal(bytes@[i] as nat)),
            i <= n,
            out@ == start + joined(parts.take(i as int), ", "@),
        decreases n - i,
    {
        if i == 0 {
            assert(parts.take(1) =~= seq![parts[0]]);
        } else {
            proof { lemma_joined_step(parts, ", "@, i as int); }
            out.append(", ");
        }
        let numeral = decimal_text(bytes[i] as usize);
        out.append(numeral.as_str());
        i = i + 1;
    }
    assert(parts.take(n as int) =~= parts);
    out.append("]");
    out
}

/// The white-space test is exactly Unicode's `White_Space` set, the
/// characters `char::is_whitespace` accepts: tab, line feed, vertical tab,
/// form feed, carriage return, space, next line, no-break space, ogham space
/// mark, the eleven spaces U+2000 to U+200A, line separator, paragraph
/// separator, narrow no-break space, medium mathematical space and
/// ideographic space.
pub proof fn lemma_white_space_is_unicode_white_space(c: char)
    ensures
        is_white_space(c) <==> (c == '\t' || c == '\n' || c == '\u{b}' || c == '\u{c}' || c
            == '\r' || c == ' ' || c == '\u{85}' || c == '\u{a0}' || c == '\u{1680}' || c
            == '\u{2000}' || c == '\u{2001}' || c == '\u{2002}' || c == '\u{2003}' || c
            == '\u{2004}' || c == '\u{2005}' || c == '\u{2006}' || c == '\u{2007}' || c
            == '\u{2008}' || c == '\u{2009}' || c == '\u{200a}' || c == '\u{2028}' || c
            == '\u{2029}' || c == '\u{202f}' || c == '\u{205f}' || c == '\u{3000}'),
{
    let u = c as u32;
    assert(('\u{9}' <= c && c <= '\u{d}') <==> (9 <= u && u <= 13));
    assert(('\u{2000}' <= c && c <= '\u{200a}') <==> (0x2000 <= u && u <= 0x200a));
}

proof fn lemma_trim_start_shape(s: Seq<char>) -> (k: int)
    ensures
        0 <= k <= s.len(),
        trim_start(s) == s.skip(k),
        forall|i: int| 0 <= i < k ==> is_white_space(#[trigger] s[i]),
        k < s.len() ==> !is_white_space(s[k]),
    decreases s.len(),
{
    if s.len() > 0 && is_white_space(s[0]) {
        let k1 = lemma_trim_start_shape(s.drop_first());
        assert(s.drop_first().skip(k1) =~= s.skip(k1 + 1));
        assert forall|i: int| 0 <= i < k1 + 1 implies is_white_space(#[trigger] s[i]) by {
            if i > 0 {
                assert(s[i] == s.drop_first()[i - 1]);
            }
        }
        assert(k1 + 1 < s.len() ==> s[k1 + 1] == s.drop_first()[k1]);
        k1 + 1
    } else {
        assert(s.skip(0) =~= s);
        0
    }
}

proof fn lemma_trim_end_shape(s: Seq<char>) -> (j: int)
    ensures
        0 <= j <= s.len(),
        trim_end(s) == s.take(j),
        forall|i: int| j <= i < s.len() ==> is_white_space(#[trigger] s[i]),
        j > 0 ==> !is_white_space(s[j - 1]),
    decreases s.len(),
{
    if s.len() > 0 && is_white_space(s.last()) {
        let j1 = lemma_trim_end_shape(s.drop_last());
        assert(s.drop_last().take(j1) =~= s.take(j1));
        assert forall|i: int| j1 <= i < s.len() implies is_white_space(#[trigger] s[i]) by {
            if i < s.len() - 1 {
                assert(s[i] == s.drop_last()[i]);
            }
        }
        assert(j1 > 0 ==> s[j1 - 1] == s.drop_last()[j1 - 1]);
        j1
    } else {
        assert(s.take(s.len() as int) =~= s);
        s.len() as int
    }
}

/// Trimming removes white space from both ends and nothing else: the result
/// is a stretch `s[a..b]` of the text, everything before `a` and from `b` on
/// is white space, and a non-empty result neither starts nor ends with white
/// space.
pub proof fn lemma_trimmed_strips_only_outer_white_space(s: Seq<char>)
    ensures
        exists|a: int, b: int|
            {
                &&& 0 <= a <= b <= s.len()
                &&& trimmed(s) == s.subrange(a, b)
                &&& forall|i: int| 0 <= i < a ==> is_white_space(#[trigger] s[i])
                &&& forall|i: int| b <= i < s.len() ==> is_white_space(#[trigger] s[i])
            },
        trimmed(s).len() > 0 ==> !is_white_space(trimmed(s)[0]) && !is_white_space(
            trimmed(s).last(),
        ),
{
    let k = lemma_trim_start_shape(s);
    let t = s.skip(k);
    let j = lemma_trim_end_shape(t);
    assert(t.take(j) =~= s.subrange(k, k + j));
    assert forall|i: int| k + j <= i < s.len() implies is_white_space(#[trigger] s[i]) by {
        assert(s[i] == t[i - k]);
    }
    if j > 0 {
        assert(trimmed(s)[0] == s[k]);
        assert(trimmed(s).last() == t[j - 1]);
    }
    assert({
        &&& 0 <= k <= k + j <= s.len()
        &&& trimmed(s) == s.subrange(k, k + j)
        &&& forall|i: int| 0 <= i < k ==> is_white_space(#[trigger] s[i])
        &&& forall|i: int| k + j <= i < s.len() ==> is_white_space(#[trigger] s[i])
    });
}

/// Joining puts the separator between neighbours and nowhere else: no
/// parts give nothing, one part gives itself, and one more part adds the
/// separator and that part at the end.
pub proof fn lemma_joined_laws(parts: Seq<Seq<char>>, sep: Seq<char>, x: Seq<char>)
    ensures
        joined(Seq::<Seq<char>>::empty(), sep) == Seq::<char>::empty(),
        joined(seq![x], sep) == x,
        parts.len() >= 1 ==> joined(parts.push(x), sep) == joined(parts, sep) + sep + x,
{
    assert(parts.push(x).drop_last() =~= parts);
}

} // verus!
