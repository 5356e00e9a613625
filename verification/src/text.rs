//! Character-level text helpers shared by the rest of the library:
//! whitespace trimming, decimal parsing and printing, and title-casing.

use vstd::prelude::*;
use vstd::std_specs::iter::IteratorSpec;

verus! {

/// Rust's `char::is_whitespace`: the Unicode `White_Space` property.
pub open spec fn is_whitespace(c: char) -> bool {
    ||| ('\u{9}' <= c && c <= '\u{d}')
    ||| c == ' '
    ||| c == '\u{85}'
    ||| c == '\u{a0}'
    ||| c == '\u{1680}'
    ||| ('\u{2000}' <= c && c <= '\u{200a}')
    ||| c == '\u{2028}'
    ||| c == '\u{2029}'
    ||| c == '\u{202f}'
    ||| c == '\u{205f}'
    ||| c == '\u{3000}'
}

/// `s` with all leading and trailing whitespace removed (what `str::trim` returns).
pub open spec fn trim(s: Seq<char>) -> Seq<char>
    decreases s.len(),
{
    if s.len() > 0 && is_whitespace(s[0]) {
        trim(s.drop_first())
    } else if s.len() > 0 && is_whitespace(s.last()) {
        trim(s.drop_last())
    } else {
        s
    }
}

pub open spec fn is_digit(c: char) -> bool {
    '0' <= c && c <= '9'
}

pub open spec fn all_digits(s: Seq<char>) -> bool {
    forall|i: int| 0 <= i < s.len() ==> is_digit(#[trigger] s[i])
}

pub open spec fn digit_value(c: char) -> nat {
    (c as nat - '0' as nat) as nat
}

/// The number that the decimal digits `s` denote.
pub open spec fn decimal_value(s: Seq<char>) -> nat
    decreases s.len(),
{
    if s.len() == 0 {
        0
    } else {
        decimal_value(s.drop_last()) * 10 + digit_value(s.last())
    }
}

/// The digits that `str::parse::<u64>` reads: an optional leading `+` is skipped.
pub open spec fn unsigned_digits(s: Seq<char>) -> Seq<char> {
    if s.len() > 0 && s[0] == '+' {
        s.drop_first()
    } else {
        s
    }
}

/// What `str::parse::<u64>` returns on `s`: an optional `+` followed by at
/// least one ASCII digit and nothing else, whose value fits in a `u64`.
pub open spec fn parse_u64(s: Seq<char>) -> Option<u64> {
    let d = unsigned_digits(s);
    if d.len() > 0 && all_digits(d) && decimal_value(d) <= u64::MAX {
        Some(decimal_value(d) as u64)
    } else {
        None
    }
}

/// The decimal digits of `n`, most significant first, with no leading zero.
pub open spec fn decimal_digits(n: nat) -> Seq<char>
    decreases n,
{
    if n < 10 {
        seq![(n + '0' as nat) as char]
    } else {
        decimal_digits(n / 10).push(((n % 10) + '0' as nat) as char)
    }
}

/// How `i64` values print with `{}`: a `-` before the digits of a negative number.
pub open spec fn int_text(n: int) -> Seq<char> {
    if n < 0 {
        seq!['-'] + decimal_digits((-n) as nat)
    } else {
        decimal_digits(n as nat)
    }
}

/// The characters that `char::to_uppercase` yields for `c`.
pub uninterp spec fn uppercase_chars(c: char) -> Seq<char>;

/// `c` upper-cased the ASCII way: 'a' to 'z' become 'A' to 'Z', every
/// other character stays.
pub open spec fn ascii_upper(c: char) -> char {
    if 'a' <= c <= 'z' {
        ((c as u32) - 32) as char
    } else {
        c
    }
}

/// ASCII text without underscores whose first character (if any) is not a
/// lower-case letter: what `format_snake_case` leaves as it is.
pub open spec fn title_fixed(s: Seq<char>) -> bool {
    &&& vstd::utf8::is_ascii_chars(s)
    &&& !s.contains('_')
    &&& (s.len() > 0 ==> ascii_upper(s[0]) == s[0])
}

/// One word with its first character upper-cased the ASCII way.
pub open spec fn title_word_ascii(w: Seq<char>) -> Seq<char> {
    if w.len() == 0 {
        w
    } else {
        seq![ascii_upper(w[0])] + w.drop_first()
    }
}

/// `title_case` for ASCII text: every underscore becomes a space, empty
/// pieces stay empty, and the first character of each piece is upper-cased
/// the ASCII way.
pub open spec fn ascii_title_case(s: Seq<char>) -> Seq<char> {
    join_with(split_on(s, '_').map_values(|w: Seq<char>| title_word_ascii(w)), seq![' '])
}

/// One word with its first character upper-cased.
pub open spec fn title_word(w: Seq<char>) -> Seq<char> {
    if w.len() == 0 {
        w
    } else {
        uppercase_chars(w[0]) + w.drop_first()
    }
}

/// The pieces of `s` between the separators `sep` (what `str::split` yields,
/// empty pieces included; an empty `s` has one empty piece).
pub open spec fn split_on(s: Seq<char>, sep: char) -> Seq<Seq<char>>
    decreases s.len(),
{
    if s.len() == 0 {
        seq![Seq::<char>::empty()]
    } else if s.last() == sep {
        split_on(s.drop_last(), sep).push(Seq::<char>::empty())
    } else {
        let p = split_on(s.drop_last(), sep);
        p.update(p.len() - 1, p.last().push(s.last()))
    }
}

/// The words `ws` joined by `sep`.
pub open spec fn join_with(ws: Seq<Seq<char>>, sep: Seq<char>) -> Seq<char>
    decreases ws.len(),
{
    if ws.len() == 0 {
        Seq::<char>::empty()
    } else if ws.len() == 1 {
        ws[0]
    } else {
        join_with(ws.drop_last(), sep) + sep + ws.last()
    }
}

/// `snake_case` text shown as Title Case: the pieces between underscores,
/// each with its first character upper-cased, joined by single spaces.
pub open spec fn title_case(s: Seq<char>) -> Seq<char> {
    join_with(split_on(s, '_').map_values(|w: Seq<char>| title_word(w)), seq![' '])
}

/// The characters of `s`, in order.
pub(crate) fn chars_of(s: &str) -> (chars: Vec<char>)
    ensures
        chars@ == s@,
{
    broadcast use vstd::string::axiom_spec_iter, vstd::string::next_postcondition;

    let mut out: Vec<char> = Vec::new();
    let mut it = s.chars();
    loop
        invariant
            out@ + it.remaining() == s@,
            it.obeys_prophetic_iter_laws(),
            it.decrease() is Some,
        decreases it.decrease()->0,
    {
        let ghost before = it.remaining();
        match it.next() {
            Some(c) => {
                out.push(c);
                assert(out@ + it.remaining() =~= s@) by {
                    assert(before == seq![c] + before.drop_first());
                }
            },
            None => {
                assert(out@ =~= s@);
                return out;
            },
        }
    }
}

/// A string made of exactly the characters `chars`.
#[verifier::external_body]
pub(crate) fn string_from_chars(chars: &Vec<char>) -> (s: String)
    ensures
        s@ == chars@,
{
    String::from_iter(chars)
}

/// `char::to_uppercase`, collected into a vector. For an ASCII character
/// it yields the one character `char::to_ascii_uppercase` gives (the
/// Unicode upper-case mapping of 'a' to 'z' is 'A' to 'Z', and every other
/// ASCII character maps to itself).
#[verifier::external_body]
fn to_uppercase_chars(c: char) -> (up: Vec<char>)
    ensures
        up@ == uppercase_chars(c),
        '\0' <= c <= '\u{7f}' ==> up@ == seq![ascii_upper(c)],
{
    c.to_uppercase().collect()
}

pub fn char_is_whitespace(c: char) -> (b: bool)
    ensures
        b == is_whitespace(c),
{
    ('\u{9}' <= c && c <= '\u{d}') || c == ' ' || c == '\u{85}' || c == '\u{a0}' || c
        == '\u{1680}' || ('\u{2000}' <= c && c <= '\u{200a}') || c == '\u{2028}' || c
        == '\u{2029}' || c == '\u{202f}' || c == '\u{205f}' || c == '\u{3000}'
}

proof fn lemma_trim_of_trimmed(t: Seq<char>)
    requires
        t.len() == 0 || (!is_whitespace(t[0]) && !is_whitespace(t.last())),
    ensures
        trim(t) == t,
{
}

/// The bounds `(start, end)` of `trim(s)` inside `s`.
pub fn trim_bounds(s: &Vec<char>) -> (r: (usize, usize))
    ensures
        r.0 <= r.1 <= s@.len(),
        trim(s@) == s@.subrange(r.0 as int, r.1 as int),
{
    let n = s.len();
    let mut i: usize = 0;
    assert(s@.subrange(0, n as int) =~= s@);
    while i < n && char_is_whitespace(s[i])
        invariant
            i <= n == s@.len(),
            trim(s@) == trim(s@.subrange(i as int, n as int)),
        decreases n - i,
    {
        assert(s@.subrange(i as int, n as int).drop_first() =~= s@.subrange(i + 1, n as int));
        i = i + 1;
    }
    let mut j: usize = n;
    while j > i && char_is_whitespace(s[j - 1])
        invariant
            i <= j <= n == s@.len(),
            i < n ==> !is_whitespace(s@[i as int]),
            trim(s@) == trim(s@.subrange(i as int, j as int)),
        decreases j - i,
    {
        let ghost t = s@.subrange(i as int, j as int);
        assert(t[0] == s@[i as int]);
        assert(t.last() == s@[j - 1]);
        assert(t.drop_last() =~= s@.subrange(i as int, j - 1));
        j = j - 1;
    }
    proof {
        let t = s@.subrange(i as int, j as int);
        if t.len() > 0 {
            assert(t[0] == s@[i as int]);
            assert(t.last() == s@[j - 1]);
        }
        lemma_trim_of_trimmed(t);
    }
    (i, j)
}

proof fn lemma_decimal_value_prefix(s: Seq<char>, k: int)
    requires
        0 <= k <= s.len(),
    ensures
        decimal_value(s.subrange(0, k)) <= decimal_value(s),
    decreases s.len() - k,
{
    if k < s.len() {
        lemma_decimal_value_prefix(s, k + 1);
        assert(s.subrange(0, k + 1).drop_last() =~= s.subrange(0, k));
    } else {
        assert(s.subrange(0, k) =~= s);
    }
}

/// Reads `s[start..end]` as a run of decimal digits: the value when every
/// character there is a digit, there is at least one, and the value fits a `u64`.
pub fn parse_digits(s: &Vec<char>, start: usize, end: usize) -> (r: Option<u64>)
    requires
        start <= end <= s@.len(),
    ensures
        ({
            let d = s@.subrange(start as int, end as int);
            r == (if d.len() > 0 && all_digits(d) && decimal_value(d) <= u64::MAX {
                Some(decimal_value(d) as u64)
            } else {
                None::<u64>
            })
        }),
{
    let ghost d = s@.subrange(start as int, end as int);
    if start == end {
        return None;
    }
    let mut acc: u64 = 0;
    let mut overflow = false;
    let mut i = start;
    while i < end
        invariant
            start <= i <= end <= s@.len(),
            d == s@.subrange(start as int, end as int),
            all_digits(s@.subrange(start as int, i as int)),
            !overflow ==> acc as nat == decimal_value(s@.subrange(start as int, i as int)),
            overflow ==> decimal_value(s@.subrange(start as int, i as int)) > u64::MAX,
        decreases end - i,
    {
        let c = s[i];
        let ghost pre = s@.subrange(start as int, i as int);
        let ghost next = s@.subrange(start as int, i + 1);
        assert(next.drop_last() =~= pre);
        assert(next.last() == c);
        if !('0' <= c && c <= '9') {
            assert(d[i - start] == c);
            return None;
        }
        assert forall|k: int| 0 <= k < next.len() implies is_digit(#[trigger] next[k]) by {
            if k < pre.len() {
                assert(next[k] == pre[k]);
            }
        }
        let dv: u64 = (c as u32 - '0' as u32) as u64;
        assert(dv == digit_value(c));
        if !overflow {
            if acc > (u64::MAX - dv) / 10 {
                overflow = true;
                assert(acc * 10 + dv > u64::MAX) by (nonlinear_arith)
                    requires
                        acc > (u64::MAX - dv) / 10,
                        dv <= 9,
                ;
            } else {
                assert(acc * 10 + dv <= u64::MAX) by (nonlinear_arith)
                    requires
                        acc <= (u64::MAX - dv) / 10,
                        dv <= 9,
                ;
                acc = acc * 10 + dv;
            }
        } else {
            assert(decimal_value(next) >= decimal_value(pre) * 10) by (nonlinear_arith)
                requires
                    decimal_value(next) == decimal_value(pre) * 10 + digit_value(c),
            ;
            assert(decimal_value(pre) * 10 >= decimal_value(pre)) by (nonlinear_arith);
        }
        i = i + 1;
    }
    assert(s@.subrange(start as int, i as int) =~= d);
    if overflow {
        None
    } else {
        Some(acc)
    }
}

/// `str::parse::<u64>` on the characters `s`.
pub fn parse_u64_chars(s: &Vec<char>, start: usize, end: usize) -> (r: Option<u64>)
    requires
        start <= end <= s@.len(),
    ensures
        r == parse_u64(s@.subrange(start as int, end as int)),
{
    let ghost t = s@.subrange(start as int, end as int);
    if start < end && s[start] == '+' {
        assert(t.drop_first() =~= s@.subrange(start + 1, end as int));
        parse_digits(s, start + 1, end)
    } else {
        parse_digits(s, start, end)
    }
}

proof fn lemma_decimal_digits_len(n: nat)
    ensures
        decimal_digits(n).len() >= 1,
        n < 10 ==> decimal_digits(n).len() == 1,
    decreases n,
{
    if n >= 10 {
        lemma_decimal_digits_len(n / 10);
    }
}

/// The decimal text of `n` (as `{}` prints a `u64`).
pub fn u64_text(n: u64) -> (s: Vec<char>)
    ensures
        s@ == decimal_digits(n as nat),
    decreases n,
{
    if n < 10 {
        let c = char_of_digit(n);
        let mut v: Vec<char> = Vec::new();
        v.push(c);
        assert(v@ =~= decimal_digits(n as nat));
        v
    } else {
        let mut v = u64_text(n / 10);
        let c = char_of_digit(n % 10);
        v.push(c);
        v
    }
}

fn char_of_digit(d: u64) -> (c: char)
    requires
        d < 10,
    ensures
        c == (d + '0' as nat) as char,
{
    if d == 0 {
        '0'
    } else if d == 1 {
        '1'
    } else if d == 2 {
        '2'
    } else if d == 3 {
        '3'
    } else if d == 4 {
        '4'
    } else if d == 5 {
        '5'
    } else if d == 6 {
        '6'
    } else if d == 7 {
        '7'
    } else if d == 8 {
        '8'
    } else {
        '9'
    }
}

/// The decimal text of `n` (as `{}` prints an `i64`).
pub fn i64_text(n: i64) -> (s: Vec<char>)
    ensures
        s@ == int_text(n as int),
{
    if n < 0 {
        let m: u64 = if n == i64::MIN {
            9223372036854775808u64
        } else {
            (-n) as u64
        };
        let digits = u64_text(m);
        let mut v: Vec<char> = Vec::new();
        v.push('-');
        let mut i: usize = 0;
        while i < digits.len()
            invariant
                0 <= i <= digits@.len(),
                v@ == seq!['-'] + digits@.subrange(0, i as int),
            decreases digits@.len() - i,
        {
            v.push(digits[i]);
            assert(seq!['-'] + digits@.subrange(0, i + 1) =~= (seq!['-'] + digits@.subrange(
                0,
                i as int,
            )).push(digits@[i as int]));
            i = i + 1;
        }
        assert(digits@.subrange(0, digits@.len() as int) =~= digits@);
        v
    } else {
        u64_text(n as u64)
    }
}

/// Appends all of `src` to the end of `dst`.
pub fn push_all(dst: &mut Vec<char>, src: &Vec<char>)
    ensures
        final(dst)@ == old(dst)@ + src@,
{
    let ghost start = dst@;
    let mut i: usize = 0;
    while i < src.len()
        invariant
            0 <= i <= src@.len(),
            dst@ == start + src@.subrange(0, i as int),
        decreases src@.len() - i,
    {
        dst.push(src[i]);
        assert(start + src@.subrange(0, i + 1) =~= (start + src@.subrange(0, i as int)).push(
            src@[i as int],
        ));
        i = i + 1;
    }
    assert(src@.subrange(0, src@.len() as int) =~= src@);
}

/// Appends the characters of `src` to the end of `dst`.
pub fn push_str(dst: &mut Vec<char>, src: &str)
    ensures
        final(dst)@ == old(dst)@ + src@,
{
    let cs = chars_of(src);
    push_all(dst, &cs);
}

proof fn lemma_join_extend_last(ws: Seq<Seq<char>>, sep: Seq<char>, t: Seq<char>)
    requires
        ws.len() >= 1,
    ensures
        join_with(ws.update(ws.len() - 1, ws.last() + t), sep) == join_with(ws, sep) + t,
    decreases ws.len(),
{
    let ws2 = ws.update(ws.len() - 1, ws.last() + t);
    if ws.len() == 1 {
        assert(ws2[0] == ws[0] + t);
    } else {
        assert(ws2.drop_last() =~= ws.drop_last());
        assert(ws2.last() == ws.last() + t);
        assert(join_with(ws, sep) + t =~= join_with(ws.drop_last(), sep) + sep + (ws.last() + t));
    }
}

proof fn lemma_split_nonempty(s: Seq<char>, sep: char)
    ensures
        split_on(s, sep).len() >= 1,
    decreases s.len(),
{
    if s.len() > 0 {
        lemma_split_nonempty(s.drop_last(), sep);
    }
}

/// "mining_laser_1" becomes "Mining Laser 1": every underscore turns into a
/// space and the first character of every piece is upper-cased.
pub fn format_snake_case(s: &str) -> (r: String)
    ensures
        r@ == title_case(s@),
        vstd::utf8::is_ascii_chars(s@) ==> r@ == ascii_title_case(s@),
        vstd::utf8::is_ascii_chars(s@) ==> title_fixed(r@),
        title_fixed(s@) ==> r@ == s@,
{
    let cs = chars_of(s);
    let mut out: Vec<char> = Vec::new();
    let mut at_start = true;
    let mut i: usize = 0;
    let ghost f = |w: Seq<char>| title_word(w);
    let ghost g = |w: Seq<char>| title_word_ascii(w);
    proof {
        assert(cs@.subrange(0, 0) =~= Seq::<char>::empty());
        assert(split_on(Seq::<char>::empty(), '_').map_values(f) =~= seq![
            Seq::<char>::empty(),
        ]);
        assert(split_on(Seq::<char>::empty(), '_').map_values(g) =~= seq![
            Seq::<char>::empty(),
        ]);
    }
    while i < cs.len()
        invariant
            0 <= i <= cs@.len(),
            f == (|w: Seq<char>| title_word(w)),
            g == (|w: Seq<char>| title_word_ascii(w)),
            split_on(cs@.subrange(0, i as int), '_').len() >= 1,
            vstd::utf8::is_ascii_chars(s@) ==> out@ == join_with(
                split_on(cs@.subrange(0, i as int), '_').map_values(g),
                seq![' '],
            ),
            out@ == join_with(
                split_on(cs@.subrange(0, i as int), '_').map_values(f),
                seq![' '],
            ),
            at_start == (split_on(cs@.subrange(0, i as int), '_').last().len() == 0),
            cs@ == s@,
            !at_start && vstd::utf8::is_ascii_chars(s@) ==> out@.len() > 0,
            vstd::utf8::is_ascii_chars(s@) ==> title_fixed(out@),
            title_fixed(s@) ==> (at_start <==> i == 0) && out@ == cs@.subrange(0, i as int),
        decreases cs@.len() - i,
    {
        let c = cs[i];
        let ghost pre = cs@.subrange(0, i as int);
        let ghost next = cs@.subrange(0, i + 1);
        let ghost p = split_on(pre, '_');
        proof {
            assert(next.drop_last() =~= pre);
            assert(next.last() == c);
        }
        if c == '_' {
            out.push(' ');
            proof {
                assert(split_on(next, '_') == p.push(Seq::<char>::empty()));
                let m = p.map_values(f);
                assert(p.push(Seq::<char>::empty()).map_values(f) =~= m.push(
                    Seq::<char>::empty(),
                ));
                assert(m.push(Seq::<char>::empty()).drop_last() =~= m);
                assert(join_with(m.push(Seq::<char>::empty()), seq![' ']) =~= join_with(
                    m,
                    seq![' '],
                ) + seq![' '] + Seq::<char>::empty());
                let mg = p.map_values(g);
                assert(p.push(Seq::<char>::empty()).map_values(g) =~= mg.push(
                    Seq::<char>::empty(),
                ));
                assert(mg.push(Seq::<char>::empty()).drop_last() =~= mg);
                assert(join_with(mg.push(Seq::<char>::empty()), seq![' ']) =~= join_with(
                    mg,
                    seq![' '],
                ) + seq![' '] + Seq::<char>::empty());
            }
            at_start = true;
        } else {
            let ghost w = p.last();
            let ghost p2 = p.update(p.len() - 1, w.push(c));
            proof {
                assert(split_on(next, '_') == p2);
            }
            let ghost out_before = out@;
            if at_start {
                let up = to_uppercase_chars(c);
                push_all(&mut out, &up);
                proof {
                    assert(w =~= Seq::<char>::empty());
                    assert(w.push(c) =~= seq![c]);
                    assert(title_word(seq![c]) =~= uppercase_chars(c));
                    assert(title_word(w.push(c)) =~= title_word(w) + up@);
                    if vstd::utf8::is_ascii_chars(s@) {
                        assert(cs@[i as int] == s@[i as int]);
                        assert(title_word_ascii(w.push(c)) =~= title_word_ascii(w) + up@);
                    }
                }
            } else {
                out.push(c);
                proof {
                    assert(w.push(c)[0] == w[0]);
                    assert(w.push(c).drop_first() =~= w.drop_first().push(c));
                    assert(title_word(w.push(c)) =~= title_word(w) + seq![c]);
                    assert(title_word_ascii(w.push(c)) =~= title_word_ascii(w) + seq![c]);
                }
            }
            proof {
                if vstd::utf8::is_ascii_chars(s@) {
                    let mg = p.map_values(g);
                    let tg = out@.subrange(out_before.len() as int, out@.len() as int);
                    assert(out@ =~= out_before + tg);
                    assert(title_word_ascii(w.push(c)) =~= title_word_ascii(w) + tg);
                    assert(mg.last() == title_word_ascii(w));
                    assert(p2.map_values(g) =~= mg.update(mg.len() - 1, mg.last() + tg));
                    lemma_join_extend_last(mg, seq![' '], tg);
                }
            }
            proof {
                let m = p.map_values(f);
                let t = title_word(w.push(c)).subrange(title_word(w).len() as int, title_word(w.push(c)).len() as int);
                assert(title_word(w.push(c)) =~= title_word(w) + t);
                assert(m.last() == title_word(w));
                assert(p2.map_values(f) =~= m.update(m.len() - 1, m.last() + t));
                lemma_join_extend_last(m, seq![' '], t);
                assert(out@ =~= join_with(m, seq![' ']) + t);
                assert(p2.last() == w.push(c));
            }
            at_start = false;
        }
        i = i + 1;
    }
    proof {
        assert(cs@.subrange(0, cs@.len() as int) =~= s@);
    }
    string_from_chars(&out)
}

/// Whether `a` and `b` hold the same characters.
pub fn str_equals(a: &str, b: &str) -> (r: bool)
    ensures
        r == (a@ == b@),
{
    let x = chars_of(a);
    let y = chars_of(b);
    if x.len() != y.len() {
        return false;
    }
    let mut i: usize = 0;
    while i < x.len()
        invariant
            0 <= i <= x@.len(),
            x@ == a@,
            y@ == b@,
            x@.len() == y@.len(),
            forall|k: int| 0 <= k < i ==> x@[k] == y@[k],
        decreases x@.len() - i,
    {
        if x[i] != y[i] {
            assert(x@[i as int] != y@[i as int]);
            return false;
        }
        i = i + 1;
    }
    assert(x@ =~= y@);
    true
}

} // verus!
