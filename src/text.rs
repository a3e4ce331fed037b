//! Text helpers on character sequences: equality, decimal numbers, splitting.
use vstd::prelude::*;
use vstd::string::*;

verus! {

/// The views of a list of strings.
pub open spec fn texts(v: Seq<String>) -> Seq<Seq<char>> {
    v.map_values(|s: String| s@)
}

/// Whether two strings hold the same characters.
pub fn same_text(a: &str, b: &str) -> (r: bool)
    ensures
        r == (a@ == b@),
{
    let n = a.unicode_len();
    if n != b.unicode_len() {
        return false;
    }
    let mut i: usize = 0;
    while i < n
        invariant
            n == a@.len(),
            n == b@.len(),
            i <= n,
            forall|j: int| 0 <= j < i ==> a@[j] == b@[j],
        decreases n - i,
    {
        if a.get_char(i) != b.get_char(i) {
            return false;
        }
        i = i + 1;
    }
    assert(a@ =~= b@);
    true
}

pub open spec fn is_digit(c: char) -> bool {
    '0' <= c <= '9'
}

/// The value of a sequence of decimal digits.
pub open spec fn digits_value(s: Seq<char>) -> int
    decreases s.len(),
{
    if s.len() == 0 {
        0
    } else {
        digits_value(s.drop_last()) * 10 + (s.last() as int - '0' as int)
    }
}

/// The magnitude written by `s`: one or more decimal digits.
pub open spec fn magnitude(s: Seq<char>) -> Option<int> {
    if s.len() > 0 && forall|i: int| 0 <= i < s.len() ==> is_digit(#[trigger] s[i]) {
        Some(digits_value(s))
    } else {
        None
    }
}

/// What `u32::from_str` accepts: an optional `+` and decimal digits, at most `u32::MAX`.
pub open spec fn u32_of(s: Seq<char>) -> Option<u32> {
    let body = if s.len() > 0 && s[0] == '+' { s.drop_first() } else { s };
    match magnitude(body) {
        Some(v) => if v <= u32::MAX {
            Some(v as u32)
        } else {
            None
        },
        None => None,
    }
}

/// What `i32::from_str` accepts: an optional sign and decimal digits, within `i32`.
pub open spec fn i32_of(s: Seq<char>) -> Option<i32> {
    let negative = s.len() > 0 && s[0] == '-';
    let body = if s.len() > 0 && (s[0] == '+' || s[0] == '-') { s.drop_first() } else { s };
    match magnitude(body) {
        Some(v) => {
            let x = if negative { -v } else { v };
            if i32::MIN <= x <= i32::MAX {
                Some(x as i32)
            } else {
                None
            }
        },
        None => None,
    }
}

const CAP: u64 = 0x1_0000_0000_0;

/// The digits of `s` from `start` on, their value capped at `CAP`.
fn capped_magnitude(s: &str, start: usize) -> (r: Option<u64>)
    requires
        start <= s@.len(),
    ensures
        match magnitude(s@.subrange(start as int, s@.len() as int)) {
            Some(v) => v >= 0 && r == Some(if v < CAP { v as u64 } else { CAP }),
            None => r is None,
        },
{
    let n = s.unicode_len();
    if start >= n {
        return None;
    }
    let ghost body = s@.subrange(start as int, n as int);
    let mut acc: u64 = 0;
    let mut i: usize = start;
    while i < n
        invariant
            n == s@.len(),
            start <= i <= n,
            body == s@.subrange(start as int, n as int),
            forall|j: int| start <= j < i ==> is_digit(s@[j]),
            acc == (if digits_value(s@.subrange(start as int, i as int)) < CAP {
                digits_value(s@.subrange(start as int, i as int))
            } else {
                CAP as int
            }),
            digits_value(s@.subrange(start as int, i as int)) >= 0,
        decreases n - i,
    {
        let c = s.get_char(i);
        if !('0' <= c && c <= '9') {
            assert(!is_digit(body[i - start]));
            return None;
        }
        let ghost prev = s@.subrange(start as int, i as int);
        let ghost next = s@.subrange(start as int, i + 1);
        assert(next.drop_last() =~= prev);
        assert(next.last() == c);
        let dv = (c as u32 - '0' as u32) as u64;
        if acc >= CAP {
            acc = CAP;
            assert(digits_value(next) >= CAP) by (nonlinear_arith)
                requires
                    digits_value(next) == digits_value(prev) * 10 + dv,
                    digits_value(prev) >= CAP,
                    dv >= 0,
            ;
        } else {
            let t = acc * 10 + dv;
            acc = if t < CAP { t } else { CAP };
        }
        i = i + 1;
    }
    assert(s@.subrange(start as int, n as int) =~= body);
    assert(forall|j: int| 0 <= j < body.len() ==> is_digit(#[trigger] body[j])) by {
        assert(forall|j: int| 0 <= j < body.len() ==> body[j] == s@[j + start]);
    }
    Some(acc)
}

/// Parses a `u32` as `u32::from_str` does.
pub fn parse_u32(s: &str) -> (r: Option<u32>)
    ensures
        r == u32_of(s@),
{
    let n = s.unicode_len();
    let start: usize = if n > 0 && s.get_char(0) == '+' { 1 } else { 0 };
    let ghost body = if s@.len() > 0 && s@[0] == '+' { s@.drop_first() } else { s@ };
    assert(body =~= s@.subrange(start as int, n as int));
    match capped_magnitude(s, start) {
        Some(v) => if v <= u32::MAX as u64 {
            Some(v as u32)
        } else {
            None
        },
        None => None,
    }
}

/// Parses an `i32` as `i32::from_str` does.
pub fn parse_i32(s: &str) -> (r: Option<i32>)
    ensures
        r == i32_of(s@),
{
    let n = s.unicode_len();
    let first = if n > 0 { s.get_char(0) } else { ' ' };
    let negative = n > 0 && first == '-';
    let start: usize = if n > 0 && (first == '+' || first == '-') { 1 } else { 0 };
    let ghost body = if s@.len() > 0 && (s@[0] == '+' || s@[0] == '-') { s@.drop_first() } else { s@ };
    assert(body =~= s@.subrange(start as int, n as int));
    assert(negative == (s@.len() > 0 && s@[0] == '-'));
    match capped_magnitude(s, start) {
        Some(v) => {
            if negative {
                if v <= 0x8000_0000 {
                    Some((0 - v as i64) as i32)
                } else {
                    None
                }
            } else if v <= i32::MAX as u64 {
                Some(v as i32)
            } else {
                None
            }
        },
        None => None,
    }
}

} // verus!

verus! {

/// Scans the first `n` characters of `s`: the pieces closed by `sep` so far, and
/// the piece still open.
pub open spec fn split_scan(s: Seq<char>, sep: char, n: int) -> (Seq<Seq<char>>, Seq<char>)
    decreases n,
{
    if n <= 0 {
        (Seq::empty(), Seq::empty())
    } else {
        let (ps, cur) = split_scan(s, sep, n - 1);
        if s[n - 1] == sep {
            (ps.push(cur), Seq::empty())
        } else {
            (ps, cur.push(s[n - 1]))
        }
    }
}

/// The pieces of `s` between occurrences of `sep`, empty ones included, as
/// `str::split` with a character gives them.
pub open spec fn split_on(s: Seq<char>, sep: char) -> Seq<Seq<char>> {
    split_scan(s, sep, s.len() as int).0.push(split_scan(s, sep, s.len() as int).1)
}

/// The characters with Unicode's `White_Space` property, which `char::is_whitespace` tests.
pub open spec fn is_white(c: char) -> bool {
    ||| '\u{9}' <= c <= '\u{d}'
    ||| c == ' ' || c == '\u{85}' || c == '\u{a0}' || c == '\u{1680}'
    ||| '\u{2000}' <= c <= '\u{200a}'
    ||| c == '\u{2028}' || c == '\u{2029}' || c == '\u{202f}' || c == '\u{205f}' || c == '\u{3000}'
}

/// Scans the first `n` characters of `s`: the words closed so far, and the word still open.
pub open spec fn words_scan(s: Seq<char>, n: int) -> (Seq<Seq<char>>, Seq<char>)
    decreases n,
{
    if n <= 0 {
        (Seq::empty(), Seq::empty())
    } else {
        let (ws, cur) = words_scan(s, n - 1);
        if is_white(s[n - 1]) {
            (if cur.len() > 0 { ws.push(cur) } else { ws }, Seq::empty())
        } else {
            (ws, cur.push(s[n - 1]))
        }
    }
}

/// The maximal runs of non-white characters of `s`, as `str::split_whitespace` gives them.
pub open spec fn words(s: Seq<char>) -> Seq<Seq<char>> {
    let (ws, cur) = words_scan(s, s.len() as int);
    if cur.len() > 0 {
        ws.push(cur)
    } else {
        ws
    }
}

/// The first index at or after `from` where `s` holds `c`.
pub open spec fn index_of(s: Seq<char>, c: char, from: int) -> Option<int>
    decreases s.len() - from,
{
    if from < 0 || from >= s.len() {
        None
    } else if s[from] == c {
        Some(from)
    } else {
        index_of(s, c, from + 1)
    }
}

/// `s` split around its first `c`, as `str::split_once` with a character gives it.
pub open spec fn split_once_at(s: Seq<char>, c: char) -> Option<(Seq<char>, Seq<char>)> {
    match index_of(s, c, 0) {
        Some(i) => Some((s.subrange(0, i), s.subrange(i + 1, s.len() as int))),
        None => None,
    }
}

fn char_white(c: char) -> (r: bool)
    ensures
        r == is_white(c),
{
    ('\u{9}' <= c && c <= '\u{d}') || c == ' ' || c == '\u{85}' || c == '\u{a0}' || c == '\u{1680}'
        || ('\u{2000}' <= c && c <= '\u{200a}') || c == '\u{2028}' || c == '\u{2029}' || c == '\u{202f}'
        || c == '\u{205f}' || c == '\u{3000}'
}

fn piece(s: &str, from: usize, to: usize) -> (r: String)
    requires
        from <= to <= s@.len(),
    ensures
        r@ == s@.subrange(from as int, to as int),
{
    s.substring_char(from, to).to_owned()
}

/// The pieces of `s` between occurrences of `sep`.
pub fn split_by(s: &str, sep: char) -> (r: Vec<String>)
    ensures
        texts(r@) == split_on(s@, sep),
{
    let n = s.unicode_len();
    let mut pieces: Vec<String> = Vec::new();
    let mut from: usize = 0;
    let mut i: usize = 0;
    while i < n
        invariant
            n == s@.len(),
            from <= i <= n,
            split_scan(s@, sep, i as int) == (texts(pieces@), s@.subrange(from as int, i as int)),
        decreases n - i,
    {
        let c = s.get_char(i);
        if c == sep {
            let p = piece(s, from, i);
            pieces.push(p);
            from = i + 1;
            assert(texts(pieces@) =~= split_scan(s@, sep, i as int).0.push(p@));
            assert(s@.subrange(from as int, i + 1) =~= Seq::<char>::empty());
        } else {
            assert(s@.subrange(from as int, i + 1) =~= s@.subrange(from as int, i as int).push(c));
        }
        i = i + 1;
    }
    let last = piece(s, from, n);
    pieces.push(last);
    assert(texts(pieces@) =~= split_on(s@, sep));
    pieces
}

/// The words of `s`: its maximal runs of non-white characters.
pub fn split_words(s: &str) -> (r: Vec<String>)
    ensures
        texts(r@) == words(s@),
{
    let n = s.unicode_len();
    let mut ws: Vec<String> = Vec::new();
    let mut from: usize = 0;
    let mut i: usize = 0;
    while i < n
        invariant
            n == s@.len(),
            from <= i <= n,
            words_scan(s@, i as int) == (texts(ws@), s@.subrange(from as int, i as int)),
        decreases n - i,
    {
        let c = s.get_char(i);
        if char_white(c) {
            if from < i {
                let p = piece(s, from, i);
                ws.push(p);
                assert(texts(ws@) =~= words_scan(s@, i as int).0.push(p@));
            }
            from = i + 1;
            assert(s@.subrange(from as int, i + 1) =~= Seq::<char>::empty());
        } else {
            assert(s@.subrange(from as int, i + 1) =~= s@.subrange(from as int, i as int).push(c));
        }
        i = i + 1;
    }
    if from < n {
        let p = piece(s, from, n);
        ws.push(p);
        assert(texts(ws@) =~= words(s@));
    } else {
        assert(texts(ws@) =~= words(s@));
    }
    ws
}

/// `s` split around its first `c`.
pub fn split_first(s: &str, c: char) -> (r: Option<(String, String)>)
    ensures
        match split_once_at(s@, c) {
            Some(p) => r matches Some(q) && q.0@ == p.0 && q.1@ == p.1,
            None => r is None,
        },
{
    let n = s.unicode_len();
    let mut i: usize = 0;
    while i < n
        invariant
            n == s@.len(),
            i <= n,
            index_of(s@, c, 0) == index_of(s@, c, i as int),
        decreases n - i,
    {
        if s.get_char(i) == c {
            return Some((piece(s, 0, i), piece(s, i + 1, n)));
        }
        i = i + 1;
    }
    None
}

} // verus!
