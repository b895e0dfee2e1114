use vstd::prelude::*;
use vstd::string::StringExecFns;

verus! {

/// Whether `t` occurs in `s` as a contiguous piece.
pub open spec fn has_substr(s: Seq<char>, t: Seq<char>) -> bool {
    exists|i: int| 0 <= i && i + t.len() <= s.len() && #[trigger] s.subrange(i, i + t.len()) == t
}

/// Whether `s` begins with `t`.
pub open spec fn has_prefix(s: Seq<char>, t: Seq<char>) -> bool {
    t.len() <= s.len() && s.subrange(0, t.len() as int) == t
}

/// The piece of `s` before its first occurrence of `c` (all of `s` when `c` does not occur):
/// the first item of `s.split(c)`.
pub open spec fn before_char(s: Seq<char>, c: char) -> Seq<char>
    decreases s.len(),
{
    if s.len() == 0 {
        s
    } else if s[0] == c {
        Seq::empty()
    } else {
        seq![s[0]] + before_char(s.drop_first(), c)
    }
}

/// Unicode `White_Space`, the set that `char::is_whitespace` tests.
pub open spec fn is_ws(c: char) -> bool {
    let u = c as u32;
    (0x09 <= u && u <= 0x0d) || u == 0x20 || u == 0x85 || u == 0xa0 || u == 0x1680 || (0x2000 <= u
        && u <= 0x200a) || u == 0x2028 || u == 0x2029 || u == 0x202f || u == 0x205f || u == 0x3000
}

/// Scanning state of `s`: the finished words and the word being read.
pub open spec fn ws_scan(s: Seq<char>) -> (Seq<Seq<char>>, Seq<char>)
    decreases s.len(),
{
    if s.len() == 0 {
        (Seq::empty(), Seq::empty())
    } else {
        let (ws, cur) = ws_scan(s.drop_last());
        let c = s.last();
        if is_ws(c) {
            if cur.len() > 0 {
                (ws.push(cur), Seq::empty())
            } else {
                (ws, Seq::empty())
            }
        } else {
            (ws, cur.push(c))
        }
    }
}

/// The words of `s`, as `str::split_whitespace` yields them.
pub open spec fn words(s: Seq<char>) -> Seq<Seq<char>> {
    let (ws, cur) = ws_scan(s);
    if cur.len() > 0 {
        ws.push(cur)
    } else {
        ws
    }
}

/// `list` joined with `sep` between neighbours.
pub open spec fn join(list: Seq<Seq<char>>, sep: Seq<char>) -> Seq<char>
    decreases list.len(),
{
    if list.len() == 0 {
        Seq::empty()
    } else if list.len() == 1 {
        list[0]
    } else {
        join(list.drop_last(), sep) + sep + list.last()
    }
}

/// Whether two strings hold the same characters.
pub fn str_eq(a: &str, b: &str) -> (res: bool)
    ensures
        res == (a@ == b@),
{
    let n = a.unicode_len();
    let m = b.unicode_len();
    if n != m {
        return false;
    }
    let mut i: usize = 0;
    while i < n
        invariant
            n == a@.len(),
            m == b@.len(),
            n == m,
            i <= n,
            forall|j: int| 0 <= j < i ==> a@[j] == b@[j],
        decreases n - i,
    {
        if a.get_char(i) != b.get_char(i) {
            return false;
        }
        i = i + 1;
    }
    assert(a@ =~= b@);
    true
}

/// Whether `s` begins with `t`.
pub fn starts_with(s: &str, t: &str) -> (res: bool)
    ensures
        res == has_prefix(s@, t@),
{
    let n = s.unicode_len();
    let m = t.unicode_len();
    if m > n {
        return false;
    }
    let mut i: usize = 0;
    while i < m
        invariant
            n == s@.len(),
            m == t@.len(),
            m <= n,
            i <= m,
            forall|j: int| 0 <= j < i ==> s@[j] == t@[j],
        decreases m - i,
    {
        if s.get_char(i) != t.get_char(i) {
            assert(s@.subrange(0, m as int)[i as int] != t@[i as int]);
            return false;
        }
        i = i + 1;
    }
    assert(s@.subrange(0, m as int) =~= t@);
    true
}

/// Whether `t` occurs in `s`.
pub fn contains_str(s: &str, t: &str) -> (res: bool)
    ensures
        res == has_substr(s@, t@),
{
    let n = s.unicode_len();
    let m = t.unicode_len();
    if m > n {
        assert forall|i: int| 0 <= i && i + t@.len() <= s@.len() implies #[trigger] s@.subrange(
            i,
            i + t@.len(),
        ) != t@ by {}
        return false;
    }
    if m == 0 {
        assert(s@.subrange(0, 0 + t@.len() as int) =~= t@);
        return true;
    }
    let mut i: usize = 0;
    while i <= n - m
        invariant
            n == s@.len(),
            m == t@.len(),
            1 <= m <= n,
            i <= n - m + 1,
            forall|k: int| 0 <= k < i ==> #[trigger] s@.subrange(k, k + m) != t@,
        decreases n - m + 1 - i,
    {
        let mut j: usize = 0;
        let mut same = true;
        while same && j < m
            invariant
                n == s@.len(),
                m == t@.len(),
                i + m <= n,
                j <= m,
                same ==> forall|l: int| 0 <= l < j ==> s@[i + l] == t@[l],
                !same ==> s@.subrange(i as int, i + m) != t@,
            decreases m - j + (if same { 1int } else { 0int }),
        {
            if s.get_char(i + j) != t.get_char(j) {
                assert(s@.subrange(i as int, i + m)[j as int] != t@[j as int]);
                same = false;
            } else {
                j = j + 1;
            }
        }
        if same {
            assert(s@.subrange(i as int, i + m) =~= t@);
            return true;
        }
        i = i + 1;
    }
    assert forall|k: int| 0 <= k && k + t@.len() <= s@.len() implies #[trigger] s@.subrange(
        k,
        k + t@.len(),
    ) != t@ by {}
    false
}

/// Whether `c` occurs in `s`.
pub fn contains_char(s: &str, c: char) -> (res: bool)
    ensures
        res == s@.contains(c),
{
    let n = s.unicode_len();
    let mut i: usize = 0;
    while i < n
        invariant
            n == s@.len(),
            i <= n,
            forall|j: int| 0 <= j < i ==> s@[j] != c,
        decreases n - i,
    {
        if s.get_char(i) == c {
            return true;
        }
        i = i + 1;
    }
    false
}

} // verus!

verus! {

pub open spec fn strs_view(v: Seq<String>) -> Seq<Seq<char>> {
    v.map_values(|s: String| s@)
}

/// The words of `s` without its first two, when it has at least two.
pub open spec fn drop_two(ws: Seq<Seq<char>>) -> Seq<Seq<char>> {
    if ws.len() >= 2 {
        ws.skip(2)
    } else {
        ws
    }
}

proof fn lemma_before_char(s: Seq<char>, c: char, idx: int)
    requires
        0 <= idx <= s.len(),
        forall|j: int| 0 <= j < idx ==> s[j] != c,
        idx == s.len() || s[idx] == c,
    ensures
        before_char(s, c) =~= s.subrange(0, idx),
    decreases s.len(),
{
    if s.len() > 0 && idx > 0 {
        lemma_before_char(s.drop_first(), c, idx - 1);
        assert(s.drop_first().subrange(0, idx - 1) =~= s.subrange(1, idx));
    }
}

/// The part of `s` before the first `c`, the first piece of `s.split(c)`.
pub fn first_piece(s: &str, c: char) -> (res: String)
    ensures
        res@ == before_char(s@, c),
{
    let n = s.unicode_len();
    let mut i: usize = 0;
    while i < n && s.get_char(i) != c
        invariant
            n == s@.len(),
            i <= n,
            forall|j: int| 0 <= j < i ==> s@[j] != c,
        decreases n - i,
    {
        i = i + 1;
    }
    proof {
        lemma_before_char(s@, c, i as int);
    }
    let piece = s.substring_char(0, i);
    piece.to_owned()
}

/// Whether `c` is Unicode white space.
pub fn is_whitespace(c: char) -> (res: bool)
    ensures
        res == is_ws(c),
{
    let u = c as u32;
    (0x09 <= u && u <= 0x0d) || u == 0x20 || u == 0x85 || u == 0xa0 || u == 0x1680 || (0x2000 <= u
        && u <= 0x200a) || u == 0x2028 || u == 0x2029 || u == 0x202f || u == 0x205f || u == 0x3000
}

/// The words of `s`, split at white space.
pub fn split_words(s: &str) -> (res: Vec<String>)
    ensures
        strs_view(res@) == words(s@),
{
    let n = s.unicode_len();
    let mut ws: Vec<String> = Vec::new();
    let mut cur_start: usize = 0;
    let mut i: usize = 0;
    while i < n
        invariant
            n == s@.len(),
            i <= n,
            cur_start <= i,
            strs_view(ws@) == ws_scan(s@.take(i as int)).0,
            ws_scan(s@.take(i as int)).1 == s@.subrange(cur_start as int, i as int),
        decreases n - i,
    {
        let c = s.get_char(i);
        proof {
            assert(s@.take(i + 1).drop_last() =~= s@.take(i as int));
            assert(s@.take(i + 1).last() == c);
        }
        if is_whitespace(c) {
            if i > cur_start {
                let w = s.substring_char(cur_start, i);
                let ghost old_ws = ws@;
                ws.push(w.to_owned());
                proof {
                    assert(strs_view(ws@) =~= strs_view(old_ws).push(w@));
                }
            }
            cur_start = i + 1;
            proof {
                assert(s@.subrange(cur_start as int, i + 1) =~= Seq::<char>::empty());
            }
        } else {
            proof {
                assert(s@.subrange(cur_start as int, i + 1) =~= s@.subrange(
                    cur_start as int,
                    i as int,
                ).push(c));
            }
        }
        i = i + 1;
    }
    proof {
        assert(s@.take(n as int) =~= s@);
    }
    if n > cur_start {
        let w = s.substring_char(cur_start, n);
        let ghost old_ws = ws@;
        ws.push(w.to_owned());
        proof {
            assert(strs_view(ws@) =~= strs_view(old_ws).push(w@));
        }
    }
    ws
}

/// The strings of `list[from..]` joined with `sep`.
pub fn join_from(list: &Vec<String>, from: usize, sep: &str) -> (res: String)
    requires
        from <= list@.len(),
    ensures
        res@ == join(strs_view(list@).skip(from as int), sep@),
{
    let mut res = String::new();
    let n = list.len();
    let mut k: usize = from;
    let ghost l = strs_view(list@);
    while k < n
        invariant
            n == list@.len(),
            l == strs_view(list@),
            from <= k <= n,
            res@ == join(l.subrange(from as int, k as int), sep@),
        decreases n - k,
    {
        proof {
            assert(l.subrange(from as int, k + 1).drop_last() =~= l.subrange(from as int, k as int));
            assert(l.subrange(from as int, k + 1).last() == list@[k as int]@);
        }
        if k > from {
            res.append(sep);
        } else {
            assert(l.subrange(from as int, k + 1).len() == 1);
        }
        res.append(list[k].as_str());
        k = k + 1;
    }
    assert(l.subrange(from as int, n as int) =~= l.skip(from as int));
    res
}

/// `s` without its first two words (when it has two), words joined by one space.
pub fn drop_two_words(s: &str) -> (res: String)
    ensures
        res@ == join(drop_two(words(s@)), " "@),
{
    let ws = split_words(s);
    if ws.len() >= 2 {
        join_from(&ws, 2, " ")
    } else {
        let r = join_from(&ws, 0, " ");
        assert(strs_view(ws@).skip(0) =~= strs_view(ws@));
        r
    }
}

} // verus!

verus! {

/// Why `str::parse::<u32>` refuses a string.
#[derive(Debug, Clone, Copy, PartialEq, Eq)]
pub enum IntErrorKind {
    Empty,
    InvalidDigit,
    PosOverflow,
}

pub open spec fn is_digit(c: char) -> bool {
    '0' <= c && c <= '9'
}

/// Decimal digits read from the left, as `u32::from_str` reads them: the first
/// non-digit, or the first digit that overflows, decides the error.
pub open spec fn parse_digits(s: Seq<char>) -> Result<int, IntErrorKind>
    decreases s.len(),
{
    if s.len() == 0 {
        Ok(0)
    } else {
        match parse_digits(s.drop_last()) {
            Err(e) => Err(e),
            Ok(v) => if !is_digit(s.last()) {
                Err(IntErrorKind::InvalidDigit)
            } else if v * 10 + (s.last() as u32 - '0' as u32) > u32::MAX {
                Err(IntErrorKind::PosOverflow)
            } else {
                Ok(v * 10 + (s.last() as u32 - '0' as u32))
            },
        }
    }
}

/// What `s.parse::<u32>()` gives: an optional `+`, then decimal digits.
pub open spec fn parse_u32_spec(s: Seq<char>) -> Result<u32, IntErrorKind> {
    if s.len() == 0 {
        Err(IntErrorKind::Empty)
    } else {
        let body = if s[0] == '+' {
            s.drop_first()
        } else {
            s
        };
        if body.len() == 0 {
            Err(IntErrorKind::InvalidDigit)
        } else {
            match parse_digits(body) {
                Ok(v) => Ok(v as u32),
                Err(e) => Err(e),
            }
        }
    }
}

/// Parses a decimal `u32` as `str::parse::<u32>` does.
pub fn parse_u32(s: &str) -> (res: Result<u32, IntErrorKind>)
    ensures
        res == parse_u32_spec(s@),
{
    let n = s.unicode_len();
    if n == 0 {
        return Err(IntErrorKind::Empty);
    }
    let start: usize = if s.get_char(0) == '+' {
        1
    } else {
        0
    };
    let ghost body = if s@[0] == '+' {
        s@.drop_first()
    } else {
        s@
    };
    assert(body =~= s@.subrange(start as int, n as int));
    if start == n {
        return Err(IntErrorKind::InvalidDigit);
    }
    let mut v: u32 = 0;
    let mut i: usize = start;
    assert(body.take(0) =~= Seq::<char>::empty());
    while i < n
        invariant
            n == s@.len(),
            start <= i <= n,
            n > 0,
            body == s@.subrange(start as int, n as int),
            body == (if s@[0] == '+' {
                s@.drop_first()
            } else {
                s@
            }),
            body.len() > 0,
            parse_digits(body.take(i - start)) == Ok::<int, IntErrorKind>(v as int),
        decreases n - i,
    {
        let c = s.get_char(i);
        proof {
            assert(body.take(i - start + 1).drop_last() =~= body.take(i - start));
            assert(body.take(i - start + 1).last() == c);
        }
        if !('0' <= c && c <= '9') {
            proof {
                crate::text::lemma_parse_prefix_err(body, (i - start + 1) as int);
            }
            return Err(IntErrorKind::InvalidDigit);
        }
        let d = (c as u32) - ('0' as u32);
        if v > 429496729 || (v == 429496729 && d > 5) {
            proof {
                crate::text::lemma_parse_prefix_err(body, (i - start + 1) as int);
            }
            return Err(IntErrorKind::PosOverflow);
        }
        v = v * 10 + d;
        i = i + 1;
    }
    assert(body.take(n - start) =~= body);
    Ok(v)
}

/// Once the digits read so far are refused, the whole string is.
proof fn lemma_parse_prefix_err(s: Seq<char>, j: int)
    requires
        0 <= j <= s.len(),
        parse_digits(s.take(j)) is Err,
    ensures
        parse_digits(s) == parse_digits(s.take(j)),
    decreases s.len() - j,
{
    if j < s.len() {
        assert(s.take(j + 1).drop_last() =~= s.take(j));
        lemma_parse_prefix_err(s, j + 1);
    } else {
        assert(s.take(j) =~= s);
    }
}

/// The message of a [`IntErrorKind`], as `ParseIntError` displays it.
pub fn int_error_message(k: IntErrorKind) -> (res: String)
    ensures
        res@ == int_error_text(k),
{
    match k {
        IntErrorKind::Empty => String::from_str("cannot parse integer from empty string"),
        IntErrorKind::InvalidDigit => String::from_str("invalid digit found in string"),
        IntErrorKind::PosOverflow => String::from_str("number too large to fit in target type"),
    }
}

pub open spec fn int_error_text(k: IntErrorKind) -> Seq<char> {
    match k {
        IntErrorKind::Empty => "cannot parse integer from empty string"@,
        IntErrorKind::InvalidDigit => "invalid digit found in string"@,
        IntErrorKind::PosOverflow => "number too large to fit in target type"@,
    }
}

/// `s` with every occurrence of the non-empty piece `p` replaced by `r`,
/// occurrences taken from the left without overlap, as `str::replace` does.
pub open spec fn replaced(s: Seq<char>, p: Seq<char>, r: Seq<char>) -> Seq<char>
    decreases s.len(),
{
    if p.len() == 0 || s.len() < p.len() {
        s
    } else if s.subrange(0, p.len() as int) == p {
        r + replaced(s.skip(p.len() as int), p, r)
    } else {
        seq![s[0]] + replaced(s.skip(1), p, r)
    }
}

/// Replaces every occurrence of `p` in `s` by `r`.
pub fn replace_all(s: &str, p: &str, r: &str) -> (res: String)
    requires
        p@.len() > 0,
    ensures
        res@ == replaced(s@, p@, r@),
{
    let n = s.unicode_len();
    let m = p.unicode_len();
    let mut out = String::new();
    let mut i: usize = 0;
    assert(s@.skip(0) =~= s@);
    while i < n
        invariant
            n == s@.len(),
            m == p@.len(),
            m > 0,
            i <= n,
            replaced(s@, p@, r@) == out@ + replaced(s@.skip(i as int), p@, r@),
        decreases n - i,
    {
        let ghost rest = s@.skip(i as int);
        if n - i >= m && str_eq(s.substring_char(i, i + m), p) {
            proof {
                assert(rest.subrange(0, m as int) =~= s@.subrange(i as int, i + m));
                assert(rest.skip(m as int) =~= s@.skip(i + m));
            }
            out.append(r);
            i = i + m;
        } else {
            proof {
                assert(rest.skip(1) =~= s@.skip(i + 1));
                if n - i >= m {
                    assert(rest.subrange(0, m as int) =~= s@.subrange(i as int, i + m));
                } else {
                    assert(replaced(rest.skip(1), p@, r@) == rest.skip(1));
                    assert(rest =~= seq![rest[0]] + rest.skip(1));
                }
                assert(s@.subrange(i as int, i + 1) =~= seq![rest[0]]);
            }
            out.append(s.substring_char(i, i + 1));
            i = i + 1;
        }
    }
    proof {
        assert(s@.skip(n as int) =~= Seq::<char>::empty());
        assert(out@ + Seq::<char>::empty() =~= out@);
    }
    out
}

/// `s` cut at its first `c`: the part before and the part after it; `None`
/// when `c` does not occur, as `str::split_once` does.
pub open spec fn split_at_first(s: Seq<char>, c: char) -> Option<(Seq<char>, Seq<char>)> {
    if s.contains(c) {
        let b = before_char(s, c);
        Some((b, s.skip(b.len() + 1int)))
    } else {
        None
    }
}

/// Cuts `s` at its first `c`.
pub fn split_once(s: &str, c: char) -> (res: Option<(String, String)>)
    ensures
        match split_at_first(s@, c) {
            Some((a, b)) => res matches Some((x, y)) && x@ == a && y@ == b,
            None => res is None,
        },
{
    let n = s.unicode_len();
    let mut i: usize = 0;
    while i < n && s.get_char(i) != c
        invariant
            n == s@.len(),
            i <= n,
            forall|j: int| 0 <= j < i ==> s@[j] != c,
        decreases n - i,
    {
        i = i + 1;
    }
    proof {
        lemma_before_char(s@, c, i as int);
    }
    if i == n {
        proof {
            assert forall|j: int| 0 <= j < s@.len() implies s@[j] != c by {}
            assert(!s@.contains(c));
        }
        return None;
    }
    proof {
        assert(s@[i as int] == c);
        assert(s@.contains(c));
        assert(s@.subrange(i + 1, n as int) =~= s@.skip(i + 1));
    }
    let a = s.substring_char(0, i).to_owned();
    let b = s.substring_char(i + 1, n).to_owned();
    Some((a, b))
}

} // verus!
