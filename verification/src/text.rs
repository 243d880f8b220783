//! Character-level text helpers: substring search, line splitting with the
//! conventions of `str::lines`, and decimal rendering of integers.
use vstd::prelude::*;

verus! {

/// The character views of a sequence of owned strings.
pub open spec fn views(v: Seq<String>) -> Seq<Seq<char>> {
    v.map_values(|s: String| s@)
}

/// `needle` occurs in `hay` starting at position `i`.
pub open spec fn occurs_at(hay: Seq<char>, needle: Seq<char>, i: int) -> bool {
    &&& 0 <= i
    &&& i + needle.len() <= hay.len()
    &&& hay.subrange(i, i + needle.len()) == needle
}

/// `needle` occurs somewhere in `hay` (the empty needle occurs in every text).
pub open spec fn has_text(hay: Seq<char>, needle: Seq<char>) -> bool {
    exists|i: int| occurs_at(hay, needle, i)
}

/// Index of the first line feed of `s`, or `s.len()` when it has none.
pub open spec fn newline_index(s: Seq<char>) -> int
    decreases s.len(),
{
    if s.len() == 0 {
        0
    } else if s[0] == '\n' {
        0
    } else {
        1 + newline_index(s.drop_first())
    }
}

/// A line with one trailing carriage return removed.
pub open spec fn strip_cr(line: Seq<char>) -> Seq<char> {
    if line.len() > 0 && line.last() == '\r' {
        line.drop_last()
    } else {
        line
    }
}

/// The lines of a text as `str::lines` yields them: split at `\n`, a `\r`
/// before a `\n` dropped, no empty line after a final line feed, and a last
/// line without a line feed kept as it stands.
pub open spec fn text_lines(s: Seq<char>) -> Seq<Seq<char>>
    decreases s.len(),
{
    if s.len() == 0 {
        seq![]
    } else {
        let i = newline_index(s);
        if i >= s.len() {
            seq![s]
        } else {
            if 0 <= i {
                seq![strip_cr(s.take(i))] + text_lines(s.skip(i + 1))
            } else {
                seq![]
            }
        }
    }
}

/// The character of a decimal digit.
pub open spec fn digit_char(d: int) -> char {
    if d == 0 { '0' }
    else if d == 1 { '1' }
    else if d == 2 { '2' }
    else if d == 3 { '3' }
    else if d == 4 { '4' }
    else if d == 5 { '5' }
    else if d == 6 { '6' }
    else if d == 7 { '7' }
    else if d == 8 { '8' }
    else { '9' }
}

/// Decimal digits of a natural number, most significant first, without
/// leading zeros.
pub open spec fn digits(n: nat) -> Seq<char>
    decreases n,
{
    if n < 10 {
        seq![digit_char(n as int)]
    } else {
        digits(n / 10).push(digit_char((n % 10) as int))
    }
}

/// Decimal rendering of an integer, as `to_string` writes it.
pub open spec fn decimal(n: int) -> Seq<char> {
    if n < 0 {
        seq!['-'] + digits((-n) as nat)
    } else {
        digits(n as nat)
    }
}

pub proof fn lemma_newline_index(s: Seq<char>)
    ensures
        0 <= newline_index(s) <= s.len(),
        forall|j: int| 0 <= j < newline_index(s) ==> s[j] != '\n',
        newline_index(s) < s.len() ==> s[newline_index(s)] == '\n',
    decreases s.len(),
{
    if s.len() > 0 && s[0] != '\n' {
        lemma_newline_index(s.drop_first());
        assert forall|j: int| 0 <= j < newline_index(s) implies s[j] != '\n' by {
            if j > 0 {
                assert(s[j] == s.drop_first()[j - 1]);
            }
        }
    }
}

/// A position with no line feed before it and a line feed (or the end) at
/// it is the first line-feed index.
pub proof fn lemma_newline_index_at(s: Seq<char>, k: int)
    requires
        0 <= k <= s.len(),
        forall|j: int| 0 <= j < k ==> s[j] != '\n',
        k < s.len() ==> s[k] == '\n',
    ensures
        newline_index(s) == k,
    decreases s.len(),
{
    if s.len() > 0 && k > 0 {
        assert(s[0] != '\n');
        assert forall|j: int| 0 <= j < k - 1 implies s.drop_first()[j] != '\n' by {
            assert(s[j + 1] != '\n');
        }
        if k - 1 < s.drop_first().len() {
            assert(s.drop_first()[k - 1] == s[k]);
        }
        lemma_newline_index_at(s.drop_first(), k - 1);
    }
}

/// The lines of `s.skip(start)`, when the line starting there ends at `k`
/// with a line feed, are that line followed by the lines after it.
proof fn lemma_lines_step(s: Seq<char>, start: int, k: int)
    requires
        0 <= start <= k < s.len(),
        s[k] == '\n',
        forall|j: int| start <= j < k ==> s[j] != '\n',
    ensures
        text_lines(s.skip(start)) == seq![strip_cr(s.subrange(start, k))] + text_lines(s.skip(k + 1)),
{
    let t = s.skip(start);
    assert forall|j: int| 0 <= j < k - start implies t[j] != '\n' by {
        assert(t[j] == s[start + j]);
    }
    assert(t[k - start] == s[k]);
    lemma_newline_index_at(t, k - start);
    assert(t.take(k - start) =~= s.subrange(start, k));
    assert(t.skip(k - start + 1) =~= s.skip(k + 1));
}

/// The lines of `s.skip(start)` when no line feed follows `start`.
proof fn lemma_lines_last(s: Seq<char>, start: int)
    requires
        0 <= start <= s.len(),
        forall|j: int| start <= j < s.len() ==> s[j] != '\n',
    ensures
        start < s.len() ==> text_lines(s.skip(start)) == seq![s.skip(start)],
        start == s.len() ==> text_lines(s.skip(start)) == Seq::<Seq<char>>::empty(),
{
    let t = s.skip(start);
    if start < s.len() {
        assert forall|j: int| 0 <= j < t.len() implies t[j] != '\n' by {
            assert(t[j] == s[start + j]);
        }
        lemma_newline_index_at(t, t.len() as int);
    } else {
        assert(t.len() == 0);
    }
}

/// No line of a text holds a line feed.
pub proof fn lemma_lines_have_no_newline(s: Seq<char>)
    ensures
        forall|i: int, j: int|
            0 <= i < text_lines(s).len() && 0 <= j < text_lines(s)[i].len() ==> #[trigger] text_lines(s)[i][j] != '\n',
    decreases s.len(),
{
    if s.len() > 0 {
        lemma_newline_index(s);
        let k = newline_index(s);
        if k < s.len() {
            lemma_lines_have_no_newline(s.skip(k + 1));
            let head = strip_cr(s.take(k));
            assert forall|i: int, j: int|
                0 <= i < text_lines(s).len() && 0 <= j < text_lines(s)[i].len() implies #[trigger] text_lines(s)[i][j] != '\n' by {
                if i == 0 {
                    assert(text_lines(s)[0] == head);
                    assert(head[j] == s[j]);
                } else {
                    assert(text_lines(s)[i] == text_lines(s.skip(k + 1))[i - 1]);
                }
            }
        }
    }
}

proof fn lemma_digits_shape(n: nat)
    ensures
        digits(n).len() >= 1,
        n >= 10 ==> digits(n).len() >= 2,
        digits(n)[0] != '-',
        forall|i: int| 0 <= i < digits(n).len() ==> #[trigger] digits(n)[i] != '-',
    decreases n,
{
    if n >= 10 {
        lemma_digits_shape(n / 10);
        assert forall|i: int| 0 <= i < digits(n).len() implies #[trigger] digits(n)[i] != '-' by {
            if i < digits(n / 10).len() {
                assert(digits(n)[i] == digits(n / 10)[i]);
            }
        }
    }
}

proof fn lemma_digit_char_injective(a: int, b: int)
    requires
        0 <= a < 10,
        0 <= b < 10,
        digit_char(a) == digit_char(b),
    ensures
        a == b,
{
}

proof fn lemma_digits_injective(a: nat, b: nat)
    requires
        digits(a) == digits(b),
    ensures
        a == b,
    decreases a,
{
    lemma_digits_shape(a);
    lemma_digits_shape(b);
    if a < 10 && b < 10 {
        lemma_digit_char_injective(a as int, b as int);
    } else if a >= 10 && b >= 10 {
        let da = digits(a);
        let db = digits(b);
        assert(da.last() == digit_char((a % 10) as int));
        assert(db.last() == digit_char((b % 10) as int));
        lemma_digit_char_injective((a % 10) as int, (b % 10) as int);
        assert(da.drop_last() =~= digits(a / 10));
        assert(db.drop_last() =~= digits(b / 10));
        lemma_digits_injective(a / 10, b / 10);
    } else {
        assert(digits(a).len() != digits(b).len());
    }
}

/// Two integers with the same decimal rendering are equal, so texts of
/// heights can be compared as the heights themselves.
pub proof fn lemma_decimal_injective(a: int, b: int)
    requires
        decimal(a) == decimal(b),
    ensures
        a == b,
{
    if a < 0 && b < 0 {
        lemma_digits_shape((-a) as nat);
        assert(decimal(a).drop_first() =~= digits((-a) as nat));
        assert(decimal(b).drop_first() =~= digits((-b) as nat));
        lemma_digits_injective((-a) as nat, (-b) as nat);
    } else if a >= 0 && b >= 0 {
        lemma_digits_injective(a as nat, b as nat);
    } else if a < 0 {
        lemma_digits_shape(b as nat);
        assert(decimal(a)[0] == '-');
        assert(decimal(b)[0] != '-');
    } else {
        lemma_digits_shape(a as nat);
        assert(decimal(b)[0] == '-');
        assert(decimal(a)[0] != '-');
    }
}

/// The lines of a text, in terms of how texts are built: the empty text has
/// no line; a non-empty text without a line feed is one line; a line
/// feed after a piece without one ends a line, which loses one trailing
/// carriage return, and the lines of the rest follow.
pub proof fn lemma_lines_by_construction(a: Seq<char>, b: Seq<char>)
    ensures
        text_lines(Seq::<char>::empty()) == Seq::<Seq<char>>::empty(),
        (forall|j: int| 0 <= j < a.len() ==> a[j] != '\n') && a.len() > 0 ==> text_lines(a) == seq![a],
        (forall|j: int| 0 <= j < a.len() ==> a[j] != '\n') ==> text_lines(a + seq!['\n'] + b) == seq![strip_cr(a)]
            + text_lines(b),
        strip_cr(a.push('\r')) == a,
        (a.len() == 0 || a.last() != '\r') ==> strip_cr(a) == a,
{
    if forall|j: int| 0 <= j < a.len() ==> a[j] != '\n' {
        if a.len() > 0 {
            lemma_newline_index_at(a, a.len() as int);
        }
        let s = a + seq!['\n'] + b;
        assert forall|j: int| 0 <= j < a.len() implies s[j] != '\n' by {
            assert(s[j] == a[j]);
        }
        assert(s[a.len() as int] == '\n');
        lemma_newline_index_at(s, a.len() as int);
        assert(s.take(a.len() as int) =~= a);
        assert(s.skip(a.len() + 1int) =~= b);
    }
    assert(a.push('\r').drop_last() =~= a);
}

/// Decimal rendering, digit by digit: a digit `d` is the character with
/// code 48 + d; a number below 10 is its one digit; a larger number is the
/// rendering of its tenth followed by its last digit; a negative number is
/// a minus sign before the rendering of its magnitude.
pub proof fn lemma_decimal_by_digits(n: int)
    ensures
        forall|d: int| 0 <= d < 10 ==> #[trigger] digit_char(d) as int == 48 + d,
        0 <= n < 10 ==> decimal(n) == seq![digit_char(n)],
        n >= 10 ==> decimal(n) == decimal(n / 10).push(digit_char(n % 10)),
        n < 0 ==> decimal(n) == seq!['-'] + decimal(-n),
{
}

/// The characters of a string slice.
pub fn chars_of(s: &str) -> (res: Vec<char>)
    ensures
        res@ == s@,
{
    let mut res: Vec<char> = Vec::new();
    for c in it: s.chars()
        invariant
            res@ == it.seq().take(it.index() as int),
            it.seq() == s@,
    {
        res.push(c);
    }
    res
}

/// An owned copy of a string slice.
pub fn owned(s: &str) -> (res: String)
    ensures
        res@ == s@,
{
    let mut r = String::new();
    r.append(s);
    r
}

/// The concatenation of two texts.
pub fn joined(a: &str, b: &str) -> (res: String)
    ensures
        res@ == a@ + b@,
{
    let mut r = owned(a);
    r.append(b);
    r
}

/// Whether two texts are the same characters.
pub fn same_text(a: &str, b: &str) -> (res: bool)
    ensures
        res == (a@ == b@),
{
    let x = chars_of(a);
    let y = chars_of(b);
    if x.len() != y.len() {
        return false;
    }
    let mut i: usize = 0;
    while i < x.len()
        invariant
            x@ == a@,
            y@ == b@,
            x.len() == y.len(),
            0 <= i <= x.len(),
            forall|j: int| 0 <= j < i ==> x@[j] == y@[j],
        decreases x.len() - i,
    {
        if x[i] != y[i] {
            return false;
        }
        i = i + 1;
    }
    assert(x@ =~= y@);
    true
}

fn occurs_at_exec(hay: &Vec<char>, needle: &Vec<char>, i: usize) -> (res: bool)
    requires
        i + needle.len() <= hay.len(),
    ensures
        res == occurs_at(hay@, needle@, i as int),
{
    let mut j: usize = 0;
    while j < needle.len()
        invariant
            i + needle.len() <= hay.len(),
            0 <= j <= needle.len(),
            forall|m: int| 0 <= m < j ==> hay@[i + m] == needle@[m],
        decreases needle.len() - j,
    {
        if hay[i + j] != needle[j] {
            assert(hay@.subrange(i as int, i + needle.len())[j as int] != needle@[j as int]);
            return false;
        }
        j = j + 1;
    }
    assert(hay@.subrange(i as int, i + needle.len()) =~= needle@);
    true
}

/// Whether `needle` occurs in `hay`, as `str::contains` with a string pattern.
pub fn text_contains(hay: &str, needle: &str) -> (res: bool)
    ensures
        res == has_text(hay@, needle@),
{
    let h = chars_of(hay);
    let n = chars_of(needle);
    if n.len() > h.len() {
        assert forall|i: int| !occurs_at(h@, n@, i) by {}
        return false;
    }
    let last = h.len() - n.len();
    let mut i: usize = 0;
    loop
        invariant
            h@ == hay@,
            n@ == needle@,
            last == h.len() - n.len(),
            n.len() <= h.len(),
            0 <= i <= last,
            forall|k: int| 0 <= k < i ==> !occurs_at(h@, n@, k),
        decreases last - i,
    {
        if occurs_at_exec(&h, &n, i) {
            return true;
        }
        if i == last {
            assert forall|k: int| !occurs_at(h@, n@, k) by {
                if 0 <= k && k < i {
                }
            }
            return false;
        }
        i = i + 1;
    }
}

/// The text of positions `from..to` of `s` with a trailing `\r` removed
/// when `strip` is set.
fn line_text(s: &str, from: usize, to: usize, strip: bool) -> (res: String)
    requires
        from <= to <= s@.len(),
    ensures
        res@ == (if strip { strip_cr(s@.subrange(from as int, to as int)) } else { s@.subrange(from as int, to as int) }),
{
    let mut end = to;
    if strip && to > from {
        let c = s.get_char(to - 1);
        if c == '\r' {
            end = to - 1;
        }
    }
    let piece = s.substring_char(from, end);
    proof {
        let seg = s@.subrange(from as int, to as int);
        if strip && to > from && s@[to - 1] == '\r' {
            assert(seg.drop_last() =~= s@.subrange(from as int, end as int));
        }
    }
    owned(piece)
}

/// The lines of a text, as `str::lines` yields them.
pub fn split_lines(s: &str) -> (res: Vec<String>)
    ensures
        views(res@) == text_lines(s@),
{
    let cs = chars_of(s);
    let n = cs.len();
    let mut out: Vec<String> = Vec::new();
    let mut start: usize = 0;
    let mut p: usize = 0;
    proof {
        assert(s@.skip(0) =~= s@);
    }
    while p < n
        invariant
            cs@ == s@,
            n == cs.len(),
            0 <= start <= p <= n,
            forall|j: int| start <= j < p ==> s@[j] != '\n',
            views(out@) + text_lines(s@.skip(start as int)) == text_lines(s@),
        decreases n - p,
    {
        if cs[p] == '\n' {
            let line = line_text(s, start, p, true);
            proof {
                lemma_lines_step(s@, start as int, p as int);
                let old_views = views(out@);
                assert(views(out@.push(line)) =~= old_views.push(line@));
                assert(old_views + text_lines(s@.skip(start as int)) =~= old_views.push(line@)
                    + text_lines(s@.skip(p + 1)));
            }
            out.push(line);
            start = p + 1;
        }
        p = p + 1;
    }
    proof {
        lemma_lines_last(s@, start as int);
    }
    if start < n {
        let line = line_text(s, start, n, false);
        proof {
            assert(s@.subrange(start as int, n as int) =~= s@.skip(start as int));
            assert(views(out@.push(line)) =~= views(out@).push(line@));
            assert(views(out@) + seq![s@.skip(start as int)] =~= views(out@).push(line@));
        }
        out.push(line);
    } else {
        assert(views(out@) + Seq::<Seq<char>>::empty() =~= views(out@));
    }
    out
}

/// The first line of a text, if it has one.
pub fn first_line(s: &str) -> (res: Option<String>)
    ensures
        match res {
            Some(l) => text_lines(s@).len() > 0 && l@ == text_lines(s@)[0],
            None => text_lines(s@).len() == 0,
        },
{
    let mut lines = split_lines(s);
    if lines.len() == 0 {
        None
    } else {
        let ghost v = views(lines@);
        let l = lines.swap_remove(0);
        assert(l@ == v[0]);
        Some(l)
    }
}

/// The last line of a text, if it has one.
pub fn last_line(s: &str) -> (res: Option<String>)
    ensures
        match res {
            Some(l) => text_lines(s@).len() > 0 && l@ == text_lines(s@).last(),
            None => text_lines(s@).len() == 0,
        },
{
    let mut lines = split_lines(s);
    let ghost v = views(lines@);
    match lines.pop() {
        None => None,
        Some(l) => {
            assert(l@ == v.last());
            Some(l)
        },
    }
}

fn digit_text(d: u64) -> (res: String)
    requires
        d < 10,
    ensures
        res@ == seq![digit_char(d as int)],
{
    let all = "0123456789";
    proof {
        reveal_strlit("0123456789");
    }
    let piece = all.substring_char(d as usize, (d + 1) as usize);
    assert(piece@ =~= seq![digit_char(d as int)]);
    owned(piece)
}

/// Decimal digits of a natural number.
pub fn digits_text(n: u64) -> (res: String)
    ensures
        res@ == digits(n as nat),
    decreases n,
{
    if n < 10 {
        digit_text(n)
    } else {
        let mut r = digits_text(n / 10);
        let d = digit_text(n % 10);
        r.append(d.as_str());
        assert(r@ =~= digits((n / 10) as nat).push(digit_char((n % 10) as int)));
        r
    }
}

/// Decimal rendering of a signed integer, as `i64::to_string` writes it.
pub fn decimal_text(n: i64) -> (res: String)
    ensures
        res@ == decimal(n as int),
{
    if n < 0 {
        let magnitude: u64 = if n == i64::MIN {
            9223372036854775808u64
        } else {
            (-n) as u64
        };
        let d = digits_text(magnitude);
        let r = joined("-", d.as_str());
        proof {
            reveal_strlit("-");
        }
        assert(r@ =~= seq!['-'] + digits((-n) as nat));
        r
    } else {
        digits_text(n as u64)
    }
}

} // verus!
