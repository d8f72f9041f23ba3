//! Text handling shared by the screens: characters of a string, decimal
//! numbers, trimming, splitting into lines and joining lines.

use vstd::prelude::*;
use vstd::string::StrSliceExecFns;
use vstd::string::StringExecFns;

verus! {

/// Appends `c` to `s`: std's `String::push`, which adds one character at
/// the end and changes nothing else.
#[verifier::external_body]
pub(crate) fn push_char(s: &mut String, c: char)
    ensures
        final(s)@ == old(s)@.push(c),
{
    s.push(c)
}

/// Removes the last character of `s`: std's `String::pop`, which returns
/// `None` on an empty string and otherwise removes and returns the last
/// character.
#[verifier::external_body]
pub(crate) fn pop_char(s: &mut String) -> (r: Option<char>)
    ensures
        old(s)@.len() == 0 ==> r is None && final(s)@ == old(s)@,
        old(s)@.len() > 0 ==> r == Some(old(s)@.last()) && final(s)@ == old(s)@.drop_last(),
{
    s.pop()
}

/// Whether a character has the Unicode `White_Space` property, which std's
/// `char::is_whitespace` tests: U+0009 to U+000D, U+0020, U+0085, U+00A0,
/// U+1680, U+2000 to U+200A, U+2028, U+2029, U+202F, U+205F and U+3000.
pub open spec fn white_space(c: char) -> bool {
    let n = c as u32;
    ||| 0x9 <= n <= 0xd
    ||| n == 0x20
    ||| n == 0x85
    ||| n == 0xa0
    ||| n == 0x1680
    ||| 0x2000 <= n <= 0x200a
    ||| n == 0x2028
    ||| n == 0x2029
    ||| n == 0x202f
    ||| n == 0x205f
    ||| n == 0x3000
}

/// Whether `c` is white space, as `white_space` lists it.
pub fn is_white_space(c: char) -> (r: bool)
    ensures
        r == white_space(c),
{
    let n = c as u32;
    (0x9 <= n && n <= 0xd) || n == 0x20 || n == 0x85 || n == 0xa0 || n == 0x1680 || (0x2000 <= n
        && n <= 0x200a) || n == 0x2028 || n == 0x2029 || n == 0x202f || n == 0x205f || n == 0x3000
}

/// The characters of a string, in order.
pub fn chars_of(s: &String) -> (v: Vec<char>)
    ensures
        v@ == s@,
{
    let t = s.as_str();
    let n = t.unicode_len();
    let mut v: Vec<char> = Vec::new();
    let mut i: usize = 0;
    while i < n
        invariant
            t@ == s@,
            n == s@.len(),
            i <= n,
            v@ == s@.take(i as int),
        decreases n - i,
    {
        let c = t.get_char(i);
        v.push(c);
        i = i + 1;
        assert(v@ =~= s@.take(i as int));
    }
    assert(v@ =~= s@);
    v
}

/// The string made of the characters `v[lo..hi]`.
pub fn string_of(v: &Vec<char>, lo: usize, hi: usize) -> (s: String)
    requires
        lo <= hi <= v@.len(),
    ensures
        s@ == v@.subrange(lo as int, hi as int),
{
    let mut s = String::new();
    let mut i: usize = lo;
    while i < hi
        invariant
            lo <= i <= hi <= v@.len(),
            s@ == v@.subrange(lo as int, i as int),
        decreases hi - i,
    {
        push_char(&mut s, v[i]);
        i = i + 1;
        assert(s@ =~= v@.subrange(lo as int, i as int));
    }
    s
}

/// The digit character for `d`, where `d < 10`.
pub open spec fn digit(d: int) -> char {
    if d == 0 {
        '0'
    } else if d == 1 {
        '1'
    } else if d == 2 {
        '2'
    } else if d == 3 {
        '3'
    } else if d == 4 {
        '4'
    } else if d == 5 {
        '5'
    } else if d == 6 {
        '6'
    } else if d == 7 {
        '7'
    } else if d == 8 {
        '8'
    } else {
        '9'
    }
}

/// The decimal notation of `n`: its digits, most significant first, with no
/// leading zero.
pub open spec fn decimal(n: nat) -> Seq<char>
    decreases n,
{
    if n < 10 {
        seq![digit(n as int)]
    } else {
        decimal(n / 10).push(digit((n % 10) as int))
    }
}

/// The number that decimal digits `s` stand for.
pub open spec fn digits_value(s: Seq<char>) -> int
    decreases s.len(),
{
    if s.len() == 0 {
        0
    } else {
        digits_value(s.drop_last()) * 10 + (s.last() as u32 - '0' as u32)
    }
}

proof fn lemma_digit_value(d: int)
    requires
        0 <= d < 10,
    ensures
        digit(d) as u32 - '0' as u32 == d,
        '0' <= digit(d) <= '9',
{
}

/// Decimal notation reads back: it is made of the digits `0` to `9`,
/// starts with `0` only for zero itself, and stands for the number.
pub proof fn decimal_reads_back(n: nat)
    ensures
        digits_value(decimal(n)) == n,
        forall|i: int| 0 <= i < decimal(n).len() ==> '0' <= #[trigger] decimal(n)[i] <= '9',
        decimal(n)[0] == '0' ==> n == 0,
        decimal(n).len() > 0,
    decreases n,
{
    lemma_digit_value((n % 10) as int);
    if n < 10 {
        assert(n % 10 == n);
        assert(decimal(n).drop_last() =~= seq![]);
        assert(decimal(n).last() == digit(n as int));
        assert(digits_value(decimal(n)) == digits_value(seq![]) * 10 + (digit(n as int) as u32 - '0' as u32));
    } else {
        decimal_reads_back(n / 10);
        let d = decimal(n / 10);
        assert(decimal(n).drop_last() =~= d);
        assert(n == (n / 10) * 10 + n % 10);
        assert(decimal(n).last() == digit((n % 10) as int));
        assert(digits_value(decimal(n)) == digits_value(d) * 10 + (digit((n % 10) as int) as u32
            - '0' as u32));
        assert(decimal(n).drop_last() =~= d);
        assert(decimal(n)[0] == d[0]);
        assert forall|i: int| 0 <= i < decimal(n).len() implies '0' <= #[trigger] decimal(n)[i] <= '9' by {
            if i < d.len() {
                assert(decimal(n)[i] == d[i]);
            }
        }
    }
}

fn digit_char(d: u64) -> (c: char)
    requires
        d < 10,
    ensures
        c == digit(d as int),
{
    if d == 0 {
        '0'
    } else if d == 1 {
        '1'
    } else if d == 2 {
        '2'
    } else if d == 3 {
        '3'
    } else if d == 4 {
        '4'
    } else if d == 5 {
        '5'
    } else if d == 6 {
        '6'
    } else if d == 7 {
        '7'
    } else if d == 8 {
        '8'
    } else {
        '9'
    }
}

/// `n` written in decimal.
pub fn decimal_string(n: u64) -> (s: String)
    ensures
        s@ == decimal(n as nat),
    decreases n,
{
    if n < 10 {
        let mut s = String::new();
        push_char(&mut s, digit_char(n));
        s
    } else {
        let mut s = decimal_string(n / 10);
        push_char(&mut s, digit_char(n % 10));
        s
    }
}


/// `s` without its leading white space.
pub open spec fn trim_start(s: Seq<char>) -> Seq<char>
    decreases s.len(),
{
    if s.len() > 0 && white_space(s[0]) {
        trim_start(s.drop_first())
    } else {
        s
    }
}

/// `s` without its trailing white space.
pub open spec fn trim_end(s: Seq<char>) -> Seq<char>
    decreases s.len(),
{
    if s.len() > 0 && white_space(s.last()) {
        trim_end(s.drop_last())
    } else {
        s
    }
}

/// `s` without its leading and trailing white space.
pub open spec fn trim(s: Seq<char>) -> Seq<char> {
    trim_end(trim_start(s))
}

proof fn lemma_trim_start(s: Seq<char>, k: int)
    requires
        0 <= k <= s.len(),
        forall|j: int| 0 <= j < k ==> white_space(#[trigger] s[j]),
        k == s.len() || !white_space(s[k]),
    ensures
        trim_start(s) == s.skip(k),
    decreases k,
{
    if k == 0 {
        assert(s.skip(0) =~= s);
    } else {
        let t = s.drop_first();
        assert forall|j: int| 0 <= j < k - 1 implies white_space(#[trigger] t[j]) by {
            assert(t[j] == s[j + 1]);
        }
        lemma_trim_start(t, k - 1);
        assert(t.skip(k - 1) =~= s.skip(k));
    }
}

proof fn lemma_trim_end(s: Seq<char>, k: int)
    requires
        0 <= k <= s.len(),
        forall|j: int| k <= j < s.len() ==> white_space(#[trigger] s[j]),
        k == 0 || !white_space(s[k - 1]),
    ensures
        trim_end(s) == s.take(k),
    decreases s.len() - k,
{
    if k == s.len() {
        assert(s.take(k) =~= s);
    } else {
        let t = s.drop_last();
        lemma_trim_end(t, k);
        assert(t.take(k) =~= s.take(k));
    }
}

/// `s` with its leading and trailing white space removed, as std's
/// `str::trim` does.
pub fn trimmed(s: &String) -> (t: String)
    ensures
        t@ == trim(s@),
{
    let v = chars_of(s);
    let n = v.len();
    let mut lo: usize = 0;
    while lo < n && is_white_space(v[lo])
        invariant
            n == v@.len(),
            lo <= n,
            forall|j: int| 0 <= j < lo ==> white_space(#[trigger] v@[j]),
        decreases n - lo,
    {
        lo = lo + 1;
    }
    let mut hi: usize = n;
    while hi > lo && is_white_space(v[hi - 1])
        invariant
            n == v@.len(),
            lo <= hi <= n,
            forall|j: int| hi <= j < n ==> white_space(#[trigger] v@[j]),
        decreases hi,
    {
        hi = hi - 1;
    }
    proof {
        lemma_trim_start(v@, lo as int);
        let u = v@.skip(lo as int);
        assert forall|j: int| hi - lo <= j < u.len() implies white_space(#[trigger] u[j]) by {
            assert(u[j] == v@[j + lo]);
        }
        if hi == lo && lo < n {
            assert(white_space(v@[lo as int]));
        }
        lemma_trim_end(u, hi - lo);
        assert(u.take(hi - lo) =~= v@.subrange(lo as int, hi as int));
    }
    string_of(&v, lo, hi)
}

/// `l` without one carriage return at its end.
pub open spec fn strip_cr(l: Seq<char>) -> Seq<char> {
    if l.len() > 0 && l.last() == '\r' {
        l.drop_last()
    } else {
        l
    }
}

/// Reading `p` from the start: the lines ended so far, each without its
/// line ending, and the text of the line not ended yet.
pub open spec fn scan_lines(p: Seq<char>) -> (Seq<Seq<char>>, Seq<char>)
    decreases p.len(),
{
    if p.len() == 0 {
        (seq![], seq![])
    } else {
        let (done, cur) = scan_lines(p.drop_last());
        if p.last() == '\n' {
            (done.push(strip_cr(cur)), seq![])
        } else {
            (done, cur.push(p.last()))
        }
    }
}

/// The lines of `s`, as std's `str::lines` gives them: split at `\n` or
/// `\r\n`, line endings removed, and no empty line after a final line
/// ending.
pub open spec fn lines(s: Seq<char>) -> Seq<Seq<char>> {
    let (done, cur) = scan_lines(s);
    if cur.len() > 0 {
        done.push(cur)
    } else {
        done
    }
}

fn line_without_cr(cur: &Vec<char>) -> (s: String)
    ensures
        s@ == strip_cr(cur@),
{
    let n = cur.len();
    if n > 0 && cur[n - 1] == '\r' {
        let s = string_of(cur, 0, n - 1);
        assert(cur@.subrange(0, n - 1) =~= cur@.drop_last());
        s
    } else {
        let s = string_of(cur, 0, n);
        assert(cur@.subrange(0, n as int) =~= cur@);
        s
    }
}

proof fn lemma_scan_lines_rebuilds(p: Seq<char>)
    requires
        !p.contains('\r'),
    ensures
        ({
            let (done, cur) = scan_lines(p);
            &&& !cur.contains('\n')
            &&& !cur.contains('\r')
            &&& p == (if done.len() == 0 {
                cur
            } else {
                join_lines(done) + seq!['\n'] + cur
            })
        }),
    decreases p.len(),
{
    if p.len() > 0 {
        let q = p.drop_last();
        assert(!q.contains('\r')) by {
            if q.contains('\r') {
                let i = choose|i: int| 0 <= i < q.len() && q[i] == '\r';
                assert(p[i] == '\r');
            }
        }
        lemma_scan_lines_rebuilds(q);
        let (done, cur) = scan_lines(q);
        let ch = p.last();
        assert(p[p.len() - 1] == ch);
        if ch == '\n' {
            assert(strip_cr(cur) == cur) by {
                if cur.len() > 0 {
                    assert(cur[cur.len() - 1] == cur.last());
                }
            }
            let d2 = done.push(cur);
            assert(d2.drop_last() =~= done);
            assert(p =~= q.push('\n'));
        } else {
            assert(p =~= q.push(ch));
            let c2 = cur.push(ch);
            assert(!c2.contains('\n') && !c2.contains('\r')) by {
                assert forall|i: int| 0 <= i < c2.len() implies c2[i] != '\n' && c2[i] != '\r' by {
                    if i < cur.len() {
                        assert(c2[i] == cur[i]);
                    }
                }
            }
            if done.len() == 0 {
                assert(p =~= c2);
            } else {
                let j = join_lines(done) + seq!['\n'];
                assert(q =~= j + cur);
                assert(p =~= j + c2);
            }
        }
    }
}

/// Splitting into lines loses no text: for text without carriage returns,
/// the lines joined with `\n` give the text back, without a final line
/// ending.
pub proof fn lines_lose_nothing(s: Seq<char>)
    requires
        !s.contains('\r'),
    ensures
        join_lines(lines(s)) == (if s.len() > 0 && s.last() == '\n' {
            s.drop_last()
        } else {
            s
        }),
{
    lemma_scan_lines_rebuilds(s);
    let (done, cur) = scan_lines(s);
    if cur.len() > 0 {
        let all = done.push(cur);
        assert(all.drop_last() =~= done);
        assert(s.last() == cur.last()) by {
            if done.len() == 0 {
            } else {
                assert(s[s.len() - 1] == cur[cur.len() - 1]);
            }
        }
        assert(cur[cur.len() - 1] == cur.last());
        assert(s.last() != '\n');
    } else if done.len() > 0 {
        assert(s =~= (join_lines(done) + seq!['\n']));
        assert(s.drop_last() =~= join_lines(done));
    }
}

/// The lines of `s`, as `lines` describes them.
pub fn lines_of(s: &String) -> (v: Vec<String>)
    ensures
        v.deep_view() == lines(s@),
{
    let chars = chars_of(s);
    let n = chars.len();
    let mut done: Vec<String> = Vec::new();
    let mut cur: Vec<char> = Vec::new();
    let mut i: usize = 0;
    assert(done.deep_view() =~= seq![]);
    while i < n
        invariant
            n == chars@.len(),
            chars@ == s@,
            i <= n,
            (done.deep_view(), cur@) == scan_lines(chars@.take(i as int)),
        decreases n - i,
    {
        let c = chars[i];
        assert(chars@.take(i + 1).drop_last() =~= chars@.take(i as int));
        let ghost old_done = done.deep_view();
        if c == '\n' {
            let line = line_without_cr(&cur);
            done.push(line);
            cur = Vec::new();
            assert(done.deep_view() =~= old_done.push(line@));
        } else {
            cur.push(c);
        }
        i = i + 1;
    }
    assert(chars@.take(n as int) =~= chars@);
    if cur.len() > 0 {
        let ghost old_done = done.deep_view();
        let last = string_of(&cur, 0, cur.len());
        assert(cur@.subrange(0, cur@.len() as int) =~= cur@);
        done.push(last);
        assert(done.deep_view() =~= old_done.push(cur@));
    }
    done
}

/// The lines `ls` joined with `\n` between each two.
pub open spec fn join_lines(ls: Seq<Seq<char>>) -> Seq<char>
    decreases ls.len(),
{
    if ls.len() == 0 {
        seq![]
    } else if ls.len() == 1 {
        ls[0]
    } else {
        join_lines(ls.drop_last()) + seq!['\n'] + ls.last()
    }
}

/// The strings of `ls` joined with `\n` between each two, as std's
/// `join("\n")` does.
pub fn joined(ls: &Vec<String>) -> (s: String)
    ensures
        s@ == join_lines(ls.deep_view()),
{
    let n = ls.len();
    let mut s = String::new();
    let mut i: usize = 0;
    while i < n
        invariant
            n == ls.deep_view().len(),
            i <= n,
            s@ == join_lines(ls.deep_view().take(i as int)),
        decreases n - i,
    {
        let ghost dv = ls.deep_view();
        assert(dv.take(i + 1).drop_last() =~= dv.take(i as int));
        assert(dv[i as int] == ls[i as int]@);
        if i > 0 {
            push_char(&mut s, '\n');
        }
        s.append(ls[i].as_str());
        i = i + 1;
    }
    assert(ls.deep_view().take(n as int) =~= ls.deep_view());
    s
}

} // verus!
