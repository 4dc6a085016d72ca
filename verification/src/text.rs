use vstd::prelude::*;

verus! {

/// Whether `c` has the Unicode `White_Space` property, the set that
/// `char::is_whitespace` (and so `str::trim` and `str::split_whitespace`) uses.
pub open spec fn is_whitespace(c: char) -> bool {
    let v = c as u32;
    ||| 0x09 <= v <= 0x0d
    ||| v == 0x20
    ||| v == 0x85
    ||| v == 0xa0
    ||| v == 0x1680
    ||| 0x2000 <= v <= 0x200a
    ||| v == 0x2028
    ||| v == 0x2029
    ||| v == 0x202f
    ||| v == 0x205f
    ||| v == 0x3000
}

/// Executable `is_whitespace`.
pub fn char_is_whitespace(c: char) -> (res: bool)
    ensures
        res == is_whitespace(c),
{
    let v = c as u32;
    (0x09 <= v && v <= 0x0d) || v == 0x20 || v == 0x85 || v == 0xa0 || v == 0x1680 || (0x2000
        <= v && v <= 0x200a) || v == 0x2028 || v == 0x2029 || v == 0x202f || v == 0x205f || v
        == 0x3000
}

/// The characters of a string slice, in order.
pub fn chars_of(s: &str) -> (res: Vec<char>)
    ensures
        res@ == s@,
{
    let mut res: Vec<char> = Vec::new();
    for c in it: s.chars()
        invariant
            res@ == it.seq().take(it.index()),
    {
        res.push(c);
    }
    res
}

/// A class of characters that a scan runs over.
pub enum Run {
    /// Whitespace characters.
    Whitespace,
    /// Anything but whitespace: the characters of a word.
    Word,
    /// Anything but the given character.
    Until(char),
}

/// The characters that `run` accepts.
pub open spec fn run_accepts(run: Run, c: char) -> bool {
    match run {
        Run::Whitespace => is_whitespace(c),
        Run::Word => !is_whitespace(c),
        Run::Until(stop) => c != stop,
    }
}

/// Length of the longest prefix of `s` whose characters `run` accepts.
pub open spec fn run_len(s: Seq<char>, run: Run) -> nat
    decreases s.len(),
{
    if s.len() > 0 && run_accepts(run, s[0]) {
        1 + run_len(s.drop_first(), run)
    } else {
        0
    }
}

/// Length of the longest suffix of `s` made of whitespace.
pub open spec fn trailing_ws_len(s: Seq<char>) -> nat
    decreases s.len(),
{
    if s.len() > 0 && is_whitespace(s.last()) {
        1 + trailing_ws_len(s.drop_last())
    } else {
        0
    }
}

/// `s` without leading whitespace, as `str::trim_start` leaves it.
pub open spec fn trim_start(s: Seq<char>) -> Seq<char> {
    s.subrange(run_len(s, Run::Whitespace) as int, s.len() as int)
}

/// `s` without leading and trailing whitespace, as `str::trim` leaves it.
pub open spec fn trim(s: Seq<char>) -> Seq<char> {
    let t = trim_start(s);
    t.subrange(0, t.len() - trailing_ws_len(t))
}

/// The first whitespace-separated word of `s`, what `str::split_whitespace().next()` yields.
pub open spec fn first_word(s: Seq<char>) -> Option<Seq<char>> {
    let t = trim_start(s);
    if t.len() == 0 {
        None
    } else {
        Some(t.subrange(0, run_len(t, Run::Word) as int))
    }
}

/// What `str::split_once(sep)` returns: the text before the first `sep` and the text after it.
pub open spec fn split_once(s: Seq<char>, sep: char) -> Option<(Seq<char>, Seq<char>)> {
    let k = run_len(s, Run::Until(sep));
    if k == s.len() {
        None
    } else {
        Some((s.subrange(0, k as int), s.subrange(k + 1int, s.len() as int)))
    }
}

/// Whether `c` is an ASCII decimal digit.
pub open spec fn is_digit(c: char) -> bool {
    0x30 <= c as u32 <= 0x39
}

/// The value of the digit `c`.
pub open spec fn digit_value(c: char) -> nat {
    (c as u32 - 0x30) as nat
}

/// Whether every character of `s` is a decimal digit.
pub open spec fn all_digits(s: Seq<char>) -> bool {
    forall|i: int| 0 <= i < s.len() ==> is_digit(#[trigger] s[i])
}

/// The number that the decimal digits `s` spell.
pub open spec fn digits_value(s: Seq<char>) -> nat
    decreases s.len(),
{
    if s.len() == 0 {
        0
    } else {
        digits_value(s.drop_last()) * 10 + digit_value(s.last())
    }
}

/// The digits of an unsigned number in Rust's syntax: an optional `+`, then the digits.
pub open spec fn unsigned_digits(s: Seq<char>) -> Seq<char> {
    if s.len() > 0 && s[0] == '+' {
        s.drop_first()
    } else {
        s
    }
}

/// The number `s` denotes, as `u64::from_str` and its siblings read it, without a bound:
/// an optional `+` followed by at least one ASCII digit.
pub open spec fn unsigned_value(s: Seq<char>) -> Option<nat> {
    let d = unsigned_digits(s);
    if d.len() > 0 && all_digits(d) {
        Some(digits_value(d))
    } else {
        None
    }
}

/// What `u64::from_str` returns for `s`, with `None` for every error.
pub open spec fn parse_u64(s: Seq<char>) -> Option<u64> {
    match unsigned_value(s) {
        Some(v) => if v <= u64::MAX {
            Some(v as u64)
        } else {
            None
        },
        None => None,
    }
}

/// What `u32::from_str` returns for `s`, with `None` for every error.
pub open spec fn parse_u32(s: Seq<char>) -> Option<u32> {
    match unsigned_value(s) {
        Some(v) => if v <= u32::MAX {
            Some(v as u32)
        } else {
            None
        },
        None => None,
    }
}

pub proof fn lemma_run_len(s: Seq<char>, run: Run, i: int)
    requires
        0 <= i <= s.len(),
        forall|k: int| 0 <= k < i ==> run_accepts(run, #[trigger] s[k]),
        i == s.len() || !run_accepts(run, s[i]),
    ensures
        run_len(s, run) == i,
    decreases i,
{
    if i > 0 {
        let t = s.drop_first();
        assert forall|k: int| 0 <= k < i - 1 implies run_accepts(run, #[trigger] t[k]) by {
            assert(t[k] == s[k + 1]);
        }
        if i - 1 < t.len() {
            assert(t[i - 1] == s[i]);
        }
        lemma_run_len(t, run, i - 1);
        assert(run_accepts(run, s[0]));
    }
}

pub proof fn lemma_trailing_ws_len(s: Seq<char>, j: int)
    requires
        0 <= j <= s.len(),
        forall|k: int| j <= k < s.len() ==> is_whitespace(#[trigger] s[k]),
        j == 0 || !is_whitespace(s[j - 1]),
    ensures
        trailing_ws_len(s) == s.len() - j,
    decreases s.len() - j,
{
    if j < s.len() {
        let t = s.drop_last();
        assert forall|k: int| j <= k < t.len() implies is_whitespace(#[trigger] t[k]) by {
            assert(t[k] == s[k]);
        }
        if j > 0 {
            assert(t[j - 1] == s[j - 1]);
        }
        assert(is_whitespace(s.last())) by {
            assert(s.last() == s[s.len() - 1]);
        }
        lemma_trailing_ws_len(t, j);
    }
}

/// Whether `c` is accepted by `run`.
fn accepts(run: &Run, c: char) -> (res: bool)
    ensures
        res == run_accepts(*run, c),
{
    match run {
        Run::Whitespace => char_is_whitespace(c),
        Run::Word => !char_is_whitespace(c),
        Run::Until(stop) => c != *stop,
    }
}

/// The end of the run of `run` characters that starts at `lo` in `v[lo..hi]`.
pub fn scan_run(v: &Vec<char>, lo: usize, hi: usize, run: Run) -> (end: usize)
    requires
        lo <= hi <= v@.len(),
    ensures
        lo <= end <= hi,
        end - lo == run_len(v@.subrange(lo as int, hi as int), run),
{
    let ghost s = v@.subrange(lo as int, hi as int);
    let mut i = lo;
    while i < hi && accepts(&run, v[i])
        invariant
            lo <= i <= hi <= v@.len(),
            s == v@.subrange(lo as int, hi as int),
            forall|k: int| 0 <= k < i - lo ==> run_accepts(run, #[trigger] s[k]),
        decreases hi - i,
    {
        i = i + 1;
    }
    proof {
        if i < hi {
            assert(s[i - lo] == v@[i as int]);
        }
        lemma_run_len(s, run, i - lo);
    }
    i
}

/// The start of the whitespace that ends `v[lo..hi]`.
pub fn scan_trailing_ws(v: &Vec<char>, lo: usize, hi: usize) -> (start: usize)
    requires
        lo <= hi <= v@.len(),
    ensures
        lo <= start <= hi,
        hi - start == trailing_ws_len(v@.subrange(lo as int, hi as int)),
{
    let ghost s = v@.subrange(lo as int, hi as int);
    let mut j = hi;
    while j > lo && char_is_whitespace(v[j - 1])
        invariant
            lo <= j <= hi <= v@.len(),
            s == v@.subrange(lo as int, hi as int),
            forall|k: int| j - lo <= k < s.len() ==> is_whitespace(#[trigger] s[k]),
        decreases j - lo,
    {
        j = j - 1;
    }
    proof {
        if j > lo {
            assert(s[j - lo - 1] == v@[j - 1]);
        }
        lemma_trailing_ws_len(s, j - lo);
    }
    j
}

/// The bounds of `trim(v[lo..hi])` within `v`.
pub fn trim_bounds(v: &Vec<char>, lo: usize, hi: usize) -> (bounds: (usize, usize))
    requires
        lo <= hi <= v@.len(),
    ensures
        lo <= bounds.0 <= bounds.1 <= hi,
        v@.subrange(bounds.0 as int, bounds.1 as int) == trim(v@.subrange(lo as int, hi as int)),
{
    let start = scan_run(v, lo, hi, Run::Whitespace);
    let end = scan_trailing_ws(v, start, hi);
    proof {
        let s = v@.subrange(lo as int, hi as int);
        assert(trim_start(s) =~= v@.subrange(start as int, hi as int));
        assert(v@.subrange(start as int, end as int) =~= trim_start(s).subrange(
            0,
            trim_start(s).len() - trailing_ws_len(trim_start(s)),
        ));
    }
    (start, end)
}

proof fn lemma_digits_value_grows(s: Seq<char>, k: int)
    requires
        0 <= k <= s.len(),
        all_digits(s),
    ensures
        digits_value(s.take(k)) <= digits_value(s),
    decreases s.len() - k,
{
    if k < s.len() {
        let t = s.drop_last();
        assert forall|i: int| 0 <= i < t.len() implies is_digit(#[trigger] t[i]) by {
            assert(t[i] == s[i]);
        }
        lemma_digits_value_grows(t, k);
        assert(t.take(k) =~= s.take(k));
        assert(digits_value(t) <= digits_value(t) * 10) by (nonlinear_arith);
    } else {
        assert(s.take(k) =~= s);
    }
}

/// Whether `c` is an ASCII decimal digit.
fn char_is_digit(c: char) -> (res: bool)
    ensures
        res == is_digit(c),
{
    let v = c as u32;
    0x30 <= v && v <= 0x39
}

/// Parses `v[lo..hi]` as `u64::from_str` does, with `None` for every error.
pub fn parse_u64_in(v: &Vec<char>, lo: usize, hi: usize) -> (res: Option<u64>)
    requires
        lo <= hi <= v@.len(),
    ensures
        res == parse_u64(v@.subrange(lo as int, hi as int)),
{
    let ghost s = v@.subrange(lo as int, hi as int);
    let start = if lo < hi && v[lo] == '+' {
        lo + 1
    } else {
        lo
    };
    let ghost d = v@.subrange(start as int, hi as int);
    assert(d =~= unsigned_digits(s));
    if start == hi {
        return None;
    }
    let mut acc: u64 = 0;
    let mut i = start;
    while i < hi
        invariant
            lo <= start < hi <= v@.len(),
            start <= i <= hi,
            d == v@.subrange(start as int, hi as int),
            d == unsigned_digits(s),
            s == v@.subrange(lo as int, hi as int),
            all_digits(d.take(i - start)),
            acc == digits_value(d.take(i - start)),
        decreases hi - i,
    {
        let c = v[i];
        assert(d[i - start] == c);
        if !char_is_digit(c) {
            assert(!all_digits(d));
            return None;
        }
        let ghost next = d.take(i - start + 1);
        assert(next.drop_last() =~= d.take(i - start));
        assert(next.last() == c);
        let digit = (c as u32 - 0x30) as u64;
        assert(digit == digit_value(c));
        assert forall|k: int| 0 <= k < next.len() implies is_digit(#[trigger] next[k]) by {
            if k < next.len() - 1 {
                assert(next[k] == d.take(i - start)[k]);
            }
        }
        if acc > (u64::MAX - digit) / 10 {
            proof {
                assert(acc * 10 + digit > u64::MAX) by (nonlinear_arith)
                    requires
                        acc > (u64::MAX - digit) / 10,
                        digit <= 9,
                ;
                if all_digits(d) {
                    lemma_digits_value_grows(d, i - start + 1);
                }
            }
            return None;
        }
        assert(acc * 10 + digit <= u64::MAX) by (nonlinear_arith)
            requires
                acc <= (u64::MAX - digit) / 10,
                digit <= 9,
        ;
        acc = acc * 10 + digit;
        i = i + 1;
    }
    assert(d.take(hi - start) =~= d);
    Some(acc)
}

/// Parses `v[lo..hi]` as `u32::from_str` does, with `None` for every error.
pub fn parse_u32_in(v: &Vec<char>, lo: usize, hi: usize) -> (res: Option<u32>)
    requires
        lo <= hi <= v@.len(),
    ensures
        res == parse_u32(v@.subrange(lo as int, hi as int)),
{
    match parse_u64_in(v, lo, hi) {
        Some(value) => if value <= u32::MAX as u64 {
            Some(value as u32)
        } else {
            None
        },
        None => {
            proof {
                let s = v@.subrange(lo as int, hi as int);
                if let Some(n) = unsigned_value(s) {
                    assert(n > u64::MAX);
                }
            }
            None
        },
    }
}

/// Parses the first whitespace-separated word of `text` as a `u64`, as
/// `text.split_whitespace().next()` followed by `u64::from_str` does.
pub fn parse_first_u64(text: &str) -> (res: Option<u64>)
    ensures
        res == (match first_word(text@) {
            Some(word) => parse_u64(word),
            None => None,
        }),
{
    let v = chars_of(text);
    let start = scan_run(&v, 0, v.len(), Run::Whitespace);
    assert(v@.subrange(0, v@.len() as int) =~= text@);
    assert(trim_start(text@) =~= v@.subrange(start as int, v@.len() as int));
    if start == v.len() {
        return None;
    }
    let end = scan_run(&v, start, v.len(), Run::Word);
    assert(v@.subrange(start as int, end as int) =~= trim_start(text@).subrange(
        0,
        run_len(trim_start(text@), Run::Word) as int,
    ));
    parse_u64_in(&v, start, end)
}

/// Whether `v` begins with the characters of `prefix`.
pub fn has_prefix(v: &Vec<char>, prefix: &Vec<char>) -> (res: bool)
    ensures
        res == (prefix@.len() <= v@.len() && v@.subrange(0, prefix@.len() as int) == prefix@),
{
    if prefix.len() > v.len() {
        return false;
    }
    let mut i: usize = 0;
    while i < prefix.len()
        invariant
            prefix@.len() <= v@.len(),
            i <= prefix@.len(),
            forall|k: int| 0 <= k < i ==> v@[k] == prefix@[k],
        decreases prefix@.len() - i,
    {
        if v[i] != prefix[i] {
            assert(v@.subrange(0, prefix@.len() as int)[i as int] != prefix@[i as int]);
            return false;
        }
        i = i + 1;
    }
    assert(v@.subrange(0, prefix@.len() as int) =~= prefix@);
    true
}

proof fn lemma_run_len_facts(s: Seq<char>, run: Run)
    ensures
        run_len(s, run) <= s.len(),
        forall|k: int| 0 <= k < run_len(s, run) ==> run_accepts(run, #[trigger] s[k]),
        run_len(s, run) < s.len() ==> !run_accepts(run, s[run_len(s, run) as int]),
    decreases s.len(),
{
    if s.len() > 0 && run_accepts(run, s[0]) {
        let t = s.drop_first();
        lemma_run_len_facts(t, run);
        assert forall|k: int| 0 <= k < run_len(s, run) implies run_accepts(run, #[trigger] s[k]) by {
            if k > 0 {
                assert(s[k] == t[k - 1]);
            }
        }
        if run_len(s, run) < s.len() {
            assert(s[run_len(s, run) as int] == t[run_len(t, run) as int]);
        }
    }
}

proof fn lemma_trailing_ws_facts(s: Seq<char>)
    ensures
        trailing_ws_len(s) <= s.len(),
        forall|k: int| s.len() - trailing_ws_len(s) <= k < s.len() ==> is_whitespace(#[trigger] s[k]),
        trailing_ws_len(s) < s.len() ==> !is_whitespace(s[s.len() - trailing_ws_len(s) - 1]),
    decreases s.len(),
{
    if s.len() > 0 && is_whitespace(s.last()) {
        let t = s.drop_last();
        lemma_trailing_ws_facts(t);
        assert forall|k: int| s.len() - trailing_ws_len(s) <= k < s.len() implies is_whitespace(
            #[trigger] s[k],
        ) by {
            if k < s.len() - 1 {
                assert(s[k] == t[k]);
            }
        }
        if trailing_ws_len(s) < s.len() {
            assert(s[s.len() - trailing_ws_len(s) - 1] == t[t.len() - trailing_ws_len(t) - 1]);
        }
    }
}

/// `trim` removes whitespace at both ends and nothing else: the result is a contiguous piece
/// of the text, everything before and after it is whitespace, and it neither starts nor ends
/// with whitespace.
pub proof fn law_trim_removes_only_outer_whitespace(s: Seq<char>)
    ensures
        exists|start: int|
            #![trigger s.subrange(start, start + trim(s).len())]
            0 <= start && start + trim(s).len() <= s.len() && s.subrange(
                start,
                start + trim(s).len(),
            ) == trim(s) && (forall|k: int| 0 <= k < start ==> is_whitespace(#[trigger] s[k]))
                && (forall|k: int|
                start + trim(s).len() <= k < s.len() ==> is_whitespace(#[trigger] s[k])),
        trim(s).len() > 0 ==> !is_whitespace(trim(s)[0]) && !is_whitespace(trim(s).last()),
{
    lemma_run_len_facts(s, Run::Whitespace);
    let a = run_len(s, Run::Whitespace) as int;
    let t = trim_start(s);
    lemma_trailing_ws_facts(t);
    let len = t.len() - trailing_ws_len(t);
    assert(trim(s) =~= s.subrange(a, a + len));
    assert(s.subrange(a, a + trim(s).len()) == trim(s));
    assert forall|k: int| a + len <= k < s.len() implies is_whitespace(#[trigger] s[k]) by {
        assert(s[k] == t[k - a]);
    }
    if len > 0 {
        assert(trim(s)[0] == s[a]);
        assert(trim(s).last() == t[len - 1]);
    }
}

/// The decimal text of `n`, without leading zeros.
pub open spec fn decimal_text(n: nat) -> Seq<char>
    decreases n,
{
    if n < 10 {
        seq![((0x30 + n) as u32) as char]
    } else {
        decimal_text(n / 10).push(((0x30 + n % 10) as u32) as char)
    }
}

proof fn lemma_decimal_text_value(n: nat)
    ensures
        all_digits(decimal_text(n)),
        decimal_text(n).len() > 0,
        decimal_text(n)[0] != '+',
        digits_value(decimal_text(n)) == n,
    decreases n,
{
    let last = ((0x30 + n % 10) as u32) as char;
    assert(last as u32 == 0x30 + n % 10);
    if n < 10 {
        let t = decimal_text(n);
        assert(t.drop_last() =~= Seq::<char>::empty());
        assert(t.last() == last);
        assert(digits_value(Seq::<char>::empty()) == 0);
        assert(digit_value(last) == n % 10);
        assert(digits_value(t) == digits_value(t.drop_last()) * 10 + digit_value(t.last()));
    } else {
        lemma_decimal_text_value(n / 10);
        let t = decimal_text(n);
        let h = decimal_text(n / 10);
        assert(t.drop_last() =~= h);
        assert(t.last() == last);
        assert(digit_value(last) == n % 10);
        assert(digits_value(t) == digits_value(t.drop_last()) * 10 + digit_value(t.last()));
        assert(n == (n / 10) * 10 + n % 10);
        assert forall|i: int| 0 <= i < t.len() implies is_digit(#[trigger] t[i]) by {
            if i < h.len() {
                assert(t[i] == h[i]);
            }
        }
        assert(t[0] == h[0]);
    }
}

/// Every number reads back from its decimal text, with or without a leading `+`, as far
/// as the type holds it; one past the maximum does not fit.
pub proof fn law_decimal_text_parses_back(n: nat)
    ensures
        n <= u64::MAX ==> parse_u64(decimal_text(n)) == Some(n as u64),
        n <= u64::MAX ==> parse_u64(seq!['+'] + decimal_text(n)) == Some(n as u64),
        n <= u32::MAX ==> parse_u32(decimal_text(n)) == Some(n as u32),
        n > u32::MAX ==> parse_u32(decimal_text(n)) is None,
        n > u64::MAX ==> parse_u64(decimal_text(n)) is None,
{
    lemma_decimal_text_value(n);
    let plus = seq!['+'] + decimal_text(n);
    assert(plus.drop_first() =~= decimal_text(n));
}

} // verus!
