//! Parser for the downloader's line-oriented progress output.
use vstd::prelude::*;

use crate::text::{
    chars_of, digit_end, digit_end_at, find_char, find_char_at, is_digit, lemma_digit_end_bounds,
    skip_ws, skip_ws_at, slice_string, span_is, token_end, token_end_at, trimmed_len,
    trimmed_len_of,
};

verus! {

/// Longest run of digits (integer and fraction together) that a numeral may hold.
pub const MAX_NUMERAL_DIGITS: usize = 17;

pub open spec fn pow10(k: nat) -> nat
    decreases k,
{
    if k == 0 {
        1
    } else {
        10 * pow10((k - 1) as nat)
    }
}

pub open spec fn digit_val(c: char) -> nat {
    ((c as u32) - ('0' as u32)) as nat
}

/// The number that a run of decimal digits spells.
pub open spec fn digits_value(d: Seq<char>) -> nat
    decreases d.len(),
{
    if d.len() == 0 {
        0
    } else {
        digits_value(d.drop_last()) * 10 + digit_val(d.last())
    }
}

/// The numeral `digits[.digits]` starting at `i`, as `(mantissa, scale, end)`:
/// its value is `mantissa / 10^scale` and it ends before index `end`.
/// Numerals of more than `MAX_NUMERAL_DIGITS` digits are not read.
pub open spec fn numeral_at(s: Seq<char>, i: int) -> Option<(nat, nat, int)> {
    let a = digit_end(s, i);
    if a == i {
        None
    } else {
        let has_frac = a < s.len() && s[a] == '.' && digit_end(s, a + 1) > a + 1;
        let b = if has_frac {
            digit_end(s, a + 1)
        } else {
            a
        };
        let digits = if has_frac {
            s.subrange(i, a) + s.subrange(a + 1, b)
        } else {
            s.subrange(i, a)
        };
        let scale: nat = if has_frac {
            (b - a - 1) as nat
        } else {
            0
        };
        if digits.len() > MAX_NUMERAL_DIGITS {
            None
        } else {
            Some((digits_value(digits), scale, b))
        }
    }
}

/// Where the numeral starting at `i` ends (its fraction included when a
/// digit follows the point).
pub open spec fn numeral_end(s: Seq<char>, i: int) -> int {
    let a = digit_end(s, i);
    if a < s.len() && s[a] == '.' && digit_end(s, a + 1) > a + 1 {
        digit_end(s, a + 1)
    } else {
        a
    }
}

/// Bytes per unit of the size suffix `[KMGT]B` or `[KMGT]iB` at `e`;
/// decimal units count as binary ones.
pub open spec fn unit_multiplier_at(s: Seq<char>, e: int) -> Option<nat> {
    let m: Option<nat> = if 0 <= e < s.len() {
        if s[e] == 'K' {
            Some(1024)
        } else if s[e] == 'M' {
            Some(1048576)
        } else if s[e] == 'G' {
            Some(1073741824)
        } else if s[e] == 'T' {
            Some(1099511627776)
        } else {
            None
        }
    } else {
        None
    };
    if m is Some && ((e + 1 < s.len() && s[e + 1] == 'B') || (e + 2 < s.len() && s[e + 1]
        == 'i' && s[e + 2] == 'B')) {
        m
    } else {
        None
    }
}

/// A size (a numeral directly followed by a unit) starts at `i`.
pub open spec fn size_at(s: Seq<char>, i: int) -> bool {
    digit_end(s, i) > i && unit_multiplier_at(s, numeral_end(s, i)) is Some
}

/// The first position at or after `i` where a size starts, or the end.
pub open spec fn first_size(s: Seq<char>, i: int) -> int
    decreases s.len() - i,
{
    if i < 0 || i >= s.len() {
        s.len() as int
    } else if size_at(s, i) {
        i
    } else {
        first_size(s, i + 1)
    }
}

pub open spec fn clamp_u64(x: nat) -> u64 {
    if x > u64::MAX {
        u64::MAX
    } else {
        x as u64
    }
}

/// The first human-readable size such as `10.00MiB` in `t`, in whole bytes
/// (rounded down); text around it does not matter.
pub open spec fn size_value(t: Seq<char>) -> Option<u64> {
    let p = first_size(t, 0);
    if p < t.len() {
        match numeral_at(t, p) {
            Some((m, k, e)) => match unit_multiplier_at(t, e) {
                Some(u) => Some(clamp_u64(m * u / pow10(k))),
                None => None,
            },
            None => None,
        }
    } else {
        None
    }
}

/// What one line of downloader output means.
pub enum LineEvent {
    Progress {
        hundredths: u64,
        downloaded: Option<u64>,
        total: Option<u64>,
        speed: Option<Seq<char>>,
        eta: Option<Seq<char>>,
    },
    Filename(Seq<char>),
    MergedFilename(Seq<char>),
    Ignore,
}

/// The next whitespace-separated token at or after `i`, as `(start, end)`.
pub open spec fn tok(s: Seq<char>, i: int) -> (int, int) {
    (skip_ws(s, i), token_end(s, skip_ws(s, i)))
}

pub open spec fn tok_text(s: Seq<char>, t: (int, int)) -> Seq<char> {
    s.subrange(t.0, t.1)
}

/// The size column with its estimate marker `~` removed.
pub open spec fn size_column(s: Seq<char>, t: (int, int)) -> Seq<char> {
    if s[t.0] == '~' {
        s.subrange(t.0 + 1, t.1)
    } else {
        s.subrange(t.0, t.1)
    }
}

/// `[download]  <pct>% of [~]<size> at <speed> ETA <eta>`
pub open spec fn progress_line(s: Seq<char>) -> Option<LineEvent> {
    let t0 = tok(s, 0);
    let t1 = tok(s, t0.1);
    let t2 = tok(s, t1.1);
    let t3 = tok(s, t2.1);
    let t4 = tok(s, t3.1);
    let t5 = tok(s, t4.1);
    let t6 = tok(s, t5.1);
    let t7 = tok(s, t6.1);
    if tok_text(s, t0) == "[download]"@ && tok_text(s, t2) == "of"@ && t3.0 < t3.1
        && tok_text(s, t4) == "at"@ && t5.0 < t5.1 && tok_text(s, t6) == "ETA"@ && t7.0 < t7.1 {
        match numeral_at(s, t1.0) {
            Some((m, k, e)) => if e + 1 == t1.1 && s[e] == '%' {
                let total = size_value(size_column(s, t3));
                Some(
                    LineEvent::Progress {
                        hundredths: clamp_u64(m * 100 / pow10(k)),
                        downloaded: match total {
                            Some(t) => Some(clamp_u64((t as nat) * m / (100 * pow10(k)))),
                            None => None,
                        },
                        total,
                        speed: Some(tok_text(s, t5)),
                        eta: Some(tok_text(s, t7)),
                    },
                )
            } else {
                None
            },
            None => None,
        }
    } else {
        None
    }
}

/// `[download] 100[.0]% of [~]<size> in <duration>`
pub open spec fn completion_line(s: Seq<char>) -> Option<LineEvent> {
    let t0 = tok(s, 0);
    let t1 = tok(s, t0.1);
    let t2 = tok(s, t1.1);
    let t3 = tok(s, t2.1);
    let t4 = tok(s, t3.1);
    let t5 = tok(s, t4.1);
    if tok_text(s, t0) == "[download]"@ && (tok_text(s, t1) == "100%"@ || tok_text(s, t1)
        == "100.0%"@) && tok_text(s, t2) == "of"@ && t3.0 < t3.1 && tok_text(s, t4) == "in"@
        && t5.0 < t5.1 {
        let total = size_value(size_column(s, t3));
        Some(
            LineEvent::Progress {
                hundredths: 10000,
                downloaded: total,
                total,
                speed: None,
                eta: None,
            },
        )
    } else {
        None
    }
}

/// `[Merger] Merging formats into "<path>"`
pub open spec fn merger_line(s: Seq<char>) -> Option<LineEvent> {
    let t0 = tok(s, 0);
    let t1 = tok(s, t0.1);
    let t2 = tok(s, t1.1);
    let t3 = tok(s, t2.1);
    let p = skip_ws(s, t3.1);
    let q = find_char(s, '"', p + 1);
    if tok_text(s, t0) == "[Merger]"@ && tok_text(s, t1) == "Merging"@ && tok_text(s, t2)
        == "formats"@ && tok_text(s, t3) == "into"@ && p < s.len() && s[p] == '"' && p + 1 < q
        < s.len() {
        Some(LineEvent::MergedFilename(s.subrange(p + 1, q)))
    } else {
        None
    }
}

/// `[download] Destination: <path>`; the path runs to the end of the line,
/// trailing whitespace excluded.
pub open spec fn destination_line(s: Seq<char>) -> Option<LineEvent> {
    let t0 = tok(s, 0);
    let t1 = tok(s, t0.1);
    let p = skip_ws(s, t1.1);
    if tok_text(s, t0) == "[download]"@ && tok_text(s, t1) == "Destination:"@ && p
        < trimmed_len(s) {
        Some(LineEvent::Filename(s.subrange(p, trimmed_len(s))))
    } else {
        None
    }
}

/// The meaning of a line: the first of the four shapes that it has, in the
/// order progress, completion, merger, destination.
pub open spec fn line_event(s: Seq<char>) -> LineEvent {
    if progress_line(s) is Some {
        progress_line(s)->0
    } else if completion_line(s) is Some {
        completion_line(s)->0
    } else if merger_line(s) is Some {
        merger_line(s)->0
    } else if destination_line(s) is Some {
        destination_line(s)->0
    } else {
        LineEvent::Ignore
    }
}

#[derive(Debug, Clone, PartialEq, Eq)]
pub struct ProgressUpdate {
    /// Percent complete, in hundredths of a percent (`4500` is 45%).
    pub progress_hundredths: u64,
    pub downloaded_bytes: Option<u64>,
    pub total_bytes: Option<u64>,
    pub speed: Option<String>,
    pub eta: Option<String>,
}

pub open spec fn opt_str_view(o: Option<String>) -> Option<Seq<char>> {
    match o {
        Some(s) => Some(s@),
        None => None,
    }
}

impl View for ProgressUpdate {
    type V = LineEvent;

    open spec fn view(&self) -> LineEvent {
        LineEvent::Progress {
            hundredths: self.progress_hundredths,
            downloaded: self.downloaded_bytes,
            total: self.total_bytes,
            speed: opt_str_view(self.speed),
            eta: opt_str_view(self.eta),
        }
    }
}

#[derive(Debug, Clone, PartialEq, Eq)]
pub enum ParseResult {
    Progress(ProgressUpdate),
    Filename(String),
    /// The final file after the video and audio streams were merged.
    MergedFilename(String),
    Ignore,
}

impl View for ParseResult {
    type V = LineEvent;

    open spec fn view(&self) -> LineEvent {
        match self {
            ParseResult::Progress(u) => u@,
            ParseResult::Filename(f) => LineEvent::Filename(f@),
            ParseResult::MergedFilename(f) => LineEvent::MergedFilename(f@),
            ParseResult::Ignore => LineEvent::Ignore,
        }
    }
}

pub open spec fn opt_event(o: Option<ParseResult>) -> Option<LineEvent> {
    match o {
        Some(r) => Some(r@),
        None => None,
    }
}

proof fn lemma_pow10_positive(k: nat)
    ensures
        pow10(k) >= 1,
    decreases k,
{
    if k > 0 {
        lemma_pow10_positive((k - 1) as nat);
    }
}

proof fn lemma_pow10_mono(a: nat, b: nat)
    requires
        a <= b,
    ensures
        pow10(a) <= pow10(b),
    decreases b,
{
    if a < b {
        lemma_pow10_mono(a, (b - 1) as nat);
        lemma_pow10_positive((b - 1) as nat);
    }
}

proof fn lemma_pow10_17()
    ensures
        pow10(17) == 100000000000000000,
{
    reveal_with_fuel(pow10, 18);
}

proof fn lemma_digits_value_bound(d: Seq<char>)
    requires
        forall|k: int| 0 <= k < d.len() ==> is_digit(#[trigger] d[k]),
    ensures
        digits_value(d) < pow10(d.len()),
    decreases d.len(),
{
    if d.len() > 0 {
        let p = d.drop_last();
        assert forall|k: int| 0 <= k < p.len() implies is_digit(#[trigger] p[k]) by {
            assert(p[k] == d[k]);
        }
        lemma_digits_value_bound(p);
        let v = digits_value(p);
        let q = pow10(p.len());
        let c = digit_val(d.last());
        assert(is_digit(d[d.len() - 1]));
        assert(c <= 9);
        assert(v * 10 + c < 10 * q) by (nonlinear_arith)
            requires
                v < q,
                c <= 9,
        ;
    }
}

/// Appending one digit to a run of at most sixteen digits.
proof fn lemma_digits_push(d: Seq<char>, c: char)
    requires
        forall|k: int| 0 <= k < d.len() ==> is_digit(#[trigger] d[k]),
        is_digit(c),
        d.len() < MAX_NUMERAL_DIGITS,
    ensures
        digits_value(d.push(c)) == digits_value(d) * 10 + digit_val(c),
        digits_value(d.push(c)) < 100000000000000000,
{
    let e = d.push(c);
    assert(e.drop_last() =~= d);
    assert forall|k: int| 0 <= k < e.len() implies is_digit(#[trigger] e[k]) by {
        if k < d.len() {
            assert(e[k] == d[k]);
        }
    }
    lemma_digits_value_bound(e);
    lemma_pow10_mono(e.len(), 17);
    lemma_pow10_17();
}

fn pow10_exec(k: usize) -> (r: u128)
    requires
        k <= MAX_NUMERAL_DIGITS,
    ensures
        r == pow10(k as nat),
        r <= 100000000000000000,
{
    let mut p: u128 = 1;
    let mut j: usize = 0;
    while j < k
        invariant
            j <= k <= MAX_NUMERAL_DIGITS,
            p == pow10(j as nat),
        decreases k - j,
    {
        proof {
            lemma_pow10_mono((j + 1) as nat, 17);
            lemma_pow10_17();
        }
        p = p * 10;
        j = j + 1;
    }
    proof {
        lemma_pow10_mono(k as nat, 17);
        lemma_pow10_17();
    }
    p
}

/// Reads the numeral at `i`; see `numeral_at`.
fn numeral(s: &Vec<char>, i: usize) -> (r: Option<(u64, usize, usize)>)
    requires
        i <= s@.len(),
    ensures
        match r {
            Some((m, k, e)) => numeral_at(s@, i as int) == Some((m as nat, k as nat, e as int))
                && m < 100000000000000000 && k <= MAX_NUMERAL_DIGITS && i < e <= s@.len(),
            None => numeral_at(s@, i as int) is None,
        },
{
    let a = digit_end_at(s, i);
    proof {
        lemma_digit_end_bounds(s@, i as int);
    }
    if a == i {
        return None;
    }
    let mut has_frac = false;
    let mut b = a;
    if a < s.len() && s[a] == '.' {
        let b2 = digit_end_at(s, a + 1);
        if b2 > a + 1 {
            has_frac = true;
            b = b2;
        }
    }
    proof {
        if a < s@.len() {
            lemma_digit_end_bounds(s@, a + 1);
        }
    }
    let ndigits = if has_frac {
        (a - i) + (b - a - 1)
    } else {
        a - i
    };
    if ndigits > MAX_NUMERAL_DIGITS {
        return None;
    }
    let mut v: u64 = 0;
    let mut j = i;
    assert(s@.subrange(i as int, i as int) =~= Seq::<char>::empty());
    while j < a
        invariant
            i <= j <= a,
            a - i <= ndigits <= MAX_NUMERAL_DIGITS,
            a <= s@.len(),
            forall|k: int| i <= k < a ==> is_digit(#[trigger] s@[k]),
            v == digits_value(s@.subrange(i as int, j as int)),
        decreases a - j,
    {
        let ghost d = s@.subrange(i as int, j as int);
        assert forall|k: int| 0 <= k < d.len() implies is_digit(#[trigger] d[k]) by {
            assert(d[k] == s@[i + k]);
        }
        proof {
            lemma_digits_push(d, s@[j as int]);
        }
        assert(s@.subrange(i as int, j + 1) =~= d.push(s@[j as int]));
        v = v * 10 + (s[j] as u32 - '0' as u32) as u64;
        j = j + 1;
    }
    if has_frac {
        let ghost ip = s@.subrange(i as int, a as int);
        assert(ip + s@.subrange(a + 1, a + 1) =~= ip);
        let mut j = a + 1;
        while j < b
            invariant
                a + 1 <= j <= b <= s@.len(),
                i < a,
                ip == s@.subrange(i as int, a as int),
                ndigits == (a - i) + (b - a - 1),
                ndigits <= MAX_NUMERAL_DIGITS,
                forall|k: int| i <= k < a ==> is_digit(#[trigger] s@[k]),
                forall|k: int| a + 1 <= k < b ==> is_digit(#[trigger] s@[k]),
                v == digits_value(ip + s@.subrange(a + 1, j as int)),
            decreases b - j,
        {
            let ghost d = ip + s@.subrange(a + 1, j as int);
            assert forall|k: int| 0 <= k < d.len() implies is_digit(#[trigger] d[k]) by {
                if k < ip.len() {
                    assert(d[k] == s@[i + k]);
                } else {
                    assert(d[k] == s@[a + 1 + k - ip.len()]);
                }
            }
            proof {
                lemma_digits_push(d, s@[j as int]);
            }
            assert(ip + s@.subrange(a + 1, j + 1) =~= d.push(s@[j as int]));
            v = v * 10 + (s[j] as u32 - '0' as u32) as u64;
            j = j + 1;
        }
        proof {
            let d = ip + s@.subrange(a + 1, b as int);
            assert forall|k: int| 0 <= k < d.len() implies is_digit(#[trigger] d[k]) by {
                if k < ip.len() {
                    assert(d[k] == s@[i + k]);
                } else {
                    assert(d[k] == s@[a + 1 + k - ip.len()]);
                }
            }
            lemma_digits_value_bound(d);
            lemma_pow10_mono(d.len(), 17);
            lemma_pow10_17();
        }
        Some((v, b - a - 1, b))
    } else {
        proof {
            let d = s@.subrange(i as int, a as int);
            assert forall|k: int| 0 <= k < d.len() implies is_digit(#[trigger] d[k]) by {
                assert(d[k] == s@[i + k]);
            }
            lemma_digits_value_bound(d);
            lemma_pow10_mono(d.len(), 17);
            lemma_pow10_17();
        }
        Some((v, 0, a))
    }
}

fn clamp_exec(x: u128) -> (r: u64)
    ensures
        r == clamp_u64(x as nat),
{
    if x > u64::MAX as u128 {
        u64::MAX
    } else {
        x as u64
    }
}

fn numeral_end_at(s: &Vec<char>, i: usize) -> (r: usize)
    requires
        i <= s@.len(),
    ensures
        r == numeral_end(s@, i as int),
        i <= r <= s@.len(),
{
    let a = digit_end_at(s, i);
    if a < s.len() && s[a] == '.' {
        let b = digit_end_at(s, a + 1);
        if b > a + 1 {
            return b;
        }
    }
    a
}

fn unit_at(s: &Vec<char>, e: usize) -> (r: Option<u128>)
    ensures
        match r {
            Some(u) => unit_multiplier_at(s@, e as int) == Some(u as nat) && u <= 1099511627776,
            None => unit_multiplier_at(s@, e as int) is None,
        },
{
    let n = s.len();
    if e >= n {
        return None;
    }
    let c = s[e];
    let m: u128 = if c == 'K' {
        1024
    } else if c == 'M' {
        1048576
    } else if c == 'G' {
        1073741824
    } else if c == 'T' {
        1099511627776
    } else {
        return None;
    };
    if (e + 1 < n && s[e + 1] == 'B') || (n - e > 2 && s[e + 1] == 'i' && s[e + 2] == 'B') {
        Some(m)
    } else {
        None
    }
}

/// Reads the first human-readable size in the text, such as the `1.5MiB`
/// of `1.5MiB/s`, as a number of bytes, rounded down; `None` where the text
/// holds no size.
pub fn parse_size(size_str: &str) -> (r: Option<u64>)
    ensures
        r == size_value(size_str@),
{
    let s = chars_of(size_str);
    let n = s.len();
    let mut i: usize = 0;
    while i < n
        invariant
            s@ == size_str@,
            n == s@.len(),
            i <= n,
            first_size(s@, 0) == first_size(s@, i as int),
        decreases n - i,
    {
        let a = digit_end_at(&s, i);
        if a > i && unit_at(&s, numeral_end_at(&s, i)).is_some() {
            return match numeral(&s, i) {
                None => None,
                Some((m, k, e)) => match unit_at(&s, e) {
                    None => None,
                    Some(u) => {
                        let p = pow10_exec(k);
                        assert((m as u128) * u <= 100000000000000000u128 * 1099511627776u128)
                            by (nonlinear_arith)
                            requires
                                m < 100000000000000000,
                                u <= 1099511627776,
                        ;
                        proof {
                            lemma_pow10_positive(k as nat);
                        }
                        Some(clamp_exec((m as u128) * u / p))
                    },
                },
            };
        }
        i = i + 1;
    }
    None
}

fn next_tok(s: &Vec<char>, i: usize) -> (r: (usize, usize))
    requires
        i <= s@.len(),
    ensures
        r.0 == tok(s@, i as int).0,
        r.1 == tok(s@, i as int).1,
        i <= r.0 <= r.1 <= s@.len(),
{
    let p = skip_ws_at(s, i);
    let e = token_end_at(s, p);
    (p, e)
}

fn size_of_column(line: &str, s: &Vec<char>, t: (usize, usize)) -> (r: Option<u64>)
    requires
        s@ == line@,
        t.0 < t.1 <= s@.len(),
    ensures
        r == size_value(size_column(s@, (t.0 as int, t.1 as int))),
{
    let col = if s[t.0] == '~' {
        slice_string(line, t.0 + 1, t.1)
    } else {
        slice_string(line, t.0, t.1)
    };
    parse_size(col.as_str())
}

fn parse_progress(line: &str, s: &Vec<char>) -> (r: Option<ParseResult>)
    requires
        s@ == line@,
    ensures
        opt_event(r) == progress_line(s@),
{
    let t0 = next_tok(s, 0);
    let t1 = next_tok(s, t0.1);
    let t2 = next_tok(s, t1.1);
    let t3 = next_tok(s, t2.1);
    let t4 = next_tok(s, t3.1);
    let t5 = next_tok(s, t4.1);
    let t6 = next_tok(s, t5.1);
    let t7 = next_tok(s, t6.1);
    if !(span_is(s, t0.0, t0.1, "[download]") && span_is(s, t2.0, t2.1, "of") && t3.0 < t3.1
        && span_is(s, t4.0, t4.1, "at") && t5.0 < t5.1 && span_is(s, t6.0, t6.1, "ETA") && t7.0
        < t7.1) {
        return None;
    }
    match numeral(s, t1.0) {
        None => None,
        Some((m, k, e)) => {
            if !(e < t1.1 && e + 1 == t1.1 && s[e] == '%') {
                return None;
            }
            let total = size_of_column(line, s, t3);
            let p = pow10_exec(k);
            proof {
                lemma_pow10_positive(k as nat);
            }
            assert((m as u128) * 100 <= 100000000000000000u128 * 100) by (nonlinear_arith)
                requires
                    m < 100000000000000000,
            ;
            let hundredths = clamp_exec((m as u128) * 100 / p);
            let downloaded = match total {
                Some(t) => {
                    assert((t as u128) * (m as u128) <= 18446744073709551615u128
                        * 100000000000000000u128) by (nonlinear_arith)
                        requires
                            t <= 18446744073709551615u64,
                            m < 100000000000000000,
                    ;
                    assert(100 * p <= 100 * 100000000000000000u128);
                    Some(clamp_exec((t as u128) * (m as u128) / (100 * p)))
                },
                None => None,
            };
            let speed = slice_string(line, t5.0, t5.1);
            let eta = slice_string(line, t7.0, t7.1);
            Some(
                ParseResult::Progress(
                    ProgressUpdate {
                        progress_hundredths: hundredths,
                        downloaded_bytes: downloaded,
                        total_bytes: total,
                        speed: Some(speed),
                        eta: Some(eta),
                    },
                ),
            )
        },
    }
}

fn parse_completion(line: &str, s: &Vec<char>) -> (r: Option<ParseResult>)
    requires
        s@ == line@,
    ensures
        opt_event(r) == completion_line(s@),
{
    let t0 = next_tok(s, 0);
    let t1 = next_tok(s, t0.1);
    let t2 = next_tok(s, t1.1);
    let t3 = next_tok(s, t2.1);
    let t4 = next_tok(s, t3.1);
    let t5 = next_tok(s, t4.1);
    if span_is(s, t0.0, t0.1, "[download]") && (span_is(s, t1.0, t1.1, "100%") || span_is(
        s,
        t1.0,
        t1.1,
        "100.0%",
    )) && span_is(s, t2.0, t2.1, "of") && t3.0 < t3.1 && span_is(s, t4.0, t4.1, "in") && t5.0
        < t5.1 {
        let total = size_of_column(line, s, t3);
        Some(
            ParseResult::Progress(
                ProgressUpdate {
                    progress_hundredths: 10000,
                    downloaded_bytes: total,
                    total_bytes: total,
                    speed: None,
                    eta: None,
                },
            ),
        )
    } else {
        None
    }
}

fn parse_merger(line: &str, s: &Vec<char>) -> (r: Option<ParseResult>)
    requires
        s@ == line@,
    ensures
        opt_event(r) == merger_line(s@),
{
    let t0 = next_tok(s, 0);
    let t1 = next_tok(s, t0.1);
    let t2 = next_tok(s, t1.1);
    let t3 = next_tok(s, t2.1);
    let p = skip_ws_at(s, t3.1);
    if !(span_is(s, t0.0, t0.1, "[Merger]") && span_is(s, t1.0, t1.1, "Merging") && span_is(
        s,
        t2.0,
        t2.1,
        "formats",
    ) && span_is(s, t3.0, t3.1, "into") && p < s.len() && s[p] == '"') {
        return None;
    }
    let q = find_char_at(s, '"', p + 1);
    if p + 1 < q && q < s.len() {
        Some(ParseResult::MergedFilename(slice_string(line, p + 1, q)))
    } else {
        None
    }
}

fn parse_destination(line: &str, s: &Vec<char>) -> (r: Option<ParseResult>)
    requires
        s@ == line@,
    ensures
        opt_event(r) == destination_line(s@),
{
    let t0 = next_tok(s, 0);
    let t1 = next_tok(s, t0.1);
    let p = skip_ws_at(s, t1.1);
    let e = trimmed_len_of(s);
    if span_is(s, t0.0, t0.1, "[download]") && span_is(s, t1.0, t1.1, "Destination:") && p < e {
        Some(ParseResult::Filename(slice_string(line, p, e)))
    } else {
        None
    }
}

/// Parser of the downloader's output lines.
pub struct Parser {}

impl Parser {
    pub fn new() -> (r: Parser) {
        Parser {  }
    }

    /// Classifies one line of output; see `line_event`.
    pub fn parse_line(&self, line: &str) -> (r: ParseResult)
        ensures
            r@ == line_event(line@),
    {
        let s = chars_of(line);
        if let Some(r) = parse_progress(line, &s) {
            return r;
        }
        if let Some(r) = parse_completion(line, &s) {
            return r;
        }
        if let Some(r) = parse_merger(line, &s) {
            return r;
        }
        if let Some(r) = parse_destination(line, &s) {
            return r;
        }
        ParseResult::Ignore
    }
}

} // verus!
