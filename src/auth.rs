//! Reading account identities out of stored cookies.
use vstd::prelude::*;

use crate::text::{
    chars_of, find_char, find_char_at, lemma_find_char_bounds, slice_string, span_is, str_eq,
};

verus! {

/// Start of the `k`-th tab-separated field of `l` (past the end where `l`
/// has fewer fields).
pub open spec fn field_start(l: Seq<char>, k: nat) -> int
    decreases k,
{
    if k == 0 {
        0
    } else {
        find_char(l, '\t', field_start(l, (k - 1) as nat)) + 1
    }
}

pub open spec fn field(l: Seq<char>, k: nat) -> Seq<char> {
    l.subrange(field_start(l, k), find_char(l, '\t', field_start(l, k)))
}

/// The value of cookie `name` on one Netscape cookie-jar line
/// (`domain flag path secure expiration name value`, tab-separated).
pub open spec fn cookie_on_line(l: Seq<char>, name: Seq<char>) -> Option<Seq<char>> {
    if field_start(l, 6) <= l.len() && field(l, 5) == name {
        Some(field(l, 6))
    } else {
        None
    }
}

/// The first line of `s` (up to a newline; a `\r` before it is dropped).
pub open spec fn first_line_of(s: Seq<char>) -> Seq<char> {
    let e = find_char(s, '\n', 0);
    if e < s.len() && e > 0 && s[e - 1] == '\r' {
        s.subrange(0, e - 1)
    } else {
        s.subrange(0, e)
    }
}

/// The value of the first cookie called `name` in a Netscape cookie jar.
pub open spec fn netscape_cookie(s: Seq<char>, name: Seq<char>) -> Option<Seq<char>>
    decreases s.len(),
{
    if s.len() == 0 {
        None
    } else {
        let e = find_char(s, '\n', 0);
        match cookie_on_line(first_line_of(s), name) {
            Some(v) => Some(v),
            None => if 0 <= e < s.len() {
                netscape_cookie(s.subrange(e + 1, s.len() as int), name)
            } else {
                None
            },
        }
    }
}

/// The value of the first `(name, value)` pair called `name`.
pub open spec fn pair_cookie(pairs: Seq<(Seq<char>, Seq<char>)>, name: Seq<char>) -> Option<Seq<char>>
    decreases pairs.len(),
{
    if pairs.len() == 0 {
        None
    } else if pairs[0].0 == name {
        Some(pairs[0].1)
    } else {
        pair_cookie(pairs.subrange(1, pairs.len() as int), name)
    }
}

/// `s` with every `%3D` replaced by `=`, left to right.
pub open spec fn decode_eq(s: Seq<char>) -> Seq<char>
    decreases s.len(),
{
    if s.len() == 0 {
        s
    } else if s.len() >= 3 && s[0] == '%' && s[1] == '3' && s[2] == 'D' {
        "="@ + decode_eq(s.subrange(3, s.len() as int))
    } else {
        seq![s[0]] + decode_eq(s.subrange(1, s.len() as int))
    }
}

/// The account id in X's `twid` cookie (`u=<id>`, often written `u%3D<id>`).
pub open spec fn twid_account(t: Seq<char>) -> Seq<char> {
    let d = decode_eq(t);
    if d.len() >= 2 && d[0] == 'u' && d[1] == '=' {
        d.subrange(2, d.len() as int)
    } else {
        d
    }
}

pub open spec fn or_else(a: Option<Seq<char>>, b: Option<Seq<char>>) -> Option<Seq<char>> {
    if a is Some {
        a
    } else {
        b
    }
}

/// The account of `platform` by the cookies that `lookup` finds: Instagram's
/// `ds_user` or `ds_user_id`, TikTok's `unique_id`, `user_id` or `uid_tt`,
/// X's `twid`; none for other platforms.
pub open spec fn account_by_rules(
    platform: Seq<char>,
    lookup: spec_fn(Seq<char>) -> Option<Seq<char>>,
) -> Option<Seq<char>> {
    if platform == "instagram"@ {
        or_else(lookup("ds_user"@), lookup("ds_user_id"@))
    } else if platform == "tiktok"@ {
        or_else(lookup("unique_id"@), or_else(lookup("user_id"@), lookup("uid_tt"@)))
    } else if platform == "x"@ || platform == "twitter"@ {
        match lookup("twid"@) {
            Some(t) => Some(twid_account(t)),
            None => None,
        }
    } else {
        None
    }
}

pub open spec fn opt_view(o: Option<String>) -> Option<Seq<char>> {
    match o {
        Some(s) => Some(s@),
        None => None,
    }
}

pub open spec fn pairs_view(v: Seq<(String, String)>) -> Seq<(Seq<char>, Seq<char>)> {
    v.map_values(|p: (String, String)| (p.0@, p.1@))
}

proof fn lemma_find_char_shift(s: Seq<char>, c: char, p: int, i: int)
    requires
        0 <= p <= i <= s.len(),
    ensures
        find_char(s.subrange(p, s.len() as int), c, i - p) == find_char(s, c, i) - p,
    decreases s.len() - i,
{
    if i < s.len() {
        assert(s.subrange(p, s.len() as int)[i - p] == s[i]);
        if s[i] != c {
            lemma_find_char_shift(s, c, p, i + 1);
        }
    }
}

fn field_value(l: &Vec<char>, line: &str, k: usize) -> (r: Option<String>)
    requires
        l@ == line@,
    ensures
        match r {
            Some(v) => field_start(l@, k as nat) <= l@.len() && v@ == field(l@, k as nat),
            None => field_start(l@, k as nat) > l@.len(),
        },
{
    let mut pos: usize = 0;
    let mut j: usize = 0;
    while j < k
        invariant
            j <= k,
            pos as int == field_start(l@, j as nat),
            pos <= l@.len(),
        decreases k - j,
    {
        let e = find_char_at(l, '\t', pos);
        if e >= l.len() {
            proof {
                lemma_field_start_past_end(l@, (j + 1) as nat, k as nat);
            }
            return None;
        }
        pos = e + 1;
        j = j + 1;
    }
    let e = find_char_at(l, '\t', pos);
    Some(slice_string(line, pos, e))
}

proof fn lemma_field_start_past_end(l: Seq<char>, a: nat, b: nat)
    requires
        a <= b,
        field_start(l, a) > l.len(),
    ensures
        field_start(l, b) > l.len(),
    decreases b,
{
    if a < b {
        lemma_field_start_past_end(l, a, (b - 1) as nat);
        lemma_find_char_ge(l, '\t', field_start(l, (b - 1) as nat));
    }
}

proof fn lemma_find_char_ge(s: Seq<char>, c: char, i: int)
    ensures
        find_char(s, c, i) >= i,
    decreases s.len() - i,
{
    if 0 <= i < s.len() && s[i] != c {
        lemma_find_char_ge(s, c, i + 1);
    }
}

fn cookie_on_line_exec(line: &str, name: &str) -> (r: Option<String>)
    ensures
        opt_view(r) == cookie_on_line(line@, name@),
{
    let l = chars_of(line);
    match field_value(&l, line, 5) {
        None => {
            proof {
                lemma_find_char_ge(l@, '\t', field_start(l@, 5));
            }
            None
        },
        Some(f5) => {
            if !str_eq(f5.as_str(), name) {
                return None;
            }
            match field_value(&l, line, 6) {
                None => None,
                Some(f6) => Some(f6),
            }
        },
    }
}

/// Looks up a cookie by name in a Netscape cookie jar.
pub fn find_netscape_cookie(cookies: &str, name: &str) -> (r: Option<String>)
    ensures
        opt_view(r) == netscape_cookie(cookies@, name@),
{
    let s = chars_of(cookies);
    let n = s.len();
    let mut p: usize = 0;
    assert(cookies@.subrange(0, n as int) =~= cookies@);
    while p < n
        invariant
            s@ == cookies@,
            n == s@.len(),
            p <= n,
            netscape_cookie(cookies@, name@) == netscape_cookie(
                cookies@.subrange(p as int, n as int),
                name@,
            ),
        decreases n - p,
    {
        let ghost rest = cookies@.subrange(p as int, n as int);
        let e = find_char_at(&s, '\n', p);
        proof {
            lemma_find_char_shift(s@, '\n', p as int, p as int);
            lemma_find_char_bounds(s@, '\n', p as int);
        }
        let end = if e < n && e > p && s[e - 1] == '\r' {
            e - 1
        } else {
            e
        };
        assert(first_line_of(rest) =~= cookies@.subrange(p as int, end as int));
        let line = slice_string(cookies, p, end);
        let found = cookie_on_line_exec(line.as_str(), name);
        if found.is_some() {
            return found;
        }
        if e >= n {
            return None;
        }
        assert(rest.subrange(e - p + 1, rest.len() as int) =~= cookies@.subrange(e + 1, n as int));
        p = e + 1;
    }
    assert(cookies@.subrange(p as int, n as int).len() == 0);
    None
}

/// Looks up a cookie by name in a list of `(name, value)` pairs.
pub fn find_pair_cookie(pairs: &Vec<(String, String)>, name: &str) -> (r: Option<String>)
    ensures
        opt_view(r) == pair_cookie(pairs_view(pairs@), name@),
{
    let mut i: usize = 0;
    assert(pairs_view(pairs@).subrange(0, pairs@.len() as int) =~= pairs_view(pairs@));
    while i < pairs.len()
        invariant
            i <= pairs@.len(),
            pair_cookie(pairs_view(pairs@), name@) == pair_cookie(
                pairs_view(pairs@).subrange(i as int, pairs@.len() as int),
                name@,
            ),
        decreases pairs@.len() - i,
    {
        let ghost rest = pairs_view(pairs@).subrange(i as int, pairs@.len() as int);
        assert(rest[0] == (pairs@[i as int].0@, pairs@[i as int].1@));
        if str_eq(pairs[i].0.as_str(), name) {
            return Some(pairs[i].1.clone());
        }
        assert(rest.subrange(1, rest.len() as int) =~= pairs_view(pairs@).subrange(
            i + 1,
            pairs@.len() as int,
        ));
        i = i + 1;
    }
    None
}

/// `s` with every `%3D` replaced by `=`.
pub fn decode_eq_exec(s: &str) -> (r: String)
    ensures
        r@ == decode_eq(s@),
{
    let cs = chars_of(s);
    let n = cs.len();
    let mut out = String::new();
    let mut i: usize = 0;
    assert(s@.subrange(0, n as int) =~= s@);
    assert(out@ + decode_eq(s@) =~= decode_eq(s@));
    while i < n
        invariant
            cs@ == s@,
            n == s@.len(),
            i <= n,
            out@ + decode_eq(s@.subrange(i as int, n as int)) == decode_eq(s@),
        decreases n - i,
    {
        let ghost rest = s@.subrange(i as int, n as int);
        let ghost old_out = out@;
        if n - i >= 3 && cs[i] == '%' && cs[i + 1] == '3' && cs[i + 2] == 'D' {
            assert(rest[0] == '%' && rest[1] == '3' && rest[2] == 'D');
            assert(rest.subrange(3, rest.len() as int) =~= s@.subrange(i + 3, n as int));
            out = out.concat("=");
            i = i + 3;
            assert(out@ + decode_eq(s@.subrange(i as int, n as int)) =~= old_out + decode_eq(rest));
        } else {
            let one = slice_string(s, i, i + 1);
            assert(one@ =~= seq![rest[0]]);
            assert(rest.subrange(1, rest.len() as int) =~= s@.subrange(i + 1, n as int));
            out = out.concat(one.as_str());
            i = i + 1;
            assert(out@ + decode_eq(s@.subrange(i as int, n as int)) =~= old_out + decode_eq(rest));
        }
    }
    assert(s@.subrange(n as int, n as int) =~= Seq::<char>::empty());
    assert(out@ + Seq::<char>::empty() =~= out@);
    out
}

fn twid_account_exec(t: &str) -> (r: String)
    ensures
        r@ == twid_account(t@),
{
    let d = decode_eq_exec(t);
    let dc = chars_of(d.as_str());
    if dc.len() >= 2 && dc[0] == 'u' && dc[1] == '=' {
        slice_string(d.as_str(), 2, dc.len())
    } else {
        d
    }
}

/// Takes the account out of cookies in one of the two stored shapes.
pub struct UsernameExtractor {}

impl UsernameExtractor {
    /// The account that a Netscape cookie jar belongs to, where the
    /// platform's cookies name it.
    pub fn extract_from_netscape(cookies: &str, platform: &str) -> (r: Option<String>)
        ensures
            opt_view(r) == account_by_rules(
                platform@,
                |name: Seq<char>| netscape_cookie(cookies@, name),
            ),
    {
        if str_eq(platform, "instagram") {
            let a = find_netscape_cookie(cookies, "ds_user");
            if a.is_some() {
                return a;
            }
            find_netscape_cookie(cookies, "ds_user_id")
        } else if str_eq(platform, "tiktok") {
            let a = find_netscape_cookie(cookies, "unique_id");
            if a.is_some() {
                return a;
            }
            let b = find_netscape_cookie(cookies, "user_id");
            if b.is_some() {
                return b;
            }
            find_netscape_cookie(cookies, "uid_tt")
        } else if str_eq(platform, "x") || str_eq(platform, "twitter") {
            match find_netscape_cookie(cookies, "twid") {
                Some(t) => Some(twid_account_exec(t.as_str())),
                None => None,
            }
        } else {
            None
        }
    }

    /// The same rules over `(name, value)` pairs, as read from a JSON cookie
    /// export.
    pub fn extract_from_pairs(pairs: &Vec<(String, String)>, platform: &str) -> (r: Option<String>)
        ensures
            opt_view(r) == account_by_rules(
                platform@,
                |name: Seq<char>| pair_cookie(pairs_view(pairs@), name),
            ),
    {
        if str_eq(platform, "instagram") {
            let a = find_pair_cookie(pairs, "ds_user");
            if a.is_some() {
                return a;
            }
            find_pair_cookie(pairs, "ds_user_id")
        } else if str_eq(platform, "tiktok") {
            let a = find_pair_cookie(pairs, "unique_id");
            if a.is_some() {
                return a;
            }
            let b = find_pair_cookie(pairs, "user_id");
            if b.is_some() {
                return b;
            }
            find_pair_cookie(pairs, "uid_tt")
        } else if str_eq(platform, "x") || str_eq(platform, "twitter") {
            match find_pair_cookie(pairs, "twid") {
                Some(t) => Some(twid_account_exec(t.as_str())),
                None => None,
            }
        } else {
            None
        }
    }
}

/// The `name=value` item that one cookie-jar line contributes to a `Cookie`
/// header: none for comment lines and lines of fewer than seven fields.
pub open spec fn header_item(l: Seq<char>) -> Seq<Seq<char>> {
    if !(l.len() > 0 && l[0] == '#') && field_start(l, 6) <= l.len() {
        seq![field(l, 5) + "="@ + field(l, 6)]
    } else {
        Seq::empty()
    }
}

/// The header items of every line of a cookie jar, in order.
pub open spec fn header_items(s: Seq<char>) -> Seq<Seq<char>>
    decreases s.len(),
{
    if s.len() == 0 {
        Seq::empty()
    } else {
        let e = find_char(s, '\n', 0);
        header_item(first_line_of(s)) + if 0 <= e < s.len() {
            header_items(s.subrange(e + 1, s.len() as int))
        } else {
            Seq::empty()
        }
    }
}

/// `parts` joined with `sep` between each two.
pub open spec fn join_with(parts: Seq<Seq<char>>, sep: Seq<char>) -> Seq<char>
    decreases parts.len(),
{
    if parts.len() == 0 {
        Seq::empty()
    } else if parts.len() == 1 {
        parts[0]
    } else {
        join_with(parts.drop_last(), sep) + sep + parts.last()
    }
}

pub open spec fn strings_of(v: Seq<String>) -> Seq<Seq<char>> {
    v.map_values(|s: String| s@)
}

fn header_item_exec(line: &str, out: &mut Vec<String>)
    ensures
        strings_of(final(out)@) == strings_of(old(out)@) + header_item(line@),
{
    let l = chars_of(line);
    let comment = l.len() > 0 && l[0] == '#';
    if comment {
        assert(strings_of(old(out)@) + header_item(line@) =~= strings_of(old(out)@));
        return;
    }
    match field_value(&l, line, 6) {
        None => {
            assert(strings_of(old(out)@) + header_item(line@) =~= strings_of(old(out)@));
        },
        Some(value) => {
            proof {
                lemma_find_char_ge(l@, '\t', field_start(l@, 5));
            }
            let name = match field_value(&l, line, 5) {
                Some(n) => n,
                None => String::new(),
            };
            out.push(name.concat("=").concat(value.as_str()));
            assert(strings_of(out@) =~= strings_of(old(out)@) + header_item(line@));
        },
    }
}

/// `parts` joined with `sep`.
pub fn join_strings(parts: &Vec<String>, sep: &str) -> (r: String)
    ensures
        r@ == join_with(strings_of(parts@), sep@),
{
    let n = parts.len();
    if n == 0 {
        return String::new();
    }
    let mut out = parts[0].clone();
    let mut i: usize = 1;
    assert(strings_of(parts@).subrange(0, 1) =~= seq![parts@[0]@]);
    while i < n
        invariant
            1 <= i <= n,
            n == parts@.len(),
            out@ == join_with(strings_of(parts@).subrange(0, i as int), sep@),
        decreases n - i,
    {
        out = out.concat(sep).concat(parts[i].as_str());
        let ghost next = strings_of(parts@).subrange(0, i + 1);
        assert(next.drop_last() =~= strings_of(parts@).subrange(0, i as int));
        i = i + 1;
    }
    assert(strings_of(parts@).subrange(0, n as int) =~= strings_of(parts@));
    out
}

/// The key that precedes an account handle in X's pages.
pub open spec fn screen_name_key() -> Seq<char> {
    seq!['"', 's', 'c', 'r', 'e', 'e', 'n', '_', 'n', 'a', 'm', 'e', '"', ':', '"']
}

/// First index at or after `i` where `pat` starts in `s`, or `s.len()`.
pub open spec fn find_seq(s: Seq<char>, pat: Seq<char>, i: int) -> int
    decreases s.len() - i,
{
    if i < 0 || pat.len() == 0 || i + pat.len() > s.len() {
        s.len() as int
    } else if s.subrange(i, i + pat.len()) == pat {
        i
    } else {
        find_seq(s, pat, i + 1)
    }
}

/// Handles that X's pages name without them being the account's.
pub open spec fn is_page_word(h: Seq<char>) -> bool {
    h == "home"@ || h == "login"@ || h == "user"@
}

/// The first account handle in the page from index `i` on, `i` being just
/// past a key: the text up to the next quote, within the stretch that ends
/// at the next key.
pub open spec fn screen_name_from(s: Seq<char>, i: int) -> Option<Seq<char>>
    decreases s.len() - i,
{
    if i < 0 || i > s.len() {
        None
    } else {
        let part_end = find_seq(s, screen_name_key(), i);
        let q = find_char(s, '"', i);
        if q < part_end && i < q && !is_page_word(s.subrange(i, q)) {
            Some(s.subrange(i, q))
        } else if i <= part_end && part_end + 15 <= s.len() {
            screen_name_from(s, part_end + 15)
        } else {
            None
        }
    }
}

/// The account handle in one of X's pages.
pub open spec fn page_screen_name(s: Seq<char>) -> Option<Seq<char>> {
    let p = find_seq(s, screen_name_key(), 0);
    if 0 <= p < s.len() {
        screen_name_from(s, p + 15)
    } else {
        None
    }
}

fn find_seq_at(s: &Vec<char>, pat: &Vec<char>, i: usize) -> (r: usize)
    requires
        i <= s@.len(),
    ensures
        r == find_seq(s@, pat@, i as int),
        i <= r <= s@.len(),
        r < s@.len() ==> r + pat@.len() <= s@.len(),
{
    let n = s.len();
    let m = pat.len();
    if m == 0 {
        return n;
    }
    let mut j = i;
    while j <= n && m <= n - j
        invariant
            i <= j <= n,
            n == s@.len(),
            m == pat@.len(),
            m > 0,
            find_seq(s@, pat@, j as int) == find_seq(s@, pat@, i as int),
        decreases n - j,
    {
        let mut k: usize = 0;
        let mut same = true;
        while k < m
            invariant
                k <= m,
                j + m <= n,
                n == s@.len(),
                m == pat@.len(),
                same == (forall|t: int| 0 <= t < k ==> s@[j + t] == pat@[t]),
            decreases m - k,
        {
            if s[j + k] != pat[k] {
                same = false;
            }
            k = k + 1;
        }
        if same {
            assert(s@.subrange(j as int, j + m) =~= pat@);
            return j;
        }
        assert(s@.subrange(j as int, j + m) != pat@) by {
            let t = choose|t: int| 0 <= t < m && s@[j + t] != pat@[t];
            assert(s@.subrange(j as int, j + m)[t] == s@[j + t]);
        }
        if j == n {
            return n;
        }
        j = j + 1;
    }
    n
}

fn key_chars() -> (r: Vec<char>)
    ensures
        r@ == screen_name_key(),
{
    let r = vec!['"', 's', 'c', 'r', 'e', 'e', 'n', '_', 'n', 'a', 'm', 'e', '"', ':', '"'];
    assert(r@ =~= screen_name_key());
    r
}

/// Asks the platforms for account names with a session's cookies.
pub struct UsernameFetcher {}

impl UsernameFetcher {
    /// The account handle in one of X's pages: the first
    /// `"screen_name":"<handle>"` whose handle is not empty and not one of
    /// the page's own words.
    pub fn screen_name_in_page(text: &str) -> (r: Option<String>)
        ensures
            opt_view(r) == page_screen_name(text@),
    {
        let s = chars_of(text);
        let key = key_chars();
        let n = s.len();
        let p = find_seq_at(&s, &key, 0);
        if p >= n {
            return None;
        }
        let mut i = p + 15;
        while i <= n
            invariant
                s@ == text@,
                key@ == screen_name_key(),
                n == s@.len(),
                page_screen_name(text@) == screen_name_from(text@, i as int),
            decreases n + 1 - i,
        {
            let part_end = find_seq_at(&s, &key, i);
            let q = find_char_at(&s, '"', i);
            if q < part_end && i < q {
                let is_word = span_is(&s, i, q, "home") || span_is(&s, i, q, "login") || span_is(
                    &s,
                    i,
                    q,
                    "user",
                );
                if !is_word {
                    return Some(slice_string(text, i, q));
                }
            }
            if part_end >= n {
                return None;
            }
            i = part_end + 15;
        }
        None
    }

    /// The `Cookie` header value for a Netscape cookie jar: `name=value`
    /// items joined by `; `.
    pub fn cookie_header(cookies: &str) -> (r: String)
        ensures
            r@ == join_with(header_items(cookies@), "; "@),
    {
        let s = chars_of(cookies);
        let n = s.len();
        let mut items: Vec<String> = Vec::new();
        let mut p: usize = 0;
        assert(cookies@.subrange(0, n as int) =~= cookies@);
        assert(strings_of(items@) + header_items(cookies@) =~= header_items(cookies@));
        while p < n
            invariant
                s@ == cookies@,
                n == s@.len(),
                p <= n,
                strings_of(items@) + header_items(cookies@.subrange(p as int, n as int))
                    == header_items(cookies@),
            decreases n - p,
        {
            let ghost rest = cookies@.subrange(p as int, n as int);
            let ghost before = strings_of(items@);
            let e = find_char_at(&s, '\n', p);
            proof {
                lemma_find_char_shift(s@, '\n', p as int, p as int);
                lemma_find_char_bounds(s@, '\n', p as int);
            }
            let end = if e < n && e > p && s[e - 1] == '\r' {
                e - 1
            } else {
                e
            };
            assert(first_line_of(rest) =~= cookies@.subrange(p as int, end as int));
            let line = slice_string(cookies, p, end);
            header_item_exec(line.as_str(), &mut items);
            if e >= n {
                assert(strings_of(items@) =~= header_items(cookies@)) by {
                    assert(header_items(rest) =~= header_item(first_line_of(rest)));
                }
                return join_strings(&items, "; ");
            }
            assert(rest.subrange(e - p + 1, rest.len() as int) =~= cookies@.subrange(e + 1, n as int));
            p = e + 1;
            assert(strings_of(items@) + header_items(cookies@.subrange(p as int, n as int)) =~= before
                + header_items(rest));
        }
        assert(cookies@.subrange(p as int, n as int).len() == 0);
        assert(strings_of(items@) + Seq::<Seq<char>>::empty() =~= strings_of(items@));
        join_strings(&items, "; ")
    }
}

} // verus!
