//! Verified text scanning over raw request bytes: the URL id segment, the
//! body after the header separator, the bearer token of the Authorization
//! header, and integer parsing for path ids. Splitting is on ASCII
//! delimiters, as an HTTP request line uses.

use vstd::prelude::*;

verus! {

/// ASCII whitespace, the only kind a request line can carry.
pub open spec fn is_ascii_space(c: char) -> bool {
    c == ' ' || c == '\t' || c == '\n' || c == '\r' || c == '\u{b}' || c == '\u{c}'
}

/// Index of the first `/` at or after `from`, or the length when there is
/// none.
pub open spec fn find_slash(s: Seq<char>, from: int) -> int
    decreases s.len() - from,
    when 0 <= from <= s.len()
{
    if from >= s.len() {
        s.len() as int
    } else if s[from] == '/' {
        from
    } else {
        find_slash(s, from + 1)
    }
}

/// Index of the first whitespace character at or after `from`, or the length.
pub open spec fn find_space(s: Seq<char>, from: int) -> int
    decreases s.len() - from,
    when 0 <= from <= s.len()
{
    if from >= s.len() {
        s.len() as int
    } else if is_ascii_space(s[from]) {
        from
    } else {
        find_space(s, from + 1)
    }
}

/// Index of the first non-whitespace character at or after `from`, or the
/// length.
pub open spec fn find_non_space(s: Seq<char>, from: int) -> int
    decreases s.len() - from,
    when 0 <= from <= s.len()
{
    if from >= s.len() {
        s.len() as int
    } else if !is_ascii_space(s[from]) {
        from
    } else {
        find_non_space(s, from + 1)
    }
}

proof fn lemma_find_slash_bounds(s: Seq<char>, from: int)
    requires
        0 <= from <= s.len(),
    ensures
        from <= find_slash(s, from) <= s.len(),
    decreases s.len() - from,
{
    if from < s.len() && s[from] != '/' {
        lemma_find_slash_bounds(s, from + 1);
    }
}

proof fn lemma_find_space_bounds(s: Seq<char>, from: int)
    requires
        0 <= from <= s.len(),
    ensures
        from <= find_space(s, from) <= s.len(),
    decreases s.len() - from,
{
    if from < s.len() && !is_ascii_space(s[from]) {
        lemma_find_space_bounds(s, from + 1);
    }
}

proof fn lemma_find_non_space_bounds(s: Seq<char>, from: int)
    requires
        0 <= from <= s.len(),
    ensures
        from <= find_non_space(s, from) <= s.len(),
    decreases s.len() - from,
{
    if from < s.len() && is_ascii_space(s[from]) {
        lemma_find_non_space_bounds(s, from + 1);
    }
}

fn scan_slash(s: &str, from: usize) -> (r: usize)
    requires
        from <= s@.len(),
    ensures
        r == find_slash(s@, from as int),
        from <= r <= s@.len(),
{
    let n = s.unicode_len();
    let mut i = from;
    while i < n
        invariant
            from <= i <= n,
            n == s@.len(),
            find_slash(s@, from as int) == find_slash(s@, i as int),
        decreases n - i,
    {
        if s.get_char(i) == '/' {
            return i;
        }
        i += 1;
    }
    i
}

/// Is `c` ASCII whitespace?
pub fn ascii_space(c: char) -> (r: bool)
    ensures
        r == is_ascii_space(c),
{
    c == ' ' || c == '\t' || c == '\n' || c == '\r' || c == '\u{b}' || c == '\u{c}'
}

fn scan_space(s: &str, from: usize, until: usize) -> (r: usize)
    requires
        from <= until <= s@.len(),
    ensures
        r == if find_space(s@, from as int) < until {
            find_space(s@, from as int)
        } else {
            until as int
        },
{
    let mut i = from;
    while i < until
        invariant
            from <= i <= until <= s@.len(),
            find_space(s@, from as int) == find_space(s@, i as int),
        decreases until - i,
    {
        if ascii_space(s.get_char(i)) {
            return i;
        }
        i += 1;
    }
    proof {
        lemma_find_space_bounds(s@, i as int);
    }
    i
}

fn scan_non_space(s: &str, from: usize, until: usize) -> (r: usize)
    requires
        from <= until <= s@.len(),
    ensures
        r == if find_non_space(s@, from as int) < until {
            find_non_space(s@, from as int)
        } else {
            until as int
        },
{
    let mut i = from;
    while i < until
        invariant
            from <= i <= until <= s@.len(),
            find_non_space(s@, from as int) == find_non_space(s@, i as int),
        decreases until - i,
    {
        if !ascii_space(s.get_char(i)) {
            return i;
        }
        i += 1;
    }
    proof {
        lemma_find_non_space_bounds(s@, i as int);
    }
    i
}

/// The id carried by the request path, as text: the third `/`-separated
/// piece of the request — for `GET /users/17 HTTP/1.0` that piece is
/// `17 HTTP` — cut down to its first whitespace-separated word. Empty when
/// the request has no second `/` or the piece holds only whitespace.
pub open spec fn spec_get_id(s: Seq<char>) -> Seq<char> {
    let p1 = find_slash(s, 0);
    if p1 >= s.len() {
        Seq::<char>::empty()
    } else {
        let p2 = find_slash(s, p1 + 1);
        if p2 >= s.len() {
            Seq::<char>::empty()
        } else {
            let seg_end = find_slash(s, p2 + 1);
            let ts = find_non_space(s, p2 + 1);
            if ts >= seg_end {
                Seq::<char>::empty()
            } else {
                let te = find_space(s, ts);
                if te < seg_end {
                    s.subrange(ts, te)
                } else {
                    s.subrange(ts, seg_end)
                }
            }
        }
    }
}

/// Extract the id segment of a request URL: the text between the second and
/// third `/`, first word only. What `PUT /users/5 HTTP/1.0` calls `5`.
pub fn get_id(request: &str) -> (r: &str)
    ensures
        r@ == spec_get_id(request@),
{
    let n = request.unicode_len();
    let p1 = scan_slash(request, 0);
    if p1 >= n {
        return request.substring_char(0, 0);
    }
    let p2 = scan_slash(request, p1 + 1);
    if p2 >= n {
        return request.substring_char(0, 0);
    }
    proof {
        lemma_find_slash_bounds(request@, p2 as int + 1);
        lemma_find_non_space_bounds(request@, p2 as int + 1);
    }
    let seg_end = scan_slash(request, p2 + 1);
    let ts = scan_non_space(request, p2 + 1, seg_end);
    if ts >= seg_end {
        return request.substring_char(0, 0);
    }
    proof {
        lemma_find_space_bounds(request@, ts as int);
    }
    let te = scan_space(request, ts, seg_end);
    request.substring_char(ts, te)
}

/// Does the four-character header separator sit at `j`?
pub open spec fn crlf2_at(s: Seq<char>, j: int) -> bool {
    &&& j + 4 <= s.len()
    &&& s[j] == '\r'
    &&& s[j + 1] == '\n'
    &&& s[j + 2] == '\r'
    &&& s[j + 3] == '\n'
}

/// Start of the last piece when `s` is cut at every header separator,
/// scanning left to right from `j` with the current piece starting at
/// `part`: how `split` finds its final element.
pub open spec fn body_start_from(s: Seq<char>, part: int, j: int) -> int
    decreases s.len() - j,
    when 0 <= j <= s.len()
{
    if j + 4 > s.len() {
        part
    } else if crlf2_at(s, j) {
        body_start_from(s, j + 4, j + 4)
    } else {
        body_start_from(s, part, j + 1)
    }
}

/// The request body: everything after the last blank-line separator, or the
/// whole request when there is none.
pub open spec fn spec_body(s: Seq<char>) -> Seq<char> {
    s.subrange(body_start_from(s, 0, 0), s.len() as int)
}

proof fn lemma_body_start_bounds(s: Seq<char>, part: int, j: int)
    requires
        0 <= part <= j <= s.len(),
    ensures
        part <= body_start_from(s, part, j) <= s.len(),
    decreases s.len() - j,
{
    if j + 4 <= s.len() {
        if crlf2_at(s, j) {
            lemma_body_start_bounds(s, j + 4, j + 4);
        } else {
            lemma_body_start_bounds(s, part, j + 1);
        }
    }
}

/// The substring after the last blank-line separator: the request body the
/// route handlers parse. A request without the separator is handed back
/// whole.
pub fn body_of(request: &str) -> (r: &str)
    ensures
        r@ == spec_body(request@),
{
    let n = request.unicode_len();
    let mut part: usize = 0;
    let mut j: usize = 0;
    while j < n && n - j >= 4
        invariant
            0 <= part <= j <= n,
            n == request@.len(),
            body_start_from(request@, 0, 0) == body_start_from(request@, part as int, j as int),
        decreases n - j,
    {
        if request.get_char(j) == '\r' && request.get_char(j + 1) == '\n' && request.get_char(
            j + 2,
        ) == '\r' && request.get_char(j + 3) == '\n' {
            j = j + 4;
            part = j;
        } else {
            j = j + 1;
        }
    }
    request.substring_char(part, n)
}

/// Index of the first line break (`\r\n`) at or after `from`, or the length.
pub open spec fn find_crlf(s: Seq<char>, from: int) -> int
    decreases s.len() - from,
    when 0 <= from <= s.len()
{
    if from + 2 > s.len() {
        s.len() as int
    } else if s[from] == '\r' && s[from + 1] == '\n' {
        from
    } else {
        find_crlf(s, from + 1)
    }
}

/// The bearer token within one header line that begins with the
/// authorization prefix: the first word after the prefix, or nothing when
/// only whitespace follows.
pub open spec fn spec_line_token(line: Seq<char>) -> Option<Seq<char>> {
    let ts = find_non_space(line, "Authorization: Bearer "@.len() as int);
    if ts >= line.len() {
        None
    } else {
        Some(line.subrange(ts, find_space(line, ts)))
    }
}

/// The bearer token of the first header line that starts with
/// `Authorization: Bearer `, scanning lines split on `\r\n`; `line_start` is
/// where the line under scan began, `j` how far the scan has come.
pub open spec fn spec_bearer_from(s: Seq<char>, line_start: int, j: int) -> Option<Seq<char>>
    decreases s.len() - j,
    when 0 <= line_start <= j <= s.len()
{
    if j + 2 > s.len() {
        let line = s.subrange(line_start, s.len() as int);
        if crate::http::spec_starts_with(line, "Authorization: Bearer "@) {
            spec_line_token(line)
        } else {
            None
        }
    } else if s[j] == '\r' && s[j + 1] == '\n' {
        let line = s.subrange(line_start, j);
        if crate::http::spec_starts_with(line, "Authorization: Bearer "@) {
            spec_line_token(line)
        } else {
            spec_bearer_from(s, j + 2, j + 2)
        }
    } else {
        spec_bearer_from(s, line_start, j + 1)
    }
}

/// The token of the request's `Authorization: Bearer ` header, if any.
pub open spec fn spec_bearer_token(s: Seq<char>) -> Option<Seq<char>> {
    spec_bearer_from(s, 0, 0)
}

fn line_token(line: &str) -> (r: Option<&str>)
    requires
        crate::http::spec_starts_with(line@, "Authorization: Bearer "@),
    ensures
        match r {
            Some(t) => spec_line_token(line@) == Some(t@),
            None => spec_line_token(line@) is None,
        },
{
    let n = line.unicode_len();
    let plen = "Authorization: Bearer ".unicode_len();
    proof {
        lemma_find_non_space_bounds(line@, plen as int);
    }
    let ts = scan_non_space(line, plen, n);
    if ts >= n {
        return None;
    }
    proof {
        lemma_find_space_bounds(line@, ts as int);
    }
    let te = scan_space(line, ts, n);
    proof {
        if find_space(line@, ts as int) >= n {
            lemma_find_space_bounds(line@, ts as int);
            assert(find_space(line@, ts as int) == n);
        }
    }
    Some(line.substring_char(ts, te))
}

/// Pull the bearer token out of the raw request: the first word after
/// `Authorization: Bearer ` on the first header line that carries it.
/// `None` when no line does, or when nothing follows the prefix.
pub fn bearer_token_of(request: &str) -> (r: Option<&str>)
    ensures
        match r {
            Some(t) => spec_bearer_token(request@) == Some(t@),
            None => spec_bearer_token(request@) is None,
        },
{
    let n = request.unicode_len();
    let mut line_start: usize = 0;
    let mut j: usize = 0;
    while j < n && n - j >= 2
        invariant
            0 <= line_start <= j <= n,
            n == request@.len(),
            spec_bearer_from(request@, 0, 0) == spec_bearer_from(
                request@,
                line_start as int,
                j as int,
            ),
        decreases n - j,
    {
        if request.get_char(j) == '\r' && request.get_char(j + 1) == '\n' {
            let line = request.substring_char(line_start, j);
            if crate::http::str_starts_with(line, "Authorization: Bearer ") {
                return line_token(line);
            }
            j = j + 2;
            line_start = j;
        } else {
            j = j + 1;
        }
    }
    let line = request.substring_char(line_start, n);
    if crate::http::str_starts_with(line, "Authorization: Bearer ") {
        line_token(line)
    } else {
        None
    }
}

/// Length of `s` once trailing whitespace up to position `k` is dropped.
pub open spec fn trimmed_len(s: Seq<char>, k: int) -> int
    decreases k,
    when 0 <= k <= s.len()
{
    if k <= 0 {
        0
    } else if is_ascii_space(s[k - 1]) {
        trimmed_len(s, k - 1)
    } else {
        k
    }
}

/// `s` with its trailing whitespace removed.
pub open spec fn spec_trim_end(s: Seq<char>) -> Seq<char> {
    s.subrange(0, trimmed_len(s, s.len() as int))
}

proof fn lemma_trimmed_len_bounds(s: Seq<char>, k: int)
    requires
        0 <= k <= s.len(),
    ensures
        0 <= trimmed_len(s, k) <= k,
    decreases k,
{
    if k > 0 && is_ascii_space(s[k - 1]) {
        lemma_trimmed_len_bounds(s, k - 1);
    }
}

/// Drop trailing whitespace, as the stored password is cleaned before the
/// hash comparison.
pub fn trim_end_spaces(s: &str) -> (r: &str)
    ensures
        r@ == spec_trim_end(s@),
{
    let n = s.unicode_len();
    let mut k = n;
    while k > 0 && ascii_space(s.get_char(k - 1))
        invariant
            k <= n,
            n == s@.len(),
            trimmed_len(s@, n as int) == trimmed_len(s@, k as int),
        decreases k,
    {
        k = k - 1;
    }
    s.substring_char(0, k)
}

pub open spec fn is_digit_char(c: char) -> bool {
    48 <= c as int && c as int <= 57
}

pub open spec fn digit_val(c: char) -> int {
    c as int - 48
}

pub open spec fn all_digits(s: Seq<char>) -> bool {
    forall|i: int| 0 <= i < s.len() ==> is_digit_char(#[trigger] s[i])
}

/// The number a string of decimal digits denotes.
pub open spec fn digits_value(s: Seq<char>) -> int
    decreases s.len(),
{
    if s.len() == 0 {
        0
    } else {
        digits_value(s.drop_last()) * 10 + digit_val(s.last())
    }
}

/// What `str::parse::<i32>` accepts: an optional sign followed by at least
/// one decimal digit and nothing else, valued within `i32`'s range.
pub open spec fn spec_parse_i32(s: Seq<char>) -> Option<i32> {
    let signed = s.len() > 0 && (s[0] == '+' || s[0] == '-');
    let digits = if signed {
        s.drop_first()
    } else {
        s
    };
    if digits.len() == 0 || !all_digits(digits) {
        None
    } else {
        let v = if signed && s[0] == '-' {
            -digits_value(digits)
        } else {
            digits_value(digits)
        };
        if -2147483648 <= v <= 2147483647 {
            Some(v as i32)
        } else {
            None
        }
    }
}

proof fn lemma_digits_value_nonneg(s: Seq<char>)
    requires
        all_digits(s),
    ensures
        digits_value(s) >= 0,
    decreases s.len(),
{
    if s.len() > 0 {
        assert(all_digits(s.drop_last())) by {
            assert(forall|i: int|
                0 <= i < s.len() - 1 ==> is_digit_char(#[trigger] s.drop_last()[i]) == is_digit_char(
                    s[i],
                ));
        }
        lemma_digits_value_nonneg(s.drop_last());
    }
}

/// A longer digit string never denotes less: appending digits cannot shrink
/// the value.
proof fn lemma_digits_value_extend(s: Seq<char>, i: int, j: int)
    requires
        all_digits(s),
        0 <= i <= j <= s.len(),
    ensures
        digits_value(s.subrange(0, j)) >= digits_value(s.subrange(0, i)),
    decreases j - i,
{
    if i < j {
        lemma_digits_value_extend(s, i, j - 1);
        let p = s.subrange(0, j);
        assert(p.drop_last() =~= s.subrange(0, j - 1));
        assert(all_digits(p.drop_last()));
        lemma_digits_value_nonneg(p.drop_last());
        assert(is_digit_char(p.last()));
    }
}

/// Parse a decimal integer the way `str::parse::<i32>` does: optional sign,
/// digits only, rejected on overflow, on emptiness and on any other
/// character.
pub fn parse_i32(s: &str) -> (r: Option<i32>)
    ensures
        r == spec_parse_i32(s@),
{
    let n = s.unicode_len();
    if n == 0 {
        return None;
    }
    let c0 = s.get_char(0);
    let neg = c0 == '-';
    let start: usize = if c0 == '-' || c0 == '+' {
        1
    } else {
        0
    };
    if start >= n {
        return None;
    }
    let ghost digits = if start == 1 {
        s@.drop_first()
    } else {
        s@
    };
    proof {
        assert(digits.len() == n - start);
        assert(forall|k: int| 0 <= k < digits.len() ==> digits[k] == s@[k + start]);
    }
    let mut acc: u64 = 0;
    let mut i = start;
    while i < n
        invariant
            start <= i <= n,
            n == s@.len(),
            n >= 1,
            start == 0 || start == 1,
            (start == 1) == (s@[0] == '+' || s@[0] == '-'),
            neg == (s@[0] == '-'),
            start == 1 ==> digits == s@.drop_first(),
            start == 0 ==> digits == s@,
            digits.len() == n - start,
            forall|k: int| 0 <= k < digits.len() ==> digits[k] == s@[k + start],
            all_digits(digits.subrange(0, i - start)),
            acc == digits_value(digits.subrange(0, i - start)),
            acc <= 0x8000_0000,
        decreases n - i,
    {
        let c = s.get_char(i);
        let cu = c as u32;
        if cu < 48 || cu > 57 {
            proof {
                assert(!is_digit_char(digits[i - start]));
                assert(!all_digits(digits));
            }
            return None;
        }
        let d: u64 = (cu - 48) as u64;
        acc = acc * 10 + d;
        proof {
            assert(digits.subrange(0, i + 1 - start).drop_last() =~= digits.subrange(
                0,
                i - start,
            ));
        }
        i += 1;
        if acc > 0x8000_0000 {
            proof {
                let pre = digits.subrange(0, i - start);
                if all_digits(digits) {
                    lemma_digits_value_extend(digits, i - start, digits.len() as int);
                    assert(digits.subrange(0, digits.len() as int) =~= digits);
                    lemma_digits_value_nonneg(pre);
                    assert(digits_value(digits) >= acc);
                }
            }
            return None;
        }
    }
    proof {
        assert(digits.subrange(0, n - start) =~= digits);
    }
    if neg {
        if acc == 0x8000_0000 {
            Some(i32::MIN)
        } else {
            Some(-(acc as i32))
        }
    } else {
        if acc == 0x8000_0000 {
            None
        } else {
            Some(acc as i32)
        }
    }
}

} // verus!
