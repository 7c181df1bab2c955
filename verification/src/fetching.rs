//! The decisions taken while a page is fetched: where the response was redirected to, how
//! long the body is said to be, whether and where the body is downloaded, and whether the
//! download is defect.

use vstd::prelude::*;
use vstd::string::StringSliceAdditionalSpecFns;

verus! {

/// Why a content length could not be read as a number of bytes.
#[derive(Debug, Clone, Copy, PartialEq, Eq, Structural)]
pub enum ContentLengthError {
    /// The text is empty.
    Empty,
    /// The text holds something other than a decimal digit.
    InvalidDigit,
    /// The number is larger than `u64::MAX`.
    PosOverflow,
}

/// True iff `b` is the ASCII code of a decimal digit.
pub open spec fn is_digit(b: u8) -> bool {
    48 <= b <= 57
}

/// Reading the digits `d` from the left onto the number `acc`: the first byte that is not a
/// digit, or the first digit that takes the number beyond `u64::MAX`, is the error.
pub open spec fn scan_digits(d: Seq<u8>, acc: int) -> Result<u64, ContentLengthError>
    decreases d.len(),
{
    if d.len() == 0 {
        Ok(acc as u64)
    } else if !is_digit(d[0]) {
        Err(ContentLengthError::InvalidDigit)
    } else if acc * 10 + (d[0] - 48) > u64::MAX {
        Err(ContentLengthError::PosOverflow)
    } else {
        scan_digits(d.drop_first(), acc * 10 + (d[0] - 48))
    }
}

/// The number that the bytes `s` give as an unsigned decimal, as `u64::from_str` reads it:
/// an optional leading `+`, then decimal digits.
pub open spec fn parse_length(s: Seq<u8>) -> Result<u64, ContentLengthError> {
    if s.len() == 0 {
        Err(ContentLengthError::Empty)
    } else if s.len() == 1 && (s[0] == 43 || s[0] == 45) {
        Err(ContentLengthError::InvalidDigit)
    } else if s[0] == 43 {
        scan_digits(s.drop_first(), 0)
    } else {
        scan_digits(s, 0)
    }
}

/// The value of the decimal digits `d`, all of them digits.
pub open spec fn decimal_value(d: Seq<u8>) -> int
    decreases d.len(),
{
    if d.len() == 0 {
        0
    } else {
        decimal_value(d.drop_last()) * 10 + (d.last() - 48)
    }
}

/// Reads the content length `text` as a number of bytes.
pub fn parse_content_length(text: &str) -> (r: Result<u64, ContentLengthError>)
    ensures r == parse_length(text.spec_bytes()),
{
    let bytes = text.as_bytes();
    let n = bytes.len();
    assert(bytes@ == text.spec_bytes());
    if n == 0 {
        return Err(ContentLengthError::Empty);
    }
    if n == 1 && (bytes[0] == 43 || bytes[0] == 45) {
        return Err(ContentLengthError::InvalidDigit);
    }
    let start: usize = if bytes[0] == 43 { 1 } else { 0 };
    let ghost s = bytes@;
    proof {
        assert(s.subrange(start as int, n as int) =~= if start == 1 { s.drop_first() } else { s });
        assert(parse_length(text.spec_bytes()) == scan_digits(s.subrange(start as int, n as int), 0));
    }
    let mut acc: u64 = 0;
    let mut i: usize = start;
    while i < n
        invariant
            start <= i <= n,
            n == bytes@.len(),
            s == bytes@,
            s == text.spec_bytes(),
            parse_length(text.spec_bytes()) == scan_digits(s.subrange(start as int, n as int), 0),
            scan_digits(s.subrange(start as int, n as int), 0) == scan_digits(s.subrange(i as int, n as int), acc as int),
        decreases n - i,
    {
        let b = bytes[i];
        proof {
            let sub = s.subrange(i as int, n as int);
            assert(sub.drop_first() =~= s.subrange(i as int + 1, n as int));
            assert(sub.len() > 0 && sub[0] == b);
        }
        if b < 48 || b > 57 {
            return Err(ContentLengthError::InvalidDigit);
        }
        let digit: u64 = (b - 48) as u64;
        match acc.checked_mul(10) {
            Some(times_ten) => match times_ten.checked_add(digit) {
                Some(next) => {
                    acc = next;
                },
                None => {
                    return Err(ContentLengthError::PosOverflow);
                },
            },
            None => {
                return Err(ContentLengthError::PosOverflow);
            },
        }
        i = i + 1;
    }
    proof {
        assert(s.subrange(n as int, n as int).len() == 0);
    }
    Ok(acc)
}

/// The url a response came from, where it differs from the url that was asked for.
pub fn redirect_target(requested: &str, answered: &str) -> (r: Option<String>)
    ensures
        r matches Some(u) ==> u@ == answered@,
        r is Some <==> requested@ != answered@,
{
    let requested: String = requested.to_owned();
    let answered: String = answered.to_owned();
    if requested == answered {
        None
    } else {
        Some(answered)
    }
}

/// The ASCII letter `c` in lower case; any other character unchanged.
pub open spec fn ascii_lower(c: char) -> char {
    if 'A' <= c <= 'Z' { ((c as u32) + 32) as char } else { c }
}

/// The text the type of an html page holds.
pub open spec fn html_type() -> Seq<char> {
    seq!['t', 'e', 'x', 't', '/', 'h', 't', 'm', 'l']
}

/// True iff `s` holds `text/html` at `i`, ignoring the case of ASCII letters.
pub open spec fn html_type_at(s: Seq<char>, i: int) -> bool {
    &&& 0 <= i
    &&& i + 9 <= s.len()
    &&& forall|k: int| 0 <= k < 9 ==> #[trigger] ascii_lower(s[i + k]) == html_type()[k]
}

/// True iff the content type `s` names html, ignoring the case of letters.
pub open spec fn names_html(s: Seq<char>) -> bool {
    exists|i: int| html_type_at(s, i)
}

/// True iff `c` is `p` once an ASCII capital is put in lower case.
fn lower_matches(c: char, p: char) -> (r: bool)
    ensures r == (ascii_lower(c) == p),
{
    if 'A' <= c && c <= 'Z' {
        (c as u32) + 32 == (p as u32)
    } else {
        c == p
    }
}

/// True iff `a` and `b` are the same text once ASCII capitals are put in lower case.
pub open spec fn same_ignoring_ascii_case(a: Seq<char>, b: Seq<char>) -> bool {
    a.len() == b.len() && forall|i: int| 0 <= i < a.len() ==> #[trigger] ascii_lower(a[i]) == ascii_lower(b[i])
}

/// True iff `a` and `b` are the same text once ASCII capitals are put in lower case.
pub fn eq_ignore_ascii_case(a: &str, b: &str) -> (r: bool)
    ensures r == same_ignoring_ascii_case(a@, b@),
{
    let n = a.unicode_len();
    if n != b.unicode_len() {
        return false;
    }
    let mut i: usize = 0;
    while i < n
        invariant
            n == a@.len(),
            n == b@.len(),
            i <= n,
            forall|j: int| 0 <= j < i ==> #[trigger] ascii_lower(a@[j]) == ascii_lower(b@[j]),
        decreases n - i,
    {
        if !same_char_ignoring_case(a.get_char(i), b.get_char(i)) {
            return false;
        }
        i = i + 1;
    }
    true
}

/// True iff `x` and `y` are the same character once ASCII capitals are put in lower case.
fn same_char_ignoring_case(x: char, y: char) -> (r: bool)
    ensures r == (ascii_lower(x) == ascii_lower(y)),
{
    let xl: u32 = if 'A' <= x && x <= 'Z' { (x as u32) + 32 } else { x as u32 };
    let yl: u32 = if 'A' <= y && y <= 'Z' { (y as u32) + 32 } else { y as u32 };
    xl == yl
}

/// True iff the content type `content_type` holds `text/html`, whatever the case of its letters.
pub fn is_html_type(content_type: &str) -> (r: bool)
    ensures r == names_html(content_type@),
{
    let n = content_type.unicode_len();
    if n < 9 {
        proof {
            assert forall|i: int| !html_type_at(content_type@, i) by {}
        }
        return false;
    }
    let pattern = ['t', 'e', 'x', 't', '/', 'h', 't', 'm', 'l'];
    let ghost p = html_type();
    proof {
        assert(pattern@ =~= p);
    }
    let mut i: usize = 0;
    while i <= n - 9
        invariant
            n == content_type@.len(),
            9 <= n,
            i <= n - 8,
            pattern@ == p,
            p == html_type(),
            forall|j: int| 0 <= j < i ==> !html_type_at(content_type@, j),
        decreases n - i,
    {
        let mut k: usize = 0;
        let mut matched = true;
        while k < 9
            invariant
                i + 9 <= n,
                n == content_type@.len(),
                k <= 9,
                pattern@ == p,
                p == html_type(),
                matched == forall|m: int| 0 <= m < k ==> #[trigger] ascii_lower(content_type@[i + m]) == p[m],
            decreases 9 - k,
        {
            if !lower_matches(content_type.get_char(i + k), pattern[k]) {
                matched = false;
            }
            k = k + 1;
        }
        if matched {
            assert(html_type_at(content_type@, i as int));
            return true;
        }
        i = i + 1;
    }
    proof {
        assert forall|j: int| !html_type_at(content_type@, j) by {
            if 0 <= j && j + 9 <= n {
                assert(j < i);
            }
        }
    }
    false
}

/// Whether the body of a response is downloaded, and whether into memory.
#[derive(Debug, Clone, Copy, PartialEq, Eq, Structural)]
pub struct DownloadPlan {
    pub can_download: bool,
    pub in_memory: bool,
}

/// The length the response says its body has: the one it reports, else the one its header
/// `Content-Length` gives, where that is a number.
pub open spec fn announced_length(content_length: Option<u64>, header_length: Option<Seq<u8>>) -> Option<u64> {
    match content_length {
        Some(n) => Some(n),
        None => match header_length {
            Some(text) => match parse_length(text) {
                Ok(n) => Some(n),
                Err(_) => None,
            },
            None => None,
        },
    }
}

/// How the body of a response is downloaded. A body of a known length is downloaded where
/// the largest file allowed is not exceeded, and into memory where it fits into the size
/// kept in memory. A body of no known length is downloaded, into memory where its type names
/// html, unless its length header gives a number beyond `u64::MAX`.
pub open spec fn download_plan_spec(
    content_length: Option<u64>,
    header_length: Option<Seq<u8>>,
    max_file_size: Option<u64>,
    max_in_memory: u64,
    content_type: Option<Seq<char>>,
) -> DownloadPlan {
    let overflowed = content_length is None && (header_length matches Some(text)
        && parse_length(text) == Err::<u64, ContentLengthError>(ContentLengthError::PosOverflow));
    match announced_length(content_length, header_length) {
        Some(n) => DownloadPlan {
            can_download: match max_file_size {
                Some(max) => n <= max,
                None => true,
            },
            in_memory: n <= max_in_memory,
        },
        None => DownloadPlan {
            can_download: !overflowed,
            in_memory: match content_type {
                Some(t) => names_html(t),
                None => false,
            },
        },
    }
}

/// Decides how the body of a response is downloaded, from the length the response reports,
/// the text of its length header and the text of its type header, where it has them.
pub fn plan_download(
    content_length: Option<u64>,
    header_length: Option<&str>,
    max_file_size: Option<u64>,
    max_in_memory: u64,
    content_type: Option<&str>,
) -> (r: DownloadPlan)
    ensures
        r == download_plan_spec(
            content_length,
            match header_length { Some(t) => Some(t.spec_bytes()), None => None },
            max_file_size,
            max_in_memory,
            match content_type { Some(t) => Some(t@), None => None },
        ),
{
    let mut can_download = true;
    let length: Option<u64> = match content_length {
        Some(n) => Some(n),
        None => match header_length {
            Some(text) => match parse_content_length(text) {
                Ok(n) => Some(n),
                Err(e) => {
                    match e {
                        ContentLengthError::PosOverflow => {
                            can_download = false;
                        },
                        _ => {},
                    }
                    None
                },
            },
            None => None,
        },
    };
    match length {
        Some(n) => {
            match max_file_size {
                Some(max) => {
                    can_download = n <= max;
                },
                None => {},
            }
            DownloadPlan { can_download, in_memory: n <= max_in_memory }
        },
        None => {
            let in_memory = match content_type {
                Some(t) => is_html_type(t),
                None => false,
            };
            DownloadPlan { can_download, in_memory }
        },
    }
}

/// What a body that was streamed into a temporary file becomes.
#[derive(Debug, Clone, Copy, PartialEq, Eq, Structural)]
pub struct StreamedBody {
    /// Whether it is read back into memory.
    pub read_into_memory: bool,
    /// Whether the download is defect: the file does not hold as many bytes as were received.
    pub defect: bool,
}

/// What a body streamed into a file of `file_len` bytes becomes, after `downloaded` bytes
/// were received: it is read back into memory where it fits into `max_in_memory` bytes.
pub fn streamed_body(file_len: u64, downloaded: u64, max_in_memory: u64) -> (r: StreamedBody)
    ensures
        r.read_into_memory == (file_len <= max_in_memory),
        r.defect == (file_len != downloaded),
{
    StreamedBody { read_into_memory: file_len <= max_in_memory, defect: file_len != downloaded }
}

/// True iff `s` ends with `suffix`.
pub open spec fn ends_with(s: Seq<char>, suffix: Seq<char>) -> bool {
    suffix.len() <= s.len() && s.subrange(s.len() - suffix.len(), s.len() as int) == suffix
}

/// True iff the text `s` ends with the text `suffix`.
pub fn text_ends_with(s: &str, suffix: &str) -> (r: bool)
    ensures r == ends_with(s@, suffix@),
{
    let n = s.unicode_len();
    let m = suffix.unicode_len();
    if m > n {
        return false;
    }
    let mut k: usize = 0;
    while k < m
        invariant
            m <= n,
            n == s@.len(),
            m == suffix@.len(),
            k <= m,
            forall|j: int| 0 <= j < k ==> s@[n - m + j] == suffix@[j],
        decreases m - k,
    {
        if s.get_char(n - m + k) != suffix.get_char(k) {
            assert(s@.subrange(n - m, n as int)[k as int] != suffix@[k as int]);
            return false;
        }
        k = k + 1;
    }
    assert(s@.subrange(n - m, n as int) =~= suffix@);
    true
}

/// What the strict redirect policy does with a redirect.
#[derive(Debug, Clone, Copy, PartialEq, Eq, Structural)]
pub enum RedirectDecision {
    /// Follow it as the default policy does.
    Follow,
    /// Fail: there were too many redirects.
    TooManyRedirects,
    /// Follow it as one of the few redirects allowed off the seed's host, and count it.
    FollowInitial,
    /// Do not follow it.
    Stop,
}

/// The number of redirects off the seed's host that the strict policy follows: two where
/// robots.txt is respected (it may be redirected too), else one.
pub open spec fn initial_redirect_limit(respect_robots_txt: bool) -> u8 {
    if respect_robots_txt { 2 } else { 1 }
}

/// The strict redirect policy: a redirect to the seed's domain (where top-level domains may
/// differ), to a subdomain of the seed's host (where allowed) or to the same host is
/// followed; otherwise it fails after more than `limit` redirects, is followed while fewer
/// than the initial limit of redirects off the host were followed, and is stopped else.
pub open spec fn strict_redirect_spec(
    tld: bool,
    same_domain_name: bool,
    subdomains: bool,
    attempt_host: Seq<char>,
    seed_host: Seq<char>,
    same_host: bool,
    previous: usize,
    limit: usize,
    is_redirection: bool,
    initial_redirects: u8,
    respect_robots_txt: bool,
) -> RedirectDecision {
    if (tld && same_domain_name) || (subdomains && ends_with(attempt_host, seed_host)) || same_host {
        RedirectDecision::Follow
    } else if previous > limit {
        RedirectDecision::TooManyRedirects
    } else if is_redirection && initial_redirects < initial_redirect_limit(respect_robots_txt) {
        RedirectDecision::FollowInitial
    } else {
        RedirectDecision::Stop
    }
}

/// Decides one redirect under the strict policy.
pub fn strict_redirect(
    tld: bool,
    same_domain_name: bool,
    subdomains: bool,
    attempt_host: &str,
    seed_host: &str,
    same_host: bool,
    previous: usize,
    limit: usize,
    is_redirection: bool,
    initial_redirects: u8,
    respect_robots_txt: bool,
) -> (r: RedirectDecision)
    ensures
        r == strict_redirect_spec(tld, same_domain_name, subdomains, attempt_host@, seed_host@,
            same_host, previous, limit, is_redirection, initial_redirects, respect_robots_txt),
{
    if (tld && same_domain_name) || (subdomains && text_ends_with(attempt_host, seed_host)) || same_host {
        RedirectDecision::Follow
    } else if previous > limit {
        RedirectDecision::TooManyRedirects
    } else {
        let initial_limit: u8 = if respect_robots_txt { 2 } else { 1 };
        if is_redirection && initial_redirects < initial_limit {
            RedirectDecision::FollowInitial
        } else {
            RedirectDecision::Stop
        }
    }
}

/// Off the seed's host, the strict policy follows at most the initial number of redirects:
/// once that many were counted, a redirect elsewhere is never followed.
pub proof fn law_strict_policy_bounds_redirects_off_host(
    tld: bool,
    same_domain_name: bool,
    subdomains: bool,
    attempt_host: Seq<char>,
    seed_host: Seq<char>,
    same_host: bool,
    previous: usize,
    limit: usize,
    is_redirection: bool,
    initial_redirects: u8,
    respect_robots_txt: bool,
)
    requires
        initial_redirects >= initial_redirect_limit(respect_robots_txt),
        !same_host,
        !(tld && same_domain_name),
        !(subdomains && ends_with(attempt_host, seed_host)),
    ensures
        strict_redirect_spec(tld, same_domain_name, subdomains, attempt_host, seed_host, same_host,
            previous, limit, is_redirection, initial_redirects, respect_robots_txt) != RedirectDecision::Follow,
        strict_redirect_spec(tld, same_domain_name, subdomains, attempt_host, seed_host, same_host,
            previous, limit, is_redirection, initial_redirects, respect_robots_txt) != RedirectDecision::FollowInitial,
{
}

/// A body that is known to fit into memory is never refused for its size where the largest
/// file allowed is at least the size kept in memory.
pub proof fn law_in_memory_body_is_downloaded(
    content_length: Option<u64>,
    header_length: Option<Seq<u8>>,
    max_file_size: Option<u64>,
    max_in_memory: u64,
    content_type: Option<Seq<char>>,
)
    requires
        announced_length(content_length, header_length) is Some,
        max_file_size matches Some(max) ==> max_in_memory <= max,
    ensures
        download_plan_spec(content_length, header_length, max_file_size, max_in_memory, content_type).in_memory
            ==> download_plan_spec(content_length, header_length, max_file_size, max_in_memory, content_type).can_download,
{
}

/// With no room in memory, a body of a known, non-zero length is not downloaded into memory.
pub proof fn law_zero_memory_limit_keeps_bodies_out_of_memory(
    content_length: Option<u64>,
    header_length: Option<Seq<u8>>,
    max_file_size: Option<u64>,
    content_type: Option<Seq<char>>,
)
    requires announced_length(content_length, header_length) matches Some(n) && n > 0,
    ensures !download_plan_spec(content_length, header_length, max_file_size, 0, content_type).in_memory,
{
}

/// Decimal digits with no leading `+` give their value, where it fits into `u64`.
pub proof fn law_digits_give_their_value(d: Seq<u8>)
    requires
        d.len() > 0,
        forall|i: int| 0 <= i < d.len() ==> is_digit(#[trigger] d[i]),
        decimal_value(d) <= u64::MAX,
    ensures
        parse_length(d) == Ok::<u64, ContentLengthError>(decimal_value(d) as u64),
{
    lemma_scan_digits(d, 0);
    assert(d[0] != 43) by {
        assert(is_digit(d[0]));
    }
}

/// Scanning digits onto `acc` gives `acc` shifted by the digits plus their value.
proof fn lemma_scan_digits(d: Seq<u8>, acc: int)
    requires
        acc >= 0,
        forall|i: int| 0 <= i < d.len() ==> is_digit(#[trigger] d[i]),
        acc * pow10(d.len()) + decimal_value(d) <= u64::MAX,
    ensures
        scan_digits(d, acc) == Ok::<u64, ContentLengthError>((acc * pow10(d.len()) + decimal_value(d)) as u64),
    decreases d.len(),
{
    if d.len() > 0 {
        let next = acc * 10 + (d[0] - 48);
        let rest = d.drop_first();
        assert forall|i: int| 0 <= i < rest.len() implies is_digit(#[trigger] rest[i]) by {
            assert(rest[i] == d[i + 1]);
        }
        lemma_value_split(d);
        lemma_pow10_positive(rest.len());
        assert(acc * pow10(d.len()) == acc * 10 * pow10(rest.len())) by (nonlinear_arith)
            requires pow10(d.len()) == 10 * pow10(rest.len());
        assert(next * pow10(rest.len()) + decimal_value(rest) == acc * pow10(d.len()) + decimal_value(d)) by (nonlinear_arith)
            requires
                next == acc * 10 + (d[0] - 48),
                acc * pow10(d.len()) == acc * 10 * pow10(rest.len()),
                decimal_value(d) == (d[0] - 48) * pow10(rest.len()) + decimal_value(rest);
        assert(next <= next * pow10(rest.len())) by (nonlinear_arith)
            requires next >= 0, pow10(rest.len()) >= 1;
        lemma_value_nonnegative(rest);
        lemma_scan_digits(rest, next);
    }
}

/// Ten to the power `n`.
pub open spec fn pow10(n: nat) -> int
    decreases n,
{
    if n == 0 { 1 } else { 10 * pow10((n - 1) as nat) }
}

proof fn lemma_pow10_positive(n: nat)
    ensures pow10(n) >= 1,
    decreases n,
{
    if n > 0 {
        lemma_pow10_positive((n - 1) as nat);
    }
}

proof fn lemma_value_nonnegative(d: Seq<u8>)
    requires forall|i: int| 0 <= i < d.len() ==> is_digit(#[trigger] d[i]),
    ensures decimal_value(d) >= 0,
    decreases d.len(),
{
    if d.len() > 0 {
        let init = d.drop_last();
        assert forall|i: int| 0 <= i < init.len() implies is_digit(#[trigger] init[i]) by {
            assert(init[i] == d[i]);
        }
        lemma_value_nonnegative(init);
    }
}

/// The value of digits is that of the first digit, shifted, plus that of the rest.
proof fn lemma_value_split(d: Seq<u8>)
    requires d.len() > 0,
    ensures
        decimal_value(d) == (d[0] - 48) * pow10((d.len() - 1) as nat) + decimal_value(d.drop_first()),
        pow10(d.len()) == 10 * pow10((d.len() - 1) as nat),
    decreases d.len(),
{
    if d.len() > 1 {
        let init = d.drop_last();
        lemma_value_split(init);
        assert(init.drop_first() =~= d.drop_first().drop_last());
        assert(init[0] == d[0]);
        assert(d.drop_first().last() == d.last());
        let a = d[0] - 48;
        let p = pow10((init.len() - 1) as nat);
        assert(decimal_value(d) == (a * p + decimal_value(init.drop_first())) * 10 + (d.last() - 48));
        assert(pow10((d.len() - 1) as nat) == 10 * p);
        assert((a * p + decimal_value(init.drop_first())) * 10 == a * (10 * p) + decimal_value(init.drop_first()) * 10) by (nonlinear_arith);
    } else {
        assert(d.drop_first().len() == 0);
        assert(d.drop_last().len() == 0);
        assert(decimal_value(d.drop_last()) == 0);
        assert(d.last() == d[0]);
        assert(pow10(0) == 1);
        assert(decimal_value(d) == d[0] - 48);
        assert((d[0] - 48) * pow10(0) == d[0] - 48);
    }
}

} // verus!
