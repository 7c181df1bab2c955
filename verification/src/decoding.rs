//! Choosing the encoding of a page and decoding its bytes to text.
//!
//! Encodings are named by the canonical names that `encoding_rs` gives them.

use vstd::prelude::*;
use vstd::string::StringSliceAdditionalSpecFns;
use encoding_rs::Encoding;
use chardetng::EncodingDetector;
use crate::blacklist::views_of;
use crate::data::{bom_window, Decoded};

verus! {

/// Why the data of a page could not be decoded.
#[derive(Debug)]
pub enum DecodingError {
    IO(std::io::Error),
    DecodingFileFailed,
    OutOfMemory,
}

/// True iff `n` is the name of one of the encodings of `encoding_rs`.
pub open spec fn is_encoding_name(n: Seq<char>) -> bool {
    ||| n == "Big5"@ ||| n == "EUC-JP"@ ||| n == "EUC-KR"@ ||| n == "GBK"@ ||| n == "IBM866"@
    ||| n == "ISO-2022-JP"@ ||| n == "ISO-8859-10"@ ||| n == "ISO-8859-13"@ ||| n == "ISO-8859-14"@
    ||| n == "ISO-8859-15"@ ||| n == "ISO-8859-16"@ ||| n == "ISO-8859-2"@ ||| n == "ISO-8859-3"@
    ||| n == "ISO-8859-4"@ ||| n == "ISO-8859-5"@ ||| n == "ISO-8859-6"@ ||| n == "ISO-8859-7"@
    ||| n == "ISO-8859-8"@ ||| n == "ISO-8859-8-I"@ ||| n == "KOI8-R"@ ||| n == "KOI8-U"@
    ||| n == "Shift_JIS"@ ||| n == "UTF-16BE"@ ||| n == "UTF-16LE"@ ||| n == "UTF-8"@
    ||| n == "gb18030"@ ||| n == "macintosh"@ ||| n == "replacement"@ ||| n == "windows-1250"@
    ||| n == "windows-1251"@ ||| n == "windows-1252"@ ||| n == "windows-1253"@ ||| n == "windows-1254"@
    ||| n == "windows-1255"@ ||| n == "windows-1256"@ ||| n == "windows-1257"@ ||| n == "windows-1258"@
    ||| n == "windows-874"@ ||| n == "x-mac-cyrillic"@ ||| n == "x-user-defined"@
}

/// The name of UTF-8.
fn utf8_name() -> (r: &'static str)
    ensures r@ == "UTF-8"@, is_encoding_name(r@),
{
    "UTF-8"
}

/// What `encoding_rs::Encoding::decode` gives for the encoding named `name` and the bytes
/// `bytes`: the text, the name of the encoding used, and whether malformed input was met.
pub uninterp spec fn decode_result(name: Seq<char>, bytes: Seq<u8>) -> (Seq<char>, Seq<char>, bool);

/// What `encoding_rs::Encoding::for_label` gives for the label `label`: the name of the
/// encoding it names, if any.
pub uninterp spec fn label_encoding(label: Seq<char>) -> Option<Seq<char>>;

/// The public suffix of the domain `domain`, by the public suffix list, as `psl::domain` finds
/// it in the bytes of the domain.
pub uninterp spec fn public_suffix_of(domain: Seq<char>) -> Option<Seq<u8>>;

/// What `chardetng` gives for the bytes `bytes`, fed at once as the whole stream to a new
/// detector, asked by `EncodingDetector::guess_assess` with the top-level label `tld` and with
/// UTF-8 not allowed as a guess: the name of the guessed encoding and whether the guess is
/// probably right.
pub uninterp spec fn guess_of(bytes: Seq<u8>, tld: Option<Seq<u8>>) -> (Seq<char>, bool);

/// True iff `data` starts with the bytes of `prefix`.
pub open spec fn starts_with(data: Seq<u8>, prefix: Seq<u8>) -> bool {
    prefix.len() <= data.len() && data.subrange(0, prefix.len() as int) == prefix
}

/// The length of the byte order mark `data` starts with: 3 for UTF-8, 2 for UTF-16 in either
/// byte order, none otherwise.
pub open spec fn bom_length(data: Seq<u8>) -> Option<usize> {
    if starts_with(data, seq![0xEFu8, 0xBBu8, 0xBFu8]) {
        Some(3usize)
    } else if starts_with(data, seq![0xFFu8, 0xFEu8]) {
        Some(2usize)
    } else if starts_with(data, seq![0xFEu8, 0xFFu8]) {
        Some(2usize)
    } else {
        None
    }
}

/// The name of the encoding of the byte order mark `data` starts with.
pub open spec fn bom_encoding(data: Seq<u8>) -> Seq<char> {
    if starts_with(data, seq![0xEFu8, 0xBBu8, 0xBFu8]) {
        "UTF-8"@
    } else if starts_with(data, seq![0xFFu8, 0xFEu8]) {
        "UTF-16LE"@
    } else {
        "UTF-16BE"@
    }
}

/// True iff `data` holds a byte that is not ASCII.
pub open spec fn contains_non_ascii(data: Seq<u8>) -> bool {
    exists|i: int| 0 <= i < data.len() && data[i] >= 0x80
}

/// `encoding_rs::Encoding::for_bom`: the encoding of the byte order mark `buffer` starts with,
/// UTF-8, UTF-16LE or UTF-16BE, and the length of the mark.
#[verifier::external_body]
fn encoding_for_bom(buffer: &[u8]) -> (r: Option<(String, usize)>)
    ensures
        match r {
            Some((name, n)) => bom_length(buffer@) == Some(n) && name@ == bom_encoding(buffer@),
            None => bom_length(buffer@) is None,
        },
{
    Encoding::for_bom(buffer).map(|(encoding, n)| (encoding.name().to_string(), n))
}

/// `encoding_rs::Encoding::decode` with the encoding named `name` (found by
/// `Encoding::for_label`, under whose labels are the names of all encodings): the text of
/// `bytes` (in the encoding of a byte order mark they start with, if any), the name of the
/// encoding used, and whether malformed input was met.
#[verifier::external_body]
fn decode_bytes(name: &str, bytes: &[u8]) -> (r: (String, String, bool))
    requires is_encoding_name(name@),
    ensures
        (r.0@, r.1@, r.2) == decode_result(name@, bytes@),
        is_encoding_name(r.1@),
{
    let encoding = Encoding::for_label(name.as_bytes()).unwrap();
    let (text, used, had_errors) = encoding.decode(bytes);
    (text.into_owned(), used.name().to_string(), had_errors)
}

/// `encoding_rs::Encoding::for_label`: the name of the encoding `label` names, if any.
#[verifier::external_body]
fn encoding_for_label(label: &str) -> (r: Option<String>)
    ensures
        match r {
            Some(name) => label_encoding(label@) == Some(name@) && is_encoding_name(name@),
            None => label_encoding(label@) is None,
        },
{
    Encoding::for_label(label.as_bytes()).map(|encoding| encoding.name().to_string())
}

/// `encoding_rs::Encoding::for_label_no_replacement`: as `Encoding::for_label`, except that
/// a label of the replacement encoding names none.
#[verifier::external_body]
fn encoding_for_label_no_replacement(label: &str) -> (r: Option<String>)
    ensures
        match r {
            Some(name) => label_encoding(label@) == Some(name@) && name@ != "replacement"@
                && is_encoding_name(name@),
            None => label_encoding(label@) is None || label_encoding(label@) == Some("replacement"@),
        },
{
    Encoding::for_label_no_replacement(label.as_bytes()).map(|encoding| encoding.name().to_string())
}

/// `chardetng::EncodingDetector`: a new detector fed `bytes` once, with `last`, then asked by
/// `guess_assess` with the top-level label `tld` and UTF-8 not allowed. Gives whether the bytes
/// hold a non-ASCII byte (as `feed` reports), the name of the guessed encoding, and whether the
/// guess is probably right. The detector panics on a label with a period, an upper-case letter
/// or a non-ASCII byte, which `requires` leaves out.
#[verifier::external_body]
fn detect_encoding(bytes: &[u8], tld: Option<&[u8]>) -> (r: (bool, String, bool))
    requires tld matches Some(t) ==> valid_tld(t@),
    ensures
        r.0 == contains_non_ascii(bytes@),
        (r.1@, r.2) == guess_of(bytes@, match tld { Some(t) => Some(t@), None => None }),
        is_encoding_name(r.1@),
{
    let mut detector = EncodingDetector::new();
    let non_ascii = detector.feed(bytes, true);
    let (encoding, probably_right) = detector.guess_assess(tld, false);
    (non_ascii, encoding.name().to_string(), probably_right)
}

/// `psl::domain(..).suffix()`: the public suffix of a domain.
#[verifier::external_body]
fn public_suffix(domain: &str) -> (r: Option<Vec<u8>>)
    ensures
        match r {
            Some(v) => public_suffix_of(domain@) == Some(v@),
            None => public_suffix_of(domain@) is None,
        },
{
    psl::domain(domain.as_bytes()).map(|d| d.suffix().as_bytes().to_vec())
}

/// True iff `b` is an upper-case ASCII letter.
pub open spec fn is_upper(b: u8) -> bool {
    0x41u8 <= b <= 0x5Au8
}

/// `b` with an upper-case ASCII letter turned into lower case.
pub open spec fn lower_byte(b: u8) -> u8 {
    if is_upper(b) { (b + 32) as u8 } else { b }
}

/// The bytes of `s` after its last period: its rightmost label.
pub open spec fn last_label(s: Seq<u8>) -> Seq<u8>
    decreases s.len(),
{
    if s.len() == 0 {
        s
    } else if s.last() == 0x2Eu8 {
        Seq::empty()
    } else {
        last_label(s.drop_last()).push(s.last())
    }
}

/// True iff `t` is a label as the detector takes it: ASCII, lower case, without a period.
pub open spec fn valid_tld(t: Seq<u8>) -> bool {
    forall|i: int| 0 <= i < t.len() ==> #[trigger] t[i] < 0x80 && t[i] != 0x2Eu8 && !is_upper(t[i])
}

/// The top-level label handed to the detector for the public suffix `s`: its rightmost label
/// in lower case, where that is ASCII and not empty; none otherwise.
pub open spec fn tld_of_suffix(s: Seq<u8>) -> Option<Seq<u8>> {
    let label = last_label(s);
    if label.len() > 0 && forall|i: int| 0 <= i < label.len() ==> #[trigger] label[i] < 0x80 {
        Some(label.map_values(|b: u8| lower_byte(b)))
    } else {
        None
    }
}

/// The top-level label handed to the detector for a page of the domain `domain`.
pub open spec fn tld_hint(domain: Option<Seq<char>>) -> Option<Seq<u8>> {
    match domain {
        Some(d) => match public_suffix_of(d) {
            Some(s) => tld_of_suffix(s),
            None => None,
        },
        None => None,
    }
}

/// The rightmost label of `s` is what follows the period before `start`.
proof fn lemma_last_label(s: Seq<u8>, start: int)
    requires
        0 <= start <= s.len(),
        start == 0 || s[start - 1] == 0x2Eu8,
        forall|j: int| start <= j < s.len() ==> #[trigger] s[j] != 0x2Eu8,
    ensures last_label(s) == s.subrange(start, s.len() as int),
    decreases s.len(),
{
    if s.len() == start {
        assert(s.subrange(start, s.len() as int) =~= Seq::<u8>::empty());
    } else {
        lemma_last_label(s.drop_last(), start);
        assert(s.subrange(start, s.len() as int) =~= s.drop_last().subrange(start, s.len() - 1).push(s.last()));
    }
}

/// The top-level label handed to the detector for the public suffix `suffix`.
fn detector_tld(suffix: &Vec<u8>) -> (r: Option<Vec<u8>>)
    ensures
        match r {
            Some(v) => tld_of_suffix(suffix@) == Some(v@) && valid_tld(v@),
            None => tld_of_suffix(suffix@) is None,
        },
{
    let n = suffix.len();
    let mut start = n;
    while start > 0 && suffix[start - 1] != 0x2Eu8
        invariant
            start <= n,
            n == suffix@.len(),
            forall|j: int| start <= j < n ==> #[trigger] suffix@[j] != 0x2Eu8,
        decreases start,
    {
        start = start - 1;
    }
    proof {
        lemma_last_label(suffix@, start as int);
    }
    let ghost label = suffix@.subrange(start as int, n as int);
    let mut out: Vec<u8> = Vec::new();
    let mut i = start;
    while i < n
        invariant
            start <= i <= n,
            n == suffix@.len(),
            label == suffix@.subrange(start as int, n as int),
            last_label(suffix@) == label,
            out@ =~= label.take(i - start).map_values(|b: u8| lower_byte(b)),
            forall|j: int| 0 <= j < i - start ==> #[trigger] label[j] < 0x80,
            forall|j: int| start <= j < n ==> #[trigger] suffix@[j] != 0x2Eu8,
        decreases n - i,
    {
        let b = suffix[i];
        if b >= 0x80 {
            assert(label[i - start] >= 0x80);
            return None;
        }
        let lowered = if 0x41 <= b && b <= 0x5A { b + 32 } else { b };
        out.push(lowered);
        proof {
            assert(label.take(i + 1 - start) =~= label.take(i - start).push(b));
        }
        i = i + 1;
    }
    proof {
        assert(label.take(n - start) =~= label);
    }
    if out.len() == 0 {
        None
    } else {
        proof {
            assert forall|j: int| 0 <= j < out@.len() implies #[trigger] out@[j] < 0x80 && out@[j] != 0x2Eu8
                && !is_upper(out@[j]) by {
                assert(label[j] == suffix@[start + j]);
            }
        }
        Some(out)
    }
}

/// The decoding of bytes without a byte order mark from a page of the domain `domain`: with the
/// guessed encoding where the bytes hold a non-ASCII byte and the guess is probably right, but
/// with UTF-8 where the guess meets malformed input and UTF-8 does not; with UTF-8 otherwise.
/// The text, the name of the encoding used, and whether malformed input was met.
pub open spec fn bomless_decoding(data: Seq<u8>, domain: Option<Seq<char>>) -> (Seq<char>, Seq<char>, bool) {
    let guess = guess_of(data, tld_hint(domain));
    let utf8 = decode_result("UTF-8"@, data);
    if contains_non_ascii(data) && guess.1 {
        let guessed = decode_result(guess.0, data);
        if guessed.2 && !utf8.2 { utf8 } else { guessed }
    } else {
        utf8
    }
}

/// The view of an optional domain.
pub open spec fn domain_view(domain: Option<&str>) -> Option<Seq<char>> {
    match domain {
        Some(d) => Some(d@),
        None => None,
    }
}

/// True iff a file that is kept outside of memory and has `size` bytes is too big to decode.
pub fn skip_big_file(max_size: Option<u64>, size: u64) -> (r: bool)
    ensures r == (max_size matches Some(m) && m < size),
{
    match max_size {
        Some(m) => m < size,
        None => false,
    }
}

/// The names of the encodings that `labels` name, in order; labels that name none are left out.
pub open spec fn named_encodings(labels: Seq<Seq<char>>) -> Seq<Seq<char>>
    decreases labels.len(),
{
    if labels.len() == 0 {
        Seq::empty()
    } else {
        let rest = named_encodings(labels.drop_last());
        match label_encoding(labels.last()) {
            Some(name) => rest.push(name),
            None => rest,
        }
    }
}

/// The encodings named by the labels, in order; labels that name none are left out.
pub fn encodings_for_labels(labels: &Vec<String>) -> (r: Vec<String>)
    ensures
        views_of(r@) == named_encodings(views_of(labels@)),
        forall|i: int| 0 <= i < r@.len() ==> is_encoding_name(#[trigger] r@[i]@),
{
    let mut out: Vec<String> = Vec::new();
    let mut i: usize = 0;
    while i < labels.len()
        invariant
            i <= labels.len(),
            views_of(out@) == named_encodings(views_of(labels@.take(i as int))),
            forall|j: int| 0 <= j < out@.len() ==> is_encoding_name(#[trigger] out@[j]@),
        decreases labels.len() - i,
    {
        proof {
            assert(views_of(labels@.take(i + 1)).drop_last() =~= views_of(labels@.take(i as int)));
            assert(views_of(labels@.take(i + 1)).last() == labels@[i as int]@);
        }
        let ghost before = out@;
        match encoding_for_label(labels[i].as_str()) {
            Some(e) => {
                out.push(e);
                proof {
                    assert(views_of(out@) =~= views_of(before).push(out@.last()@));
                }
            },
            None => {},
        }
        i = i + 1;
    }
    assert(labels@.take(labels.len() as int) =~= labels@);
    out
}

/// The encodings named by the charset parameters of a page's media type: none where it has no
/// such parameter, or an empty one.
pub fn encodings_for_charset_params(params: Option<&Vec<String>>) -> (r: Option<Vec<String>>)
    ensures
        match params {
            Some(p) if p@.len() > 0 => r matches Some(v)
                && views_of(v@) == named_encodings(views_of(p@))
                && forall|i: int| 0 <= i < v@.len() ==> is_encoding_name(#[trigger] v@[i]@),
            _ => r is None,
        },
{
    match params {
        Some(p) => if p.len() == 0 {
            None
        } else {
            Some(encodings_for_labels(p))
        },
        None => None,
    }
}

/// The name of the encoding `label` names, unless it names none or the replacement encoding.
pub open spec fn usable_label_encoding(label: Seq<char>) -> Option<Seq<char>> {
    match label_encoding(label) {
        Some(name) => if name == "replacement"@ { None } else { Some(name) },
        None => None,
    }
}

/// The encodings that the labels name, in order, if each names one other than the replacement
/// encoding; `None` otherwise.
pub open spec fn all_usable_encodings(labels: Seq<Seq<char>>) -> Option<Seq<Seq<char>>>
    decreases labels.len(),
{
    if labels.len() == 0 {
        Some(Seq::empty())
    } else {
        match (all_usable_encodings(labels.drop_last()), usable_label_encoding(labels.last())) {
            (Some(rest), Some(name)) => Some(rest.push(name)),
            _ => None,
        }
    }
}

/// The encodings that the charset attributes of a page's meta elements name, in order: all of
/// them where each names a usable one, none at all where one does not.
pub fn encodings_for_meta_charsets(values: &Vec<String>) -> (r: Option<Vec<String>>)
    ensures
        match all_usable_encodings(views_of(values@)) {
            Some(names) => r matches Some(v) && views_of(v@) == names
                && forall|i: int| 0 <= i < v@.len() ==> is_encoding_name(#[trigger] v@[i]@),
            None => r is None,
        },
{
    let mut out: Vec<String> = Vec::new();
    let mut i: usize = 0;
    while i < values.len()
        invariant
            i <= values.len(),
            all_usable_encodings(views_of(values@.take(i as int))) == Some(views_of(out@)),
            forall|j: int| 0 <= j < out@.len() ==> is_encoding_name(#[trigger] out@[j]@),
        decreases values.len() - i,
    {
        proof {
            assert(views_of(values@.take(i + 1)).drop_last() =~= views_of(values@.take(i as int)));
            assert(views_of(values@.take(i + 1)).last() == values@[i as int]@);
        }
        match encoding_for_label_no_replacement(values[i].as_str()) {
            Some(e) => {
                let ghost before = out@;
                out.push(e);
                proof {
                    assert(views_of(out@) =~= views_of(before).push(out@.last()@));
                }
            },
            None => {
                proof {
                    lemma_unusable_stays_unusable(views_of(values@), i as int);
                }
                return None;
            },
        }
        i = i + 1;
    }
    assert(values@.take(values.len() as int) =~= values@);
    Some(out)
}

/// Once a label names no usable encoding, no longer prefix of the labels has all usable.
proof fn lemma_unusable_stays_unusable(labels: Seq<Seq<char>>, i: int)
    requires
        0 <= i < labels.len(),
        usable_label_encoding(labels[i]) is None,
    ensures all_usable_encodings(labels) is None,
    decreases labels.len(),
{
    if i < labels.len() - 1 {
        lemma_unusable_stays_unusable(labels.drop_last(), i);
    }
}

/// The encodings to try on a page, in order: those of its media type's charset parameters,
/// then, for html, those of its meta elements' charset attributes where all of them are usable.
pub fn decoding_candidates(charset_params: Option<&Vec<String>>, is_html: bool, meta_charsets: Option<&Vec<String>>) -> (r: Vec<String>)
    ensures
        views_of(r@) == (match charset_params {
            Some(p) if p@.len() > 0 => named_encodings(views_of(p@)),
            _ => Seq::empty(),
        }) + (match (is_html, meta_charsets) {
            (true, Some(m)) => match all_usable_encodings(views_of(m@)) {
                Some(names) => names,
                None => Seq::empty(),
            },
            _ => Seq::empty(),
        }),
        forall|i: int| 0 <= i < r@.len() ==> is_encoding_name(#[trigger] r@[i]@),
{
    let mut out = match encodings_for_charset_params(charset_params) {
        Some(v) => v,
        None => Vec::new(),
    };
    if is_html {
        if let Some(m) = meta_charsets {
            if let Some(found) = encodings_for_meta_charsets(m) {
                let ghost before = out@;
                let mut j: usize = 0;
                while j < found.len()
                    invariant
                        j <= found.len(),
                        views_of(out@) == views_of(before) + views_of(found@.take(j as int)),
                        forall|k: int| 0 <= k < out@.len() ==> is_encoding_name(#[trigger] out@[k]@),
                        forall|k: int| 0 <= k < found@.len() ==> is_encoding_name(#[trigger] found@[k]@),
                    decreases found.len() - j,
                {
                    let ghost mid = out@;
                    out.push(found[j].clone());
                    proof {
                        assert(views_of(found@.take(j + 1)) =~= views_of(found@.take(j as int)).push(found@[j as int]@));
                        assert(views_of(out@) =~= views_of(mid).push(found@[j as int]@));
                    }
                    j = j + 1;
                }
                assert(found@.take(found.len() as int) =~= found@);
            }
        }
    }
    out
}

/// The decoding of `data` with the first of `names` that meets no malformed input: its text
/// and the name of the encoding used; `None` where every one meets some.
pub open spec fn first_clean_decoding(names: Seq<Seq<char>>, data: Seq<u8>) -> Option<(Seq<char>, Seq<char>)>
    decreases names.len(),
{
    if names.len() == 0 {
        None
    } else if !decode_result(names[0], data).2 {
        Some((decode_result(names[0], data).0, decode_result(names[0], data).1))
    } else {
        first_clean_decoding(names.drop_first(), data)
    }
}

/// True iff `d` holds in memory the text `text` decoded with the encoding named `encoding`,
/// with the error flag `had_errors`.
pub open spec fn holds_decoding(d: Decoded, text: Seq<char>, encoding: Seq<char>, had_errors: bool) -> bool {
    d matches Decoded::InMemory { data, encoding: e, had_errors: h }
        && data@ == text && e@ == encoding && h == had_errors
}

/// The first decoding of `data` with one of the candidates, in order, that meets no malformed
/// input; `None` if every candidate meets some.
pub fn decode_with_candidates(data: &[u8], candidates: &Vec<String>) -> (r: Option<Decoded>)
    requires forall|i: int| 0 <= i < candidates@.len() ==> is_encoding_name(#[trigger] candidates@[i]@),
    ensures
        match first_clean_decoding(views_of(candidates@), data@) {
            Some((text, encoding)) => r matches Some(d) && holds_decoding(d, text, encoding, false),
            None => r is None,
        },
{
    let ghost names = views_of(candidates@);
    proof {
        assert(names.skip(0) =~= names);
    }
    let mut i: usize = 0;
    while i < candidates.len()
        invariant
            i <= candidates.len(),
            names == views_of(candidates@),
            forall|j: int| 0 <= j < candidates@.len() ==> is_encoding_name(#[trigger] candidates@[j]@),
            first_clean_decoding(names, data@) == first_clean_decoding(names.skip(i as int), data@),
        decreases candidates.len() - i,
    {
        proof {
            assert(names.skip(i as int).drop_first() =~= names.skip(i + 1));
            assert(names.skip(i as int)[0] == candidates@[i as int]@);
        }
        let (text, used, had_errors) = decode_bytes(candidates[i].as_str(), data);
        if !had_errors {
            return Some(Decoded::new_in_memory(text, used, false));
        }
        i = i + 1;
    }
    proof {
        assert(names.skip(i as int).len() == 0);
    }
    None
}

/// Which decoding to keep when the guessed encoding met malformed input: the UTF-8 one if it
/// met none, else the guessed one.
pub fn keep_utf8_over_guess(guess_had_errors: bool, utf8_had_errors: bool) -> (r: bool)
    ensures r == (guess_had_errors && !utf8_had_errors),
{
    guess_had_errors && !utf8_had_errors
}

/// Decodes `data` by its byte order mark; without one, by the encoding the detector guesses
/// (with the public suffix of `domain` as a hint) where it holds non-ASCII bytes and the guess
/// is probably right, falling back to UTF-8 where that decodes without errors and the guess
/// does not; otherwise as UTF-8.
pub fn decode_by_bom(data: &[u8], domain: Option<&str>) -> (r: Decoded)
    ensures
        match bom_length(bom_window(data@)) {
            Some(_) => holds_decoding(r,
                decode_result(bom_encoding(bom_window(data@)), data@).0,
                decode_result(bom_encoding(bom_window(data@)), data@).1,
                decode_result(bom_encoding(bom_window(data@)), data@).2),
            None => holds_decoding(r, bomless_decoding(data@, domain_view(domain)).0,
                bomless_decoding(data@, domain_view(domain)).1, bomless_decoding(data@, domain_view(domain)).2),
        },
{
    let window = crate::data::peek_bom_of(data);
    if let Some((name, _)) = encoding_for_bom(&window) {
        proof {
            assert(is_encoding_name(name@));
        }
        let (text, used, had_errors) = decode_bytes(name.as_str(), data);
        return Decoded::new_in_memory(text, used, had_errors);
    }
    let utf8 = utf8_name();
    let suffix = match domain {
        Some(d) => public_suffix(d),
        None => None,
    };
    let tld = match &suffix {
        Some(sfx) => detector_tld(sfx),
        None => None,
    };
    let (non_ascii, selected, probably_right) = match &tld {
        Some(t) => detect_encoding(data, Some(t.as_slice())),
        None => detect_encoding(data, None),
    };
    assert(tld_hint(domain_view(domain)) == match tld { Some(t) => Some(t@), None => None::<Seq<u8>> });
    if non_ascii && probably_right {
        let (text, used, had_errors) = decode_bytes(selected.as_str(), data);
        if had_errors {
            let (utf8_text, utf8_used, utf8_errors) = decode_bytes(utf8, data);
            if keep_utf8_over_guess(had_errors, utf8_errors) {
                let r = Decoded::new_in_memory(utf8_text, utf8_used, utf8_errors);
                assert(holds_decoding(r, decode_result(utf8@, data@).0, decode_result(utf8@, data@).1,
                    decode_result(utf8@, data@).2));
                return r;
            }
        }
        let r = Decoded::new_in_memory(text, used, had_errors);
        assert(holds_decoding(r, decode_result(selected@, data@).0, decode_result(selected@, data@).1,
            decode_result(selected@, data@).2));
        return r;
    }
    let (text, used, had_errors) = decode_bytes(utf8, data);
    let r = Decoded::new_in_memory(text, used, had_errors);
    assert(holds_decoding(r, decode_result(utf8@, data@).0, decode_result(utf8@, data@).1,
        decode_result(utf8@, data@).2));
    r
}

/// Decodes bytes held in memory: with the first candidate that meets no malformed input,
/// else by [`decode_by_bom`].
pub fn decode_in_memory(data: &[u8], candidates: &Vec<String>, domain: Option<&str>) -> (r: Decoded)
    requires forall|i: int| 0 <= i < candidates@.len() ==> is_encoding_name(#[trigger] candidates@[i]@),
    ensures
        match first_clean_decoding(views_of(candidates@), data@) {
            Some((text, encoding)) => holds_decoding(r, text, encoding, false),
            None => match bom_length(bom_window(data@)) {
                Some(_) => holds_decoding(r,
                    decode_result(bom_encoding(bom_window(data@)), data@).0,
                    decode_result(bom_encoding(bom_window(data@)), data@).1,
                    decode_result(bom_encoding(bom_window(data@)), data@).2),
                None => holds_decoding(r, bomless_decoding(data@, domain_view(domain)).0,
                    bomless_decoding(data@, domain_view(domain)).1, bomless_decoding(data@, domain_view(domain)).2),
            },
        },
{
    match decode_with_candidates(data, candidates) {
        Some(d) => d,
        None => decode_by_bom(data, domain),
    }
}

/// Without a byte order mark, a decoding meets malformed input only where UTF-8 meets some
/// too: a guess that fails is never kept over a clean UTF-8 decoding. Bytes that are all ASCII
/// are decoded as UTF-8.
pub proof fn law_guess_never_worse_than_utf8(data: Seq<u8>, domain: Option<Seq<char>>)
    ensures
        !decode_result("UTF-8"@, data).2 ==> !bomless_decoding(data, domain).2,
        !contains_non_ascii(data) ==> bomless_decoding(data, domain) == decode_result("UTF-8"@, data),
{
}

/// A byte order mark decides the encoding: bytes that begin with EF BB BF are UTF-8, with
/// FF FE UTF-16LE, with FE FF UTF-16BE; bytes that begin with none of them have no mark.
pub proof fn law_byte_order_mark_decides(data: Seq<u8>)
    ensures
        data.len() >= 3 && data[0] == 0xEFu8 && data[1] == 0xBBu8 && data[2] == 0xBFu8 ==>
            bom_length(bom_window(data)) == Some(3usize) && bom_encoding(bom_window(data)) == "UTF-8"@,
        data.len() >= 2 && data[0] == 0xFFu8 && data[1] == 0xFEu8 ==>
            bom_length(bom_window(data)) == Some(2usize) && bom_encoding(bom_window(data)) == "UTF-16LE"@,
        data.len() >= 2 && data[0] == 0xFEu8 && data[1] == 0xFFu8 ==>
            bom_length(bom_window(data)) == Some(2usize) && bom_encoding(bom_window(data)) == "UTF-16BE"@,
        data.len() >= 1 && data[0] != 0xEFu8 && data[0] != 0xFFu8 && data[0] != 0xFEu8 ==>
            bom_length(bom_window(data)) is None,
{
    let w = bom_window(data);
    if data.len() >= 3 && data[0] == 0xEFu8 && data[1] == 0xBBu8 && data[2] == 0xBFu8 {
        assert(w.subrange(0, 3) =~= seq![0xEFu8, 0xBBu8, 0xBFu8]);
    }
    if data.len() >= 2 && data[0] == 0xFFu8 && data[1] == 0xFEu8 {
        assert(w.subrange(0, 2) =~= seq![0xFFu8, 0xFEu8]);
        assert(w.subrange(0, 3) != seq![0xEFu8, 0xBBu8, 0xBFu8]) by {
            assert(w.subrange(0, 3)[0] == 0xFFu8);
        }
    }
    if data.len() >= 2 && data[0] == 0xFEu8 && data[1] == 0xFFu8 {
        assert(w.subrange(0, 2) =~= seq![0xFEu8, 0xFFu8]);
        assert(w.subrange(0, 3) != seq![0xEFu8, 0xBBu8, 0xBFu8]) by {
            assert(w.subrange(0, 3)[0] == 0xFEu8);
        }
        assert(w.subrange(0, 2) != seq![0xFFu8, 0xFEu8]) by {
            assert(w.subrange(0, 2)[0] == 0xFEu8);
        }
    }
    if data.len() >= 1 && data[0] != 0xEFu8 && data[0] != 0xFFu8 && data[0] != 0xFEu8 {
        assert(w.subrange(0, 3) != seq![0xEFu8, 0xBBu8, 0xBFu8]) by {
            assert(w.subrange(0, 3)[0] == data[0]);
        }
        assert(w.subrange(0, 2) != seq![0xFFu8, 0xFEu8]) by {
            assert(w.subrange(0, 2)[0] == data[0]);
        }
        assert(w.subrange(0, 2) != seq![0xFEu8, 0xFFu8]) by {
            assert(w.subrange(0, 2)[0] == data[0]);
        }
    }
}

/// Without a byte order mark, the detector's guess decides where the bytes hold a non-ASCII
/// byte and the guess is probably right: its decoding is kept where it meets no malformed
/// input, and also where UTF-8 meets some too; UTF-8 is used where only the guess meets some.
/// Otherwise the bytes are decoded as UTF-8.
pub proof fn law_probable_guess_decides(data: Seq<u8>, domain: Option<Seq<char>>)
    ensures
        ({
            let guess = guess_of(data, tld_hint(domain));
            let guessed = decode_result(guess.0, data);
            let utf8 = decode_result("UTF-8"@, data);
            &&& contains_non_ascii(data) && guess.1 && !guessed.2 ==> bomless_decoding(data, domain) == guessed
            &&& contains_non_ascii(data) && guess.1 && guessed.2 && utf8.2 ==> bomless_decoding(data, domain) == guessed
            &&& contains_non_ascii(data) && guess.1 && guessed.2 && !utf8.2 ==> bomless_decoding(data, domain) == utf8
            &&& !(contains_non_ascii(data) && guess.1) ==> bomless_decoding(data, domain) == utf8
        }),
{
}

/// The decoding with the candidates is that of the first candidate, in order, that meets no
/// malformed input: where there is one at position `i`, the result is its decoding; where every
/// candidate meets some, there is none.
pub proof fn law_first_clean_candidate_wins(names: Seq<Seq<char>>, data: Seq<u8>, i: int)
    requires
        0 <= i < names.len(),
        !decode_result(names[i], data).2,
        forall|j: int| 0 <= j < i ==> decode_result(#[trigger] names[j], data).2,
    ensures
        first_clean_decoding(names, data) == Some((decode_result(names[i], data).0, decode_result(names[i], data).1)),
    decreases i,
{
    if i > 0 {
        assert(decode_result(names[0], data).2);
        let rest = names.drop_first();
        assert forall|j: int| 0 <= j < i - 1 implies decode_result(#[trigger] rest[j], data).2 by {
            assert(rest[j] == names[j + 1]);
        }
        law_first_clean_candidate_wins(rest, data, i - 1);
        assert(rest[i - 1] == names[i]);
    }
}

/// Where every candidate meets malformed input, no candidate's decoding is kept; where the
/// first candidate meets none, its decoding is kept.
pub proof fn law_no_clean_candidate_no_decoding(names: Seq<Seq<char>>, data: Seq<u8>)
    ensures
        (forall|j: int| 0 <= j < names.len() ==> decode_result(#[trigger] names[j], data).2)
            ==> first_clean_decoding(names, data) is None,
        names.len() > 0 && !decode_result(names[0], data).2 ==> first_clean_decoding(names, data)
            == Some((decode_result(names[0], data).0, decode_result(names[0], data).1)),
    decreases names.len(),
{
    if names.len() > 0 {
        let rest = names.drop_first();
        law_no_clean_candidate_no_decoding(rest, data);
        if forall|j: int| 0 <= j < names.len() ==> decode_result(#[trigger] names[j], data).2 {
            assert(decode_result(names[0], data).2);
            assert forall|j: int| 0 <= j < rest.len() implies decode_result(#[trigger] rest[j], data).2 by {
                assert(rest[j] == names[j + 1]);
            }
        }
    }
}

/// How decoding a chunk of a file ended.
#[derive(Debug, Clone, Copy, PartialEq, Eq, Structural)]
pub enum ChunkOutcome {
    InputEmpty,
    OutputFull,
    Malformed,
}

/// The step after a chunk of a file was decoded while input was left: an error where the
/// decoder reports its input used up or its output full; malformed input is recorded.
pub fn after_chunk(outcome: ChunkOutcome) -> (r: Result<bool, DecodingError>)
    ensures
        match outcome {
            ChunkOutcome::InputEmpty => r matches Err(DecodingError::DecodingFileFailed),
            ChunkOutcome::OutputFull => r matches Err(DecodingError::OutOfMemory),
            ChunkOutcome::Malformed => r == Ok::<bool, DecodingError>(true),
        },
{
    match outcome {
        ChunkOutcome::InputEmpty => Err(DecodingError::DecodingFileFailed),
        ChunkOutcome::OutputFull => Err(DecodingError::OutOfMemory),
        ChunkOutcome::Malformed => Ok(true),
    }
}

} // verus!
