//! The names of the files that stored pages are exported to: the name of the page with the
//! extension of its format, and a numbered name where a file of that name exists already.

use vstd::prelude::*;
use crate::fetching::{ends_with, text_ends_with};

verus! {

/// The format of a stored page, as far as it decides the extension of an exported file.
#[derive(Debug, Clone, Copy, PartialEq, Eq, Structural)]
pub enum ExportFormat {
    HTML,
    PDF,
    JavaScript,
    PlainText,
    StructuredPlainText,
    JSON,
    XML,
    SVG,
    RTF,
    ZIP,
    /// Any other format, which gets no extension.
    Other,
}

/// The extension of an exported file of the format `format`.
pub open spec fn extension_of(format: ExportFormat) -> Option<Seq<char>> {
    match format {
        ExportFormat::HTML => Some(".html"@),
        ExportFormat::PDF => Some(".pdf"@),
        ExportFormat::JavaScript => Some(".js"@),
        ExportFormat::PlainText => Some(".txt"@),
        ExportFormat::StructuredPlainText => Some(".txt"@),
        ExportFormat::JSON => Some(".json"@),
        ExportFormat::XML => Some(".xml"@),
        ExportFormat::SVG => Some(".svg"@),
        ExportFormat::RTF => Some(".rtf"@),
        ExportFormat::ZIP => Some(".zip"@),
        ExportFormat::Other => None,
    }
}

fn extension(format: ExportFormat) -> (r: Option<&'static str>)
    ensures
        match r {
            Some(e) => extension_of(format) == Some(e@),
            None => extension_of(format) is None,
        },
{
    match format {
        ExportFormat::HTML => Some(".html"),
        ExportFormat::PDF => Some(".pdf"),
        ExportFormat::JavaScript => Some(".js"),
        ExportFormat::PlainText => Some(".txt"),
        ExportFormat::StructuredPlainText => Some(".txt"),
        ExportFormat::JSON => Some(".json"),
        ExportFormat::XML => Some(".xml"),
        ExportFormat::SVG => Some(".svg"),
        ExportFormat::RTF => Some(".rtf"),
        ExportFormat::ZIP => Some(".zip"),
        ExportFormat::Other => None,
    }
}

/// The name `name` with the extension of `format` appended, unless it ends with it already.
pub open spec fn export_name_spec(name: Seq<char>, format: ExportFormat) -> Seq<char> {
    match extension_of(format) {
        Some(ext) => if ends_with(name, ext) { name } else { name + ext },
        None => name,
    }
}

/// The name of the file a page of the format `format` is exported to, from the name `name`.
pub fn export_file_name(name: &str, format: ExportFormat) -> (r: String)
    ensures r@ == export_name_spec(name@, format),
{
    let mut r = String::from_str(name);
    match extension(format) {
        Some(ext) => {
            if !text_ends_with(name, ext) {
                r.append(ext);
            }
        },
        None => {},
    }
    r
}

/// The text of the decimal digit `d`.
pub open spec fn digit_text(d: nat) -> Seq<char> {
    if d == 0 { "0"@ }
    else if d == 1 { "1"@ }
    else if d == 2 { "2"@ }
    else if d == 3 { "3"@ }
    else if d == 4 { "4"@ }
    else if d == 5 { "5"@ }
    else if d == 6 { "6"@ }
    else if d == 7 { "7"@ }
    else if d == 8 { "8"@ }
    else { "9"@ }
}

/// The decimal text of `n`, without leading zeros.
pub open spec fn decimal(n: nat) -> Seq<char>
    decreases n,
{
    if n < 10 {
        digit_text(n)
    } else {
        decimal(n / 10) + digit_text(n % 10)
    }
}

/// The decimal text of `t`, with a minus sign where it is negative.
pub open spec fn signed_decimal(t: int) -> Seq<char> {
    if t < 0 { "-"@ + decimal((-t) as nat) } else { decimal(t as nat) }
}

fn digit(d: u64) -> (r: &'static str)
    requires d < 10,
    ensures r@ == digit_text(d as nat),
{
    if d == 0 { "0" }
    else if d == 1 { "1" }
    else if d == 2 { "2" }
    else if d == 3 { "3" }
    else if d == 4 { "4" }
    else if d == 5 { "5" }
    else if d == 6 { "6" }
    else if d == 7 { "7" }
    else if d == 8 { "8" }
    else { "9" }
}

/// The decimal text of `n`.
pub fn decimal_text(n: u64) -> (r: String)
    ensures r@ == decimal(n as nat),
    decreases n,
{
    if n < 10 {
        String::from_str(digit(n))
    } else {
        let mut r = decimal_text(n / 10);
        r.append(digit(n % 10));
        r
    }
}

/// The decimal text of `t`, with a minus sign where it is negative.
pub fn signed_decimal_text(t: i64) -> (r: String)
    ensures r@ == signed_decimal(t as int),
{
    if t < 0 {
        let magnitude: u64 = ((-(t + 1)) as u64) + 1;
        let mut r = String::from_str("-");
        let digits = decimal_text(magnitude);
        r.append(digits.as_str());
        r
    } else {
        decimal_text(t as u64)
    }
}

/// The name of an exported file whose page gives no name, from the time in seconds.
pub fn exported_file_fallback(unix_seconds: i64) -> (r: String)
    ensures r@ == "exported_file_"@ + signed_decimal(unix_seconds as int),
{
    let mut r = String::from_str("exported_file_");
    let t = signed_decimal_text(unix_seconds);
    r.append(t.as_str());
    r
}

/// The index of the first `.` in `s` at or after `from`; -1 where there is none.
pub open spec fn first_dot_from(s: Seq<char>, from: int) -> int
    decreases s.len() - from,
{
    if from >= s.len() || from < 0 {
        -1
    } else if s[from] == '.' {
        from
    } else {
        first_dot_from(s, from + 1)
    }
}

/// The name `name` numbered with `ct`: the number in brackets before the part after the first
/// `.`, or at the end where there is no `.`.
pub open spec fn numbered_name_spec(name: Seq<char>, ct: nat) -> Seq<char> {
    let i = first_dot_from(name, 0);
    if i < 0 {
        name + " ("@ + decimal(ct) + ")"@
    } else {
        name.take(i) + " ("@ + decimal(ct) + ")."@ + name.skip(i + 1)
    }
}

/// The name of an exported file where a file of the name `name` exists already: `name` with
/// the number `ct`.
pub fn numbered_file_name(name: &str, ct: u64) -> (r: String)
    ensures r@ == numbered_name_spec(name@, ct as nat),
{
    let n = name.unicode_len();
    let mut i: usize = 0;
    while i < n && name.get_char(i) != '.'
        invariant
            i <= n,
            n == name@.len(),
            first_dot_from(name@, 0) == first_dot_from(name@, i as int),
        decreases n - i,
    {
        i = i + 1;
    }
    let number = decimal_text(ct);
    if i == n {
        let mut r = String::from_str(name);
        r.append(" (");
        r.append(number.as_str());
        r.append(")");
        r
    } else {
        let mut r = String::from_str(name.substring_char(0, i));
        r.append(" (");
        r.append(number.as_str());
        r.append(").");
        r.append(name.substring_char(i + 1, n));
        proof {
            assert(name@.subrange(0, i as int) =~= name@.take(i as int));
            assert(name@.subrange(i + 1, n as int) =~= name@.skip(i + 1));
        }
        r
    }
}

} // verus!
