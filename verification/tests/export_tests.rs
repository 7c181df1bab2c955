use atra::export::{
    decimal_text, export_file_name, exported_file_fallback, numbered_file_name,
    signed_decimal_text, ExportFormat,
};

#[test]
fn exported_files_get_the_extension_of_their_format() {
    assert_eq!(export_file_name("index", ExportFormat::HTML), "index.html");
    assert_eq!(export_file_name("index.html", ExportFormat::HTML), "index.html");
    assert_eq!(export_file_name("paper", ExportFormat::PDF), "paper.pdf");
    assert_eq!(export_file_name("app", ExportFormat::JavaScript), "app.js");
    assert_eq!(export_file_name("notes", ExportFormat::PlainText), "notes.txt");
    assert_eq!(export_file_name("table", ExportFormat::StructuredPlainText), "table.txt");
    assert_eq!(export_file_name("data", ExportFormat::JSON), "data.json");
    assert_eq!(export_file_name("feed", ExportFormat::XML), "feed.xml");
    assert_eq!(export_file_name("logo", ExportFormat::SVG), "logo.svg");
    assert_eq!(export_file_name("letter", ExportFormat::RTF), "letter.rtf");
    assert_eq!(export_file_name("archive", ExportFormat::ZIP), "archive.zip");
    assert_eq!(export_file_name("blob", ExportFormat::Other), "blob");
}

#[test]
fn existing_files_are_avoided_by_numbering() {
    assert_eq!(numbered_file_name("index.html", 1), "index (1).html");
    assert_eq!(numbered_file_name("a.tar.gz", 12), "a (12).tar.gz");
    assert_eq!(numbered_file_name("README", 3), "README (3)");
    assert_eq!(numbered_file_name(".hidden", 2), " (2).hidden");
}

#[test]
fn numbers_are_written_in_decimal() {
    assert_eq!(decimal_text(0), "0");
    assert_eq!(decimal_text(1234567890), "1234567890");
    assert_eq!(decimal_text(u64::MAX), u64::MAX.to_string());
    assert_eq!(signed_decimal_text(-42), "-42");
    assert_eq!(signed_decimal_text(i64::MIN), i64::MIN.to_string());
    assert_eq!(signed_decimal_text(i64::MAX), i64::MAX.to_string());
    assert_eq!(exported_file_fallback(1700000000), "exported_file_1700000000");
}
