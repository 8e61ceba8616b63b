use license_report::evaluator::{decode_output, evaluator_arguments, query_expression, trim};
use license_report::report::{build_report, capture_license_info, write_evaluated, Evaluated};
use license_report::table::{
    append_line, header_fields, row_fields, write_csv_record, write_header, ReportError,
};
use license_report::license::{License, LicenseError, Pkg};

const HEADER: &str = "name,fullName,shortName,spdxId,url\n";

const MIT: &str = "{\"fullName\":\"MIT License\",\"shortName\":\"mit\",\"spdxId\":\"MIT\",\"url\":\"https://spdx.org/licenses/MIT.html\",\"free\":true,\"redistributable\":true,\"deprecated\":false}";

const GPL: &str = "{\"fullName\":\"GNU General Public License v3.0 or later\",\"shortName\":\"gpl3Plus\",\"spdxId\":\"GPL-3.0-or-later\",\"url\":\"https://spdx.org/licenses/GPL-3.0-or-later.html\",\"free\":true,\"redistributable\":true,\"deprecated\":false}";

fn answered(identifier: &str, stdout: &str) -> Evaluated {
    Evaluated { identifier: identifier.to_string(), stdout: Some(stdout.as_bytes().to_vec()) }
}

fn unanswered(identifier: &str) -> Evaluated {
    Evaluated { identifier: identifier.to_string(), stdout: None }
}

fn report_text(entries: &Vec<Evaluated>) -> String {
    String::from_utf8(build_report(entries).unwrap()).unwrap()
}

fn records(report: &[u8]) -> Vec<Vec<String>> {
    let mut reader = csv::ReaderBuilder::new().has_headers(false).from_reader(report);
    reader
        .records()
        .map(|r| r.unwrap().iter().map(|f| f.to_string()).collect())
        .collect()
}

fn sample_pkg() -> Pkg {
    Pkg {
        name: "hello".to_string(),
        license: License {
            deprecated: false,
            free: true,
            full_name: "MIT License".to_string(),
            redistributable: true,
            short_name: "mit".to_string(),
            spdx_id: "MIT".to_string(),
            url: "https://spdx.org/licenses/MIT.html".to_string(),
        },
    }
}

#[test]
fn query_embeds_identifier() {
    assert_eq!(query_expression("hello"), "nixpkgs#hello.meta.license");
}

#[test]
fn query_keeps_identifier_untrimmed() {
    assert_eq!(query_expression(" a b "), "nixpkgs# a b .meta.license");
    assert_eq!(query_expression(""), "nixpkgs#.meta.license");
}

#[test]
fn arguments_ask_for_json() {
    assert_eq!(
        evaluator_arguments("ffmpeg"),
        vec!["eval".to_string(), "--json".to_string(), "nixpkgs#ffmpeg.meta.license".to_string()]
    );
}

#[test]
fn output_is_trimmed() {
    assert_eq!(decode_output(&b"  \n{\"free\":true}\n\t ".to_vec()), "{\"free\":true}");
    assert_eq!(decode_output(&b"".to_vec()), "");
    assert_eq!(decode_output(&b" \n ".to_vec()), "");
}

#[test]
fn trim_removes_whitespace_at_both_ends() {
    assert_eq!(trim("  a b \t\r\n"), "a b");
    assert_eq!(trim("a b"), "a b");
    assert_eq!(trim(""), "");
    assert_eq!(trim(" \n\t "), "");
    assert_eq!(trim("x "), "x");
    assert_eq!(trim(" x"), "x");
}

#[test]
fn trim_knows_unicode_whitespace() {
    assert_eq!(trim("\u{a0}\u{3000}\u{e9}t\u{e9}\u{2028}\u{85}"), "\u{e9}t\u{e9}");
    assert_eq!(trim("\u{200b}a\u{200b}"), "\u{200b}a\u{200b}");
    for sample in ["", " ", "\u{b}x\u{c}", " \u{1680}y z\u{205f} ", "\u{feff}q "] {
        assert_eq!(trim(sample), sample.trim());
    }
}

#[test]
fn default_pkg_is_blank() {
    let pkg = Pkg::default();
    assert_eq!(pkg.name, "");
    assert_eq!(row_fields(&pkg), vec!["", "", "", "", ""]);
}

#[test]
fn invalid_utf8_is_replaced() {
    assert_eq!(decode_output(&vec![b'a', 0xff, b'b']), "a\u{fffd}b");
}

#[test]
fn header_has_five_names() {
    assert_eq!(header_fields(), vec!["name", "fullName", "shortName", "spdxId", "url"]);
}

#[test]
fn row_has_name_and_four_texts() {
    assert_eq!(
        row_fields(&sample_pkg()),
        vec!["hello", "MIT License", "mit", "MIT", "https://spdx.org/licenses/MIT.html"]
    );
}

#[test]
fn row_ignores_flags() {
    let mut other = sample_pkg();
    other.license.deprecated = true;
    other.license.free = false;
    other.license.redistributable = false;
    assert_eq!(row_fields(&other), row_fields(&sample_pkg()));
}

#[test]
fn header_line_is_written() {
    let mut out = Vec::new();
    assert_eq!(write_header(&mut out), Ok(()));
    assert_eq!(out, HEADER.as_bytes());
}

#[test]
fn record_is_appended() {
    let mut out = b"before\n".to_vec();
    assert_eq!(write_csv_record(sample_pkg(), &mut out), Ok(()));
    assert_eq!(
        String::from_utf8(out).unwrap(),
        "before\nhello,MIT License,mit,MIT,https://spdx.org/licenses/MIT.html\n"
    );
}

#[test]
fn fields_are_quoted_where_needed() {
    let mut pkg = sample_pkg();
    pkg.name = "a,b".to_string();
    pkg.license.full_name = "say \"hi\"".to_string();
    pkg.license.short_name = "two\nlines".to_string();
    let mut out = Vec::new();
    assert_eq!(write_csv_record(pkg, &mut out), Ok(()));
    assert_eq!(
        String::from_utf8(out.clone()).unwrap(),
        "\"a,b\",\"say \"\"hi\"\"\",\"two\nlines\",MIT,https://spdx.org/licenses/MIT.html\n"
    );
    assert_eq!(
        records(&out),
        vec![vec!["a,b", "say \"hi\"", "two\nlines", "MIT", "https://spdx.org/licenses/MIT.html"]]
    );
}

#[test]
fn encoded_line_is_appended() {
    let mut out = b"ab".to_vec();
    assert_eq!(append_line(&mut out, Ok(b"cd\n".to_vec())), Ok(()));
    assert_eq!(out, b"abcd\n");
    assert_eq!(append_line(&mut out, Ok(Vec::new())), Ok(()));
    assert_eq!(out, b"abcd\n");
}

#[test]
fn refused_line_leaves_output() {
    let refusal = csv::Error::from(std::io::Error::other("refused"));
    let mut out = b"ab".to_vec();
    assert_eq!(append_line(&mut out, Err(refusal)), Err(ReportError::Encoding));
    assert_eq!(out, b"ab");
}

#[test]
fn license_is_captured_with_identifier() {
    let pkg = capture_license_info("hello", &format!("\n{}\n", MIT).into_bytes()).unwrap();
    assert_eq!(pkg.name, "hello");
    assert_eq!(pkg.license.full_name, "MIT License");
    assert_eq!(pkg.license.short_name, "mit");
    assert_eq!(pkg.license.spdx_id, "MIT");
    assert_eq!(pkg.license.url, "https://spdx.org/licenses/MIT.html");
    assert!(pkg.license.free);
    assert!(pkg.license.redistributable);
    assert!(!pkg.license.deprecated);
}

#[test]
fn capture_reports_why_it_failed() {
    assert_eq!(
        capture_license_info("x", &b"error: evaluation failed".to_vec()).unwrap_err(),
        LicenseError::NotJson
    );
    assert_eq!(capture_license_info("x", &b"".to_vec()).unwrap_err(), LicenseError::NotJson);
    assert_eq!(
        capture_license_info("x", &b"\"unfree\"".to_vec()).unwrap_err(),
        LicenseError::SchemaMismatch
    );
}

#[test]
fn one_line_gives_one_row_or_none() {
    let mut out = Vec::new();
    assert_eq!(write_evaluated(&answered("hello", MIT), &mut out), Ok(()));
    assert_eq!(
        String::from_utf8(out.clone()).unwrap(),
        "hello,MIT License,mit,MIT,https://spdx.org/licenses/MIT.html\n"
    );
    let len = out.len();
    assert_eq!(write_evaluated(&answered("bad", "oops"), &mut out), Ok(()));
    assert_eq!(write_evaluated(&unanswered("gone"), &mut out), Ok(()));
    assert_eq!(out.len(), len);
}

#[test]
fn empty_list_gives_header_only() {
    assert_eq!(report_text(&Vec::new()), HEADER);
}

#[test]
fn rows_follow_input_order() {
    let names = ["zeta", "alpha", "mid", "alpha"];
    let entries: Vec<Evaluated> = names
        .iter()
        .map(|n| answered(n, &format!("{{\"shortName\":\"{}-license\"}}", n)))
        .collect();
    let report = build_report(&entries).unwrap();
    let rows = records(&report);
    assert_eq!(rows.len(), names.len() + 1);
    for (i, name) in names.iter().enumerate() {
        assert_eq!(rows[i + 1][0], *name);
        assert_eq!(rows[i + 1][2], format!("{}-license", name));
    }
}

#[test]
fn every_row_has_five_fields() {
    let entries = vec![answered("hello", MIT), answered("ffmpeg", GPL), answered("empty", "{}")];
    let report = build_report(&entries).unwrap();
    let rows = records(&report);
    assert_eq!(rows[0], vec!["name", "fullName", "shortName", "spdxId", "url"]);
    assert_eq!(rows.len(), 4);
    for row in &rows {
        assert_eq!(row.len(), 5);
    }
    let text = String::from_utf8(report).unwrap();
    assert!(!text.contains("true"));
    assert!(!text.contains("false"));
    assert!(!text.contains("deprecated"));
    assert!(!text.contains("redistributable"));
}

#[test]
fn empty_document_gives_empty_fields() {
    let report = report_text(&vec![answered("identifier", "{}")]);
    assert_eq!(report, format!("{}identifier,,,,\n", HEADER));
    assert_eq!(records(report.as_bytes())[1], vec!["identifier", "", "", "", ""]);
}

#[test]
fn failed_identifier_is_absent() {
    let with = vec![answered("hello", MIT), answered("bad", "not json at all"), answered("ffmpeg", GPL)];
    let without = vec![answered("hello", MIT), answered("ffmpeg", GPL)];
    let report = report_text(&with);
    assert_eq!(report, report_text(&without));
    assert!(!report.contains("bad"));
    assert_eq!(report.lines().count(), 3);
}

#[test]
fn unstarted_evaluator_is_absent() {
    let with = vec![unanswered("gone"), answered("hello", MIT)];
    assert_eq!(report_text(&with), report_text(&vec![answered("hello", MIT)]));
}

#[test]
fn rerun_gives_identical_bytes() {
    let entries = vec![answered("hello", MIT), answered("bad", "x"), answered("ffmpeg", GPL)];
    let first = build_report(&entries).unwrap();
    let second = build_report(&entries.clone()).unwrap();
    assert_eq!(first, second);
}

#[test]
fn scenario_two_licensed_one_broken() {
    let entries = vec![
        answered("hello", MIT),
        answered("ffmpeg", GPL),
        answered("broken-pkg", "error: evaluation failed"),
    ];
    let report = report_text(&entries);
    assert_eq!(
        report,
        "name,fullName,shortName,spdxId,url\n\
         hello,MIT License,mit,MIT,https://spdx.org/licenses/MIT.html\n\
         ffmpeg,GNU General Public License v3.0 or later,gpl3Plus,GPL-3.0-or-later,https://spdx.org/licenses/GPL-3.0-or-later.html\n"
    );
    assert_eq!(report.lines().count(), 3);
}
