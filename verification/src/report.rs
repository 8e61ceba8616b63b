//! The report: one row for each package whose license could be read, in the
//! order of the list.

use crate::evaluator::{answer_of, decode_output};
use crate::json::{json_document, license_of_text, parse_license, JsonMember};
use crate::license::{blank_license, LicenseError, Pkg, PkgModel};
use crate::table::{csv_line, header_row, row_of, write_csv_record, write_header, ReportError};
use vstd::prelude::*;
use vstd::string::StringExecFns;

verus! {

/// One line of the list together with what the evaluator answered for it:
/// its standard output, or nothing where it could not be started.
#[derive(Clone, Debug)]
pub struct Evaluated {
    pub identifier: String,
    pub stdout: Option<Vec<u8>>,
}

/// An evaluated line as a mathematical value.
pub ghost struct EvaluatedModel {
    pub identifier: Seq<char>,
    pub stdout: Option<Seq<u8>>,
}

impl View for Evaluated {
    type V = EvaluatedModel;

    open spec fn view(&self) -> EvaluatedModel {
        EvaluatedModel {
            identifier: self.identifier@,
            stdout: match self.stdout {
                Some(bytes) => Some(bytes@),
                None => None,
            },
        }
    }
}

/// A list of evaluated lines as mathematical values.
pub open spec fn models(entries: Seq<Evaluated>) -> Seq<EvaluatedModel> {
    entries.map_values(|e: Evaluated| e@)
}

/// The package that an identifier and the evaluator's standard output stand
/// for, or why the output gave none.
pub open spec fn pkg_of(identifier: Seq<char>, stdout: Seq<u8>) -> Result<PkgModel, LicenseError> {
    match license_of_text(answer_of(stdout)) {
        Ok(license) => Ok(PkgModel { name: identifier, license }),
        Err(e) => Err(e),
    }
}

/// A package, or the reason why there is none, as a mathematical value.
pub open spec fn pkg_result_model(r: Result<Pkg, LicenseError>) -> Result<PkgModel, LicenseError> {
    match r {
        Ok(pkg) => Ok(pkg@),
        Err(e) => Err(e),
    }
}

/// The package that an evaluated line contributes to the report: none where
/// the evaluator could not be started or its output gave no license.
pub open spec fn kept(entry: EvaluatedModel) -> Option<PkgModel> {
    match entry.stdout {
        Some(bytes) => match pkg_of(entry.identifier, bytes) {
            Ok(pkg) => Some(pkg),
            Err(_) => None,
        },
        None => None,
    }
}

/// The bytes that an evaluated line contributes to the report: the line of
/// its package's row, or nothing where it contributes no package; `None`
/// where the encoder refuses the row.
pub open spec fn line_kept(entry: EvaluatedModel) -> Option<Seq<u8>> {
    match kept(entry) {
        Some(pkg) => csv_line(row_of(pkg)),
        None => Some(Seq::empty()),
    }
}

/// The row that an evaluated line contributes to the report, if any.
pub open spec fn row_kept(entry: EvaluatedModel) -> Option<Seq<Seq<char>>> {
    match kept(entry) {
        Some(pkg) => Some(row_of(pkg)),
        None => None,
    }
}

/// The data rows of the report: the rows that the lines contribute, in the
/// order of the list.
pub open spec fn report_rows(entries: Seq<EvaluatedModel>) -> Seq<Seq<Seq<char>>> {
    entries.filter_map(|entry: EvaluatedModel| row_kept(entry))
}

/// Two runs of bytes one after the other, where both are there.
pub open spec fn joined(first: Option<Seq<u8>>, second: Option<Seq<u8>>) -> Option<Seq<u8>> {
    match (first, second) {
        (Some(a), Some(b)) => Some(a + b),
        _ => None,
    }
}

/// The encoded lines of a list of rows, one after the other; `None` where the
/// encoder refuses one of the rows.
pub open spec fn lines_of(rows: Seq<Seq<Seq<char>>>) -> Option<Seq<u8>>
    decreases rows.len(),
{
    if rows.len() == 0 {
        Some(Seq::empty())
    } else {
        joined(lines_of(rows.drop_last()), csv_line(rows.last()))
    }
}

/// The table of the report: the header, then the data rows.
pub open spec fn report_table(entries: Seq<EvaluatedModel>) -> Seq<Seq<Seq<char>>> {
    seq![header_row()] + report_rows(entries)
}

/// The whole report: the line of each row of the table; `None` where the
/// encoder refuses one of them.
pub open spec fn report_bytes(entries: Seq<EvaluatedModel>) -> Option<Seq<u8>> {
    lines_of(report_table(entries))
}

/// Reads the license that the evaluator printed for a package and joins it
/// with the identifier. The error says why the output gave no license.
pub fn capture_license_info(pkgs_name: &str, stdout: &Vec<u8>) -> (r: Result<Pkg, LicenseError>)
    ensures
        pkg_result_model(r) == pkg_of(pkgs_name@, stdout@),
{
    let answer = decode_output(stdout);
    match parse_license(answer.as_str()) {
        Ok(license) => Ok(Pkg { name: String::from_str(pkgs_name), license }),
        Err(e) => Err(e),
    }
}

/// Handles one evaluated line: appends the line of its row to the output, or
/// nothing where the line contributes no package. It fails exactly where the
/// line contributes a package whose row the encoder refuses, and then leaves
/// the output as it was.
pub fn write_evaluated(entry: &Evaluated, out: &mut Vec<u8>) -> (r: Result<(), ReportError>)
    ensures
        match line_kept(entry@) {
            Some(line) => r is Ok && final(out)@ == old(out)@ + line,
            None => r == Err::<(), ReportError>(ReportError::Encoding) && final(out)@ == old(
                out,
            )@,
        },
{
    match &entry.stdout {
        Some(bytes) => match capture_license_info(entry.identifier.as_str(), bytes) {
            Ok(pkg) => write_csv_record(pkg, out),
            Err(_) => {
                assert(out@ =~= old(out)@ + Seq::<u8>::empty());
                Ok(())
            },
        },
        None => {
            assert(out@ =~= old(out)@ + Seq::<u8>::empty());
            Ok(())
        },
    }
}

/// Renders the report for a list of evaluated lines: the header, then one row
/// for each line that contributes a package, in the order of the list. It
/// fails exactly where the encoder refuses the header or one of those rows.
pub fn build_report(entries: &Vec<Evaluated>) -> (r: Result<Vec<u8>, ReportError>)
    ensures
        match report_bytes(models(entries@)) {
            Some(bytes) => r is Ok && r->Ok_0@ == bytes,
            None => r == Err::<Vec<u8>, ReportError>(ReportError::Encoding),
        },
{
    let mut out: Vec<u8> = Vec::new();
    let ghost all = models(entries@);
    proof {
        assert(all.take(0) =~= Seq::<EvaluatedModel>::empty());
        assert(all =~= all.take(0) + all);
        lemma_table_extends(all.take(0), all);
        assert(report_table(all.take(0)) =~= seq![header_row()]);
        lemma_lines_of_one(header_row());
    }
    match write_header(&mut out) {
        Ok(_) => {},
        Err(e) => {
            return Err(e);
        },
    }
    let mut i: usize = 0;
    assert(out@ =~= csv_line(header_row())->Some_0);
    while i < entries.len()
        invariant
            i <= entries.len(),
            all == models(entries@),
            lines_of(report_table(all.take(i as int))) == Some(out@),
        decreases entries.len() - i,
    {
        proof {
            let head = all.take(i as int);
            let entry = entries[i as int]@;
            assert(all.take(i + 1) =~= head + seq![entry]);
            lemma_table_extends(head, seq![entry]);
            lemma_line_of_one(entry);
            assert(all =~= all.take(i + 1) + all.skip(i + 1));
            lemma_table_extends(all.take(i + 1), all.skip(i + 1));
        }
        match write_evaluated(&entries[i], &mut out) {
            Ok(_) => {},
            Err(e) => {
                return Err(e);
            },
        }
        i += 1;
    }
    proof {
        assert(all.take(i as int) =~= all);
    }
    Ok(out)
}

/// The lines of a table over two lists of lines, one after the other, are
/// the lines of the first list's table and then the lines of the second
/// list's rows.
pub proof fn lemma_table_extends(first: Seq<EvaluatedModel>, second: Seq<EvaluatedModel>)
    ensures
        lines_of(report_table(first + second)) == joined(
            lines_of(report_table(first)),
            lines_of(report_rows(second)),
        ),
{
    lemma_rows_concat(first, second);
    assert(report_table(first + second) =~= report_table(first) + report_rows(second));
    lemma_lines_concat(report_table(first), report_rows(second));
}

/// The lines of what a single line contributes are the line of its row, or
/// nothing.
pub proof fn lemma_line_of_one(entry: EvaluatedModel)
    ensures
        lines_of(report_rows(seq![entry])) == line_kept(entry),
{
    lemma_rows_of_one(entry);
    match kept(entry) {
        Some(pkg) => {
            lemma_lines_of_one(row_of(pkg));
        },
        None => {},
    }
}

/// A single line contributes its package's row, or nothing.
pub proof fn lemma_rows_of_one(entry: EvaluatedModel)
    ensures
        report_rows(seq![entry]) == match kept(entry) {
            Some(pkg) => seq![row_of(pkg)],
            None => Seq::empty(),
        },
{
    let one = seq![entry];
    assert(one.drop_last() =~= Seq::<EvaluatedModel>::empty());
    assert(report_rows(one.drop_last()) =~= Seq::<Seq<Seq<char>>>::empty());
    assert(one.last() == entry);
    match kept(entry) {
        Some(pkg) => {
            assert(report_rows(one) =~= seq![row_of(pkg)]);
        },
        None => {},
    }
}

/// The lines of a single row are that row's line.
pub proof fn lemma_lines_of_one(row: Seq<Seq<char>>)
    ensures
        lines_of(seq![row]) == csv_line(row),
{
    let one = seq![row];
    assert(one.drop_last() =~= Seq::<Seq<Seq<char>>>::empty());
    assert(lines_of(one.drop_last()) == Some(Seq::<u8>::empty()));
    assert(one.last() == row);
    match csv_line(row) {
        Some(line) => {
            assert(Seq::<u8>::empty() + line =~= line);
        },
        None => {},
    }
}

/// The rows of two lists, one after the other, are the rows of the lists
/// joined: what a line contributes does not depend on the lines around it.
pub proof fn lemma_rows_concat(first: Seq<EvaluatedModel>, second: Seq<EvaluatedModel>)
    ensures
        report_rows(first + second) == report_rows(first) + report_rows(second),
    decreases second.len(),
{
    if second.len() == 0 {
        assert(first + second =~= first);
        assert(report_rows(first) + report_rows(second) =~= report_rows(first));
    } else {
        let whole = first + second;
        assert(whole.drop_last() =~= first + second.drop_last());
        assert(whole.last() == second.last());
        lemma_rows_concat(first, second.drop_last());
        assert(report_rows(whole) =~= report_rows(first) + report_rows(second));
    }
}

/// The lines of two lists of rows, one after the other, are the lines of the
/// lists joined.
pub proof fn lemma_lines_concat(first: Seq<Seq<Seq<char>>>, second: Seq<Seq<Seq<char>>>)
    ensures
        lines_of(first + second) == joined(lines_of(first), lines_of(second)),
    decreases second.len(),
{
    if second.len() == 0 {
        assert(first + second =~= first);
        match lines_of(first) {
            Some(a) => {
                assert(a + Seq::<u8>::empty() =~= a);
            },
            None => {},
        }
    } else {
        let whole = first + second;
        assert(whole.drop_last() =~= first + second.drop_last());
        assert(whole.last() == second.last());
        lemma_lines_concat(first, second.drop_last());
        match (lines_of(first), lines_of(second.drop_last()), csv_line(second.last())) {
            (Some(a), Some(b), Some(c)) => {
                assert((a + b) + c =~= a + (b + c));
            },
            _ => {},
        }
    }
}

/// Where every line of a list contributes a package, there are as many data
/// rows as lines, and each row is that of the line at the same place.
proof fn lemma_all_kept(entries: Seq<EvaluatedModel>)
    requires
        forall|i: int| 0 <= i < entries.len() ==> (#[trigger] kept(entries[i])) is Some,
    ensures
        report_rows(entries).len() == entries.len(),
        forall|i: int|
            0 <= i < entries.len() ==> (#[trigger] report_rows(entries)[i]) == row_of(
                kept(entries[i])->Some_0,
            ),
    decreases entries.len(),
{
    if entries.len() > 0 {
        let front = entries.drop_last();
        assert forall|i: int| 0 <= i < front.len() implies (#[trigger] kept(front[i])) is Some by {
            assert(front[i] == entries[i]);
        }
        lemma_all_kept(front);
        assert(kept(entries.last()) is Some);
        assert forall|i: int| 0 <= i < entries.len() implies (#[trigger] report_rows(entries)[i])
            == row_of(kept(entries[i])->Some_0) by {
            if i < front.len() {
                assert(front[i] == entries[i]);
                assert(report_rows(entries)[i] == report_rows(front)[i]);
            }
        }
    }
}

/// Order is kept: where every line of a list contributes a package, the
/// table has one row more than the list has lines; the first is the header,
/// and the row after the header's at place `i` is that of line `i` and begins
/// with that line's identifier.
pub proof fn lemma_rows_follow_lines(entries: Seq<EvaluatedModel>)
    requires
        forall|i: int| 0 <= i < entries.len() ==> (#[trigger] kept(entries[i])) is Some,
    ensures
        report_table(entries).len() == entries.len() + 1,
        report_table(entries)[0] == header_row(),
        forall|i: int|
            0 <= i < entries.len() ==> (#[trigger] report_table(entries)[i + 1]) == row_of(
                kept(entries[i])->Some_0,
            ),
        forall|i: int|
            0 <= i < entries.len() ==> (#[trigger] report_table(entries)[i + 1])[0]
                == entries[i].identifier,
{
    lemma_all_kept(entries);
    assert forall|i: int| 0 <= i < entries.len() implies (#[trigger] report_table(entries)[i + 1])
        == row_of(kept(entries[i])->Some_0) by {
        assert(report_table(entries)[i + 1] == report_rows(entries)[i]);
    }
}

/// Every data row has five fields.
proof fn lemma_data_rows_have_five_fields(entries: Seq<EvaluatedModel>)
    ensures
        forall|i: int|
            0 <= i < report_rows(entries).len() ==> (#[trigger] report_rows(entries)[i]).len()
                == 5,
    decreases entries.len(),
{
    if entries.len() > 0 {
        let front = report_rows(entries.drop_last());
        lemma_data_rows_have_five_fields(entries.drop_last());
        assert forall|i: int| 0 <= i < report_rows(entries).len() implies (#[trigger] report_rows(
            entries,
        )[i]).len() == 5 by {
            if i < front.len() {
                assert(report_rows(entries)[i] == front[i]);
            }
        }
    }
}

/// Every row of the table, the header and each data row, has five fields.
pub proof fn lemma_rows_have_five_fields(entries: Seq<EvaluatedModel>)
    ensures
        forall|i: int|
            0 <= i < report_table(entries).len() ==> (#[trigger] report_table(entries)[i]).len()
                == 5,
{
    lemma_data_rows_have_five_fields(entries);
    assert forall|i: int| 0 <= i < report_table(entries).len() implies (#[trigger] report_table(
        entries,
    )[i]).len() == 5 by {
        if i > 0 {
            assert(report_table(entries)[i] == report_rows(entries)[i - 1]);
        }
    }
}

/// A package's row does not depend on the three flags of its license.
pub proof fn lemma_flags_are_in_no_row(first: PkgModel, second: PkgModel)
    requires
        first.name == second.name,
        first.license.full_name == second.license.full_name,
        first.license.short_name == second.license.short_name,
        first.license.spdx_id == second.license.spdx_id,
        first.license.url == second.license.url,
    ensures
        row_of(first) == row_of(second),
{
}

/// An answer that is an empty JSON object gives the row of the identifier
/// and four empty fields.
pub proof fn lemma_empty_object_gives_empty_fields(identifier: Seq<char>, stdout: Seq<u8>)
    requires
        json_document(answer_of(stdout)) == Some(Some(Map::<Seq<char>, JsonMember>::empty())),
    ensures
        pkg_of(identifier, stdout) == Ok::<PkgModel, LicenseError>(
            PkgModel { name: identifier, license: blank_license() },
        ),
        row_kept(EvaluatedModel { identifier, stdout: Some(stdout) }) == Some(
            seq![
                identifier,
                Seq::<char>::empty(),
                Seq::<char>::empty(),
                Seq::<char>::empty(),
                Seq::<char>::empty(),
            ],
        ),
{
}

/// An answer that is no JSON contributes no package, whatever the identifier.
pub proof fn lemma_non_json_is_not_kept(identifier: Seq<char>, stdout: Seq<u8>)
    requires
        json_document(answer_of(stdout)) is None,
    ensures
        pkg_of(identifier, stdout) == Err::<PkgModel, LicenseError>(LicenseError::NotJson),
        kept(EvaluatedModel { identifier, stdout: Some(stdout) }) is None,
{
}

/// A line that contributes no package leaves no trace: the report is that of
/// the list without the line.
pub proof fn lemma_failed_line_is_absent(entries: Seq<EvaluatedModel>, k: int)
    requires
        0 <= k < entries.len(),
        kept(entries[k]) is None,
    ensures
        report_rows(entries) == report_rows(entries.remove(k)),
        report_table(entries) == report_table(entries.remove(k)),
        report_bytes(entries) == report_bytes(entries.remove(k)),
{
    let head = entries.take(k);
    let tail = entries.skip(k + 1);
    assert(entries =~= head + seq![entries[k]] + tail);
    assert(entries.remove(k) =~= head + tail);
    lemma_rows_of_one(entries[k]);
    lemma_rows_concat(head, seq![entries[k]]);
    lemma_rows_concat(head + seq![entries[k]], tail);
    lemma_rows_concat(head, tail);
    assert(report_rows(head) + Seq::<Seq<Seq<char>>>::empty() =~= report_rows(head));
}

/// The report is a function of the lines and the evaluator's answers: two
/// runs over the same lines with the same answers give the same bytes.
pub proof fn lemma_rerun_gives_same_report(first: Seq<EvaluatedModel>, second: Seq<EvaluatedModel>)
    requires
        first.len() == second.len(),
        forall|i: int|
            0 <= i < first.len() ==> first[i].identifier == second[i].identifier
                && first[i].stdout == second[i].stdout,
    ensures
        report_table(first) == report_table(second),
        report_bytes(first) == report_bytes(second),
{
    assert(first =~= second);
}

} // verus!
