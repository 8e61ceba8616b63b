//! The rows of the report and their comma-separated encoding.
//!
//! A row holds the identifier and four of a license's seven members. The
//! encoding of a row, quoting included, is the `csv` crate's.

use crate::evaluator::texts;
use crate::license::{Pkg, PkgModel};
use vstd::prelude::*;
use vstd::string::StringExecFns;

verus! {

/// Why a row could not be written.
#[derive(Clone, Copy, Debug, PartialEq, Eq, Structural)]
pub enum ReportError {
    /// The encoder refused the record.
    Encoding,
}

/// `csv::Error`: why a record could not be written.
#[verifier::external_type_specification]
#[verifier::external_body]
pub struct ExCsvError(csv::Error);

/// What a `csv::Writer` with default settings makes of a record that is the
/// first it is given: the bytes it writes (the fields, quoted where needed and
/// separated by commas, and the line's end), or `None` where it reports an
/// error.
pub uninterp spec fn csv_line(fields: Seq<Seq<char>>) -> Option<Seq<u8>>;

/// Writes one record through a fresh `csv::Writer` over a byte vector
/// (`Writer::from_writer`, `write_record`, `into_inner`). Trusted: the vector
/// holds the named line of the fields, and an error comes exactly where the
/// fields have no such line.
#[verifier::external_body]
fn encode_record(fields: &Vec<String>) -> (r: Result<Vec<u8>, csv::Error>)
    ensures
        match r {
            Ok(line) => csv_line(texts(fields@)) == Some(line@),
            Err(_) => csv_line(texts(fields@)) is None,
        },
{
    let mut writer = csv::Writer::from_writer(Vec::new());
    writer.write_record(fields)?;
    match writer.into_inner() {
        Ok(line) => Ok(line),
        Err(e) => Err(csv::Error::from(e.into_error())),
    }
}

/// The header of the table.
pub open spec fn header_row() -> Seq<Seq<char>> {
    seq!["name"@, "fullName"@, "shortName"@, "spdxId"@, "url"@]
}

/// The row of a package: its name, then the full name, short name, SPDX
/// identifier and address of its license. The license's three flags are in no
/// row.
pub open spec fn row_of(pkg: PkgModel) -> Seq<Seq<char>> {
    seq![
        pkg.name,
        pkg.license.full_name,
        pkg.license.short_name,
        pkg.license.spdx_id,
        pkg.license.url,
    ]
}

/// The five column names.
pub fn header_fields() -> (r: Vec<String>)
    ensures
        r@.len() == 5,
        texts(r@) == header_row(),
{
    let mut fields: Vec<String> = Vec::new();
    fields.push(String::from_str("name"));
    fields.push(String::from_str("fullName"));
    fields.push(String::from_str("shortName"));
    fields.push(String::from_str("spdxId"));
    fields.push(String::from_str("url"));
    assert(texts(fields@) =~= header_row());
    fields
}

/// The five fields of a package's row, in the header's order.
pub fn row_fields(pkg: &Pkg) -> (r: Vec<String>)
    ensures
        r@.len() == 5,
        texts(r@) == row_of(pkg@),
{
    let mut fields: Vec<String> = Vec::new();
    fields.push(pkg.name.clone());
    fields.push(pkg.license.full_name.clone());
    fields.push(pkg.license.short_name.clone());
    fields.push(pkg.license.spdx_id.clone());
    fields.push(pkg.license.url.clone());
    assert(texts(fields@) =~= row_of(pkg@));
    fields
}

/// Appends an encoded line to the output, or reports that there is none. On
/// an error the output is left as it was.
pub fn append_line(out: &mut Vec<u8>, encoded: Result<Vec<u8>, csv::Error>) -> (r: Result<
    (),
    ReportError,
>)
    ensures
        match encoded {
            Ok(line) => r is Ok && final(out)@ == old(out)@ + line@,
            Err(_) => r == Err::<(), ReportError>(ReportError::Encoding) && final(out)@ == old(
                out,
            )@,
        },
{
    match encoded {
        Ok(line) => {
            let mut line = line;
            out.append(&mut line);
            Ok(())
        },
        Err(_) => Err(ReportError::Encoding),
    }
}

/// What writing a record's line does to the output and returns: where the
/// encoder has a line for the fields, the output grows by it; where it has
/// none, the output stays and the error is `Encoding`.
pub open spec fn line_written(
    fields: Seq<Seq<char>>,
    before: Seq<u8>,
    after: Seq<u8>,
    r: Result<(), ReportError>,
) -> bool {
    match csv_line(fields) {
        Some(line) => r is Ok && after == before + line,
        None => r == Err::<(), ReportError>(ReportError::Encoding) && after == before,
    }
}

/// Appends the header line to the output. It fails exactly where the encoder
/// refuses the header, and then leaves the output as it was.
pub fn write_header(out: &mut Vec<u8>) -> (r: Result<(), ReportError>)
    ensures
        line_written(header_row(), old(out)@, final(out)@, r),
{
    let fields = header_fields();
    append_line(out, encode_record(&fields))
}

/// Appends the line of a package's row to the output. It fails exactly where
/// the encoder refuses the row, and then leaves the output as it was.
pub fn write_csv_record(pkg: Pkg, out: &mut Vec<u8>) -> (r: Result<(), ReportError>)
    ensures
        line_written(row_of(pkg@), old(out)@, final(out)@, r),
{
    let fields = row_fields(&pkg);
    append_line(out, encode_record(&fields))
}

} // verus!
