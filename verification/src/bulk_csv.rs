//! The CSV side of bulk editing: the public column layout, reading and
//! checking import rows, and writing export, preview and failure reports
//! through the `csv` crate.
use vstd::prelude::*;

use crate::bulk::{csv_bool, parse_csv_bool, trimmed_string};
use crate::dto::{SeoMetaRecord, SeoTargetSlug};
use crate::error::SeoError;
use crate::json::{parse_json_text, parsed_json, serialized_json, to_json_text, JsonData, JsonValue};
use crate::text::{
    append, dec_nat, opt_view, owned, push_dec_u64, str_eq, trim, trim_str, trimmed_nonblank,
    uuid_text, uuid_to_string, views,
};
use crate::urls::{parse_uuid, parsed_uuid};

verus! {

/// The public columns of bulk CSV files, in order.
pub open spec fn csv_header_names() -> Seq<Seq<char>> {
    seq![
        "target_kind"@,
        "target_id"@,
        "locale"@,
        "title"@,
        "description"@,
        "keywords"@,
        "canonical_url"@,
        "og_title"@,
        "og_description"@,
        "og_image"@,
        "structured_data"@,
        "noindex"@,
        "nofollow"@,
    ]
}

/// The number of public bulk CSV columns.
pub const CSV_COLUMN_COUNT: usize = 13;

/// The media type of bulk CSV artifacts.
pub const CSV_MIME_TYPE: &'static str = "text/csv; charset=utf-8";

/// The public columns of bulk CSV files (see `csv_header_names`).
pub fn csv_headers() -> (r: Vec<String>)
    ensures
        views(r@) == csv_header_names(),
        r.len() == CSV_COLUMN_COUNT,
{
    let mut r: Vec<String> = Vec::new();
    r.push(owned("target_kind"));
    r.push(owned("target_id"));
    r.push(owned("locale"));
    r.push(owned("title"));
    r.push(owned("description"));
    r.push(owned("keywords"));
    r.push(owned("canonical_url"));
    r.push(owned("og_title"));
    r.push(owned("og_description"));
    r.push(owned("og_image"));
    r.push(owned("structured_data"));
    r.push(owned("noindex"));
    r.push(owned("nofollow"));
    assert(views(r@) =~= csv_header_names());
    r
}

/// The first column at or after `from` whose header differs from the
/// public layout.
pub open spec fn first_header_mismatch(h: Seq<Seq<char>>, from: int) -> Option<int>
    decreases 13 - from,
{
    if from < 0 || from >= 13 {
        None
    } else if h[from] != csv_header_names()[from] {
        Some(from)
    } else {
        first_header_mismatch(h, from + 1)
    }
}

/// What is wrong with a CSV header row: a count other than 13, or the
/// first column that differs from the public layout.
pub open spec fn header_problem(h: Seq<Seq<char>>) -> Option<Seq<char>> {
    if h.len() != 13 {
        Some("invalid CSV header length: expected 13, got "@ + dec_nat(h.len()))
    } else {
        match first_header_mismatch(h, 0) {
            Some(i) => Some(
                "invalid CSV header at column "@ + dec_nat((i + 1) as nat) + ": expected `"@
                    + csv_header_names()[i] + "`, got `"@ + h[i] + "`"@,
            ),
            None => None,
        }
    }
}

/// Checks the header row of an import against the public layout (see
/// `header_problem`).
pub fn validate_csv_headers(headers: &Vec<String>) -> (r: Result<(), SeoError>)
    ensures
        match (r, header_problem(views(headers@))) {
            (Ok(()), None) => true,
            (Err(SeoError::Validation(m)), Some(p)) => m@ == p,
            _ => false,
        },
{
    let ghost h = views(headers@);
    if headers.len() != CSV_COLUMN_COUNT {
        let mut m = owned("invalid CSV header length: expected 13, got ");
        push_dec_u64(&mut m, headers.len() as u64);
        return Err(SeoError::validation(m));
    }
    let expected = csv_headers();
    let mut i: usize = 0;
    while i < CSV_COLUMN_COUNT
        invariant
            i <= CSV_COLUMN_COUNT,
            headers.len() == CSV_COLUMN_COUNT,
            h == views(headers@),
            views(expected@) == csv_header_names(),
            expected.len() == CSV_COLUMN_COUNT,
            first_header_mismatch(h, 0) == first_header_mismatch(h, i as int),
        decreases CSV_COLUMN_COUNT - i,
    {
        assert(h[i as int] == headers@[i as int]@);
        assert(csv_header_names()[i as int] == expected@[i as int]@);
        if !str_eq(headers[i].as_str(), expected[i].as_str()) {
            let mut m = owned("invalid CSV header at column ");
            push_dec_u64(&mut m, (i + 1) as u64);
            append(&mut m, ": expected `");
            append(&mut m, expected[i].as_str());
            append(&mut m, "`, got `");
            append(&mut m, headers[i].as_str());
            append(&mut m, "`");
            return Err(SeoError::validation(m));
        }
        i = i + 1;
    }
    Ok(())
}

// ---------------------------------------------------------------------------
// Reading
// ---------------------------------------------------------------------------

/// What the `csv` reader gives for an import: the header row (or the text
/// of the error that stopped it), the records read, and the text of the
/// error that stopped reading further records, if any.
#[derive(Debug)]
pub struct CsvTable {
    pub headers: Result<Vec<String>, String>,
    pub records: Vec<Vec<String>>,
    pub failure: Option<String>,
}

/// The mathematical form of a CSV table.
pub struct CsvTableData {
    pub headers: Result<Seq<Seq<char>>, Seq<char>>,
    pub records: Seq<Seq<Seq<char>>>,
    pub failure: Option<Seq<char>>,
}

/// The views of rows of texts.
pub open spec fn rows_view(v: Seq<Vec<String>>) -> Seq<Seq<Seq<char>>> {
    v.map_values(|r: Vec<String>| views(r@))
}

impl View for CsvTable {
    type V = CsvTableData;

    open spec fn view(&self) -> CsvTableData {
        CsvTableData {
            headers: match self.headers {
                Ok(h) => Ok(views(h@)),
                Err(e) => Err(e@),
            },
            records: rows_view(self.records@),
            failure: opt_view(self.failure),
        }
    }
}

/// What the `csv` crate reads from a text with a header row and records of
/// equal length.
pub uninterp spec fn csv_table_of(text: Seq<char>) -> CsvTableData;

/// Reads CSV text with `csv::Reader::from_reader`, whose defaults expect a
/// header row and records of equal length: the header row, then records
/// until the first read error.
/// The outcome is named (`csv_table_of`); the `csv` crate decides how text
/// splits into fields and which inputs fail.
#[verifier::external_body]
pub(crate) fn read_csv_table(text: &str) -> (r: CsvTable)
    ensures
        r@ == csv_table_of(text@),
{
    let mut rdr = csv::Reader::from_reader(text.as_bytes());
    let fields = |r: &csv::StringRecord| r.iter().map(String::from).collect::<Vec<String>>();
    let headers = match rdr.headers() {
        Ok(h) => fields(h),
        Err(e) => return CsvTable { headers: Err(e.to_string()), records: Vec::new(), failure: None },
    };
    let mut records = Vec::new();
    for rec in rdr.records() {
        match rec {
            Ok(r) => records.push(fields(&r)),
            Err(e) => return CsvTable { headers: Ok(headers), records, failure: Some(e.to_string()) },
        }
    }
    CsvTable { headers: Ok(headers), records, failure: None }
}

/// The records of an import whose header row is the public layout: the
/// header error, or the header problem, or else the table as read.
pub open spec fn import_table(text: Seq<char>) -> Result<CsvTableData, Seq<char>> {
    let t = csv_table_of(text);
    match t.headers {
        Err(e) => Err("failed to read CSV headers: "@ + e),
        Ok(h) => match header_problem(h) {
            Some(p) => Err(p),
            None => Ok(t),
        },
    }
}

/// Reads an import file and checks its header row (see `import_table`).
/// Records after a read error are not read; the caller reports that error
/// once the records before it are handled.
pub fn read_bulk_csv(csv_utf8: &str) -> (r: Result<CsvTable, SeoError>)
    ensures
        match (r, import_table(csv_utf8@)) {
            (Ok(t), Ok(d)) => t@ == d,
            (Err(SeoError::Validation(m)), Err(e)) => m@ == e,
            _ => false,
        },
{
    let table = read_csv_table(csv_utf8);
    match &table.headers {
        Err(e) => {
            let mut m = owned("failed to read CSV headers: ");
            append(&mut m, e.as_str());
            return Err(SeoError::validation(m));
        },
        Ok(h) => {
            let checked = validate_csv_headers(h);
            match checked {
                Ok(()) => {},
                Err(e) => return Err(e),
            }
        },
    }
    Ok(table)
}

/// The error of reading the record after the last one read: the record
/// numbers count the header row, so record `k` (from 0) is row `k + 2`.
pub open spec fn record_read_error(records_read: nat, failure: Seq<char>) -> Seq<char> {
    "failed to read CSV row "@ + dec_nat(records_read + 2) + ": "@ + failure
}

/// The error of reading the record after `records_read` records.
pub fn csv_read_error(records_read: usize, failure: &str) -> (r: SeoError)
    requires
        records_read + 2 <= usize::MAX,
    ensures
        r matches SeoError::Validation(m) && m@ == record_read_error(records_read as nat, failure@),
{
    let mut m = owned("failed to read CSV row ");
    push_dec_u64(&mut m, (records_read + 2) as u64);
    append(&mut m, ": ");
    append(&mut m, failure);
    SeoError::validation(m)
}

/// One row of a bulk import.
#[derive(Debug)]
pub struct BulkImportRow {
    pub row_number: usize,
    /// The target, as the 128-bit value of its UUID.
    pub target_id: u128,
    pub title: Option<String>,
    pub description: Option<String>,
    pub keywords: Option<String>,
    pub canonical_url: Option<String>,
    pub og_title: Option<String>,
    pub og_description: Option<String>,
    pub og_image: Option<String>,
    pub structured_data: Option<JsonValue>,
    pub noindex: bool,
    pub nofollow: bool,
}

/// The mathematical form of an import row.
pub struct ImportRowData {
    pub row_number: nat,
    pub target_id: u128,
    pub title: Option<Seq<char>>,
    pub description: Option<Seq<char>>,
    pub keywords: Option<Seq<char>>,
    pub canonical_url: Option<Seq<char>>,
    pub og_title: Option<Seq<char>>,
    pub og_description: Option<Seq<char>>,
    pub og_image: Option<Seq<char>>,
    pub structured_data: Option<JsonData>,
    pub noindex: bool,
    pub nofollow: bool,
}

impl View for BulkImportRow {
    type V = ImportRowData;

    open spec fn view(&self) -> ImportRowData {
        ImportRowData {
            row_number: self.row_number as nat,
            target_id: self.target_id,
            title: opt_view(self.title),
            description: opt_view(self.description),
            keywords: opt_view(self.keywords),
            canonical_url: opt_view(self.canonical_url),
            og_title: opt_view(self.og_title),
            og_description: opt_view(self.og_description),
            og_image: opt_view(self.og_image),
            structured_data: match self.structured_data {
                Some(v) => Some(v@),
                None => None,
            },
            noindex: self.noindex,
            nofollow: self.nofollow,
        }
    }
}

/// A cell of a record, when the record has that many cells.
pub open spec fn cell(r: Seq<Seq<char>>, i: int) -> Option<Seq<char>> {
    if 0 <= i < r.len() {
        Some(r[i])
    } else {
        None
    }
}

/// A cell of a record, empty when the record is shorter.
pub open spec fn cell_text(r: Seq<Seq<char>>, i: int) -> Seq<char> {
    match cell(r, i) {
        Some(c) => c,
        None => Seq::empty(),
    }
}

/// The target of an import record: its kind must be the import's kind and
/// its id a UUID.
pub open spec fn record_target(r: Seq<Seq<char>>, kind: Seq<char>, n: nat) -> Result<u128, Seq<char>> {
    let tk = trim(cell_text(r, 0));
    if tk != kind {
        Err(
            "row "@ + dec_nat(n) + " has target_kind `"@ + tk + "` but current import scope is `"@
                + kind + "`"@,
        )
    } else {
        match parsed_uuid(trim(cell_text(r, 1))) {
            Ok(id) => Ok(id),
            Err(e) => Err("row "@ + dec_nat(n) + " contains invalid target_id: "@ + e),
        }
    }
}

/// The structured data of an import record: none for a blank cell, else
/// the parsed JSON.
pub open spec fn record_json(r: Seq<Seq<char>>, n: nat) -> Result<Option<JsonData>, Seq<char>> {
    match trimmed_nonblank(cell_text(r, 10)) {
        None => Ok(None),
        Some(t) => match parsed_json(t) {
            Ok(v) => Ok(Some(v)),
            Err(e) => Err("row "@ + dec_nat(n) + " contains invalid structured_data JSON: "@ + e),
        },
    }
}

/// The rest of an import record once its target and locale are known: the
/// locale must be the import's locale; the text cells are trimmed (blank
/// ones are none); then come the structured data and the two flags.
pub open spec fn record_rest(r: Seq<Seq<char>>, locale: Seq<char>, expected: Seq<char>, n: nat, id: u128) -> Result<ImportRowData, Seq<char>> {
    if locale != expected {
        Err(
            "row "@ + dec_nat(n) + " has locale `"@ + locale + "` but current import scope is `"@
                + expected + "`"@,
        )
    } else {
        match record_json(r, n) {
            Err(e) => Err(e),
            Ok(sd) => match csv_bool(cell(r, 11), n, "noindex"@) {
                Err(e) => Err(e),
                Ok(noindex) => match csv_bool(cell(r, 12), n, "nofollow"@) {
                    Err(e) => Err(e),
                    Ok(nofollow) => Ok(
                        ImportRowData {
                            row_number: n,
                            target_id: id,
                            title: trimmed_nonblank(cell_text(r, 3)),
                            description: trimmed_nonblank(cell_text(r, 4)),
                            keywords: trimmed_nonblank(cell_text(r, 5)),
                            canonical_url: trimmed_nonblank(cell_text(r, 6)),
                            og_title: trimmed_nonblank(cell_text(r, 7)),
                            og_description: trimmed_nonblank(cell_text(r, 8)),
                            og_image: trimmed_nonblank(cell_text(r, 9)),
                            structured_data: sd,
                            noindex,
                            nofollow,
                        },
                    ),
                },
            },
        }
    }
}

fn get_cell(record: &Vec<String>, i: usize) -> (r: Option<&str>)
    ensures
        match r {
            Some(s) => cell(views(record@), i as int) == Some(s@),
            None => cell(views(record@), i as int) is None,
        },
{
    if i < record.len() {
        Some(record[i].as_str())
    } else {
        None
    }
}

fn cell_or_empty(record: &Vec<String>, i: usize) -> (r: &str)
    ensures
        r@ == cell_text(views(record@), i as int),
{
    if i < record.len() {
        record[i].as_str()
    } else {
        proof {
            reveal_strlit("");
        }
        ""
    }
}

fn trimmed_cell(record: &Vec<String>, i: usize) -> (r: Option<String>)
    ensures
        opt_view(r) == trimmed_nonblank(cell_text(views(record@), i as int)),
{
    trimmed_string(get_cell(record, i))
}

/// Checks and reads one import record, the `row_number`-th row of the file
/// (see `record_target` and `record_rest`).  `locale` is the record's
/// locale cell normalized against the import's locale; an error there is
/// returned as it is once the target checks pass.
pub fn parse_bulk_csv_record(
    record: &Vec<String>,
    expected_kind: &SeoTargetSlug,
    expected_locale: &str,
    row_number: usize,
    locale: Result<String, SeoError>,
) -> (r: Result<BulkImportRow, SeoError>)
    ensures
        match record_target(views(record@), expected_kind@, row_number as nat) {
            Err(m) => r matches Err(SeoError::Validation(x)) && x@ == m,
            Ok(id) => match locale {
                Err(le) => r == Err::<BulkImportRow, SeoError>(le),
                Ok(l) => match record_rest(
                    views(record@),
                    l@,
                    expected_locale@,
                    row_number as nat,
                    id,
                ) {
                    Ok(d) => r matches Ok(row) && row@ == d,
                    Err(m) => r matches Err(SeoError::Validation(x)) && x@ == m,
                },
            },
        },
{
    let n = row_number;
    let ghost rv = views(record@);
    let target_kind = trim_str(cell_or_empty(record, 0));
    if !str_eq(target_kind.as_str(), expected_kind.as_str()) {
        let mut m = owned("row ");
        push_dec_u64(&mut m, n as u64);
        append(&mut m, " has target_kind `");
        append(&mut m, target_kind.as_str());
        append(&mut m, "` but current import scope is `");
        append(&mut m, expected_kind.as_str());
        append(&mut m, "`");
        return Err(SeoError::validation(m));
    }
    let id_text = trim_str(cell_or_empty(record, 1));
    let target_id = match parse_uuid(id_text.as_str()) {
        Ok(v) => v,
        Err(e) => {
            let mut m = owned("row ");
            push_dec_u64(&mut m, n as u64);
            append(&mut m, " contains invalid target_id: ");
            append(&mut m, e.as_str());
            return Err(SeoError::validation(m));
        },
    };
    let l = match locale {
        Ok(l) => l,
        Err(e) => return Err(e),
    };
    if !str_eq(l.as_str(), expected_locale) {
        let mut m = owned("row ");
        push_dec_u64(&mut m, n as u64);
        append(&mut m, " has locale `");
        append(&mut m, l.as_str());
        append(&mut m, "` but current import scope is `");
        append(&mut m, expected_locale);
        append(&mut m, "`");
        return Err(SeoError::validation(m));
    }
    let title = trimmed_cell(record, 3);
    let description = trimmed_cell(record, 4);
    let keywords = trimmed_cell(record, 5);
    let canonical_url = trimmed_cell(record, 6);
    let og_title = trimmed_cell(record, 7);
    let og_description = trimmed_cell(record, 8);
    let og_image = trimmed_cell(record, 9);
    let structured_data = match trimmed_cell(record, 10) {
        None => None,
        Some(t) => match parse_json_text(t.as_str()) {
            Ok(v) => Some(v),
            Err(e) => {
                let mut m = owned("row ");
                push_dec_u64(&mut m, n as u64);
                append(&mut m, " contains invalid structured_data JSON: ");
                append(&mut m, e.as_str());
                return Err(SeoError::validation(m));
            },
        },
    };
    proof {
        reveal_strlit("noindex");
        reveal_strlit("nofollow");
    }
    let noindex = match parse_csv_bool(get_cell(record, 11), n, "noindex") {
        Ok(b) => b,
        Err(e) => return Err(e),
    };
    let nofollow = match parse_csv_bool(get_cell(record, 12), n, "nofollow") {
        Ok(b) => b,
        Err(e) => return Err(e),
    };
    Ok(
        BulkImportRow {
            row_number: n,
            target_id,
            title,
            description,
            keywords,
            canonical_url,
            og_title,
            og_description,
            og_image,
            structured_data,
            noindex,
            nofollow,
        },
    )
}

/// The row an import record is read into, when it passes every check.
#[verifier::opaque]
pub open spec fn record_row(
    r: Seq<Seq<char>>,
    kind: Seq<char>,
    expected_locale: Seq<char>,
    n: nat,
    locale: Result<String, SeoError>,
) -> Option<ImportRowData> {
    match record_target(r, kind, n) {
        Err(_) => None,
        Ok(id) => match locale {
            Err(_) => None,
            Ok(l) => match record_rest(r, l@, expected_locale, n, id) {
                Ok(d) => Some(d),
                Err(_) => None,
            },
        },
    }
}

/// `e` is the error of reading an import record that fails a check: the
/// message of the first check it fails, or the locale error as it is.
#[verifier::opaque]
pub open spec fn is_record_error(
    e: SeoError,
    r: Seq<Seq<char>>,
    kind: Seq<char>,
    expected_locale: Seq<char>,
    n: nat,
    locale: Result<String, SeoError>,
) -> bool {
    match record_target(r, kind, n) {
        Err(m) => e matches SeoError::Validation(x) && x@ == m,
        Ok(id) => match locale {
            Err(le) => e == le,
            Ok(l) => match record_rest(r, l@, expected_locale, n, id) {
                Ok(_) => false,
                Err(m) => e matches SeoError::Validation(x) && x@ == m,
            },
        },
    }
}

/// Reads the records of an import file into rows, the `i`-th record being
/// row `i + 2` of the file and `locales[i]` its locale cell normalized
/// against the import's locale.  The first record that fails a check gives
/// the error; when every record passes, a read error after them is
/// reported for the row that could not be read.
pub fn parse_bulk_rows(
    table: &CsvTable,
    expected_kind: &SeoTargetSlug,
    expected_locale: &str,
    locales: Vec<Result<String, SeoError>>,
) -> (r: Result<Vec<BulkImportRow>, SeoError>)
    requires
        locales.len() == table.records.len(),
        table.records.len() + 2 <= usize::MAX,
    ensures
        ({
            let recs = table@.records;
            let all_pass = forall|i: int|
                0 <= i < recs.len() ==> (#[trigger] record_row(
                    recs[i],
                    expected_kind@,
                    expected_locale@,
                    (i + 2) as nat,
                    locales@[i],
                )) is Some;
            match r {
                Ok(rows) => {
                    &&& all_pass
                    &&& table.failure is None
                    &&& rows.len() == recs.len()
                    &&& forall|i: int|
                        0 <= i < recs.len() ==> record_row(
                            recs[i],
                            expected_kind@,
                            expected_locale@,
                            (i + 2) as nat,
                            locales@[i],
                        ) == Some(#[trigger] rows@[i]@)
                },
                Err(e) => {
                    ||| exists|k: int|
                        0 <= k < recs.len() && (forall|i: int|
                            0 <= i < k ==> (#[trigger] record_row(
                                recs[i],
                                expected_kind@,
                                expected_locale@,
                                (i + 2) as nat,
                                locales@[i],
                            )) is Some) && is_record_error(
                            e,
                            #[trigger] recs[k],
                            expected_kind@,
                            expected_locale@,
                            (k + 2) as nat,
                            locales@[k],
                        )
                    ||| all_pass && (table.failure matches Some(f) && (e matches SeoError::Validation(m)
                        && m@ == record_read_error(recs.len() as nat, f@)))
                },
            }
        }),
{
    let ghost recs = table@.records;
    let mut rows: Vec<BulkImportRow> = Vec::new();
    let ghost all_locales = locales@;
    let mut pending = locales;
    let mut i: usize = 0;
    while i < table.records.len()
        invariant
            i <= table.records.len(),
            recs == table@.records,
            recs.len() == table.records.len(),
            all_locales.len() == table.records.len(),
            table.records.len() + 2 <= usize::MAX,
            all_locales == locales@,
            pending@.len() == all_locales.len() - i,
            forall|j: int| 0 <= j < pending@.len() ==> #[trigger] pending@[j] == all_locales[j + i],
            rows.len() == i,
            forall|j: int|
                0 <= j < i ==> record_row(
                    recs[j],
                    expected_kind@,
                    expected_locale@,
                    (j + 2) as nat,
                    all_locales[j],
                ) == Some(#[trigger] rows@[j]@),
        decreases table.records.len() - i,
    {
        let locale = pending.remove(0);
        proof {
            assert(locale == all_locales[i as int]);
            assert(recs[i as int] == views(table.records@[i as int]@));
        }
        let row = parse_bulk_csv_record(&table.records[i], expected_kind, expected_locale, i + 2, locale);
        match row {
            Ok(row) => {
                proof {
                    reveal(record_row);
                }
                rows.push(row);
            },
            Err(e) => {
                proof {
                    reveal(is_record_error);
                    assert(is_record_error(e, recs[i as int], expected_kind@, expected_locale@, (i + 2) as nat, all_locales[i as int]));
                    assert forall|j: int| 0 <= j < i implies (#[trigger] record_row(
                        recs[j],
                        expected_kind@,
                        expected_locale@,
                        (j + 2) as nat,
                        all_locales[j],
                    )) is Some by {
                        assert(record_row(recs[j], expected_kind@, expected_locale@, (j + 2) as nat, all_locales[j]) == Some(rows@[j]@));
                    }
                    let k = i as int;
                    assert(0 <= k < recs.len() && (forall|j: int|
                        0 <= j < k ==> (#[trigger] record_row(
                            recs[j],
                            expected_kind@,
                            expected_locale@,
                            (j + 2) as nat,
                            all_locales[j],
                        )) is Some) && is_record_error(
                        e,
                        recs[k],
                        expected_kind@,
                        expected_locale@,
                        (k + 2) as nat,
                        all_locales[k],
                    ));
                }
                return Err(e);
            },
        }
        i = i + 1;
    }
    proof {
        assert forall|j: int| 0 <= j < recs.len() implies (#[trigger] record_row(
            recs[j],
            expected_kind@,
            expected_locale@,
            (j + 2) as nat,
            all_locales[j],
        )) is Some by {
            assert(record_row(recs[j], expected_kind@, expected_locale@, (j + 2) as nat, all_locales[j]) == Some(rows@[j]@));
        }
    }
    match &table.failure {
        Some(f) => Err(csv_read_error(table.records.len(), f.as_str())),
        None => Ok(rows),
    }
}

// ---------------------------------------------------------------------------
// Rows of export, preview and failure reports
// ---------------------------------------------------------------------------

/// The text of a flag (`bool::to_string`).
pub open spec fn bool_text(b: bool) -> Seq<char> {
    if b {
        "true"@
    } else {
        "false"@
    }
}

fn bool_string(b: bool) -> (r: String)
    ensures
        r@ == bool_text(b),
{
    if b {
        owned("true")
    } else {
        owned("false")
    }
}

/// An optional text, empty when absent.
pub open spec fn or_empty(o: Option<Seq<char>>) -> Seq<char> {
    match o {
        Some(s) => s,
        None => Seq::empty(),
    }
}

fn string_or_empty(o: &Option<String>) -> (r: String)
    ensures
        r@ == or_empty(opt_view(*o)),
{
    match o {
        Some(s) => s.clone(),
        None => String::new(),
    }
}

/// The compact JSON text of optional structured data, empty when absent.
pub open spec fn json_cell(o: Option<JsonData>) -> Seq<char> {
    match o {
        Some(v) => serialized_json(v),
        None => Seq::empty(),
    }
}

fn json_string(o: &Option<JsonValue>) -> (r: String)
    ensures
        r@ == json_cell(
            match o {
                Some(v) => Some(v@),
                None => None,
            },
        ),
{
    match o {
        Some(v) => to_json_text(v),
        None => String::new(),
    }
}

/// The export row of a target's metadata, in the public column order.
pub open spec fn export_row(kind: Seq<char>, id: u128, locale: Seq<char>, m: SeoMetaRecord) -> Seq<Seq<char>> {
    seq![
        kind,
        uuid_text(id),
        locale,
        or_empty(opt_view(m.translation.title)),
        or_empty(opt_view(m.translation.description)),
        or_empty(opt_view(m.translation.keywords)),
        or_empty(opt_view(m.canonical_url)),
        or_empty(opt_view(m.translation.og_title)),
        or_empty(opt_view(m.translation.og_description)),
        or_empty(opt_view(m.translation.og_image)),
        json_cell(
            match m.structured_data {
                Some(v) => Some(v@),
                None => None,
            },
        ),
        bool_text(m.noindex),
        bool_text(m.nofollow),
    ]
}

/// The export row of a target's metadata (see `export_row`).
pub fn export_csv_row(target_kind: &SeoTargetSlug, target_id: u128, locale: &str, record: &SeoMetaRecord) -> (r: Vec<String>)
    ensures
        views(r@) == export_row(target_kind@, target_id, locale@, *record),
{
    let mut r: Vec<String> = Vec::new();
    r.push(owned(target_kind.as_str()));
    r.push(uuid_to_string(target_id));
    r.push(owned(locale));
    r.push(string_or_empty(&record.translation.title));
    r.push(string_or_empty(&record.translation.description));
    r.push(string_or_empty(&record.translation.keywords));
    r.push(string_or_empty(&record.canonical_url));
    r.push(string_or_empty(&record.translation.og_title));
    r.push(string_or_empty(&record.translation.og_description));
    r.push(string_or_empty(&record.translation.og_image));
    r.push(json_string(&record.structured_data));
    r.push(bool_string(record.noindex));
    r.push(bool_string(record.nofollow));
    assert(views(r@) =~= export_row(target_kind@, target_id, locale@, *record));
    r
}

/// The export row of an imported row, in the public column order.
pub open spec fn import_export_row(kind: Seq<char>, locale: Seq<char>, d: ImportRowData) -> Seq<Seq<char>> {
    seq![
        kind,
        uuid_text(d.target_id),
        locale,
        or_empty(d.title),
        or_empty(d.description),
        or_empty(d.keywords),
        or_empty(d.canonical_url),
        or_empty(d.og_title),
        or_empty(d.og_description),
        or_empty(d.og_image),
        json_cell(d.structured_data),
        bool_text(d.noindex),
        bool_text(d.nofollow),
    ]
}

/// The export row of an imported row (see `import_export_row`).
pub fn export_csv_row_values(target_kind: &SeoTargetSlug, locale: &str, row: &BulkImportRow) -> (r: Vec<String>)
    ensures
        views(r@) == import_export_row(target_kind@, locale@, row@),
{
    let mut r: Vec<String> = Vec::new();
    r.push(owned(target_kind.as_str()));
    r.push(uuid_to_string(row.target_id));
    r.push(owned(locale));
    r.push(string_or_empty(&row.title));
    r.push(string_or_empty(&row.description));
    r.push(string_or_empty(&row.keywords));
    r.push(string_or_empty(&row.canonical_url));
    r.push(string_or_empty(&row.og_title));
    r.push(string_or_empty(&row.og_description));
    r.push(string_or_empty(&row.og_image));
    r.push(json_string(&row.structured_data));
    r.push(bool_string(row.noindex));
    r.push(bool_string(row.nofollow));
    assert(views(r@) =~= import_export_row(target_kind@, locale@, row@));
    r
}

/// A row with the target columns filled and every metadata column empty.
pub open spec fn blank_row(kind: Seq<char>, id: u128, locale: Seq<char>) -> Seq<Seq<char>> {
    seq![kind, uuid_text(id), locale] + Seq::new(10, |i: int| Seq::<char>::empty())
}

/// A row with the target columns filled and every metadata column empty
/// (see `blank_row`).
pub fn empty_csv_row(target_kind: &str, target_id: u128, locale: &str) -> (r: Vec<String>)
    ensures
        views(r@) == blank_row(target_kind@, target_id, locale@),
        r.len() == CSV_COLUMN_COUNT,
{
    let mut r: Vec<String> = Vec::new();
    r.push(owned(target_kind));
    r.push(uuid_to_string(target_id));
    r.push(owned(locale));
    let mut i: usize = 0;
    while i < 10
        invariant
            i <= 10,
            r.len() == 3 + i,
            views(r@) == seq![target_kind@, uuid_text(target_id), locale@] + Seq::new(
                i as nat,
                |k: int| Seq::<char>::empty(),
            ),
        decreases 10 - i,
    {
        let ghost prev = r@;
        r.push(String::new());
        proof {
            crate::text::lemma_views_push(prev, r@.last());
        }
        i = i + 1;
        assert(views(r@) =~= seq![target_kind@, uuid_text(target_id), locale@] + Seq::new(
            i as nat,
            |k: int| Seq::<char>::empty(),
        ));
    }
    r
}

/// The preview row of a target whose metadata could not be loaded: the
/// target columns only (see `blank_row`).
pub fn preview_failure_row(target_kind: &str, target_id: u128, locale: &str) -> (r: Vec<String>)
    ensures
        views(r@) == blank_row(target_kind@, target_id, locale@),
{
    empty_csv_row(target_kind, target_id, locale)
}

// ---------------------------------------------------------------------------
// Writing
// ---------------------------------------------------------------------------

/// Why writing CSV records failed: a record (by index) was refused, the
/// writer could not be flushed, or the bytes are not UTF-8.
#[derive(Clone, Debug)]
pub enum CsvWriteFailure {
    Record(usize, String),
    Finish(String),
    Encoding(String),
}

/// The mathematical form of a CSV write failure.
pub enum CsvWriteFailureData {
    Record(nat, Seq<char>),
    Finish(Seq<char>),
    Encoding(Seq<char>),
}

impl View for CsvWriteFailure {
    type V = CsvWriteFailureData;

    open spec fn view(&self) -> CsvWriteFailureData {
        match self {
            CsvWriteFailure::Record(i, e) => CsvWriteFailureData::Record(*i as nat, e@),
            CsvWriteFailure::Finish(e) => CsvWriteFailureData::Finish(e@),
            CsvWriteFailure::Encoding(e) => CsvWriteFailureData::Encoding(e@),
        }
    }
}

/// The CSV text the `csv` crate writes for records (no header row of its
/// own, records of equal length), or why it failed.
pub uninterp spec fn csv_output(rows: Seq<Seq<Seq<char>>>) -> Result<Seq<char>, CsvWriteFailureData>;

/// Writes records with `csv::WriterBuilder` into memory and decodes the
/// bytes as UTF-8.  The outcome is named (`csv_output`); quoting and line
/// ends are the `csv` crate's.
#[verifier::external_body]
pub(crate) fn write_csv_records(rows: &Vec<Vec<String>>) -> (r: Result<String, CsvWriteFailure>)
    ensures
        match r {
            Ok(t) => csv_output(rows_view(rows@)) == Ok::<Seq<char>, CsvWriteFailureData>(t@),
            Err(f) => csv_output(rows_view(rows@)) == Err::<Seq<char>, CsvWriteFailureData>(f@),
        },
{
    let mut w = csv::WriterBuilder::new().has_headers(false).from_writer(Vec::<u8>::new());
    for (i, row) in rows.iter().enumerate() {
        if let Err(e) = w.write_record(row) {
            return Err(CsvWriteFailure::Record(i, e.to_string()));
        }
    }
    let bytes = w.into_inner().map_err(|e| CsvWriteFailure::Finish(e.to_string()))?;
    String::from_utf8(bytes).map_err(|e| CsvWriteFailure::Encoding(e.to_string()))
}

/// The report written for records: the text, or the failure worded for a
/// report of the given name (`failure` or `preview`).
pub open spec fn report_text(rows: Seq<Seq<Seq<char>>>, name: Seq<char>) -> Result<Seq<char>, Seq<char>> {
    match csv_output(rows) {
        Ok(t) => Ok(t),
        Err(CsvWriteFailureData::Record(i, e)) => if i == 0 {
            Err("failed to write "@ + name + " CSV header: "@ + e)
        } else {
            Err("failed to write "@ + name + " CSV row: "@ + e)
        },
        Err(CsvWriteFailureData::Finish(e)) => Err("failed to finalize "@ + name + " CSV writer: "@ + e),
        Err(CsvWriteFailureData::Encoding(e)) => Err(name + " CSV is not valid UTF-8: "@ + e),
    }
}

fn write_report(rows: &Vec<Vec<String>>, name: &str) -> (r: Result<String, SeoError>)
    ensures
        match (r, report_text(rows_view(rows@), name@)) {
            (Ok(t), Ok(u)) => t@ == u,
            (Err(SeoError::Validation(m)), Err(u)) => m@ == u,
            _ => false,
        },
{
    match write_csv_records(rows) {
        Ok(t) => Ok(t),
        Err(CsvWriteFailure::Record(i, e)) => {
            let mut m = owned("failed to write ");
            append(&mut m, name);
            if i == 0 {
                append(&mut m, " CSV header: ");
            } else {
                append(&mut m, " CSV row: ");
            }
            append(&mut m, e.as_str());
            Err(SeoError::validation(m))
        },
        Err(CsvWriteFailure::Finish(e)) => {
            let mut m = owned("failed to finalize ");
            append(&mut m, name);
            append(&mut m, " CSV writer: ");
            append(&mut m, e.as_str());
            Err(SeoError::validation(m))
        },
        Err(CsvWriteFailure::Encoding(e)) => {
            let mut m = owned(name);
            append(&mut m, " CSV is not valid UTF-8: ");
            append(&mut m, e.as_str());
            Err(SeoError::validation(m))
        },
    }
}

/// The records of a failure report: the public header row plus an
/// `error_message` column, then each row with its message appended.
pub open spec fn failure_rows(rows: Seq<(Vec<String>, String)>) -> Seq<Seq<Seq<char>>> {
    seq![csv_header_names().push("error_message"@)] + rows.map_values(
        |e: (Vec<String>, String)| views(e.0@).push(e.1@),
    )
}

/// The failure report of a bulk job (see `failure_rows` and
/// `report_text`).
pub fn build_failure_csv(rows: &Vec<(Vec<String>, String)>) -> (r: Result<String, SeoError>)
    ensures
        match (r, report_text(failure_rows(rows@), "failure"@)) {
            (Ok(t), Ok(u)) => t@ == u,
            (Err(SeoError::Validation(m)), Err(u)) => m@ == u,
            _ => false,
        },
{
    let mut header = csv_headers();
    let ghost h0 = header@;
    header.push(owned("error_message"));
    proof {
        crate::text::lemma_views_push(h0, header@.last());
    }
    let mut records: Vec<Vec<String>> = Vec::new();
    records.push(header);
    let ghost spec_rows = failure_rows(rows@);
    assert(rows_view(records@) =~= spec_rows.take(1));
    let mut i: usize = 0;
    while i < rows.len()
        invariant
            i <= rows.len(),
            spec_rows == failure_rows(rows@),
            rows_view(records@) == spec_rows.take(i as int + 1),
        decreases rows.len() - i,
    {
        let mut data = crate::text::copy_strings(&rows[i].0);
        let ghost d0 = data@;
        data.push(rows[i].1.clone());
        proof {
            crate::text::lemma_views_push(d0, data@.last());
            assert(spec_rows[i + 1] == views(rows@[i as int].0@).push(rows@[i as int].1@));
        }
        let ghost prev = records@;
        let ghost dv = views(data@);
        records.push(data);
        proof {
            assert(rows_view(records@) =~= rows_view(prev).push(dv));
            assert(spec_rows.take(i as int + 2) =~= spec_rows.take(i as int + 1).push(spec_rows[i + 1]));
        }
        i = i + 1;
    }
    assert(spec_rows.take(rows.len() as int + 1) =~= spec_rows);
    proof {
        reveal_strlit("failure");
    }
    write_report(&records, "failure")
}

/// The records of a preview report: the public header row, then the rows.
pub open spec fn preview_rows(rows: Seq<Vec<String>>) -> Seq<Seq<Seq<char>>> {
    seq![csv_header_names()] + rows_view(rows)
}

/// The preview report of a bulk job (see `preview_rows` and
/// `report_text`).
pub fn build_preview_csv(rows: &Vec<Vec<String>>) -> (r: Result<String, SeoError>)
    ensures
        match (r, report_text(preview_rows(rows@), "preview"@)) {
            (Ok(t), Ok(u)) => t@ == u,
            (Err(SeoError::Validation(m)), Err(u)) => m@ == u,
            _ => false,
        },
{
    let mut records: Vec<Vec<String>> = Vec::new();
    records.push(csv_headers());
    let ghost spec_rows = preview_rows(rows@);
    assert(rows_view(records@) =~= spec_rows.take(1));
    let mut i: usize = 0;
    while i < rows.len()
        invariant
            i <= rows.len(),
            spec_rows == preview_rows(rows@),
            rows_view(records@) == spec_rows.take(i as int + 1),
        decreases rows.len() - i,
    {
        let data = crate::text::copy_strings(&rows[i]);
        let ghost prev = records@;
        let ghost dv = views(data@);
        records.push(data);
        proof {
            assert(rows_view(records@) =~= rows_view(prev).push(dv));
            assert(spec_rows[i + 1] == views(rows@[i as int]@));
            assert(spec_rows.take(i as int + 2) =~= spec_rows.take(i as int + 1).push(spec_rows[i + 1]));
        }
        i = i + 1;
    }
    assert(spec_rows.take(rows.len() as int + 1) =~= spec_rows);
    proof {
        reveal_strlit("preview");
    }
    write_report(&records, "preview")
}

} // verus!
