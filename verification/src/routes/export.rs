//! CSV export of raw events: parameter checks, cache key and file name,
//! the row cap, and the CSV document with formula-injection protection.
use vstd::prelude::*;

use crate::dates::chrono_parse_ymd;
use crate::error::{bad_request, bad_request_chars, bad_request_with, AppError};
use crate::ratelimit::{decimal, u64_decimal};
use crate::routes::query::{opt_string_view, order_message, span_message, validate_date_span};
use crate::text::{append_chars, append_str, chars_eq, chars_of, string_of};

verus! {

/// Longest date range of an export, in days.
pub const MAX_EXPORT_DAYS: i64 = 90;

/// Most rows a single export may hold.
pub const MAX_EXPORT_ROWS: usize = 500000;

/// Query of `GET /api/websites/:id/export`.
#[derive(Debug)]
pub struct ExportQuery {
    pub start_date: String,
    pub end_date: String,
    pub format: Option<String>,
}

/// Outcome of the export parameters: both dates must parse (as given), be
/// in order and span at most 90 days; a format, if given, must be `csv`.
pub open spec fn export_range(q: ExportQuery) -> Result<(i32, i32), Seq<char>> {
    match chrono_parse_ymd(q.start_date@) {
        None => Err("invalid start_date format, expected YYYY-MM-DD"@),
        Some(s) => match chrono_parse_ymd(q.end_date@) {
            None => Err("invalid end_date format, expected YYYY-MM-DD"@),
            Some(e) => if e < s {
                Err(order_message())
            } else if e - s + 1 > MAX_EXPORT_DAYS {
                Err(span_message("date range"@, e - s + 1, MAX_EXPORT_DAYS))
            } else {
                match q.format {
                    Some(f) if f@ != "csv"@ => Err(
                        "unsupported format: "@ + f@ + "; only 'csv' is supported"@,
                    ),
                    _ => Ok((s, e)),
                }
            },
        },
    }
}

impl ExportQuery {
    /// Checks the export parameters and returns the date range.
    pub fn validate(&self) -> (r: Result<(i32, i32), AppError>)
        ensures
            match export_range(*self) {
                Ok(x) => r == Ok::<(i32, i32), AppError>(x),
                Err(m) => bad_request_with(r, m),
            },
    {
        let s = match crate::dates::parse_ymd(self.start_date.as_str()) {
            Some(d) => d,
            None => {
                return Err(bad_request("invalid start_date format, expected YYYY-MM-DD"));
            },
        };
        let e = match crate::dates::parse_ymd(self.end_date.as_str()) {
            Some(d) => d,
            None => {
                return Err(bad_request("invalid end_date format, expected YYYY-MM-DD"));
            },
        };
        if e < s {
            return Err(bad_request("end_date must be on or after start_date"));
        }
        validate_date_span(s, e, MAX_EXPORT_DAYS, "date range")?;
        if let Some(f) = &self.format {
            let fc = chars_of(f.as_str());
            let csv = chars_of("csv");
            if !chars_eq(fc.as_slice(), csv.as_slice()) {
                let mut m = chars_of("unsupported format: ");
                append_str(&mut m, f.as_str());
                append_str(&mut m, "; only 'csv' is supported");
                return Err(bad_request_chars(m.as_slice()));
            }
        }
        Ok((s, e))
    }
}

/// Cache key of an export: website, bounds as given, and the format.
pub open spec fn export_cache_key_of(website_id: Seq<char>, start: Seq<char>, end: Seq<char>) -> Seq<char> {
    website_id + "|"@ + start + "|"@ + end + "|csv"@
}

/// Builds the cache key of an export.
pub fn export_cache_key(website_id: &str, start_date: &str, end_date: &str) -> (k: String)
    ensures
        k@ == export_cache_key_of(website_id@, start_date@, end_date@),
{
    let mut v = chars_of(website_id);
    append_str(&mut v, "|");
    append_str(&mut v, start_date);
    append_str(&mut v, "|");
    append_str(&mut v, end_date);
    append_str(&mut v, "|csv");
    string_of(v.as_slice())
}

/// File name offered for an export.
pub open spec fn export_filename_of(website_id: Seq<char>, start: Seq<char>, end: Seq<char>) -> Seq<char> {
    "events-"@ + website_id + "-"@ + start + "-"@ + end + ".csv"@
}

/// Builds the file name of an export.
pub fn export_filename(website_id: &str, start_date: &str, end_date: &str) -> (f: String)
    ensures
        f@ == export_filename_of(website_id@, start_date@, end_date@),
{
    let mut v = chars_of("events-");
    append_str(&mut v, website_id);
    append_str(&mut v, "-");
    append_str(&mut v, start_date);
    append_str(&mut v, "-");
    append_str(&mut v, end_date);
    append_str(&mut v, ".csv");
    string_of(v.as_slice())
}

/// `Content-Disposition` header of an export download.
pub fn content_disposition(filename: &str) -> (h: String)
    ensures
        h@ == "attachment; filename=\""@ + filename@ + "\""@,
{
    let mut v = chars_of("attachment; filename=\"");
    append_str(&mut v, filename);
    append_str(&mut v, "\"");
    string_of(v.as_slice())
}

/// Message when an export holds too many rows.
pub open spec fn too_many_rows_message() -> Seq<char> {
    "result set too large: > "@ + decimal(MAX_EXPORT_ROWS as nat) + " rows; narrow the date range"@
}

/// Rejects an export of more than 500 000 rows.
pub fn check_export_row_count(rows: usize) -> (r: Result<(), AppError>)
    ensures
        r is Ok <==> rows <= MAX_EXPORT_ROWS,
        r is Err ==> bad_request_with(r, too_many_rows_message()),
{
    if rows > MAX_EXPORT_ROWS {
        let mut m = chars_of("result set too large: > ");
        let d = u64_decimal(MAX_EXPORT_ROWS as u64);
        append_chars(&mut m, d.as_slice());
        append_str(&mut m, " rows; narrow the date range");
        return Err(bad_request_chars(m.as_slice()));
    }
    Ok(())
}

/// Characters that make a spreadsheet read a cell as a formula when they
/// lead it: `=`, `+`, `-`, `@`, tab and carriage return.
pub open spec fn is_formula_lead(c: char) -> bool {
    c == '=' || c == '+' || c == '-' || c == '@' || c == '\t' || c == '\r'
}

/// A CSV cell made safe: a quote prepended when it starts like a formula.
pub open spec fn sanitized_field(val: Seq<char>) -> Seq<char> {
    if val.len() > 0 && is_formula_lead(val[0]) {
        seq!['\''] + val
    } else {
        val
    }
}

/// Guards a CSV cell against formula injection.
pub fn sanitize_csv_field(val: &str) -> (r: String)
    ensures
        r@ == sanitized_field(val@),
{
    let c = chars_of(val);
    if c.len() > 0 && (c[0] == '=' || c[0] == '+' || c[0] == '-' || c[0] == '@' || c[0] == '\t'
        || c[0] == '\r') {
        let mut v: Vec<char> = Vec::new();
        v.push('\'');
        append_chars(&mut v, c.as_slice());
        assert(v@ =~= seq!['\''] + val@);
        string_of(v.as_slice())
    } else {
        val.to_owned()
    }
}

/// One exported event.
#[derive(Debug)]
pub struct ExportRow {
    pub id: String,
    pub website_id: String,
    pub event_type: String,
    pub url: String,
    pub referrer_domain: Option<String>,
    pub event_name: Option<String>,
    pub country: Option<String>,
    pub browser: Option<String>,
    pub os: Option<String>,
    pub device_type: Option<String>,
    pub language: Option<String>,
    pub utm_source: Option<String>,
    pub utm_medium: Option<String>,
    pub utm_campaign: Option<String>,
    pub created_at: String,
}

/// Header record of the export.
pub open spec fn export_header() -> Seq<Seq<char>> {
    seq![
        "id"@,
        "website_id"@,
        "event_type"@,
        "url"@,
        "referrer_domain"@,
        "event_name"@,
        "country"@,
        "browser"@,
        "os"@,
        "device_type"@,
        "language"@,
        "utm_source"@,
        "utm_medium"@,
        "utm_campaign"@,
        "created_at"@,
    ]
}

/// An optional cell, empty when absent.
pub open spec fn or_empty(o: Option<String>) -> Seq<char> {
    match o {
        Some(s) => s@,
        None => Seq::empty(),
    }
}

/// The record of one row: every cell sanitized, absent cells empty.
pub open spec fn export_record(r: ExportRow) -> Seq<Seq<char>> {
    seq![
        sanitized_field(r.id@),
        sanitized_field(r.website_id@),
        sanitized_field(r.event_type@),
        sanitized_field(r.url@),
        sanitized_field(or_empty(r.referrer_domain)),
        sanitized_field(or_empty(r.event_name)),
        sanitized_field(or_empty(r.country)),
        sanitized_field(or_empty(r.browser)),
        sanitized_field(or_empty(r.os)),
        sanitized_field(or_empty(r.device_type)),
        sanitized_field(or_empty(r.language)),
        sanitized_field(or_empty(r.utm_source)),
        sanitized_field(or_empty(r.utm_medium)),
        sanitized_field(or_empty(r.utm_campaign)),
        sanitized_field(r.created_at@),
    ]
}

/// The value of the field that a column named `name` exports, absent
/// fields as empty text.
pub open spec fn column_value(r: ExportRow, name: Seq<char>) -> Seq<char> {
    if name == "id"@ {
        r.id@
    } else if name == "website_id"@ {
        r.website_id@
    } else if name == "event_type"@ {
        r.event_type@
    } else if name == "url"@ {
        r.url@
    } else if name == "referrer_domain"@ {
        or_empty(r.referrer_domain)
    } else if name == "event_name"@ {
        or_empty(r.event_name)
    } else if name == "country"@ {
        or_empty(r.country)
    } else if name == "browser"@ {
        or_empty(r.browser)
    } else if name == "os"@ {
        or_empty(r.os)
    } else if name == "device_type"@ {
        or_empty(r.device_type)
    } else if name == "language"@ {
        or_empty(r.language)
    } else if name == "utm_source"@ {
        or_empty(r.utm_source)
    } else if name == "utm_medium"@ {
        or_empty(r.utm_medium)
    } else if name == "utm_campaign"@ {
        or_empty(r.utm_campaign)
    } else if name == "created_at"@ {
        r.created_at@
    } else {
        Seq::empty()
    }
}

/// Each record has one cell per header cell, and the cell under a header
/// holds the sanitized value of the field that header names.
pub proof fn lemma_record_matches_header(r: ExportRow)
    ensures
        export_record(r).len() == export_header().len(),
        forall|k: int|
            0 <= k < export_header().len() ==> #[trigger] export_record(r)[k] == sanitized_field(
                column_value(r, export_header()[k]),
            ),
{
    reveal_strlit("id");
    reveal_strlit("website_id");
    reveal_strlit("event_type");
    reveal_strlit("url");
    reveal_strlit("referrer_domain");
    reveal_strlit("event_name");
    reveal_strlit("country");
    reveal_strlit("browser");
    reveal_strlit("os");
    reveal_strlit("device_type");
    reveal_strlit("language");
    reveal_strlit("utm_source");
    reveal_strlit("utm_medium");
    reveal_strlit("utm_campaign");
    reveal_strlit("created_at");
    // Names of one length differ in some character.
    assert("id"@.len() == 2 && "os"@.len() == 2 && "id"@[0] != "os"@[0]);
    assert("url"@.len() == 3);
    assert("country"@.len() == 7 && "browser"@.len() == 7 && "country"@[0] != "browser"@[0]);
    assert("language"@.len() == 8);
    assert("website_id"@.len() == 10 && "event_type"@.len() == 10 && "event_name"@.len() == 10
        && "utm_source"@.len() == 10 && "utm_medium"@.len() == 10 && "created_at"@.len() == 10);
    assert("website_id"@[0] == 'w' && "event_type"@[0] == 'e' && "event_name"@[0] == 'e'
        && "utm_source"@[0] == 'u' && "utm_medium"@[0] == 'u' && "created_at"@[0] == 'c');
    assert("event_type"@[6] != "event_name"@[6] && "utm_source"@[4] != "utm_medium"@[4]);
    assert("device_type"@.len() == 11);
    assert("utm_campaign"@.len() == 12);
    assert("referrer_domain"@.len() == 15);
}

/// In an export, the first record is the header, and under each header
/// cell every row's record holds the sanitized value of the field that the
/// header cell names.
pub proof fn lemma_export_columns(rows: Seq<ExportRow>)
    ensures
        export_records(rows).len() == rows.len() + 1,
        export_records(rows)[0] == export_header(),
        forall|i: int|
            0 <= i < rows.len() ==> (#[trigger] export_records(rows)[i + 1]).len()
                == export_header().len(),
        forall|i: int, k: int|
            0 <= i < rows.len() && 0 <= k < export_header().len() ==> #[trigger] export_records(
                rows,
            )[i + 1][k] == sanitized_field(column_value(rows[i], export_records(rows)[0][k])),
{
    assert forall|i: int| 0 <= i < rows.len() implies #[trigger] export_records(rows)[i + 1]
        == export_record(rows[i]) by {}
    assert forall|i: int, k: int|
        0 <= i < rows.len() && 0 <= k < export_header().len() implies #[trigger] export_records(
        rows,
    )[i + 1][k] == sanitized_field(column_value(rows[i], export_records(rows)[0][k])) by {
        lemma_record_matches_header(rows[i]);
    }
    assert forall|i: int| 0 <= i < rows.len() implies (#[trigger] export_records(rows)[i
        + 1]).len() == export_header().len() by {
        lemma_record_matches_header(rows[i]);
    }
}

/// Views of records of strings.
pub open spec fn records_view(v: Seq<Vec<String>>) -> Seq<Seq<Seq<char>>> {
    v.map_values(|rec: Vec<String>| rec@.map_values(|s: String| s@))
}

/// Name for the bytes that a `csv::Writer` with its default settings
/// writes for the records, one `write_record` each, into a `Vec<u8>`.
pub uninterp spec fn csv_document(records: Seq<Seq<Seq<char>>>) -> Seq<u8>;

/// All records have as many fields as the first.
pub open spec fn same_width(records: Seq<Seq<Seq<char>>>) -> bool {
    forall|i: int| 0 <= i < records.len() ==> #[trigger] records[i].len() == records[0].len()
}

/// `csv::Writer::from_writer(Vec::new())`, `write_record` for each
/// record, then `into_inner`; a successful result is named by
/// [`csv_document`]. Claimed: records of one width are written. In the
/// source, a writer with the default (not flexible) settings fails a
/// record whose field count differs from the first record's, and otherwise
/// only when the underlying writer fails, which a `Vec<u8>` does not.
#[verifier::external_body]
fn write_csv(records: &Vec<Vec<String>>) -> (r: Result<Vec<u8>, String>)
    ensures
        same_width(records_view(records@)) ==> r is Ok,
        r matches Ok(b) ==> b@ == csv_document(records_view(records@)),
{
    let mut wtr = csv::Writer::from_writer(Vec::new());
    for rec in records {
        wtr.write_record(rec).map_err(|e| format!("csv write_record failed: {e}"))?;
    }
    wtr.into_inner().map_err(|e| format!("csv flush failed: {e}"))
}

fn cell(o: &Option<String>) -> (r: String)
    ensures
        r@ == sanitized_field(or_empty(*o)),
{
    match o {
        Some(s) => {
            let t: &str = s.as_str();
            assert(t@ == or_empty(*o));
            sanitize_csv_field(t)
        },
        None => {
            let r = sanitize_csv_field("");
            assert(""@ =~= Seq::<char>::empty()) by {
                reveal_strlit("");
            }
            r
        },
    }
}

fn row_record(r: &ExportRow) -> (v: Vec<String>)
    ensures
        v@.map_values(|s: String| s@) == export_record(*r),
{
    let v: Vec<String> = vec![
        sanitize_csv_field(r.id.as_str()),
        sanitize_csv_field(r.website_id.as_str()),
        sanitize_csv_field(r.event_type.as_str()),
        sanitize_csv_field(r.url.as_str()),
        cell(&r.referrer_domain),
        cell(&r.event_name),
        cell(&r.country),
        cell(&r.browser),
        cell(&r.os),
        cell(&r.device_type),
        cell(&r.language),
        cell(&r.utm_source),
        cell(&r.utm_medium),
        cell(&r.utm_campaign),
        sanitize_csv_field(r.created_at.as_str()),
    ];
    assert(v@.map_values(|s: String| s@) =~= export_record(*r));
    v
}

/// The records of an export: the header, then one sanitized record per row.
pub open spec fn export_records(rows: Seq<ExportRow>) -> Seq<Seq<Seq<char>>> {
    seq![export_header()] + rows.map_values(|r: ExportRow| export_record(r))
}

/// Serializes exported rows to a CSV document: the header and one record
/// per row, all of the same width, so the writer always succeeds.
pub fn build_csv(rows: &[ExportRow]) -> (r: Result<Vec<u8>, String>)
    ensures
        r is Ok,
        r matches Ok(b) ==> b@ == csv_document(export_records(rows@)),
{
    let header: Vec<String> = vec![
        "id".to_owned(),
        "website_id".to_owned(),
        "event_type".to_owned(),
        "url".to_owned(),
        "referrer_domain".to_owned(),
        "event_name".to_owned(),
        "country".to_owned(),
        "browser".to_owned(),
        "os".to_owned(),
        "device_type".to_owned(),
        "language".to_owned(),
        "utm_source".to_owned(),
        "utm_medium".to_owned(),
        "utm_campaign".to_owned(),
        "created_at".to_owned(),
    ];
    assert(header@.map_values(|s: String| s@) =~= export_header());
    let mut records: Vec<Vec<String>> = Vec::new();
    records.push(header);
    let mut i: usize = 0;
    assert(records_view(records@) =~= seq![export_header()] + rows@.take(0).map_values(
        |r: ExportRow| export_record(r),
    ));
    while i < rows.len()
        invariant
            i <= rows@.len(),
            records_view(records@) == seq![export_header()] + rows@.take(i as int).map_values(
                |r: ExportRow| export_record(r),
            ),
        decreases rows@.len() - i,
    {
        let rec = row_record(&rows[i]);
        let ghost before = records_view(records@);
        records.push(rec);
        assert(records_view(records@) =~= before.push(export_record(rows@[i as int])));
        assert(rows@.take(i + 1).map_values(|r: ExportRow| export_record(r)) =~= rows@.take(
            i as int,
        ).map_values(|r: ExportRow| export_record(r)).push(export_record(rows@[i as int])));
        i = i + 1;
    }
    assert(rows@.take(i as int) =~= rows@);
    assert(same_width(export_records(rows@))) by {
        let recs = export_records(rows@);
        assert forall|j: int| 0 <= j < recs.len() implies #[trigger] recs[j].len() == recs[0].len() by {
            if j > 0 {
                assert(recs[j] == export_record(rows@[j - 1]));
            }
        }
    }
    write_csv(&records)
}

} // verus!
