use vstd::prelude::*;
use crate::record::{KdbRecord, RecordView, views_of};

verus! {

/// The csv crate's error, carried unopened until it becomes
/// [`ParseError::Malformed`].
#[verifier::external_type_specification]
#[verifier::external_body]
pub struct ExCsvError(csv::Error);

/// What Shift_JIS decoding makes of a byte sequence, malformed sequences
/// replaced by U+FFFD.
pub uninterp spec fn shift_jis_text(b: Seq<u8>) -> Seq<char>;

/// The rows of a CSV text, fields unquoted and trimmed, or `None` where the
/// reader reports an error.
pub uninterp spec fn csv_rows_of(text: Seq<char>) -> Option<Seq<Seq<Seq<char>>>>;

/// Relies on `encoding_rs::SHIFT_JIS.decode_with_bom_removal`: the decoding
/// depends on the bytes alone and never fails (malformed input is replaced);
/// empty input gives empty text. The bound on the length keeps the output
/// buffer it reserves (three bytes per input byte at most) within what an
/// allocation may ask for.
#[verifier::external_body]
fn decode_shift_jis(raw: &[u8]) -> (r: String)
    requires
        raw@.len() <= usize::MAX / 8,
    ensures
        r@ == shift_jis_text(raw@),
        raw@.len() == 0 ==> r@.len() == 0,
{
    encoding_rs::SHIFT_JIS.decode_with_bom_removal(raw).0.into_owned()
}

/// Relies on `csv::ReaderBuilder` (comma separator, double-quote quoting,
/// every field trimmed, no header handling, rows of any length) and
/// `csv::Reader::records`: the rows of `text` in order, or the reader's
/// first error. Reading from a string slice, both depend on the text alone.
#[verifier::external_body]
fn read_csv_rows(text: &str) -> (r: Result<Vec<Vec<String>>, csv::Error>)
    ensures
        match r {
            Ok(rows) => csv_rows_of(text@) == Some(rows.deep_view()),
            Err(_) => csv_rows_of(text@).is_none(),
        },
{
    let mut reader = csv::ReaderBuilder::new()
        .has_headers(false)
        .flexible(true)
        .trim(csv::Trim::All)
        .from_reader(text.as_bytes());
    reader.records().map(|row| row.map(|fields| fields.iter().map(String::from).collect())).collect()
}

/// Why a raw catalog file could not be turned into records.
#[derive(Debug, Clone, Copy, PartialEq, Eq, Structural)]
pub enum ParseError {
    /// The CSV reader refused the text.
    Malformed,
    /// The file holds no row at all, so no header.
    MissingHeader,
    /// The header has no course-code column.
    MissingCodeColumn,
    /// Row `row` (the header is row 0) has `found` fields where the header has `expected`.
    FieldCount { row: usize, expected: usize, found: usize },
    /// Row `row` has an empty course code.
    EmptyCode { row: usize },
}

pub open spec fn code_heading() -> Seq<char> { "科目番号"@ }
pub open spec fn name_heading() -> Seq<char> { "科目名"@ }
pub open spec fn instructional_type_heading() -> Seq<char> { "授業方法"@ }
pub open spec fn credits_heading() -> Seq<char> { "単位数"@ }
pub open spec fn standard_year_heading() -> Seq<char> { "標準履修年次"@ }
pub open spec fn module_heading() -> Seq<char> { "実施学期"@ }
pub open spec fn period_heading() -> Seq<char> { "曜時限"@ }
pub open spec fn classroom_heading() -> Seq<char> { "教室"@ }
pub open spec fn instructors_heading() -> Seq<char> { "担当教員"@ }
pub open spec fn overview_heading() -> Seq<char> { "授業概要"@ }
pub open spec fn remarks_heading() -> Seq<char> { "備考"@ }
pub open spec fn updated_at_heading() -> Seq<char> { "データ更新日"@ }

/// The value of `row` in the first column of `header` titled `heading`;
/// empty where no column has that title.
pub open spec fn field_named(header: Seq<Seq<char>>, row: Seq<Seq<char>>, heading: Seq<char>) -> Seq<char> {
    match header.index_of_first(heading) {
        Some(i) => row[i],
        None => Seq::empty(),
    }
}

/// The record that a data row stands for, its fields taken by column title.
pub open spec fn record_of(header: Seq<Seq<char>>, row: Seq<Seq<char>>) -> RecordView {
    RecordView {
        code: field_named(header, row, code_heading()),
        name: field_named(header, row, name_heading()),
        instructional_type: field_named(header, row, instructional_type_heading()),
        credits: field_named(header, row, credits_heading()),
        standard_year: field_named(header, row, standard_year_heading()),
        module: field_named(header, row, module_heading()),
        period: field_named(header, row, period_heading()),
        classroom: field_named(header, row, classroom_heading()),
        instructors: field_named(header, row, instructors_heading()),
        overview: field_named(header, row, overview_heading()),
        remarks: field_named(header, row, remarks_heading()),
        updated_at: field_named(header, row, updated_at_heading()),
    }
}

/// The records of the data rows `body` under `header`, in order, or the
/// error of the first row that has the wrong number of fields or no code.
/// Data row `k` is row `k + 1` of the file.
pub open spec fn records_of_body(header: Seq<Seq<char>>, body: Seq<Seq<Seq<char>>>) -> Result<Seq<RecordView>, ParseError>
    decreases body.len(),
{
    if body.len() == 0 {
        Ok(Seq::empty())
    } else {
        match records_of_body(header, body.drop_last()) {
            Err(e) => Err(e),
            Ok(rs) => {
                let row = body.last();
                if row.len() != header.len() {
                    Err(ParseError::FieldCount { row: body.len() as usize, expected: header.len() as usize, found: row.len() as usize })
                } else if field_named(header, row, code_heading()).len() == 0 {
                    Err(ParseError::EmptyCode { row: body.len() as usize })
                } else {
                    Ok(rs.push(record_of(header, row)))
                }
            },
        }
    }
}

/// The records of a parsed CSV document whose first row is the header. A
/// header with no data rows gives no records whatever its titles; the
/// course-code column is needed only to map a data row.
pub open spec fn records_of_rows(rows: Seq<Seq<Seq<char>>>) -> Result<Seq<RecordView>, ParseError> {
    if rows.len() == 0 {
        Err(ParseError::MissingHeader)
    } else if rows.len() == 1 {
        Ok(Seq::empty())
    } else if !rows[0].contains(code_heading()) {
        Err(ParseError::MissingCodeColumn)
    } else {
        records_of_body(rows[0], rows.drop_first())
    }
}

/// The records of a raw catalog file: Shift_JIS text, read as CSV.
pub open spec fn records_of_raw(raw: Seq<u8>) -> Result<Seq<RecordView>, ParseError> {
    match csv_rows_of(shift_jis_text(raw)) {
        None => Err(ParseError::Malformed),
        Some(rows) => records_of_rows(rows),
    }
}

/// The index of the first entry of `header` equal to `heading`.
fn column_of(header: &Vec<String>, heading: &str) -> (r: Option<usize>)
    ensures
        match r {
            Some(i) => header.deep_view().index_of_first(heading@) == Some(i as int),
            None => header.deep_view().index_of_first(heading@) == None::<int>,
        },
{
    let wanted = String::from_str(heading);
    let ghost h = header.deep_view();
    proof { h.index_of_first_ensures(heading@); }
    let mut i: usize = 0;
    while i < header.len()
        invariant
            i <= header@.len(),
            h == header.deep_view(),
            h.len() == header@.len(),
            wanted@ == heading@,
            forall|j: int| 0 <= j < i ==> h[j] != heading@,
            match h.index_of_first(heading@) {
                Some(index) => {
                    &&& h.contains(heading@)
                    &&& 0 <= index < h.len()
                    &&& h[index] == heading@
                    &&& forall|j: int| 0 <= j < index < h.len() ==> h[j] != heading@
                },
                None => { !h.contains(heading@) },
            },
        decreases header@.len() - i,
    {
        if header[i] == wanted {
            assert(h[i as int] == heading@);
            return Some(i);
        }
        i = i + 1;
    }
    None
}

/// Where each field of a record stands in the header, if anywhere.
struct Columns {
    code: Option<usize>,
    name: Option<usize>,
    instructional_type: Option<usize>,
    credits: Option<usize>,
    standard_year: Option<usize>,
    module: Option<usize>,
    period: Option<usize>,
    classroom: Option<usize>,
    instructors: Option<usize>,
    overview: Option<usize>,
    remarks: Option<usize>,
    updated_at: Option<usize>,
}

/// `col` is where `heading` first stands in `header`.
spec fn locates(col: Option<usize>, header: Seq<Seq<char>>, heading: Seq<char>) -> bool {
    match col {
        Some(i) => header.index_of_first(heading) == Some(i as int),
        None => header.index_of_first(heading) == None::<int>,
    }
}

impl Columns {
    spec fn of_header(&self, header: Seq<Seq<char>>) -> bool {
        &&& locates(self.code, header, code_heading())
        &&& locates(self.name, header, name_heading())
        &&& locates(self.instructional_type, header, instructional_type_heading())
        &&& locates(self.credits, header, credits_heading())
        &&& locates(self.standard_year, header, standard_year_heading())
        &&& locates(self.module, header, module_heading())
        &&& locates(self.period, header, period_heading())
        &&& locates(self.classroom, header, classroom_heading())
        &&& locates(self.instructors, header, instructors_heading())
        &&& locates(self.overview, header, overview_heading())
        &&& locates(self.remarks, header, remarks_heading())
        &&& locates(self.updated_at, header, updated_at_heading())
    }
}

fn find_columns(header: &Vec<String>) -> (r: Columns)
    ensures
        r.of_header(header.deep_view()),
{
    Columns {
        code: column_of(header, "科目番号"),
        name: column_of(header, "科目名"),
        instructional_type: column_of(header, "授業方法"),
        credits: column_of(header, "単位数"),
        standard_year: column_of(header, "標準履修年次"),
        module: column_of(header, "実施学期"),
        period: column_of(header, "曜時限"),
        classroom: column_of(header, "教室"),
        instructors: column_of(header, "担当教員"),
        overview: column_of(header, "授業概要"),
        remarks: column_of(header, "備考"),
        updated_at: column_of(header, "データ更新日"),
    }
}

/// The entry of `row` at `col`, or an empty string where there is no column.
fn field_at(row: &Vec<String>, col: Option<usize>, header: Ghost<Seq<Seq<char>>>, heading: Ghost<Seq<char>>) -> (r: String)
    requires
        locates(col, header@, heading@),
        row@.len() == header@.len(),
    ensures
        r@ == field_named(header@, row.deep_view(), heading@),
{
    proof { header@.index_of_first_ensures(heading@); }
    match col {
        Some(i) => row[i].clone(),
        None => String::new(),
    }
}

fn record_from_row(cols: &Columns, row: &Vec<String>, header: Ghost<Seq<Seq<char>>>) -> (r: KdbRecord)
    requires
        cols.of_header(header@),
        row@.len() == header@.len(),
    ensures
        r@ == record_of(header@, row.deep_view()),
{
    KdbRecord {
        code: field_at(row, cols.code, header, Ghost(code_heading())),
        name: field_at(row, cols.name, header, Ghost(name_heading())),
        instructional_type: field_at(row, cols.instructional_type, header, Ghost(instructional_type_heading())),
        credits: field_at(row, cols.credits, header, Ghost(credits_heading())),
        standard_year: field_at(row, cols.standard_year, header, Ghost(standard_year_heading())),
        module: field_at(row, cols.module, header, Ghost(module_heading())),
        period: field_at(row, cols.period, header, Ghost(period_heading())),
        classroom: field_at(row, cols.classroom, header, Ghost(classroom_heading())),
        instructors: field_at(row, cols.instructors, header, Ghost(instructors_heading())),
        overview: field_at(row, cols.overview, header, Ghost(overview_heading())),
        remarks: field_at(row, cols.remarks, header, Ghost(remarks_heading())),
        updated_at: field_at(row, cols.updated_at, header, Ghost(updated_at_heading())),
    }
}

/// The value of a decoding result: the records' views, or the error.
pub open spec fn decoded_view(r: Result<Vec<KdbRecord>, ParseError>) -> Result<Seq<RecordView>, ParseError> {
    match r {
        Ok(rs) => Ok(views_of(rs@)),
        Err(e) => Err(e),
    }
}

/// Once a prefix of the data rows fails, every longer prefix fails the same way.
proof fn lemma_error_persists(header: Seq<Seq<char>>, body: Seq<Seq<Seq<char>>>, n: int, m: int, e: ParseError)
    requires
        0 <= n <= m <= body.len(),
        records_of_body(header, body.take(n)) == Err::<Seq<RecordView>, ParseError>(e),
    ensures
        records_of_body(header, body.take(m)) == Err::<Seq<RecordView>, ParseError>(e),
    decreases m - n,
{
    if m > n {
        lemma_error_persists(header, body, n, m - 1, e);
        assert(body.take(m).drop_last() =~= body.take(m - 1));
    }
}

/// Maps the rows of a parsed CSV document to records. The first row is the
/// header: each field is taken from the column with its title, columns with
/// other titles are ignored, and the course-code column must be there as
/// soon as there is a data row; a header alone gives no records. Each
/// data row must have as many fields as the header and a non-empty code; the
/// first row that does not is reported and no records are returned.
pub fn records_from_rows(rows: &Vec<Vec<String>>) -> (r: Result<Vec<KdbRecord>, ParseError>)
    ensures
        decoded_view(r) == records_of_rows(rows.deep_view()),
{
    let ghost all = rows.deep_view();
    if rows.len() == 0 {
        return Err(ParseError::MissingHeader);
    }
    if rows.len() == 1 {
        let none: Vec<KdbRecord> = Vec::new();
        assert(views_of(none@) =~= Seq::<RecordView>::empty());
        return Ok(none);
    }
    let header = &rows[0];
    let ghost h = header.deep_view();
    let ghost body = all.drop_first();
    assert(h == all[0]);
    let cols = find_columns(header);
    match cols.code {
        None => {
            proof { h.index_of_first_ensures(code_heading()); }
            return Err(ParseError::MissingCodeColumn);
        },
        Some(_) => {},
    }
    proof { h.index_of_first_ensures(code_heading()); }
    let mut out: Vec<KdbRecord> = Vec::new();
    let mut k: usize = 1;
    assert(body.take(0) =~= Seq::<Seq<Seq<char>>>::empty());
    assert(views_of(out@) =~= Seq::<RecordView>::empty());
    assert(h.contains(code_heading()));
    while k < rows.len()
        invariant
            1 <= k <= rows@.len(),
            all == rows.deep_view(),
            body == all.drop_first(),
            h == header.deep_view(),
            h == all[0],
            all.len() == rows@.len(),
            cols.of_header(h),
            cols.code is Some,
            h.contains(code_heading()),
            records_of_body(h, body.take(k - 1)) == Ok::<Seq<RecordView>, ParseError>(views_of(out@)),
        decreases rows@.len() - k,
    {
        let row = &rows[k];
        let ghost prefix = body.take(k as int);
        proof {
            assert(prefix.drop_last() =~= body.take(k - 1));
            assert(prefix.last() == all[k as int]);
            assert(all[k as int] == row.deep_view());
            assert(prefix.len() == k);
            assert(prefix.last().len() == row@.len());
        }
        if row.len() != header.len() {
            let e = ParseError::FieldCount { row: k, expected: header.len(), found: row.len() };
            proof {
                lemma_error_persists(h, body, k as int, body.len() as int, e);
                assert(body.take(body.len() as int) =~= body);
            }
            return Err(e);
        }
        let rec = record_from_row(&cols, row, Ghost(h));
        if rec.code.as_str().is_empty() {
            let e = ParseError::EmptyCode { row: k };
            proof {
                lemma_error_persists(h, body, k as int, body.len() as int, e);
                assert(body.take(body.len() as int) =~= body);
            }
            return Err(e);
        }
        let ghost before = out@;
        out.push(rec);
        assert(views_of(out@) =~= views_of(before).push(rec@));
        k = k + 1;
    }
    assert(body.take(k - 1) =~= body);
    Ok(out)
}

/// Decodes a raw catalog file: Shift_JIS bytes, decoded with replacement of
/// malformed sequences, read as CSV and mapped to records by
/// [`records_from_rows`].
pub fn decode_records(raw: &[u8]) -> (r: Result<Vec<KdbRecord>, ParseError>)
    requires
        raw@.len() <= usize::MAX / 8,
    ensures
        decoded_view(r) == records_of_raw(raw@),
{
    let text = decode_shift_jis(raw);
    match read_csv_rows(text.as_str()) {
        Err(_) => Err(ParseError::Malformed),
        Ok(rows) => records_from_rows(&rows),
    }
}

/// Decoding is a function of the bytes: decoding the same raw file twice
/// gives the same records in the same order, or the same error.
pub proof fn decoding_is_deterministic(first: Seq<u8>, second: Seq<u8>)
    requires
        first == second,
    ensures
        records_of_raw(first) == records_of_raw(second),
{
}

/// A raw file whose only row is a header decodes to no records, not to an
/// error, whatever titles the header holds.
pub proof fn header_only_file_has_no_records(raw: Seq<u8>)
    requires
        csv_rows_of(shift_jis_text(raw)) is Some,
        csv_rows_of(shift_jis_text(raw)).unwrap().len() == 1,
    ensures
        records_of_raw(raw) == Ok::<Seq<RecordView>, ParseError>(Seq::empty()),
{
}

/// A raw file with a data row whose field count differs from the header's
/// fails to decode: no records come out of it.
pub proof fn mismatched_row_fails(raw: Seq<u8>, k: int)
    requires
        csv_rows_of(shift_jis_text(raw)) is Some,
        1 <= k < csv_rows_of(shift_jis_text(raw)).unwrap().len(),
        csv_rows_of(shift_jis_text(raw)).unwrap()[k].len() != csv_rows_of(shift_jis_text(raw)).unwrap()[0].len(),
    ensures
        records_of_raw(raw) is Err,
{
    let rows = csv_rows_of(shift_jis_text(raw)).unwrap();
    if rows[0].contains(code_heading()) {
        let h = rows[0];
        let body = rows.drop_first();
        let prefix = body.take(k);
        assert(prefix.drop_last() =~= body.take(k - 1));
        assert(prefix.last() == rows[k]);
        let r = records_of_body(h, prefix);
        assert(r is Err);
        let e = r->Err_0;
        lemma_error_persists(h, body, k, body.len() as int, e);
        assert(body.take(body.len() as int) =~= body);
    }
}

} // verus!
