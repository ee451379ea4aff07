use kdb::decode::{decode_records, records_from_rows, ParseError};
use kdb::record::partition_by_level;

fn sjis(text: &str) -> Vec<u8> {
    let (bytes, _, had_errors) = encoding_rs::SHIFT_JIS.encode(text);
    assert!(!had_errors);
    bytes.into_owned()
}

fn rows(lines: &[&[&str]]) -> Vec<Vec<String>> {
    lines.iter().map(|l| l.iter().map(|f| f.to_string()).collect()).collect()
}

#[test]
fn graduate_and_undergraduate_rows() {
    let raw = sjis("科目番号,科目名\n0XX101,Graduate Seminar\nCS101,Intro\n");
    let records = decode_records(&raw).unwrap();
    assert_eq!(records.len(), 2);
    assert_eq!(records[0].code, "0XX101");
    assert_eq!(records[0].name, "Graduate Seminar");
    assert_eq!(records[1].code, "CS101");
    assert_eq!(records[1].name, "Intro");
    assert_eq!(records[0].credits, "");
    assert!(records[0].is_graduate());
    assert!(!records[1].is_graduate());
    let (under, grad) = partition_by_level(&records);
    assert_eq!(grad.len(), 1);
    assert_eq!(grad[0].code, "0XX101");
    assert_eq!(under.len(), 1);
    assert_eq!(under[0].code, "CS101");
}

#[test]
fn header_only_file_gives_no_records() {
    let raw = sjis("科目番号,科目名,単位数\n");
    let records = decode_records(&raw).unwrap();
    assert!(records.is_empty());
}

#[test]
fn header_only_file_without_code_column_gives_no_records() {
    let raw = sjis("科目名\n");
    let records = decode_records(&raw).unwrap();
    assert!(records.is_empty());
    let input = rows(&[&["科目名", "単位数"]]);
    assert!(records_from_rows(&input).unwrap().is_empty());
}

#[test]
fn row_with_extra_field_is_rejected() {
    let raw = sjis("科目番号,科目名\nCS101,Intro\nCS102,Data,Extra\n");
    match decode_records(&raw) {
        Err(e) => assert_eq!(e, ParseError::FieldCount { row: 2, expected: 2, found: 3 }),
        Ok(_) => panic!("a row with three fields under a header of two must fail"),
    }
}

#[test]
fn row_with_missing_field_is_rejected() {
    let raw = sjis("科目番号,科目名,単位数\nCS101,Intro\n");
    match decode_records(&raw) {
        Err(e) => assert_eq!(e, ParseError::FieldCount { row: 1, expected: 3, found: 2 }),
        Ok(_) => panic!("a short row must fail"),
    }
}

#[test]
fn empty_file_has_no_header() {
    match decode_records(&[]) {
        Err(e) => assert_eq!(e, ParseError::MissingHeader),
        Ok(_) => panic!("an empty file has no header"),
    }
}

#[test]
fn header_without_code_column_is_rejected() {
    let raw = sjis("科目名,単位数\nIntro,2\n");
    match decode_records(&raw) {
        Err(e) => assert_eq!(e, ParseError::MissingCodeColumn),
        Ok(_) => panic!("the code column is required"),
    }
}

#[test]
fn row_with_empty_code_is_rejected() {
    let raw = sjis("科目番号,科目名\nCS101,Intro\n  ,Nothing\n");
    match decode_records(&raw) {
        Err(e) => assert_eq!(e, ParseError::EmptyCode { row: 2 }),
        Ok(_) => panic!("a row without a code must fail"),
    }
}

#[test]
fn first_bad_row_is_reported() {
    let raw = sjis("科目番号,科目名\n,Nothing\nCS102,Data,Extra\n");
    match decode_records(&raw) {
        Err(e) => assert_eq!(e, ParseError::EmptyCode { row: 1 }),
        Ok(_) => panic!("must fail"),
    }
}

#[test]
fn columns_are_found_by_title() {
    let text = "備考,科目番号,余分,データ更新日,科目名,教室,担当教員,単位数,標準履修年次,実施学期,曜時限,授業方法,授業概要\n\
                note, GB10234 ,x,2025-04-01,線形代数,3A204,筑波 太郎,2.0,1,春AB,月1,講義,行列と線形写像\n";
    let records = decode_records(&sjis(text)).unwrap();
    assert_eq!(records.len(), 1);
    let r = &records[0];
    assert_eq!(r.code, "GB10234");
    assert_eq!(r.name, "線形代数");
    assert_eq!(r.instructional_type, "講義");
    assert_eq!(r.credits, "2.0");
    assert_eq!(r.standard_year, "1");
    assert_eq!(r.module, "春AB");
    assert_eq!(r.period, "月1");
    assert_eq!(r.classroom, "3A204");
    assert_eq!(r.instructors, "筑波 太郎");
    assert_eq!(r.overview, "行列と線形写像");
    assert_eq!(r.remarks, "note");
    assert_eq!(r.updated_at, "2025-04-01");
}

#[test]
fn fields_are_unquoted_and_trimmed() {
    let raw = sjis("科目番号,科目名\n\"  FA01 \",\" Say \"\"hi\"\", then, go \"\n");
    let records = decode_records(&raw).unwrap();
    assert_eq!(records.len(), 1);
    assert_eq!(records[0].code, "FA01");
    assert_eq!(records[0].name, "Say \"hi\", then, go");
}

#[test]
fn duplicates_and_order_are_kept() {
    let raw = sjis("科目番号,科目名\nB2,Second\nA1,First\nB2,Second\n");
    let records = decode_records(&raw).unwrap();
    let codes: Vec<&str> = records.iter().map(|r| r.code.as_str()).collect();
    assert_eq!(codes, vec!["B2", "A1", "B2"]);
}

#[test]
fn decoding_twice_gives_the_same_records() {
    let raw = sjis("科目番号,科目名\n0AB,院\nCS1,学部\n");
    let first = decode_records(&raw).unwrap();
    let second = decode_records(&raw).unwrap();
    assert_eq!(first.len(), second.len());
    for (a, b) in first.iter().zip(second.iter()) {
        assert_eq!(a.named_fields(), b.named_fields());
    }
}

#[test]
fn malformed_bytes_are_replaced() {
    let mut raw = sjis("科目番号,科目名\nCS1,");
    raw.push(0x81);
    raw.push(b'\n');
    let records = decode_records(&raw).unwrap();
    assert_eq!(records[0].name, "\u{FFFD}");
}

#[test]
fn rows_map_by_header() {
    let input = rows(&[&["科目名", "科目番号"], &["Intro", "CS101"]]);
    let records = records_from_rows(&input).unwrap();
    assert_eq!(records.len(), 1);
    assert_eq!(records[0].code, "CS101");
    assert_eq!(records[0].name, "Intro");
}

#[test]
fn duplicate_title_takes_first_column() {
    let input = rows(&[&["科目番号", "科目名", "科目名"], &["X1", "first", "second"]]);
    let records = records_from_rows(&input).unwrap();
    assert_eq!(records[0].name, "first");
}
