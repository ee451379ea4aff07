use vstd::prelude::*;

verus! {

/// A form as the portal receives it: (name, value) pairs in order.
pub open spec fn form_view(form: Seq<(String, String)>) -> Seq<(Seq<char>, Seq<char>)> {
    form.map_values(|p: (String, String)| (p.0@, p.1@))
}

/// The text the portal puts in a page that reports a failure, whatever the
/// HTTP status of the response: `sys-err-head` in ASCII.
pub open spec fn error_marker() -> Seq<u8> {
    seq![115u8, 121, 115, 45, 101, 114, 114, 45, 104, 101, 97, 100]
}

/// `body` holds `marker` at position `i`.
pub open spec fn occurs_at(body: Seq<u8>, marker: Seq<u8>, i: int) -> bool {
    0 <= i && i + marker.len() <= body.len() && body.subrange(i, i + marker.len()) == marker
}

/// A portal response reports a failure exactly when its body holds the error marker.
pub open spec fn reports_failure(body: Seq<u8>) -> bool {
    exists|i: int| occurs_at(body, error_marker(), i)
}

fn matches_at(body: &[u8], marker: &Vec<u8>, i: usize) -> (r: bool)
    requires
        i + marker@.len() <= body@.len(),
    ensures
        r == (body@.subrange(i as int, i + marker@.len()) == marker@),
{
    let n = body.len();
    let mut j: usize = 0;
    while j < marker.len()
        invariant
            n == body@.len(),
            i + marker@.len() <= body@.len(),
            j <= marker@.len(),
            forall|t: int| 0 <= t < j ==> body@[i + t] == marker@[t],
        decreases marker@.len() - j,
    {
        if body[i + j] != marker[j] {
            assert(body@.subrange(i as int, i + marker@.len())[j as int] != marker@[j as int]);
            return false;
        }
        j = j + 1;
    }
    assert(body@.subrange(i as int, i + marker@.len()) =~= marker@);
    true
}

/// Whether a portal response body reports a failure.
pub fn reports_portal_error(body: &[u8]) -> (r: bool)
    ensures
        r == reports_failure(body@),
{
    let marker: Vec<u8> = vec![115, 121, 115, 45, 101, 114, 114, 45, 104, 101, 97, 100];
    assert(marker@ =~= error_marker());
    let m = marker.len();
    if body.len() < m {
        assert forall|i: int| !occurs_at(body@, error_marker(), i) by {}
        return false;
    }
    let mut i: usize = 0;
    while i <= body.len() - m
        invariant
            m == marker@.len(),
            marker@ == error_marker(),
            m <= body@.len(),
            i <= body@.len() - m + 1,
            forall|k: int| 0 <= k < i ==> !occurs_at(body@, error_marker(), k),
        decreases body@.len() - m + 1 - i,
    {
        if matches_at(body, &marker, i) {
            assert(occurs_at(body@, error_marker(), i as int));
            return true;
        }
        i = i + 1;
    }
    assert forall|k: int| !occurs_at(body@, error_marker(), k) by {
        if 0 <= k && k + m <= body@.len() {
            assert(k < i);
        }
    }
    false
}

/// The decimal digit for `d < 10`.
pub open spec fn digit_char(d: nat) -> char {
    if d == 0 { '0' } else if d == 1 { '1' } else if d == 2 { '2' } else if d == 3 { '3' } else if d == 4 { '4' }
    else if d == 5 { '5' } else if d == 6 { '6' } else if d == 7 { '7' } else if d == 8 { '8' } else { '9' }
}

/// The decimal text of `n`, without leading zeros.
pub open spec fn decimal(n: nat) -> Seq<char>
    decreases n,
{
    if n < 10 {
        seq![digit_char(n)]
    } else {
        decimal(n / 10).push(digit_char(n % 10))
    }
}

fn digit_text(d: u32) -> (r: &'static str)
    requires
        d < 10,
    ensures
        r@ == seq![digit_char(d as nat)],
{
    proof {
        reveal_strlit("0"); reveal_strlit("1"); reveal_strlit("2"); reveal_strlit("3"); reveal_strlit("4");
        reveal_strlit("5"); reveal_strlit("6"); reveal_strlit("7"); reveal_strlit("8"); reveal_strlit("9");
    }
    let r = if d == 0 { "0" } else if d == 1 { "1" } else if d == 2 { "2" } else if d == 3 { "3" } else if d == 4 { "4" }
    else if d == 5 { "5" } else if d == 6 { "6" } else if d == 7 { "7" } else if d == 8 { "8" } else { "9" };
    assert(r@ =~= seq![digit_char(d as nat)]);
    r
}

/// The decimal text of `n`.
pub fn decimal_text(n: u32) -> (r: String)
    ensures
        r@ == decimal(n as nat),
    decreases n,
{
    if n < 10 {
        String::from_str(digit_text(n))
    } else {
        let mut s = decimal_text(n / 10);
        s.append(digit_text(n % 10));
        s
    }
}

/// The filter fields of a search, all left open: every term, day, period,
/// organisation and keyword, and no flag set.
pub open spec fn open_filters() -> Seq<(Seq<char>, Seq<char>)> {
    seq![
        ("hdnTermCode"@, ""@),
        ("hdnDayCode"@, ""@),
        ("hdnPeriodCode"@, ""@),
        ("hdnAgentName"@, ""@),
        ("hdnOrg"@, ""@),
        ("hdnIsManager"@, ""@),
        ("hdnReq"@, ""@),
        ("hdnFac"@, ""@),
        ("hdnDepth"@, ""@),
        ("hdnChkSyllabi"@, "false"@),
        ("hdnChkAuditor"@, "false"@),
        ("hdnChkExchangeStudent"@, "false"@),
        ("hdnChkConductedInEnglish"@, "false"@),
        ("hdnCourse"@, ""@),
        ("hdnKeywords"@, ""@),
        ("hdnFullname"@, ""@),
        ("hdnDispDay"@, ""@),
        ("hdnDispPeriod"@, ""@),
        ("hdnOrgName"@, ""@),
        ("hdnReqName"@, ""@)
    ]
}

/// The form that searches all courses of academic year `year`.
pub open spec fn search_form_view(year: u32) -> Seq<(Seq<char>, Seq<char>)> {
    seq![("pageId"@, "SB0070"@), ("action"@, "search"@), ("hdnFy"@, decimal(year as nat))] + open_filters()
}

/// The form that asks for the result of that search as a CSV file.
pub open spec fn export_form_view(year: u32) -> Seq<(Seq<char>, Seq<char>)> {
    seq![("pageId"@, "SB0070"@), ("action"@, "downloadList"@), ("hdnFy"@, decimal(year as nat))] + open_filters()
        + seq![("cmbDwldtype"@, "csv"@)]
}

fn push_field(form: &mut Vec<(String, String)>, name: &str, value: &str)
    ensures
        form_view(final(form)@) == form_view(old(form)@).push((name@, value@)),
{
    let ghost before = form@;
    form.push((String::from_str(name), String::from_str(value)));
    assert(form_view(form@) =~= form_view(before).push((name@, value@)));
}

fn push_open_filters(form: &mut Vec<(String, String)>)
    ensures
        form_view(final(form)@) == form_view(old(form)@) + open_filters(),
{
    let ghost before = form_view(form@);
    push_field(form, "hdnTermCode", "");
    push_field(form, "hdnDayCode", "");
    push_field(form, "hdnPeriodCode", "");
    push_field(form, "hdnAgentName", "");
    push_field(form, "hdnOrg", "");
    push_field(form, "hdnIsManager", "");
    push_field(form, "hdnReq", "");
    push_field(form, "hdnFac", "");
    push_field(form, "hdnDepth", "");
    push_field(form, "hdnChkSyllabi", "false");
    push_field(form, "hdnChkAuditor", "false");
    push_field(form, "hdnChkExchangeStudent", "false");
    push_field(form, "hdnChkConductedInEnglish", "false");
    push_field(form, "hdnCourse", "");
    push_field(form, "hdnKeywords", "");
    push_field(form, "hdnFullname", "");
    push_field(form, "hdnDispDay", "");
    push_field(form, "hdnDispPeriod", "");
    push_field(form, "hdnOrgName", "");
    push_field(form, "hdnReqName", "");
    assert(form_view(form@) =~= before + open_filters());
}

fn form_head(action: &str, year: u32) -> (r: Vec<(String, String)>)
    ensures
        form_view(r@) == seq![("pageId"@, "SB0070"@), ("action"@, action@), ("hdnFy"@, decimal(year as nat))],
{
    let mut form: Vec<(String, String)> = Vec::new();
    assert(form_view(form@) =~= Seq::empty());
    push_field(&mut form, "pageId", "SB0070");
    push_field(&mut form, "action", action);
    let ghost before = form@;
    form.push((String::from_str("hdnFy"), decimal_text(year)));
    assert(form_view(form@) =~= form_view(before).push(("hdnFy"@, decimal(year as nat))));
    assert(form_view(form@) =~= seq![("pageId"@, "SB0070"@), ("action"@, action@), ("hdnFy"@, decimal(year as nat))]);
    form
}

/// The search form for academic year `year`.
pub fn search_form(year: u32) -> (r: Vec<(String, String)>)
    ensures
        form_view(r@) == search_form_view(year),
{
    let mut form = form_head("search", year);
    push_open_filters(&mut form);
    form
}

/// The CSV export form for academic year `year`.
pub fn export_form(year: u32) -> (r: Vec<(String, String)>)
    ensures
        form_view(r@) == export_form_view(year),
{
    let mut form = form_head("downloadList", year);
    push_open_filters(&mut form);
    push_field(&mut form, "cmbDwldtype", "csv");
    form
}

} // verus!
