use vstd::prelude::*;

verus! {

/// One row of the course catalog. Every field is kept as the text the
/// catalog holds; `code` alone carries meaning (its prefix gives the level).
#[derive(Debug)]
pub struct KdbRecord {
    pub code: String,
    pub name: String,
    pub instructional_type: String,
    pub credits: String,
    pub standard_year: String,
    pub module: String,
    pub period: String,
    pub classroom: String,
    pub instructors: String,
    pub overview: String,
    pub remarks: String,
    pub updated_at: String,
}

/// The mathematical value of a [`KdbRecord`]: its fields as character sequences.
pub struct RecordView {
    pub code: Seq<char>,
    pub name: Seq<char>,
    pub instructional_type: Seq<char>,
    pub credits: Seq<char>,
    pub standard_year: Seq<char>,
    pub module: Seq<char>,
    pub period: Seq<char>,
    pub classroom: Seq<char>,
    pub instructors: Seq<char>,
    pub overview: Seq<char>,
    pub remarks: Seq<char>,
    pub updated_at: Seq<char>,
}

impl View for KdbRecord {
    type V = RecordView;

    open spec fn view(&self) -> RecordView {
        RecordView {
            code: self.code@,
            name: self.name@,
            instructional_type: self.instructional_type@,
            credits: self.credits@,
            standard_year: self.standard_year@,
            module: self.module@,
            period: self.period@,
            classroom: self.classroom@,
            instructors: self.instructors@,
            overview: self.overview@,
            remarks: self.remarks@,
            updated_at: self.updated_at@,
        }
    }
}

/// The views of a sequence of records.
pub open spec fn views_of(rs: Seq<KdbRecord>) -> Seq<RecordView> {
    rs.map_values(|r: KdbRecord| r@)
}

/// A course code names a graduate course exactly when it starts with `0`.
pub open spec fn is_graduate_code(code: Seq<char>) -> bool {
    code.len() > 0 && code[0] == '0'
}

pub open spec fn is_graduate_view(r: RecordView) -> bool {
    is_graduate_code(r.code)
}

pub open spec fn is_undergraduate_view(r: RecordView) -> bool {
    !is_graduate_code(r.code)
}

/// The graduate courses of `rs`, in their order.
pub open spec fn graduate_part(rs: Seq<RecordView>) -> Seq<RecordView> {
    rs.filter(|r: RecordView| is_graduate_view(r))
}

/// The undergraduate courses of `rs`, in their order.
pub open spec fn undergraduate_part(rs: Seq<RecordView>) -> Seq<RecordView> {
    rs.filter(|r: RecordView| is_undergraduate_view(r))
}

fn copy_text(s: &String) -> (r: String)
    ensures
        r@ == s@,
{
    s.clone()
}

/// The record as named fields, in the order of its definition, under the
/// names that its JSON form uses.
pub open spec fn named_fields_view(r: RecordView) -> Seq<(Seq<char>, Seq<char>)> {
    seq![
        ("code"@, r.code),
        ("name"@, r.name),
        ("instructionalType"@, r.instructional_type),
        ("credits"@, r.credits),
        ("standardYear"@, r.standard_year),
        ("module"@, r.module),
        ("period"@, r.period),
        ("classroom"@, r.classroom),
        ("instructors"@, r.instructors),
        ("overview"@, r.overview),
        ("remarks"@, r.remarks),
        ("updatedAt"@, r.updated_at)
    ]
}

fn push_named(out: &mut Vec<(String, String)>, name: &str, value: &String)
    ensures
        final(out)@.len() == old(out)@.len() + 1,
        forall|i: int| 0 <= i < old(out)@.len() ==> final(out)@[i] == old(out)@[i],
        final(out)@.last().0@ == name@,
        final(out)@.last().1@ == value@,
{
    out.push((String::from_str(name), copy_text(value)));
}

impl KdbRecord {
    /// The record as (name, value) pairs, for writing it as a JSON object.
    pub fn named_fields(&self) -> (r: Vec<(String, String)>)
        ensures
            r@.map_values(|p: (String, String)| (p.0@, p.1@)) == named_fields_view(self@),
    {
        let mut out: Vec<(String, String)> = Vec::new();
        push_named(&mut out, "code", &self.code);
        push_named(&mut out, "name", &self.name);
        push_named(&mut out, "instructionalType", &self.instructional_type);
        push_named(&mut out, "credits", &self.credits);
        push_named(&mut out, "standardYear", &self.standard_year);
        push_named(&mut out, "module", &self.module);
        push_named(&mut out, "period", &self.period);
        push_named(&mut out, "classroom", &self.classroom);
        push_named(&mut out, "instructors", &self.instructors);
        push_named(&mut out, "overview", &self.overview);
        push_named(&mut out, "remarks", &self.remarks);
        push_named(&mut out, "updatedAt", &self.updated_at);
        assert(out@.map_values(|p: (String, String)| (p.0@, p.1@)) =~= named_fields_view(self@));
        out
    }

    /// Whether this course is a graduate course (its code starts with `0`).
    pub fn is_graduate(&self) -> (r: bool)
        ensures
            r == is_graduate_code(self.code@),
    {
        let code = self.code.as_str();
        if code.is_empty() {
            false
        } else {
            code.get_char(0) == '0'
        }
    }

    /// A copy of this record with the same field values.
    pub fn duplicate(&self) -> (r: KdbRecord)
        ensures
            r@ == self@,
    {
        KdbRecord {
            code: copy_text(&self.code),
            name: copy_text(&self.name),
            instructional_type: copy_text(&self.instructional_type),
            credits: copy_text(&self.credits),
            standard_year: copy_text(&self.standard_year),
            module: copy_text(&self.module),
            period: copy_text(&self.period),
            classroom: copy_text(&self.classroom),
            instructors: copy_text(&self.instructors),
            overview: copy_text(&self.overview),
            remarks: copy_text(&self.remarks),
            updated_at: copy_text(&self.updated_at),
        }
    }
}

/// Splits `records` by level, keeping the order of each part:
/// the first vector holds the undergraduate courses, the second the graduate ones.
pub fn partition_by_level(records: &Vec<KdbRecord>) -> (r: (Vec<KdbRecord>, Vec<KdbRecord>))
    ensures
        views_of(r.0@) == undergraduate_part(views_of(records@)),
        views_of(r.1@) == graduate_part(views_of(records@)),
{
    let mut under: Vec<KdbRecord> = Vec::new();
    let mut grad: Vec<KdbRecord> = Vec::new();
    let ghost all = views_of(records@);
    let mut i: usize = 0;
    while i < records.len()
        invariant
            i <= records@.len(),
            all == views_of(records@),
            views_of(under@) == undergraduate_part(all.take(i as int)),
            views_of(grad@) == graduate_part(all.take(i as int)),
        decreases records@.len() - i,
    {
        let rec = records[i].duplicate();
        let ghost prefix = all.take(i as int);
        let ghost next = all.take(i as int + 1);
        let ghost v = rec@;
        let ghost under_before = under@;
        let ghost grad_before = grad@;
        proof {
            assert(next =~= prefix.push(v));
            assert(next.drop_last() =~= prefix);
            reveal_with_fuel(Seq::filter, 1);
        }
        if rec.is_graduate() {
            grad.push(rec);
            assert(views_of(grad@) =~= views_of(grad_before).push(v));
        } else {
            under.push(rec);
            assert(views_of(under@) =~= views_of(under_before).push(v));
        }
        i = i + 1;
    }
    assert(all.take(records@.len() as int) =~= all);
    (under, grad)
}

/// Splitting by level loses and invents no course: a record lands in the
/// graduate part exactly when its code starts with `0`, in the
/// undergraduate part exactly when it does not, so the parts are disjoint,
/// together hold every record as often as the whole does, and their sizes add
/// up to the whole's.
pub proof fn level_partition_is_exact(rs: Seq<RecordView>)
    ensures
        forall|r: RecordView| #[trigger] graduate_part(rs).contains(r) <==> (rs.contains(r) && is_graduate_code(r.code)),
        forall|r: RecordView| #[trigger] undergraduate_part(rs).contains(r) <==> (rs.contains(r) && !is_graduate_code(r.code)),
        graduate_part(rs).len() + undergraduate_part(rs).len() == rs.len(),
        graduate_part(rs).to_multiset().add(undergraduate_part(rs).to_multiset()) =~= rs.to_multiset(),
    decreases rs.len(),
{
    broadcast use vstd::seq_lib::group_to_multiset_ensures, vstd::seq_lib::group_filter_ensures;
    let g = graduate_part(rs);
    let u = undergraduate_part(rs);
    if rs.len() > 0 {
        let init = rs.drop_last();
        level_partition_is_exact(init);
        reveal_with_fuel(Seq::filter, 1);
        assert(init.push(rs.last()) =~= rs);
    }
    assert forall|r: RecordView| #[trigger] g.contains(r) <==> (rs.contains(r) && is_graduate_code(r.code)) by {
        if g.contains(r) {
            let j = choose|j: int| 0 <= j < g.len() && g[j] == r;
            assert(is_graduate_view(g[j]));
            assert(g.to_multiset().count(r) > 0);
            assert(rs.to_multiset().count(r) > 0);
        }
        if rs.contains(r) && is_graduate_code(r.code) {
            let i = choose|i: int| 0 <= i < rs.len() && rs[i] == r;
            assert(g.contains(rs[i]));
        }
    }
    assert forall|r: RecordView| #[trigger] u.contains(r) <==> (rs.contains(r) && !is_graduate_code(r.code)) by {
        if u.contains(r) {
            let j = choose|j: int| 0 <= j < u.len() && u[j] == r;
            assert(is_undergraduate_view(u[j]));
            assert(u.to_multiset().count(r) > 0);
            assert(rs.to_multiset().count(r) > 0);
        }
        if rs.contains(r) && !is_graduate_code(r.code) {
            let i = choose|i: int| 0 <= i < rs.len() && rs[i] == r;
            assert(u.contains(rs[i]));
        }
    }
}

} // verus!
