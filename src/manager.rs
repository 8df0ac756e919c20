use vstd::prelude::*;

use crate::adif::{adif_generate_header, adif_header};
use crate::context::{QSLContext, QslError, RecordFilter};
use crate::record::{Mode, Timestamp, QSL};

verus! {

/// The last page index when `total` records are cut in pages of
/// `page_size`: page 0 when there is no record.
pub open spec fn max_page_spec(total: int, page_size: int) -> int {
    if total <= 0 {
        0
    } else {
        (total - 1) / page_size
    }
}

/// How many pages an export sweeps for `count` records: one more than the
/// full pages, so that the last one may be short or empty.
pub open spec fn export_pages(count: int, page_size: int) -> int {
    (if count < 0 {
        0
    } else {
        count
    }) / page_size + 1
}

/// The ADIF records of a sequence of records, one after the other.
pub open spec fn adif_body(records: Seq<QSL>) -> Seq<char>
    decreases records.len(),
{
    if records.len() == 0 {
        Seq::empty()
    } else {
        adif_body(records.drop_last()) + records.last().adif_spec()
    }
}

/// The record literals of a sequence of records, one after the other.
pub open spec fn typst_body(records: Seq<QSL>) -> Seq<char>
    decreases records.len(),
{
    if records.len() == 0 {
        Seq::empty()
    } else {
        typst_body(records.drop_last()) + records.last().typst_spec()
    }
}

/// A whole ADIF file: the header, then every record.
pub open spec fn adif_file(created: Timestamp, records: Seq<QSL>) -> Seq<char> {
    adif_header(created) + adif_body(records)
}

/// A whole typesetting data file: the callsign, the list of records, then
/// the template.
pub open spec fn typst_file(callsign: Seq<char>, records: Seq<QSL>, template: Seq<char>) -> Seq<
    char,
> {
    "#let callsign = \""@ + callsign + "\"\n"@ + "#let log_data = ("@ + typst_body(records)
        + ")\n"@ + template
}

/// The last page index for `total` records in pages of `page_size`.
pub fn max_page_for(total: usize, page_size: i64) -> (r: usize)
    requires
        page_size > 0,
    ensures
        r == max_page_spec(total as int, page_size as int),
{
    if total == 0 {
        0
    } else {
        proof {
            assert((total - 1) / (page_size as int) <= total - 1) by (nonlinear_arith)
                requires
                    page_size > 0,
                    total >= 1,
            ;
        }
        ((total as u64 - 1) / (page_size as u64)) as usize
    }
}

/// How many pages an export sweeps for `count` records.
pub fn export_page_count(count: i64, page_size: i64) -> (r: u64)
    requires
        page_size > 0,
    ensures
        r == export_pages(count as int, page_size as int),
{
    let n: i64 = if count < 0 {
        0
    } else {
        count
    };
    proof {
        assert(n / page_size <= n) by (nonlinear_arith)
            requires
                page_size > 0,
                n >= 0,
        ;
    }
    (n / page_size) as u64 + 1
}

/// Once the page has been clamped to the last page, it starts inside the
/// records: after records were removed elsewhere the shown page is never
/// past the end.
pub proof fn lemma_clamped_page_has_records(page: int, total: int, page_size: int)
    requires
        page_size > 0,
        total > 0,
        page >= 0,
    ensures
        (if page < max_page_spec(total, page_size) {
            page
        } else {
            max_page_spec(total, page_size)
        }) * page_size < total,
{
    let m = max_page_spec(total, page_size);
    assert(m * page_size <= total - 1) by (nonlinear_arith)
        requires
            page_size > 0,
            total > 0,
            m == (total - 1) / page_size,
    ;
    if page < m {
        assert(page * page_size <= m * page_size) by (nonlinear_arith)
            requires
                page_size > 0,
                page < m,
        ;
    }
}

/// A record count as a `usize`: none below zero, at most `usize::MAX`.
fn count_to_usize(count: i64) -> (r: usize)
    ensures
        count <= 0 ==> r == 0,
        0 <= count <= usize::MAX ==> r == count,
{
    if count < 0 {
        0
    } else if count as u64 > usize::MAX as u64 {
        usize::MAX
    } else {
        count as usize
    }
}

fn append_records(out: &mut Vec<QSL>, more: Vec<QSL>)
    ensures
        final(out)@ == old(out)@ + more@,
{
    let mut more = more;
    out.append(&mut more);
}

/// An ADIF file: the header for the time it was made, then each record in turn.
pub fn adif_document(created: &Timestamp, records: &Vec<QSL>) -> (r: String)
    ensures
        r@ == adif_file(*created, records@),
{
    let mut r = adif_generate_header(created);
    let mut i: usize = 0;
    while i < records.len()
        invariant
            i <= records@.len(),
            r@ == adif_header(*created) + adif_body(records@.take(i as int)),
        decreases records@.len() - i,
    {
        let block = records[i].fmt_adif();
        r.append(block.as_str());
        proof {
            assert(records@.take(i + 1).drop_last() =~= records@.take(i as int));
        }
        i = i + 1;
    }
    assert(records@.take(records@.len() as int) =~= records@);
    r
}

/// A typesetting data file: the callsign, the records as a list, then the template.
#[verifier::rlimit(40)]
pub fn typst_document(callsign: &str, records: &Vec<QSL>, template: &str) -> (r: String)
    ensures
        r@ == typst_file(callsign@, records@, template@),
{
    let mut r = String::from_str("#let callsign = \"");
    r.append(callsign);
    r.append("\"\n");
    r.append("#let log_data = (");
    let ghost head = r@;
    let mut i: usize = 0;
    while i < records.len()
        invariant
            i <= records@.len(),
            r@ == head + typst_body(records@.take(i as int)),
        decreases records@.len() - i,
    {
        let block = records[i].fmt_typst();
        r.append(block.as_str());
        proof {
            assert(records@.take(i + 1).drop_last() =~= records@.take(i as int));
        }
        i = i + 1;
    }
    assert(records@.take(records@.len() as int) =~= records@);
    r.append(")\n");
    r.append(template);
    assert(r@ =~= typst_file(callsign@, records@, template@));
    r
}

/// What the HTML report is made from: the callsign and the two sets of records.
pub struct RecordTemplate {
    pub callsign: String,
    pub records_formal: Vec<QSL>,
    pub records_eyeball: Vec<QSL>,
}

/// The state of one session: the open log, the page size, and the page shown.
pub struct QSLManager {
    pub context: QSLContext,
    split_page_size: i64,
    callsign: String,
    page: usize,
    max_page: usize,
    number_of_record: usize,
}

impl QSLManager {
    pub closed spec fn page_spec(&self) -> usize {
        self.page
    }

    pub closed spec fn max_page_view(&self) -> usize {
        self.max_page
    }

    pub closed spec fn records_view(&self) -> usize {
        self.number_of_record
    }

    pub closed spec fn page_size_view(&self) -> i64 {
        self.split_page_size
    }

    pub closed spec fn callsign_view(&self) -> Seq<char> {
        self.callsign@
    }

    /// The page size is positive, the last page follows the record count, and
    /// the page shown is not past it.
    pub open spec fn inv(&self) -> bool {
        &&& self.page_size_view() > 0
        &&& self.max_page_view() == max_page_spec(
            self.records_view() as int,
            self.page_size_view() as int,
        )
        &&& self.page_spec() <= self.max_page_view()
    }

    /// Starts a session on the first page; reads the callsign and the record count.
    pub fn new(context: QSLContext, split_page_size: i64) -> (r: Result<Self, QslError>)
        requires
            split_page_size > 0,
        ensures
            r matches Ok(m) ==> m.inv() && m.page_spec() == 0 && m.page_size_view()
                == split_page_size,
    {
        let callsign = match context.get_callsign() {
            Ok(cs) => cs,
            Err(e) => return Err(e),
        };
        let count = match context.get_qsl_count() {
            Ok(n) => n,
            Err(e) => return Err(e),
        };
        let number_of_record = count_to_usize(count);
        let max_page = max_page_for(number_of_record, split_page_size);
        Ok(QSLManager { context, split_page_size, callsign, page: 0, max_page, number_of_record })
    }

    pub fn callsign(&self) -> (r: &String)
        ensures
            r@ == self.callsign_view(),
    {
        &self.callsign
    }

    pub fn page(&self) -> (r: usize)
        ensures
            r == self.page_spec(),
    {
        self.page
    }

    pub fn page_size(&self) -> (r: i64)
        ensures
            r == self.page_size_view(),
    {
        self.split_page_size
    }

    pub fn max_page(&self) -> (r: usize)
        ensures
            r == self.max_page_view(),
    {
        self.max_page
    }

    pub fn number_of_record(&self) -> (r: usize)
        ensures
            r == self.records_view(),
    {
        self.number_of_record
    }

    /// Takes a new record count: the last page follows it, and the page shown
    /// moves back to the last page when it is now past it.
    pub fn refresh(&mut self, total: usize)
        requires
            old(self).inv(),
        ensures
            final(self).inv(),
            final(self).records_view() == total,
            final(self).max_page_view() == max_page_spec(
                total as int,
                old(self).page_size_view() as int,
            ),
            final(self).page_spec() == if old(self).page_spec() < final(self).max_page_view() {
                old(self).page_spec()
            } else {
                final(self).max_page_view()
            },
            final(self).page_size_view() == old(self).page_size_view(),
            final(self).callsign_view() == old(self).callsign_view(),
    {
        self.number_of_record = total;
        self.max_page = max_page_for(total, self.split_page_size);
        if self.page >= self.max_page {
            self.page = self.max_page;
        }
    }

    /// Shows the next page, unless the last one is shown; says whether it moved.
    pub fn next_page(&mut self) -> (moved: bool)
        requires
            old(self).inv(),
        ensures
            final(self).inv(),
            moved == (old(self).page_spec() < old(self).max_page_view()),
            final(self).page_spec() == if moved {
                old(self).page_spec() + 1
            } else {
                old(self).page_spec() as int
            },
            final(self).max_page_view() == old(self).max_page_view(),
            final(self).records_view() == old(self).records_view(),
            final(self).page_size_view() == old(self).page_size_view(),
            final(self).callsign_view() == old(self).callsign_view(),
    {
        if self.page < self.max_page {
            self.page = self.page + 1;
            true
        } else {
            false
        }
    }

    /// Shows the previous page, unless the first one is shown; says whether it moved.
    pub fn previous_page(&mut self) -> (moved: bool)
        requires
            old(self).inv(),
        ensures
            final(self).inv(),
            moved == (old(self).page_spec() > 0),
            final(self).page_spec() == if moved {
                old(self).page_spec() - 1
            } else {
                old(self).page_spec() as int
            },
            final(self).max_page_view() == old(self).max_page_view(),
            final(self).records_view() == old(self).records_view(),
            final(self).page_size_view() == old(self).page_size_view(),
            final(self).callsign_view() == old(self).callsign_view(),
    {
        if self.page > 0 {
            self.page = self.page - 1;
            true
        } else {
            false
        }
    }

    /// The records of the page to show. The record count is read again first,
    /// and the page moves back when records were removed meanwhile.
    pub fn fetch_shown_qsl(&mut self) -> (r: Result<Vec<QSL>, QslError>)
        requires
            old(self).inv(),
        ensures
            final(self).inv(),
            final(self).page_size_view() == old(self).page_size_view(),
            final(self).callsign_view() == old(self).callsign_view(),
            final(self).page_spec() <= old(self).page_spec(),
            final(self).records_view() > 0 ==> final(self).page_spec() * final(self).page_size_view()
                < final(self).records_view(),
    {
        proof {
            if self.records_view() > 0 {
                lemma_clamped_page_has_records(
                    self.page_spec() as int,
                    self.records_view() as int,
                    self.page_size_view() as int,
                );
            }
        }
        let count = match self.context.get_qsl_count() {
            Ok(n) => n,
            Err(e) => return Err(e),
        };
        let total = count_to_usize(count);
        let ghost before = self.page_spec();
        self.refresh(total);
        proof {
            if total > 0 {
                lemma_clamped_page_has_records(
                    before as int,
                    total as int,
                    self.page_size_view() as int,
                );
            }
        }
        self.context.get_qsl_page(self.split_page_size, self.page as i64)
    }

    /// Every record that the filter keeps, page after page, in storage order.
    pub fn sweep(&self, filter: RecordFilter) -> (r: Result<Vec<QSL>, QslError>)
        requires
            self.inv(),
        ensures
            r is Err ==> r matches Err(QslError::Store { .. }),
            r matches Ok(v) ==> forall|i: int|
                0 <= i < v@.len() ==> filter.keeps(#[trigger] v@[i].mode),
    {
        let count = match self.context.get_count(filter) {
            Ok(n) => n,
            Err(e) => return Err(e),
        };
        let total_pages = export_page_count(count, self.split_page_size);
        assert(total_pages <= i64::MAX as u64 + 1) by (nonlinear_arith)
            requires
                total_pages == export_pages(count as int, self.page_size_view() as int),
                self.page_size_view() > 0,
        ;
        let mut records: Vec<QSL> = Vec::new();
        let mut i: u64 = 0;
        while i < total_pages
            invariant
                total_pages <= i64::MAX as u64 + 1,
                forall|j: int| 0 <= j < records@.len() ==> filter.keeps(#[trigger] records@[j].mode),
            decreases total_pages - i,
        {
            match self.context.get_page(filter, self.split_page_size, i as i64) {
                Ok(page) => {
                    let ghost before = records@;
                    append_records(&mut records, page);
                    assert forall|j: int| 0 <= j < records@.len() implies filter.keeps(
                        #[trigger] records@[j].mode,
                    ) by {
                        if j >= before.len() {
                            assert(records@[j] == page@[j - before.len()]);
                        }
                    }
                },
                Err(e) => return Err(e),
            }
            i = i + 1;
        }
        Ok(records)
    }

    /// The typesetting data file of every over-the-air record, `template`
    /// appended at its end.
    pub fn output_typst(&self, template: &str) -> (r: Result<String, QslError>)
        requires
            self.inv(),
        ensures
            r matches Ok(s) ==> exists|records: Seq<QSL>|
                (forall|i: int| 0 <= i < records.len() ==> #[trigger] records[i].mode != Mode::EYEBALL)
                    && s@ == #[trigger] typst_file(self.callsign_view(), records, template@),
    {
        let records = match self.sweep(RecordFilter::Formal) {
            Ok(v) => v,
            Err(e) => return Err(e),
        };
        let s = typst_document(self.callsign.as_str(), &records, template);
        assert(s@ == typst_file(self.callsign_view(), records@, template@));
        Ok(s)
    }

    /// The ADIF file of every over-the-air record, made at `created`.
    pub fn output_adif(&self, created: &Timestamp) -> (r: Result<String, QslError>)
        requires
            self.inv(),
        ensures
            r matches Ok(s) ==> exists|records: Seq<QSL>|
                (forall|i: int| 0 <= i < records.len() ==> #[trigger] records[i].mode != Mode::EYEBALL)
                    && s@ == #[trigger] adif_file(*created, records),
    {
        let records = match self.sweep(RecordFilter::Formal) {
            Ok(v) => v,
            Err(e) => return Err(e),
        };
        let s = adif_document(created, &records);
        assert(s@ == adif_file(*created, records@));
        Ok(s)
    }

    /// What the HTML report shows: the callsign, the in-person records and
    /// the over-the-air records.
    pub fn output_html(&self) -> (r: Result<RecordTemplate, QslError>)
        requires
            self.inv(),
        ensures
            r matches Ok(t) ==> t.callsign@ == self.callsign_view(),
            r matches Ok(t) ==> forall|i: int|
                0 <= i < t.records_eyeball@.len() ==> #[trigger] t.records_eyeball@[i].mode
                    == Mode::EYEBALL,
            r matches Ok(t) ==> forall|i: int|
                0 <= i < t.records_formal@.len() ==> #[trigger] t.records_formal@[i].mode
                    != Mode::EYEBALL,
    {
        let records_eyeball = match self.sweep(RecordFilter::Eyeball) {
            Ok(v) => v,
            Err(e) => return Err(e),
        };
        let records_formal = match self.sweep(RecordFilter::Formal) {
            Ok(v) => v,
            Err(e) => return Err(e),
        };
        Ok(RecordTemplate { callsign: self.callsign.clone(), records_formal, records_eyeball })
    }
}

} // verus!
