//! A whole run: a header record and the data records behind it.

use crate::row::{parsed_row, InputRow, ParseError, ParseErrorView};
use crate::schema::{detected, texts, Layout, SchemaError, SchemaErrorView};
use crate::translator::{rows_view, translate_row, OutputRow, OutputRowView};
use vstd::prelude::*;

verus! {

/// Why a run gave no ledger. Data records are counted from zero.
#[derive(Clone, Debug, PartialEq, Eq)]
pub enum TranslateError {
    /// The header matches neither layout.
    Schema(SchemaError),
    /// A data record could not be decoded.
    Parse { row: usize, error: ParseError },
    /// The consensus and execution incomes of a data record have a sum that
    /// cannot be represented.
    Overflow { row: usize },
}

/// A `TranslateError` as a value of mathematics.
pub enum TranslateErrorView {
    Schema(SchemaErrorView),
    Parse { row: nat, error: ParseErrorView },
    Overflow { row: nat },
}

impl View for TranslateError {
    type V = TranslateErrorView;

    open spec fn view(&self) -> TranslateErrorView {
        match *self {
            TranslateError::Schema(e) => TranslateErrorView::Schema(e@),
            TranslateError::Parse { row, error } => TranslateErrorView::Parse {
                row: row as nat,
                error: error@,
            },
            TranslateError::Overflow { row } => TranslateErrorView::Overflow { row: row as nat },
        }
    }
}

/// The views of a list of records.
pub open spec fn records_view(records: Seq<Vec<String>>) -> Seq<Seq<Seq<char>>> {
    Seq::new(records.len(), |i: int| texts(records[i]@))
}

/// The ledger rows of the data record at position `at`, or why it has none.
pub open spec fn record_ledger(layout: Layout, fields: Seq<Seq<char>>, at: nat) -> Result<
    Seq<OutputRowView>,
    TranslateErrorView,
> {
    match parsed_row(layout, fields) {
        Err(e) => Err(TranslateErrorView::Parse { row: at, error: e }),
        Ok(row) => if row.fits() {
            Ok(row.ledger(layout.label_text()))
        } else {
            Err(TranslateErrorView::Overflow { row: at })
        },
    }
}

/// The ledger of a list of data records: the rows of each record, in the
/// order of the records, or the error of the first record that has one.
pub open spec fn records_ledger(layout: Layout, records: Seq<Seq<Seq<char>>>) -> Result<
    Seq<OutputRowView>,
    TranslateErrorView,
>
    decreases records.len(),
{
    if records.len() == 0 {
        Ok(Seq::empty())
    } else {
        match records_ledger(layout, records.drop_last()) {
            Err(e) => Err(e),
            Ok(before) => match record_ledger(
                layout,
                records.last(),
                (records.len() - 1) as nat,
            ) {
                Err(e) => Err(e),
                Ok(rows) => Ok(before + rows),
            },
        }
    }
}

/// What `translate` gives for a header and the data records behind it.
pub open spec fn translated(header: Seq<Seq<char>>, records: Seq<Seq<Seq<char>>>) -> Result<
    Seq<OutputRowView>,
    TranslateErrorView,
> {
    match detected(header) {
        Err(e) => Err(TranslateErrorView::Schema(e)),
        Ok(layout) => records_ledger(layout, records),
    }
}

/// The view of what `translate` returns.
pub open spec fn translation_view(r: Result<Vec<OutputRow>, TranslateError>) -> Result<
    Seq<OutputRowView>,
    TranslateErrorView,
> {
    match r {
        Ok(rows) => Ok(rows_view(rows@)),
        Err(e) => Err(e@),
    }
}

/// An error among the first `n` records is the error of the whole list.
pub proof fn lemma_first_error_stays(layout: Layout, records: Seq<Seq<Seq<char>>>, n: int)
    requires
        0 <= n <= records.len(),
        records_ledger(layout, records.take(n)) is Err,
    ensures
        records_ledger(layout, records) == records_ledger(layout, records.take(n)),
    decreases records.len() - n,
{
    if n == records.len() {
        assert(records.take(n) =~= records);
    } else {
        assert(records.take(n + 1).drop_last() =~= records.take(n));
        lemma_first_error_stays(layout, records, n + 1);
    }
}

/// A list of records with a ledger has no record with an error.
pub proof fn lemma_ledger_needs_every_record(layout: Layout, records: Seq<Seq<Seq<char>>>)
    requires
        records_ledger(layout, records) is Ok,
    ensures
        forall|j: int|
            0 <= j < records.len() ==> (#[trigger] record_ledger(
                layout,
                records[j],
                j as nat,
            )) is Ok,
    decreases records.len(),
{
    if records.len() > 0 {
        let front = records.drop_last();
        lemma_ledger_needs_every_record(layout, front);
        assert forall|j: int| 0 <= j < records.len() implies (#[trigger] record_ledger(
            layout,
            records[j],
            j as nat,
        )) is Ok by {
            if j < front.len() {
                assert(front[j] == records[j]);
            }
        }
    }
}

/// The error of a list of records is the error of its first record that
/// has one: every record before that one has ledger rows.
pub proof fn lemma_error_is_of_first_bad_record(
    layout: Layout,
    records: Seq<Seq<Seq<char>>>,
) -> (at: int)
    requires
        records_ledger(layout, records) is Err,
    ensures
        0 <= at < records.len(),
        record_ledger(layout, records[at], at as nat) == records_ledger(layout, records),
        forall|j: int|
            0 <= j < at ==> (#[trigger] record_ledger(layout, records[j], j as nat)) is Ok,
    decreases records.len(),
{
    let front = records.drop_last();
    if records_ledger(layout, front) is Err {
        let at = lemma_error_is_of_first_bad_record(layout, front);
        assert forall|j: int| 0 <= j <= at implies front[j] == records[j] by {}
        at
    } else {
        lemma_ledger_needs_every_record(layout, front);
        assert forall|j: int| 0 <= j < front.len() implies (#[trigger] record_ledger(
            layout,
            records[j],
            j as nat,
        )) is Ok by {
            assert(front[j] == records[j]);
        }
        records.len() - 1
    }
}

/// Translates the data record at position `at`: decodes its fields and
/// makes the ledger rows of its incomes.
pub fn translate_record(layout: Layout, at: usize, fields: &Vec<String>) -> (r: Result<
    Vec<OutputRow>,
    TranslateError,
>)
    ensures
        translation_view(r) == record_ledger(layout, texts(fields@), at as nat),
{
    let input = match InputRow::parse(layout, fields) {
        Ok(input) => input,
        Err(error) => {
            return Err(TranslateError::Parse { row: at, error });
        },
    };
    match translate_row(&input, layout.label()) {
        Some(rows) => Ok(rows),
        None => Err(TranslateError::Overflow { row: at }),
    }
}

/// Translates a run. A header that matches neither layout gives its error
/// and no row. Otherwise the data records are translated in order; the first
/// that cannot be decoded, or whose sum overflows, gives its error.
pub fn translate(header: &Vec<String>, records: &Vec<Vec<String>>) -> (r: Result<
    Vec<OutputRow>,
    TranslateError,
>)
    ensures
        translation_view(r) == translated(texts(header@), records_view(records@)),
{
    let layout = match Layout::detect(header) {
        Ok(layout) => layout,
        Err(e) => {
            return Err(TranslateError::Schema(e));
        },
    };
    let ghost all = records_view(records@);
    let mut out: Vec<OutputRow> = Vec::new();
    let mut i: usize = 0;
    assert(all.take(0) =~= Seq::empty());
    assert(rows_view(out@) =~= Seq::empty());
    while i < records.len()
        invariant
            detected(texts(header@)) == Ok::<Layout, SchemaErrorView>(layout),
            all == records_view(records@),
            0 <= i <= records.len(),
            records_ledger(layout, all.take(i as int)) == Ok::<
                Seq<OutputRowView>,
                TranslateErrorView,
            >(rows_view(out@)),
        decreases records.len() - i,
    {
        proof {
            assert(all.take(i + 1).drop_last() =~= all.take(i as int));
            assert(all.take(i + 1).last() == texts(records[i as int]@));
        }
        let mut rows = match translate_record(layout, i, &records[i]) {
            Ok(rows) => rows,
            Err(e) => {
                proof {
                    lemma_first_error_stays(layout, all, i + 1);
                }
                return Err(e);
            },
        };
        let ghost before = rows_view(out@);
        let ghost added = rows_view(rows@);
        out.append(&mut rows);
        proof {
            assert(rows_view(out@) =~= before + added);
        }
        i += 1;
    }
    proof {
        assert(all.take(i as int) =~= all);
    }
    Ok(out)
}

/// A header that matches neither layout gives no ledger row at all.
pub proof fn lemma_bad_header_no_rows(header: Seq<Seq<char>>, records: Seq<Seq<Seq<char>>>)
    requires
        detected(header) is Err,
    ensures
        translated(header, records) is Err,
        translated(header, records)->Err_0 is Schema,
{
}

} // verus!
