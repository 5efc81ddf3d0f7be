//! The two known column layouts, and which of them a header has.

use vstd::prelude::*;

verus! {

/// The views of a list of texts.
pub open spec fn texts(v: Seq<String>) -> Seq<Seq<char>> {
    Seq::new(v.len(), |i: int| v[i]@)
}

/// The columns that both layouts start with.
pub open spec fn shared_columns() -> Seq<Seq<char>> {
    seq![
        "Date"@,
        "Validator Index"@,
        "Price [USD/ETH]"@,
        "Consensus Layer Income [ETH]"@,
        "Execution Layer Income [ETH]"@,
    ]
}

/// The columns that the rocketpool layout adds behind the shared ones.
pub open spec fn rocketpool_columns() -> Seq<Seq<char>> {
    seq![
        "Node Address"@,
        "Smoothing Pool Income [ETH]"@,
        "Rocket Pool Node Income [RPL]"@,
        "Price [USD/RPL]"@,
    ]
}

/// All nine known columns, in order.
pub open spec fn column_names() -> Seq<Seq<char>> {
    shared_columns() + rocketpool_columns()
}

/// How many columns the solo layout has.
pub const SOLO_NUM_COLUMNS: usize = 5;

/// How many columns the rocketpool layout has.
pub const RPL_NUM_COLUMNS: usize = 9;

/// Which of the two layouts a header has.
#[derive(Clone, Copy, Debug, PartialEq, Eq, Structural)]
pub enum Layout {
    Solo,
    Rocketpool,
}

/// Why a header matches neither layout.
#[derive(Clone, Debug, PartialEq, Eq)]
pub enum SchemaError {
    /// The header has neither five nor nine columns.
    ColumnCount { count: usize },
    /// The first column whose name is not the expected one.
    ColumnName { index: usize, expected: String, found: String },
}

/// A `SchemaError` as a value of mathematics.
pub enum SchemaErrorView {
    ColumnCount { count: nat },
    ColumnName { index: nat, expected: Seq<char>, found: Seq<char> },
}

impl View for SchemaError {
    type V = SchemaErrorView;

    open spec fn view(&self) -> SchemaErrorView {
        match *self {
            SchemaError::ColumnCount { count } => SchemaErrorView::ColumnCount { count: count as nat },
            SchemaError::ColumnName { index, expected, found } => SchemaErrorView::ColumnName {
                index: index as nat,
                expected: expected@,
                found: found@,
            },
        }
    }
}

/// The least index from `from` on at which the two lists differ, or the
/// length of `expected` where they agree from there on.
pub open spec fn first_mismatch(header: Seq<Seq<char>>, expected: Seq<Seq<char>>, from: int) -> int
    decreases expected.len() - from,
{
    if from < 0 || from >= expected.len() {
        expected.len() as int
    } else if header[from] != expected[from] {
        from
    } else {
        first_mismatch(header, expected, from + 1)
    }
}

/// What `Layout::detect` gives for a header.
pub open spec fn detected(header: Seq<Seq<char>>) -> Result<Layout, SchemaErrorView> {
    if header.len() != SOLO_NUM_COLUMNS && header.len() != RPL_NUM_COLUMNS {
        Err(SchemaErrorView::ColumnCount { count: header.len() })
    } else {
        let layout = if header.len() == SOLO_NUM_COLUMNS {
            Layout::Solo
        } else {
            Layout::Rocketpool
        };
        let at = first_mismatch(header, layout.columns(), 0);
        if at >= header.len() {
            Ok(layout)
        } else {
            Err(
                SchemaErrorView::ColumnName {
                    index: at as nat,
                    expected: column_names()[at],
                    found: header[at],
                },
            )
        }
    }
}

/// The view of what `Layout::detect` returns.
pub open spec fn detection_view(r: Result<Layout, SchemaError>) -> Result<Layout, SchemaErrorView> {
    match r {
        Ok(layout) => Ok(layout),
        Err(e) => Err(e@),
    }
}

/// Where the first mismatch lies: within the expected columns, at a column
/// on which the two lists differ if it is not behind them all, and behind
/// columns on which they agree.
pub proof fn lemma_first_mismatch(header: Seq<Seq<char>>, expected: Seq<Seq<char>>, from: int)
    requires
        0 <= from <= expected.len(),
    ensures
        from <= first_mismatch(header, expected, from) <= expected.len(),
        first_mismatch(header, expected, from) < expected.len() ==> header[first_mismatch(
            header,
            expected,
            from,
        )] != expected[first_mismatch(header, expected, from)],
        forall|j: int|
            from <= j < first_mismatch(header, expected, from) ==> header[j] == expected[j],
    decreases expected.len() - from,
{
    if from < expected.len() && header[from] == expected[from] {
        lemma_first_mismatch(header, expected, from + 1);
    }
}

/// A header is given the solo layout exactly when it is the five shared
/// columns, the rocketpool layout exactly when it is all nine columns, and
/// is refused in every other case.
pub proof fn lemma_detected_layouts(header: Seq<Seq<char>>)
    ensures
        detected(header) == Ok::<Layout, SchemaErrorView>(Layout::Solo) <==> header
            == shared_columns(),
        detected(header) == Ok::<Layout, SchemaErrorView>(Layout::Rocketpool) <==> header
            == column_names(),
        detected(header) is Err <==> header != shared_columns() && header != column_names(),
        detected(header) matches Ok(layout) ==> layout.label_text() == (if header.len()
            == SOLO_NUM_COLUMNS {
            "Solo Staking"@
        } else {
            "Rocketpool Staking"@
        }),
{
    lemma_first_mismatch(header, shared_columns(), 0);
    lemma_first_mismatch(header, column_names(), 0);
    if header.len() == 5 {
        assert(first_mismatch(header, shared_columns(), 0) == 5 <==> header =~= shared_columns());
    }
    if header.len() == 9 {
        assert(first_mismatch(header, column_names(), 0) == 9 <==> header =~= column_names());
    }
}

/// The name of a known column.
pub fn column_name(index: usize) -> (r: &'static str)
    requires
        index < RPL_NUM_COLUMNS,
    ensures
        r@ == column_names()[index as int],
{
    if index == 0 {
        "Date"
    } else if index == 1 {
        "Validator Index"
    } else if index == 2 {
        "Price [USD/ETH]"
    } else if index == 3 {
        "Consensus Layer Income [ETH]"
    } else if index == 4 {
        "Execution Layer Income [ETH]"
    } else if index == 5 {
        "Node Address"
    } else if index == 6 {
        "Smoothing Pool Income [ETH]"
    } else if index == 7 {
        "Rocket Pool Node Income [RPL]"
    } else {
        "Price [USD/RPL]"
    }
}

/// Whether a text is the given one.
fn same_text(a: &String, b: &str) -> (r: bool)
    ensures
        r == (a@ == b@),
{
    let owned = b.to_owned();
    *a == owned
}

impl Layout {
    /// The columns of the layout, in order.
    pub open spec fn columns(self) -> Seq<Seq<char>> {
        match self {
            Layout::Solo => shared_columns(),
            Layout::Rocketpool => column_names(),
        }
    }

    /// The account label of the layout, as a text.
    pub open spec fn label_text(self) -> Seq<char> {
        match self {
            Layout::Solo => "Solo Staking"@,
            Layout::Rocketpool => "Rocketpool Staking"@,
        }
    }

    /// How many columns the layout has.
    pub fn num_columns(self) -> (r: usize)
        ensures
            r == self.columns().len(),
            r == SOLO_NUM_COLUMNS || r == RPL_NUM_COLUMNS,
    {
        match self {
            Layout::Solo => SOLO_NUM_COLUMNS,
            Layout::Rocketpool => RPL_NUM_COLUMNS,
        }
    }

    /// The account label that every ledger row of a run carries.
    pub fn label(self) -> (r: &'static str)
        ensures
            r@ == self.label_text(),
    {
        match self {
            Layout::Solo => "Solo Staking",
            Layout::Rocketpool => "Rocketpool Staking",
        }
    }

    /// Finds the layout of a header. A header of five or nine columns whose
    /// names are the expected ones, in order, has a layout; any other header
    /// is refused, for its length or for the first name that differs.
    pub fn detect(header: &Vec<String>) -> (r: Result<Layout, SchemaError>)
        ensures
            detection_view(r) == detected(texts(header@)),
    {
        let n = header.len();
        if n != SOLO_NUM_COLUMNS && n != RPL_NUM_COLUMNS {
            return Err(SchemaError::ColumnCount { count: n });
        }
        let layout = if n == SOLO_NUM_COLUMNS {
            Layout::Solo
        } else {
            Layout::Rocketpool
        };
        let ghost names = texts(header@);
        let mut i: usize = 0;
        while i < n
            invariant
                n == header.len(),
                n == layout.columns().len(),
                n == SOLO_NUM_COLUMNS || n == RPL_NUM_COLUMNS,
                names == texts(header@),
                0 <= i <= n,
                forall|j: int| 0 <= j < i ==> names[j] == layout.columns()[j],
            decreases n - i,
        {
            let expected = column_name(i);
            if !same_text(&header[i], expected) {
                proof {
                    lemma_first_mismatch(names, layout.columns(), 0);
                }
                return Err(
                    SchemaError::ColumnName {
                        index: i,
                        expected: expected.to_owned(),
                        found: header[i].clone(),
                    },
                );
            }
            i += 1;
        }
        proof {
            lemma_first_mismatch(names, layout.columns(), 0);
        }
        Ok(layout)
    }
}

} // verus!
