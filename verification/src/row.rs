//! One data record, decoded against a layout.

use crate::amount::Amount;
use crate::schema::{column_name, column_names, texts, Layout, RPL_NUM_COLUMNS};
use vstd::prelude::*;

verus! {

/// The positions of the columns that a record is read at.
pub const DATE_COLUMN: usize = 0;

pub const VALIDATOR_INDEX_COLUMN: usize = 1;

pub const CONSENSUS_INCOME_COLUMN: usize = 3;

pub const EXECUTION_INCOME_COLUMN: usize = 4;

pub const SMOOTHING_POOL_INCOME_COLUMN: usize = 6;

pub const NODE_INCOME_COLUMN: usize = 7;

/// The incomes of one record. An income that is absent is no income of zero.
#[derive(Clone, Debug, PartialEq, Eq)]
pub struct InputRow {
    pub date: String,
    pub validator_index: Option<u64>,
    pub consensus_income_eth: Option<Amount>,
    pub execution_income_eth: Option<Amount>,
    pub smoothing_pool_income_eth: Option<Amount>,
    pub node_income_rpl: Option<Amount>,
}

/// An `InputRow` as a value of mathematics.
pub struct InputRowView {
    pub date: Seq<char>,
    pub validator_index: Option<u64>,
    pub consensus_income_eth: Option<Amount>,
    pub execution_income_eth: Option<Amount>,
    pub smoothing_pool_income_eth: Option<Amount>,
    pub node_income_rpl: Option<Amount>,
}

impl View for InputRow {
    type V = InputRowView;

    open spec fn view(&self) -> InputRowView {
        InputRowView {
            date: self.date@,
            validator_index: self.validator_index,
            consensus_income_eth: self.consensus_income_eth,
            execution_income_eth: self.execution_income_eth,
            smoothing_pool_income_eth: self.smoothing_pool_income_eth,
            node_income_rpl: self.node_income_rpl,
        }
    }
}

/// Why a record could not be decoded.
#[derive(Clone, Debug, PartialEq, Eq)]
pub enum ParseError {
    /// The record has not as many fields as the layout has columns.
    FieldCount { expected: usize, found: usize },
    /// A field that is neither empty nor an integer.
    Integer { column: usize, field: String, text: String },
    /// A field that is neither empty nor a decimal amount.
    Decimal { column: usize, field: String, text: String },
}

/// A `ParseError` as a value of mathematics.
pub enum ParseErrorView {
    FieldCount { expected: nat, found: nat },
    Integer { column: nat, field: Seq<char>, text: Seq<char> },
    Decimal { column: nat, field: Seq<char>, text: Seq<char> },
}

impl View for ParseError {
    type V = ParseErrorView;

    open spec fn view(&self) -> ParseErrorView {
        match *self {
            ParseError::FieldCount { expected, found } => ParseErrorView::FieldCount {
                expected: expected as nat,
                found: found as nat,
            },
            ParseError::Integer { column, field, text } => ParseErrorView::Integer {
                column: column as nat,
                field: field@,
                text: text@,
            },
            ParseError::Decimal { column, field, text } => ParseErrorView::Decimal {
                column: column as nat,
                field: field@,
                text: text@,
            },
        }
    }
}

/// Whether a character is a decimal digit.
pub open spec fn is_digit(c: char) -> bool {
    '0' <= c <= '9'
}

/// Whether a text holds decimal digits only.
pub open spec fn all_digits(text: Seq<char>) -> bool {
    forall|i: int| 0 <= i < text.len() ==> is_digit(#[trigger] text[i])
}

/// The number that a text of decimal digits writes.
pub open spec fn digits_value(text: Seq<char>) -> nat
    decreases text.len(),
{
    if text.len() == 0 {
        0
    } else {
        (digits_value(text.drop_last()) * 10 + (text.last() as u32 - '0' as u32)) as nat
    }
}

/// The integer that a text writes: one or more decimal digits and nothing
/// else, with a value that fits in 64 bits.
pub open spec fn parsed_index(text: Seq<char>) -> Option<u64> {
    if text.len() > 0 && all_digits(text) && digits_value(text) <= u64::MAX {
        Some(digits_value(text) as u64)
    } else {
        None
    }
}

/// What was read in one field of a numeric column.
#[derive(Clone, Copy, Debug, PartialEq, Eq)]
pub enum Field<T> {
    /// The field is empty.
    Absent,
    /// The field holds a number.
    Value(T),
    /// The field holds a text that is no number.
    Malformed,
}

/// What was read in the numeric columns of one record.
#[derive(Clone, Copy, Debug, PartialEq, Eq)]
pub struct Decoded {
    pub validator_index: Field<u64>,
    pub consensus_income_eth: Field<Amount>,
    pub execution_income_eth: Field<Amount>,
    pub smoothing_pool_income_eth: Field<Amount>,
    pub node_income_rpl: Field<Amount>,
}

impl<T> Field<T> {
    /// The value read, if there is one.
    pub open spec fn value(self) -> Option<T> {
        match self {
            Field::Value(v) => Some(v),
            _ => None,
        }
    }
}

/// What an integer field holds.
pub open spec fn index_field(text: Seq<char>) -> Field<u64> {
    if text.len() == 0 {
        Field::Absent
    } else {
        match parsed_index(text) {
            Some(v) => Field::Value(v),
            None => Field::Malformed,
        }
    }
}

/// What an amount field holds.
pub open spec fn amount_field(text: Seq<char>) -> Field<Amount> {
    if text.len() == 0 {
        Field::Absent
    } else {
        match Amount::parsed(text) {
            Some(v) => Field::Value(v),
            None => Field::Malformed,
        }
    }
}

impl Decoded {
    /// A record in which nothing was read.
    pub open spec fn nothing() -> Decoded {
        Decoded {
            validator_index: Field::Absent,
            consensus_income_eth: Field::Absent,
            execution_income_eth: Field::Absent,
            smoothing_pool_income_eth: Field::Absent,
            node_income_rpl: Field::Absent,
        }
    }

    /// What the numeric columns of a record hold. The two rocketpool incomes
    /// are read in that layout only, and nothing is read in a record that
    /// has not as many fields as the layout has columns.
    pub open spec fn of(layout: Layout, fields: Seq<Seq<char>>) -> Decoded {
        if fields.len() != layout.columns().len() {
            Decoded::nothing()
        } else {
            Decoded {
                validator_index: index_field(fields[VALIDATOR_INDEX_COLUMN as int]),
                consensus_income_eth: amount_field(fields[CONSENSUS_INCOME_COLUMN as int]),
                execution_income_eth: amount_field(fields[EXECUTION_INCOME_COLUMN as int]),
                smoothing_pool_income_eth: if layout == Layout::Rocketpool {
                    amount_field(fields[SMOOTHING_POOL_INCOME_COLUMN as int])
                } else {
                    Field::Absent
                },
                node_income_rpl: if layout == Layout::Rocketpool {
                    amount_field(fields[NODE_INCOME_COLUMN as int])
                } else {
                    Field::Absent
                },
            }
        }
    }
}

/// The error of a malformed field of an integer column.
pub open spec fn integer_error(fields: Seq<Seq<char>>, column: int) -> ParseErrorView {
    ParseErrorView::Integer {
        column: column as nat,
        field: column_names()[column],
        text: fields[column],
    }
}

/// The error of a malformed field of an amount column.
pub open spec fn decimal_error(fields: Seq<Seq<char>>, column: int) -> ParseErrorView {
    ParseErrorView::Decimal {
        column: column as nat,
        field: column_names()[column],
        text: fields[column],
    }
}

/// The row that the fields of a record and what was read in them make up,
/// or the error of the record: a wrong number of fields, else the first
/// malformed field in the order of the columns. What was read for the two
/// rocketpool incomes counts in that layout only.
pub open spec fn assembled(layout: Layout, fields: Seq<Seq<char>>, decoded: Decoded) -> Result<
    InputRowView,
    ParseErrorView,
> {
    let pool = layout == Layout::Rocketpool;
    if fields.len() != layout.columns().len() {
        Err(ParseErrorView::FieldCount { expected: layout.columns().len(), found: fields.len() })
    } else if decoded.validator_index is Malformed {
        Err(integer_error(fields, VALIDATOR_INDEX_COLUMN as int))
    } else if decoded.consensus_income_eth is Malformed {
        Err(decimal_error(fields, CONSENSUS_INCOME_COLUMN as int))
    } else if decoded.execution_income_eth is Malformed {
        Err(decimal_error(fields, EXECUTION_INCOME_COLUMN as int))
    } else if pool && decoded.smoothing_pool_income_eth is Malformed {
        Err(decimal_error(fields, SMOOTHING_POOL_INCOME_COLUMN as int))
    } else if pool && decoded.node_income_rpl is Malformed {
        Err(decimal_error(fields, NODE_INCOME_COLUMN as int))
    } else {
        Ok(
            InputRowView {
                date: fields[DATE_COLUMN as int],
                validator_index: decoded.validator_index.value(),
                consensus_income_eth: decoded.consensus_income_eth.value(),
                execution_income_eth: decoded.execution_income_eth.value(),
                smoothing_pool_income_eth: if pool {
                    decoded.smoothing_pool_income_eth.value()
                } else {
                    None
                },
                node_income_rpl: if pool {
                    decoded.node_income_rpl.value()
                } else {
                    None
                },
            },
        )
    }
}

/// What `InputRow::parse` gives for the fields of a record.
pub open spec fn parsed_row(layout: Layout, fields: Seq<Seq<char>>) -> Result<
    InputRowView,
    ParseErrorView,
> {
    assembled(layout, fields, Decoded::of(layout, fields))
}

/// The view of what `InputRow::parse` returns.
pub open spec fn parse_view(r: Result<InputRow, ParseError>) -> Result<InputRowView, ParseErrorView> {
    match r {
        Ok(row) => Ok(row@),
        Err(e) => Err(e@),
    }
}

/// A text of digits is worth at least as much as each of its prefixes.
proof fn lemma_digits_value_grows(text: Seq<char>, n: int)
    requires
        0 <= n <= text.len(),
        all_digits(text),
    ensures
        digits_value(text.take(n)) <= digits_value(text),
    decreases text.len() - n,
{
    if n == text.len() {
        assert(text.take(n) =~= text);
    } else {
        lemma_digits_value_grows(text, n + 1);
        let longer = text.take(n + 1);
        assert(longer.drop_last() =~= text.take(n));
        assert(is_digit(text[n]));
        assert(longer.last() == text[n]);
    }
}

/// Reads an integer from decimal digits.
pub fn parse_index(text: &str) -> (r: Option<u64>)
    ensures
        r == parsed_index(text@),
{
    let n = text.unicode_len();
    if n == 0 {
        return None;
    }
    let mut value: u64 = 0;
    let mut i: usize = 0;
    while i < n
        invariant
            n == text@.len(),
            0 <= i <= n,
            all_digits(text@.take(i as int)),
            value == digits_value(text@.take(i as int)),
        decreases n - i,
    {
        let c = text.get_char(i);
        let ghost before = text@.take(i as int);
        let ghost after = text@.take(i + 1);
        proof {
            assert(after.drop_last() =~= before);
            assert(after.last() == c);
        }
        if !(c >= '0' && c <= '9') {
            proof {
                assert(!is_digit(text@[i as int]));
            }
            return None;
        }
        let digit: u64 = (c as u32 - '0' as u32) as u64;
        proof {
            assert forall|j: int| 0 <= j < after.len() implies is_digit(#[trigger] after[j]) by {
                if j < i {
                    assert(after[j] == before[j]);
                }
            }
        }
        if value > (u64::MAX - digit) / 10 {
            proof {
                if all_digits(text@) {
                    lemma_digits_value_grows(text@, i + 1);
                }
            }
            return None;
        }
        value = value * 10 + digit;
        i += 1;
    }
    proof {
        assert(text@.take(n as int) =~= text@);
    }
    Some(value)
}

/// Reads a field of an integer column.
pub fn read_index(text: &str) -> (r: Field<u64>)
    ensures
        r == index_field(text@),
{
    if text.is_empty() {
        return Field::Absent;
    }
    match parse_index(text) {
        Some(v) => Field::Value(v),
        None => Field::Malformed,
    }
}

/// Reads a field of an amount column.
pub fn read_amount(text: &str) -> (r: Field<Amount>)
    ensures
        r == amount_field(text@),
{
    if text.is_empty() {
        return Field::Absent;
    }
    match Amount::parse(text) {
        Some(v) => Field::Value(v),
        None => Field::Malformed,
    }
}

/// The value of an integer field, or the error that names the field.
fn index_value(read: Field<u64>, fields: &Vec<String>, column: usize) -> (r: Result<
    Option<u64>,
    ParseError,
>)
    requires
        column < fields.len(),
        column < RPL_NUM_COLUMNS,
    ensures
        read is Malformed ==> r is Err && r->Err_0@ == integer_error(texts(fields@), column as int),
        !(read is Malformed) ==> r == Ok::<Option<u64>, ParseError>(read.value()),
{
    match read {
        Field::Absent => Ok(None),
        Field::Value(v) => Ok(Some(v)),
        Field::Malformed => Err(
            ParseError::Integer {
                column,
                field: column_name(column).to_owned(),
                text: fields[column].clone(),
            },
        ),
    }
}

/// The value of an amount field, or the error that names the field.
fn amount_value(read: Field<Amount>, fields: &Vec<String>, column: usize) -> (r: Result<
    Option<Amount>,
    ParseError,
>)
    requires
        column < fields.len(),
        column < RPL_NUM_COLUMNS,
    ensures
        read is Malformed ==> r is Err && r->Err_0@ == decimal_error(texts(fields@), column as int),
        !(read is Malformed) ==> r == Ok::<Option<Amount>, ParseError>(read.value()),
{
    match read {
        Field::Absent => Ok(None),
        Field::Value(v) => Ok(Some(v)),
        Field::Malformed => Err(
            ParseError::Decimal {
                column,
                field: column_name(column).to_owned(),
                text: fields[column].clone(),
            },
        ),
    }
}

impl Decoded {
    /// Reads the numeric columns of a record.
    pub fn read(layout: Layout, fields: &Vec<String>) -> (r: Decoded)
        ensures
            r == Decoded::of(layout, texts(fields@)),
    {
        let mut decoded = Decoded {
            validator_index: Field::Absent,
            consensus_income_eth: Field::Absent,
            execution_income_eth: Field::Absent,
            smoothing_pool_income_eth: Field::Absent,
            node_income_rpl: Field::Absent,
        };
        if fields.len() != layout.num_columns() {
            return decoded;
        }
        decoded.validator_index = read_index(fields[VALIDATOR_INDEX_COLUMN].as_str());
        decoded.consensus_income_eth = read_amount(fields[CONSENSUS_INCOME_COLUMN].as_str());
        decoded.execution_income_eth = read_amount(fields[EXECUTION_INCOME_COLUMN].as_str());
        if layout == Layout::Rocketpool {
            decoded.smoothing_pool_income_eth = read_amount(
                fields[SMOOTHING_POOL_INCOME_COLUMN].as_str(),
            );
            decoded.node_income_rpl = read_amount(fields[NODE_INCOME_COLUMN].as_str());
        }
        decoded
    }
}

impl InputRow {
    /// Makes a row of the fields of a record and of what was read in them.
    /// A record with a wrong number of fields is refused, then one with a
    /// malformed field, for the first such field in the order of the columns.
    pub fn assemble(layout: Layout, fields: &Vec<String>, decoded: &Decoded) -> (r: Result<
        InputRow,
        ParseError,
    >)
        ensures
            parse_view(r) == assembled(layout, texts(fields@), *decoded),
    {
        let expected = layout.num_columns();
        if fields.len() != expected {
            return Err(ParseError::FieldCount { expected, found: fields.len() });
        }
        let validator_index = match index_value(
            decoded.validator_index,
            fields,
            VALIDATOR_INDEX_COLUMN,
        ) {
            Ok(v) => v,
            Err(e) => {
                return Err(e);
            },
        };
        let consensus_income_eth = match amount_value(
            decoded.consensus_income_eth,
            fields,
            CONSENSUS_INCOME_COLUMN,
        ) {
            Ok(v) => v,
            Err(e) => {
                return Err(e);
            },
        };
        let execution_income_eth = match amount_value(
            decoded.execution_income_eth,
            fields,
            EXECUTION_INCOME_COLUMN,
        ) {
            Ok(v) => v,
            Err(e) => {
                return Err(e);
            },
        };
        let mut smoothing_pool_income_eth: Option<Amount> = None;
        let mut node_income_rpl: Option<Amount> = None;
        if layout == Layout::Rocketpool {
            smoothing_pool_income_eth = match amount_value(
                decoded.smoothing_pool_income_eth,
                fields,
                SMOOTHING_POOL_INCOME_COLUMN,
            ) {
                Ok(v) => v,
                Err(e) => {
                    return Err(e);
                },
            };
            node_income_rpl = match amount_value(
                decoded.node_income_rpl,
                fields,
                NODE_INCOME_COLUMN,
            ) {
                Ok(v) => v,
                Err(e) => {
                    return Err(e);
                },
            };
        }
        Ok(
            InputRow {
                date: fields[DATE_COLUMN].clone(),
                validator_index,
                consensus_income_eth,
                execution_income_eth,
                smoothing_pool_income_eth,
                node_income_rpl,
            },
        )
    }

    /// Decodes the fields of one record. An empty field is an absent value;
    /// any other text in a numeric column has to be a number.
    pub fn parse(layout: Layout, fields: &Vec<String>) -> (r: Result<InputRow, ParseError>)
        ensures
            parse_view(r) == parsed_row(layout, texts(fields@)),
    {
        let decoded = Decoded::read(layout, fields);
        InputRow::assemble(layout, fields, &decoded)
    }
}

} // verus!
