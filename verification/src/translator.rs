//! From the incomes of one record to ledger rows.

use crate::amount::{decimal_text, Amount};
use crate::row::{InputRow, InputRowView};
use crate::schema::texts;
use vstd::prelude::*;

verus! {

/// One income event: an amount of one of the two assets.
#[derive(Clone, Copy, Debug, PartialEq, Eq, Structural)]
pub enum Translator {
    Eth(Amount),
    Rpl(Amount),
}

/// One ledger entry.
#[derive(Clone, Debug, PartialEq, Eq)]
pub struct OutputRow {
    pub date: String,
    pub action: String,
    pub account: String,
    pub symbol: String,
    pub volume: Amount,
}

/// A ledger entry as a value of mathematics.
pub struct OutputRowView {
    pub date: Seq<char>,
    pub action: Seq<char>,
    pub account: Seq<char>,
    pub symbol: Seq<char>,
    pub volume: Amount,
}

impl View for OutputRow {
    type V = OutputRowView;

    open spec fn view(&self) -> OutputRowView {
        OutputRowView {
            date: self.date@,
            action: self.action@,
            account: self.account@,
            symbol: self.symbol@,
            volume: self.volume,
        }
    }
}

/// The views of a list of ledger rows.
pub open spec fn rows_view(rows: Seq<OutputRow>) -> Seq<OutputRowView> {
    Seq::new(rows.len(), |i: int| rows[i]@)
}

/// The ETH event of an amount, where there is one.
pub open spec fn eth_event(amount: Option<Amount>) -> Seq<Translator> {
    match amount {
        Some(a) => seq![Translator::Eth(a)],
        None => seq![],
    }
}

/// The RPL event of an amount, where there is one.
pub open spec fn rpl_event(amount: Option<Amount>) -> Seq<Translator> {
    match amount {
        Some(a) => seq![Translator::Rpl(a)],
        None => seq![],
    }
}

impl InputRowView {
    /// The exact sum of the consensus and execution incomes that are
    /// present, in units of `2^-56`; `None` where neither is.
    pub open spec fn solo_total(self) -> Option<int> {
        match (self.consensus_income_eth, self.execution_income_eth) {
            (Some(a), Some(b)) => Some(a.raw() + b.raw()),
            (Some(a), None) => Some(a.raw()),
            (None, Some(b)) => Some(b.raw()),
            (None, None) => None,
        }
    }

    /// Whether the solo amount, if there is one, can be represented.
    pub open spec fn fits(self) -> bool {
        match self.solo_total() {
            Some(total) => i64::MIN <= total <= i64::MAX,
            None => true,
        }
    }

    /// The solo amount of a record that fits.
    pub open spec fn solo_amount(self) -> Option<Amount> {
        match self.solo_total() {
            Some(total) => Some(Amount { bits: total as i64 }),
            None => None,
        }
    }

    /// The income events of a record that fits: the solo amount in ETH, the
    /// smoothing pool income in ETH, the node income in RPL, each only where
    /// it is present, in this order.
    pub open spec fn events(self) -> Seq<Translator> {
        eth_event(self.solo_amount()) + eth_event(self.smoothing_pool_income_eth) + rpl_event(
            self.node_income_rpl,
        )
    }

    /// The ledger rows of a record that fits, for an account.
    pub open spec fn ledger(self, account: Seq<char>) -> Seq<OutputRowView> {
        Seq::new(self.events().len(), |i: int| self.events()[i].row(self.date, account))
    }
}

impl OutputRowView {
    /// The texts of the row's fields, in the order of the ledger's columns.
    pub open spec fn record(self) -> Seq<Seq<char>> {
        seq![self.date, self.action, self.account, self.symbol, decimal_text(self.volume.bits)]
    }
}

/// The names of the ledger's columns.
pub open spec fn ledger_columns() -> Seq<Seq<char>> {
    seq!["Date"@, "Action"@, "Account"@, "Symbol"@, "Volume"@]
}

/// The header record of a ledger.
pub fn output_header() -> (r: Vec<String>)
    ensures
        texts(r@) == ledger_columns(),
{
    let mut header: Vec<String> = Vec::new();
    header.push("Date".to_owned());
    header.push("Action".to_owned());
    header.push("Account".to_owned());
    header.push("Symbol".to_owned());
    header.push("Volume".to_owned());
    assert(texts(header@) =~= ledger_columns());
    header
}

impl InputRow {
    /// Whether the record's solo amount can be represented.
    pub fn fits(&self) -> (r: bool)
        ensures
            r == self@.fits(),
    {
        match (self.consensus_income_eth, self.execution_income_eth) {
            (Some(a), Some(b)) => a.checked_add(b).is_some(),
            _ => true,
        }
    }
}

impl Translator {
    /// The amount of the event.
    pub open spec fn amount(self) -> Amount {
        match self {
            Translator::Eth(a) => a,
            Translator::Rpl(a) => a,
        }
    }

    /// The ticker of the event's asset.
    pub open spec fn symbol(self) -> Seq<char> {
        match self {
            Translator::Eth(_) => "ETH"@,
            Translator::Rpl(_) => "RPL"@,
        }
    }

    /// The ledger row of the event, for a date and an account.
    pub open spec fn row(self, date: Seq<char>, account: Seq<char>) -> OutputRowView {
        OutputRowView { date, action: "MINING"@, account, symbol: self.symbol(), volume: self.amount() }
    }

    /// The income events of a record, in their fixed order. The consensus
    /// and execution incomes count as one: their sum where both are present.
    pub fn from(input: &InputRow) -> (ret: Vec<Translator>)
        requires
            input@.fits(),
        ensures
            ret@ == input@.events(),
    {
        let mut ret: Vec<Translator> = Vec::new();
        let solo = match (input.consensus_income_eth, input.execution_income_eth) {
            (Some(a), Some(b)) => a.checked_add(b),
            (Some(a), None) => Some(a),
            (None, Some(b)) => Some(b),
            (None, None) => None,
        };
        assert(solo == input@.solo_amount());
        if let Some(solo_eth) = solo {
            ret.push(Translator::Eth(solo_eth));
        }
        if let Some(smoothing_eth) = input.smoothing_pool_income_eth {
            ret.push(Translator::Eth(smoothing_eth));
        }
        if let Some(rpl) = input.node_income_rpl {
            ret.push(Translator::Rpl(rpl));
        }
        assert(ret@ =~= input@.events());
        ret
    }

    /// The ledger row of the event.
    pub fn to(&self, date: &str, account: &str) -> (r: OutputRow)
        ensures
            r@ == self.row(date@, account@),
    {
        match self {
            Translator::Eth(volume) => OutputRow {
                date: date.to_owned(),
                account: account.to_owned(),
                action: "MINING".to_owned(),
                symbol: "ETH".to_owned(),
                volume: *volume,
            },
            Translator::Rpl(volume) => OutputRow {
                date: date.to_owned(),
                account: account.to_owned(),
                action: "MINING".to_owned(),
                symbol: "RPL".to_owned(),
                volume: *volume,
            },
        }
    }
}

impl OutputRow {
    /// The texts of the row's fields, with the volume written as a decimal.
    pub fn fields(&self) -> (r: Vec<String>)
        ensures
            texts(r@) == self@.record(),
    {
        let mut record: Vec<String> = Vec::new();
        record.push(self.date.clone());
        record.push(self.action.clone());
        record.push(self.account.clone());
        record.push(self.symbol.clone());
        record.push(self.volume.to_text());
        assert(texts(record@) =~= self@.record());
        record
    }
}

/// The ledger rows of one record: none where no income is present. `None`
/// where the sum of the consensus and execution incomes overflows.
pub fn translate_row(input: &InputRow, account: &str) -> (r: Option<Vec<OutputRow>>)
    ensures
        r is Some <==> input@.fits(),
        r matches Some(rows) ==> rows_view(rows@) == input@.ledger(account@),
{
    if !input.fits() {
        return None;
    }
    let events = Translator::from(input);
    let mut rows: Vec<OutputRow> = Vec::new();
    let mut i: usize = 0;
    while i < events.len()
        invariant
            events@ == input@.events(),
            0 <= i <= events.len(),
            rows.len() == i,
            forall|j: int| 0 <= j < i ==> rows[j]@ == events[j].row(input.date@, account@),
        decreases events.len() - i,
    {
        let row = events[i].to(input.date.as_str(), account);
        rows.push(row);
        i += 1;
    }
    assert(rows_view(rows@) =~= input@.ledger(account@));
    Some(rows)
}

/// A record without any income has no ledger rows.
pub proof fn lemma_no_income_no_rows(row: InputRowView, account: Seq<char>)
    requires
        row.consensus_income_eth is None,
        row.execution_income_eth is None,
        row.smoothing_pool_income_eth is None,
        row.node_income_rpl is None,
    ensures
        row.fits(),
        row.ledger(account).len() == 0,
{
}

/// The ledger of a record is a function of the record and the account:
/// whatever two translations of one record return, they return the same rows.
pub proof fn lemma_translation_repeats(
    row: InputRowView,
    account: Seq<char>,
    first: Seq<OutputRowView>,
    second: Seq<OutputRowView>,
)
    requires
        first == row.ledger(account),
        second == row.ledger(account),
    ensures
        first == second,
{
}

/// Every ledger row of a record carries the record's date, the account and
/// the action `MINING`, and there is one row for each of: a solo amount, a
/// smoothing pool income, a node income.
pub proof fn lemma_ledger_shape(row: InputRowView, account: Seq<char>)
    ensures
        row.ledger(account).len() == (if row.solo_total() is Some {
            1int
        } else {
            0int
        }) + (if row.smoothing_pool_income_eth is Some {
            1int
        } else {
            0int
        }) + (if row.node_income_rpl is Some {
            1int
        } else {
            0int
        }),
        forall|i: int|
            0 <= i < row.ledger(account).len() ==> {
                let out = #[trigger] row.ledger(account)[i];
                out.date == row.date && out.account == account && out.action == "MINING"@
            },
{
}

} // verus!
