use staking_ledger::amount::Amount;
use staking_ledger::row::InputRow;
use staking_ledger::translator::{output_header, translate_row, OutputRow, Translator};

fn amount(text: &str) -> Option<Amount> {
    Some(Amount::parse(text).unwrap())
}

fn row(
    consensus: Option<Amount>,
    execution: Option<Amount>,
    smoothing: Option<Amount>,
    rpl: Option<Amount>,
) -> InputRow {
    InputRow {
        date: "2023-04-05".to_string(),
        validator_index: None,
        consensus_income_eth: consensus,
        execution_income_eth: execution,
        smoothing_pool_income_eth: smoothing,
        node_income_rpl: rpl,
    }
}

#[test]
fn consensus_and_execution_are_summed() {
    let input = row(amount("1.5"), amount("0.25"), None, None);
    let rows = translate_row(&input, "Solo Staking").unwrap();
    assert_eq!(rows.len(), 1);
    assert_eq!(rows[0].symbol, "ETH");
    assert_eq!(rows[0].volume, Amount::parse("1.75").unwrap());
    assert_eq!(rows[0].volume.to_text(), "1.75");
    assert_eq!(rows[0].action, "MINING");
    assert_eq!(rows[0].account, "Solo Staking");
    assert_eq!(rows[0].date, "2023-04-05");
}

#[test]
fn all_four_incomes_give_three_rows_in_order() {
    let input = row(amount("1"), amount("2"), amount("3"), amount("4"));
    let rows = translate_row(&input, "Rocketpool Staking").unwrap();
    let seen: Vec<(String, String)> =
        rows.iter().map(|r| (r.symbol.clone(), r.volume.to_text())).collect();
    assert_eq!(
        seen,
        vec![
            ("ETH".to_string(), "3".to_string()),
            ("ETH".to_string(), "3".to_string()),
            ("RPL".to_string(), "4".to_string()),
        ]
    );
    for r in &rows {
        assert_eq!(r.action, "MINING");
        assert_eq!(r.account, "Rocketpool Staking");
        assert_eq!(r.date, "2023-04-05");
    }
}

#[test]
fn no_income_gives_no_row() {
    let input = row(None, None, None, None);
    assert!(input.fits());
    assert_eq!(translate_row(&input, "Solo Staking"), Some(Vec::new()));
    assert_eq!(Translator::from(&input), Vec::new());
}

#[test]
fn translating_twice_gives_the_same_rows() {
    let input = row(amount("0.5"), None, amount("0.125"), amount("7"));
    let first = translate_row(&input, "Rocketpool Staking");
    let second = translate_row(&input, "Rocketpool Staking");
    assert_eq!(first, second);
    assert_eq!(first.unwrap().len(), 3);
}

#[test]
fn a_single_solo_income_stands_alone() {
    let input = row(amount("0.5"), None, None, None);
    assert_eq!(Translator::from(&input), vec![Translator::Eth(Amount::parse("0.5").unwrap())]);
    let input = row(None, amount("0.75"), None, None);
    assert_eq!(Translator::from(&input), vec![Translator::Eth(Amount::parse("0.75").unwrap())]);
}

#[test]
fn smoothing_income_is_never_summed_with_the_solo_amount() {
    let input = row(amount("1"), None, amount("2"), None);
    assert_eq!(
        Translator::from(&input),
        vec![
            Translator::Eth(Amount::parse("1").unwrap()),
            Translator::Eth(Amount::parse("2").unwrap()),
        ]
    );
}

#[test]
fn node_income_alone_is_one_rpl_row() {
    let input = row(None, None, None, amount("12.5"));
    let rows = translate_row(&input, "Rocketpool Staking").unwrap();
    assert_eq!(rows.len(), 1);
    assert_eq!(rows[0].symbol, "RPL");
    assert_eq!(rows[0].volume.to_text(), "12.5");
}

#[test]
fn zero_income_is_an_income() {
    let input = row(amount("0"), None, None, None);
    let rows = translate_row(&input, "Solo Staking").unwrap();
    assert_eq!(rows.len(), 1);
    assert_eq!(rows[0].volume.to_text(), "0");
}

#[test]
fn negative_incomes_are_summed_too() {
    let input = row(amount("-1.5"), amount("0.5"), None, None);
    let rows = translate_row(&input, "Solo Staking").unwrap();
    assert_eq!(rows[0].volume.to_text(), "-1");
}

#[test]
fn a_sum_out_of_range_gives_no_rows() {
    let input = row(amount("100"), amount("100"), amount("1"), None);
    assert!(!input.fits());
    assert_eq!(translate_row(&input, "Solo Staking"), None);
    let input = row(amount("-100"), amount("-100"), None, None);
    assert!(!input.fits());
    let input = row(amount("100"), amount("27.5"), None, None);
    assert!(input.fits());
}

#[test]
fn event_becomes_a_row() {
    let eth = Translator::Eth(Amount::parse("1.5").unwrap());
    assert_eq!(
        eth.to("2023-01-01", "Solo Staking"),
        OutputRow {
            date: "2023-01-01".to_string(),
            action: "MINING".to_string(),
            account: "Solo Staking".to_string(),
            symbol: "ETH".to_string(),
            volume: Amount::parse("1.5").unwrap(),
        }
    );
    let rpl = Translator::Rpl(Amount::parse("2").unwrap());
    let out = rpl.to("2023-01-02", "Rocketpool Staking");
    assert_eq!(out.symbol, "RPL");
    assert_eq!(out.action, "MINING");
    assert_eq!(out.date, "2023-01-02");
    assert_eq!(out.account, "Rocketpool Staking");
}

#[test]
fn row_fields_are_in_ledger_order() {
    let out = Translator::Eth(Amount::parse("1.75").unwrap()).to("2023-01-01", "Solo Staking");
    assert_eq!(out.fields(), vec!["2023-01-01", "MINING", "Solo Staking", "ETH", "1.75"]);
}

#[test]
fn ledger_header_has_five_names() {
    assert_eq!(output_header(), vec!["Date", "Action", "Account", "Symbol", "Volume"]);
}
