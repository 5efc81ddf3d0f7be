use staking_ledger::schema::{column_name, Layout, SchemaError};

fn solo_header() -> Vec<String> {
    vec![
        "Date".to_string(),
        "Validator Index".to_string(),
        "Price [USD/ETH]".to_string(),
        "Consensus Layer Income [ETH]".to_string(),
        "Execution Layer Income [ETH]".to_string(),
    ]
}

fn rocketpool_header() -> Vec<String> {
    let mut header = solo_header();
    header.push("Node Address".to_string());
    header.push("Smoothing Pool Income [ETH]".to_string());
    header.push("Rocket Pool Node Income [RPL]".to_string());
    header.push("Price [USD/RPL]".to_string());
    header
}

#[test]
fn solo_header_is_detected() {
    let layout = Layout::detect(&solo_header());
    assert_eq!(layout, Ok(Layout::Solo));
    assert_eq!(Layout::Solo.label(), "Solo Staking");
    assert_eq!(Layout::Solo.num_columns(), 5);
}

#[test]
fn rocketpool_header_is_detected() {
    let layout = Layout::detect(&rocketpool_header());
    assert_eq!(layout, Ok(Layout::Rocketpool));
    assert_eq!(Layout::Rocketpool.label(), "Rocketpool Staking");
    assert_eq!(Layout::Rocketpool.num_columns(), 9);
}

#[test]
fn six_columns_are_refused() {
    let mut header = solo_header();
    header.push("Node Address".to_string());
    assert_eq!(Layout::detect(&header), Err(SchemaError::ColumnCount { count: 6 }));
}

#[test]
fn empty_header_is_refused() {
    assert_eq!(Layout::detect(&Vec::new()), Err(SchemaError::ColumnCount { count: 0 }));
}

#[test]
fn wrong_name_is_reported_with_its_index() {
    let mut header = solo_header();
    header[2] = "Price [EUR/ETH]".to_string();
    assert_eq!(
        Layout::detect(&header),
        Err(SchemaError::ColumnName {
            index: 2,
            expected: "Price [USD/ETH]".to_string(),
            found: "Price [EUR/ETH]".to_string(),
        })
    );
}

#[test]
fn first_wrong_name_is_the_one_reported() {
    let mut header = rocketpool_header();
    header[6] = "smoothing pool income [eth]".to_string();
    header[8] = "Price".to_string();
    assert_eq!(
        Layout::detect(&header),
        Err(SchemaError::ColumnName {
            index: 6,
            expected: "Smoothing Pool Income [ETH]".to_string(),
            found: "smoothing pool income [eth]".to_string(),
        })
    );
}

#[test]
fn names_are_case_sensitive() {
    let mut header = solo_header();
    header[0] = "date".to_string();
    assert!(matches!(
        Layout::detect(&header),
        Err(SchemaError::ColumnName { index: 0, .. })
    ));
}

#[test]
fn swapped_columns_are_refused() {
    let mut header = solo_header();
    header.swap(3, 4);
    assert!(matches!(
        Layout::detect(&header),
        Err(SchemaError::ColumnName { index: 3, .. })
    ));
}

#[test]
fn nine_columns_with_a_solo_prefix_only_are_refused() {
    let mut header = solo_header();
    for _ in 0..4 {
        header.push("Date".to_string());
    }
    assert!(matches!(
        Layout::detect(&header),
        Err(SchemaError::ColumnName { index: 5, .. })
    ));
}

#[test]
fn column_names_are_the_known_ones() {
    let header = rocketpool_header();
    for (i, name) in header.iter().enumerate() {
        assert_eq!(column_name(i), name.as_str());
    }
}
