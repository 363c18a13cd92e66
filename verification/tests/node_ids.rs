use ce_iam_core_wasm::capability::{parse_issuers, parse_node_ids};
use ce_iam_core_wasm::{js_err, parse_node_id, HexFault, NodeIdFault, VaultError};

const DIGITS: &str = "000102030405060708090a0b0c0d0e0f101112131415161718191a1b1c1d1eff";

fn bytes() -> [u8; 32] {
    let mut id = [0u8; 32];
    for i in 0..31 {
        id[i] = i as u8;
    }
    id[31] = 255;
    id
}

fn fault(text: &str) -> NodeIdFault {
    match parse_node_id(text) {
        Err(VaultError::NodeId(fault)) => fault,
        other => panic!("{:?}", other),
    }
}

#[test]
fn sixty_four_digits_are_a_node_id() {
    assert_eq!(parse_node_id(DIGITS).unwrap(), bytes());
}

#[test]
fn white_space_and_case_do_not_matter() {
    let spaced = format!(" \t\n{}\u{3000}\u{a0} ", DIGITS.to_uppercase());
    assert_eq!(parse_node_id(&spaced).unwrap(), bytes());
}

#[test]
fn an_odd_number_of_digits_is_reported_first() {
    assert_eq!(fault("zzz"), NodeIdFault::Hex(HexFault::OddLength));
}

#[test]
fn the_first_invalid_digit_is_reported() {
    assert_eq!(
        fault("0g1h"),
        NodeIdFault::Hex(HexFault::InvalidHexCharacter { c: 'g', index: 1 })
    );
    assert_eq!(
        fault("00\u{e9}"),
        NodeIdFault::Hex(HexFault::InvalidHexCharacter { c: '\u{c3}', index: 2 })
    );
}

#[test]
fn another_length_is_reported() {
    assert_eq!(fault(""), NodeIdFault::Length);
    assert_eq!(fault("00"), NodeIdFault::Length);
    assert_eq!(fault(&format!("{}00", DIGITS)), NodeIdFault::Length);
}

#[test]
fn the_texts_of_node_id_faults() {
    let texts = |text: &str| {
        let error = parse_node_id(text).unwrap_err();
        (error.message(), error.cause(), js_err(error))
    };
    assert_eq!(
        texts("zz"),
        (
            "node id is not valid hex".to_string(),
            Some("Invalid character 'z' at position 0".to_string()),
            "node id is not valid hex".to_string()
        )
    );
    assert_eq!(
        texts("0"),
        (
            "node id is not valid hex".to_string(),
            Some("Odd number of digits".to_string()),
            "node id is not valid hex".to_string()
        )
    );
    assert_eq!(
        texts("00"),
        (
            "node id must be 32 bytes (64 hex chars)".to_string(),
            None,
            "node id must be 32 bytes (64 hex chars)".to_string()
        )
    );
    assert_eq!(
        VaultError::NodeId(NodeIdFault::Hex(HexFault::InvalidStringLength)).cause(),
        Some("Invalid string length".to_string())
    );
}

#[test]
fn lists_of_ids_report_the_first_fault() {
    let good = DIGITS.to_string();
    assert_eq!(
        parse_node_ids(&vec![good.clone(), good.clone()]).unwrap(),
        vec![bytes(), bytes()]
    );
    match parse_node_ids(&vec![good.clone(), "zz".to_string(), "0".to_string()]) {
        Err(VaultError::NodeId(fault)) => assert_eq!(
            fault,
            NodeIdFault::Hex(HexFault::InvalidHexCharacter { c: 'z', index: 0 })
        ),
        other => panic!("{:?}", other),
    }
    assert_eq!(
        parse_issuers(&vec![(good.clone(), 7), (good, 9)]).unwrap(),
        vec![(bytes(), 7), (bytes(), 9)]
    );
    assert!(parse_issuers(&vec![("00".to_string(), 7)]).is_err());
}
