use wallet_flow::reconcile::{
    assemble_record, change_of, change_of_decoded, decode_outputs, reconcile, reconcile_decoded,
    select_change, sender_side, total_amount, DecodedOutput, RawOutput, ReconcileError,
    TransactionRecord,
};

const TXID: &str = "5a1f0b7e9d3c2b1a00112233445566778899aabbccddeeff0011223344556677";
const HASH: &str = "0f9188f13cb7b2c71f2a335e3a4fc328bf5beb436012afca590b1a11466e2206";

fn p2wpkh(fill: u8) -> Vec<u8> {
    let mut s = vec![0x00, 0x14];
    s.extend(std::iter::repeat(fill).take(20));
    s
}

fn op_return() -> Vec<u8> {
    vec![0x6a, 0x02, 0xbe, 0xef]
}

fn addr(script: &[u8]) -> String {
    bitcoin::Address::from_script(bitcoin::Script::from_bytes(script), bitcoin::Network::Regtest)
        .unwrap()
        .to_string()
}

fn decoded(a: Option<&str>, value: u64) -> DecodedOutput {
    DecodedOutput { address: a.map(|s| s.to_string()), value }
}

#[test]
fn totals_of_views() {
    assert_eq!(total_amount(&vec![]), 0);
    assert_eq!(total_amount(&vec![-2_000_000_000]), -2_000_000_000);
    assert_eq!(total_amount(&vec![-5, 3, -7]), -9);
    assert_eq!(
        total_amount(&vec![i64::MAX, i64::MAX]),
        2 * (i64::MAX as i128)
    );
    assert_eq!(
        total_amount(&vec![i64::MIN, i64::MIN, i64::MIN]),
        3 * (i64::MIN as i128)
    );
}

#[test]
fn decoding_gives_regtest_addresses() {
    let outs = vec![
        RawOutput { script: p2wpkh(1), value: 7 },
        RawOutput { script: op_return(), value: 0 },
    ];
    let d = decode_outputs(&outs);
    assert_eq!(d.len(), 2);
    let a = d[0].address.clone().unwrap();
    assert!(a.starts_with("bcrt1q"));
    assert_eq!(a, addr(&p2wpkh(1)));
    assert_eq!(d[0].value, 7);
    assert_eq!(d[1].address, None);
}

#[test]
fn last_change_output_is_selected() {
    let outs = vec![
        decoded(Some("bcrt1qa"), 1),
        decoded(Some("bcrt1qr"), 2),
        decoded(None, 0),
        decoded(Some("bcrt1qc"), 3),
        decoded(Some("bcrt1qr"), 4),
    ];
    assert_eq!(select_change(&outs, &"bcrt1qr".to_string()), Some(3));
    let first = vec![decoded(Some("bcrt1qa"), 1), decoded(Some("bcrt1qr"), 2), decoded(None, 0)];
    assert_eq!(select_change(&first, &"bcrt1qr".to_string()), Some(0));
}

#[test]
fn no_change_when_all_pay_receiver() {
    let outs = vec![decoded(Some("bcrt1qr"), 2), decoded(None, 0)];
    assert_eq!(select_change(&outs, &"bcrt1qr".to_string()), None);
    assert_eq!(select_change(&Vec::new(), &"bcrt1qr".to_string()), None);
}

fn payment_outputs() -> (Vec<RawOutput>, String, String) {
    let change = p2wpkh(0x11);
    let receiver = p2wpkh(0x22);
    let (ca, ra) = (addr(&change), addr(&receiver));
    (
        vec![
            RawOutput { script: change, value: 2_999_998_590 },
            RawOutput { script: receiver, value: 2_000_000_000 },
        ],
        ca,
        ra,
    )
}

fn sample_record() -> TransactionRecord {
    let (outs, _, receiver) = payment_outputs();
    reconcile(
        TXID.to_string(),
        "bcrt1qsender".to_string(),
        receiver,
        HASH.to_string(),
        &vec![-2_000_000_000],
        Some(-1410),
        &vec![2_000_000_000],
        &outs,
        102,
    )
    .unwrap()
}

#[test]
fn reconcile_builds_record() {
    let (_, change, receiver) = payment_outputs();
    let r = sample_record();
    assert_eq!(r.txid, TXID);
    assert_eq!(r.sender_input_address, "bcrt1qsender");
    assert_eq!(r.sender_input_amount, 2_000_000_000);
    assert_eq!(r.receiver_output_address, receiver);
    assert_eq!(r.receiver_output_amount, 2_000_000_000);
    assert_eq!(r.change_address, change);
    assert_ne!(r.change_address, r.receiver_output_address);
    assert_eq!(r.change_amount, 2_999_998_590);
    assert_eq!(r.fee, -1410);
    assert_eq!(r.block_height, 102);
    assert_eq!(r.block_hash, HASH);
}

#[test]
fn reconcile_without_fee_fails() {
    let (outs, _, receiver) = payment_outputs();
    let r = reconcile(
        TXID.to_string(),
        "bcrt1qsender".to_string(),
        receiver,
        HASH.to_string(),
        &vec![-2_000_000_000],
        None,
        &vec![2_000_000_000],
        &outs,
        102,
    );
    assert_eq!(r.err(), Some(ReconcileError::NoFee));
}

#[test]
fn reconcile_without_change_fails() {
    let receiver = p2wpkh(0x22);
    let ra = addr(&receiver);
    let outs = vec![
        RawOutput { script: receiver, value: 2_000_000_000 },
        RawOutput { script: op_return(), value: 0 },
    ];
    let r = reconcile(
        TXID.to_string(),
        "bcrt1qsender".to_string(),
        ra,
        HASH.to_string(),
        &vec![-2_000_000_000],
        Some(-1410),
        &vec![2_000_000_000],
        &outs,
        102,
    );
    assert_eq!(r.err(), Some(ReconcileError::NoChangeOutput));
}

#[test]
fn missing_fee_reported_before_missing_change() {
    let r = reconcile_decoded(
        TXID.to_string(),
        "s".to_string(),
        "r".to_string(),
        HASH.to_string(),
        &vec![],
        None,
        &vec![],
        &vec![],
        1,
    );
    assert_eq!(r.err(), Some(ReconcileError::NoFee));
}

#[test]
fn balanced_record_from_consistent_views() {
    // Inputs of 50 coins: 20 to the receiver, change and fee the rest.
    let input: i64 = 5_000_000_000;
    let output: i64 = 2_000_000_000;
    let fee: i64 = 1410;
    let change = input - output - fee;
    let r = reconcile_decoded(
        TXID.to_string(),
        "s".to_string(),
        "r".to_string(),
        HASH.to_string(),
        &vec![-3_000_000_000, -2_000_000_000],
        Some(fee),
        &vec![output],
        &vec![decoded(Some("r"), output as u64), decoded(Some("c"), change as u64)],
        1,
    )
    .unwrap();
    assert_eq!(
        r.sender_input_amount,
        r.receiver_output_amount + r.change_amount as i128 + r.fee as i128
    );
    assert_eq!(r.change_address, "c");
}

#[test]
fn report_has_ten_lines() {
    let (_, change, receiver) = payment_outputs();
    let lines = sample_record().to_lines();
    assert_eq!(
        lines,
        vec![
            TXID.to_string(),
            "bcrt1qsender".to_string(),
            "20".to_string(),
            receiver,
            "20".to_string(),
            change,
            "29.9999859".to_string(),
            "-0.0000141".to_string(),
            "102".to_string(),
            HASH.to_string(),
        ]
    );
}

#[test]
fn report_first_line_txid_ninth_height() {
    let lines = sample_record().to_lines();
    assert_eq!(lines[0], TXID);
    assert_eq!(lines[8], "102");
}

#[test]
fn sender_side_magnitude_and_fee() {
    assert_eq!(sender_side(&vec![-2_000_000_000], Some(-1410)), Ok((2_000_000_000, -1410)));
    assert_eq!(sender_side(&vec![-5, 2], Some(0)), Ok((3, 0)));
    assert_eq!(sender_side(&vec![7], Some(-1)), Ok((7, -1)));
    assert_eq!(sender_side(&vec![], Some(-1)), Ok((0, -1)));
}

#[test]
fn sender_side_without_fee() {
    assert_eq!(sender_side(&vec![-2_000_000_000], None), Err(ReconcileError::NoFee));
}

#[test]
fn change_of_raw_outputs() {
    let (outs, change, receiver) = payment_outputs();
    assert_eq!(change_of(&outs, &receiver), Ok((change, 2_999_998_590)));
}

#[test]
fn change_of_takes_last_elsewhere() {
    let receiver = p2wpkh(0x22);
    let ra = addr(&receiver);
    let outs = vec![
        RawOutput { script: p2wpkh(0x11), value: 1 },
        RawOutput { script: receiver, value: 2 },
        RawOutput { script: p2wpkh(0x33), value: 3 },
        RawOutput { script: op_return(), value: 0 },
    ];
    assert_eq!(change_of(&outs, &ra), Ok((addr(&p2wpkh(0x33)), 3)));
}

#[test]
fn change_of_none_elsewhere() {
    let receiver = p2wpkh(0x22);
    let ra = addr(&receiver);
    let outs = vec![
        RawOutput { script: receiver, value: 2 },
        RawOutput { script: op_return(), value: 0 },
    ];
    assert_eq!(change_of(&outs, &ra), Err(ReconcileError::NoChangeOutput));
    assert_eq!(change_of(&Vec::new(), &ra), Err(ReconcileError::NoChangeOutput));
}

#[test]
fn change_of_decoded_outputs() {
    let outs = vec![decoded(Some("c"), 9), decoded(Some("r"), 4), decoded(None, 0)];
    assert_eq!(change_of_decoded(&outs, &"r".to_string()), Ok(("c".to_string(), 9)));
    let only = vec![decoded(Some("r"), 4)];
    assert_eq!(change_of_decoded(&only, &"r".to_string()), Err(ReconcileError::NoChangeOutput));
}

#[test]
fn assembled_record_holds_its_parts() {
    let r = assemble_record(
        TXID.to_string(),
        "s".to_string(),
        "r".to_string(),
        HASH.to_string(),
        2_000_000_000,
        -1410,
        2_000_000_000,
        "c".to_string(),
        2_999_998_590,
        102,
    );
    assert_eq!(
        r.to_lines(),
        vec![
            TXID.to_string(),
            "s".to_string(),
            "20".to_string(),
            "r".to_string(),
            "20".to_string(),
            "c".to_string(),
            "29.9999859".to_string(),
            "-0.0000141".to_string(),
            "102".to_string(),
            HASH.to_string(),
        ]
    );
}
