use relay_hub::gate::{
    is_zero_address, parse_token, response_for, same_address, AccessDenied, AccessGate, Address,
    OracleAnswer, Receipt,
};
use relay_hub::registry::Registry;

const CONTRACT: &str = "0x5FbDB2315678afecb367f032d93F642f64180aa3";
const CONTRACT_BYTES: [u8; 20] = [
    0x5f, 0xbd, 0xb2, 0x31, 0x56, 0x78, 0xaf, 0xec, 0xb3, 0x67, 0xf0, 0x32, 0xd9, 0x3f, 0x64, 0x2f,
    0x64, 0x18, 0x0a, 0xa3,
];
const TOKEN: &str = "0x00112233445566778899aabbccddeeff00112233445566778899AABBCCDDEEFF";

fn token_bytes() -> [u8; 32] {
    let half: [u8; 16] = [
        0x00, 0x11, 0x22, 0x33, 0x44, 0x55, 0x66, 0x77, 0x88, 0x99, 0xaa, 0xbb, 0xcc, 0xdd, 0xee,
        0xff,
    ];
    let mut bytes = [0u8; 32];
    bytes[..16].copy_from_slice(&half);
    bytes[16..].copy_from_slice(&half);
    bytes
}

fn gate() -> AccessGate {
    AccessGate::configure(CONTRACT).unwrap()
}

fn elsewhere() -> Address {
    let mut bytes = CONTRACT_BYTES;
    bytes[19] ^= 1;
    Address { bytes }
}

fn paid(status: Option<u64>, to: Option<Address>) -> OracleAnswer {
    OracleAnswer::Mined(Receipt { status, to })
}

#[test]
fn a_token_of_64_digits_is_a_transaction_identifier() {
    assert_eq!(parse_token(TOKEN).unwrap().bytes, token_bytes());
    assert_eq!(parse_token(&TOKEN[2..]).unwrap().bytes, token_bytes());
}

#[test]
fn digits_count_in_either_case() {
    let lower = TOKEN.to_lowercase();
    let upper = format!("0x{}", TOKEN[2..].to_uppercase());
    assert_eq!(parse_token(&lower).unwrap().bytes, token_bytes());
    assert_eq!(parse_token(&upper).unwrap().bytes, token_bytes());
}

#[test]
fn fillers_among_the_digits_are_skipped() {
    let spaced = format!("0x{} {}\t{}\r\n", &TOKEN[2..10], &TOKEN[10..11], &TOKEN[11..]);
    assert_eq!(parse_token(&spaced).unwrap().bytes, token_bytes());
    let leading = format!(" {}", &TOKEN[2..]);
    assert_eq!(parse_token(&leading).unwrap().bytes, token_bytes());
}

#[test]
fn other_tokens_are_malformed() {
    let short = &TOKEN[..TOKEN.len() - 1];
    let long = format!("{}0", TOKEN);
    let odd = format!("{}g", &TOKEN[..TOKEN.len() - 1]);
    let capital_prefix = format!("0X{}", &TOKEN[2..]);
    let spaced_prefix = format!(" {}", TOKEN);
    let twice_prefixed = format!("0x{}", TOKEN);
    let wide = format!("{}\u{00E9}", &TOKEN[..TOKEN.len() - 1]);
    for token in [
        "",
        "0x",
        "xyz",
        short,
        long.as_str(),
        odd.as_str(),
        capital_prefix.as_str(),
        spaced_prefix.as_str(),
        twice_prefixed.as_str(),
        wide.as_str(),
    ] {
        assert_eq!(parse_token(token), Err(AccessDenied::MalformedToken), "{:?}", token);
    }
}

#[test]
fn the_gate_is_configured_from_an_address() {
    assert_eq!(gate().contract_address().bytes, CONTRACT_BYTES);
    assert_eq!(AccessGate::configure(&CONTRACT[2..]).unwrap().contract_address().bytes, CONTRACT_BYTES);
    assert!(AccessGate::configure("").is_none());
    assert!(AccessGate::configure("0x1234").is_none());
    assert!(AccessGate::configure(TOKEN).is_none());
    assert_eq!(AccessGate::new(elsewhere()).contract_address(), elsewhere());
}

#[test]
fn addresses_compare_by_their_bytes() {
    let contract = Address { bytes: CONTRACT_BYTES };
    assert!(same_address(&contract, &Address { bytes: CONTRACT_BYTES }));
    assert!(!same_address(&contract, &elsewhere()));
    let mut first_differs = CONTRACT_BYTES;
    first_differs[0] ^= 0x80;
    assert!(!same_address(&contract, &Address { bytes: first_differs }));
    assert!(is_zero_address(&Address { bytes: [0; 20] }));
    assert!(!is_zero_address(&contract));
    let mut last_set = [0u8; 20];
    last_set[19] = 1;
    assert!(!is_zero_address(&Address { bytes: last_set }));
}

#[test]
fn a_successful_payment_to_the_contract_is_admitted() {
    let answer = paid(Some(1), Some(Address { bytes: CONTRACT_BYTES }));
    assert_eq!(gate().judge(&answer), Ok(()));
    assert_eq!(gate().verify(TOKEN, &answer), Ok(()));
}

#[test]
fn a_failed_transaction_is_turned_away() {
    let contract = Address { bytes: CONTRACT_BYTES };
    for status in [Some(0), Some(2), Some(u64::MAX), None] {
        let answer = paid(status, Some(contract));
        assert_eq!(gate().judge(&answer), Err(AccessDenied::Unauthorized));
        assert_eq!(gate().verify(TOKEN, &answer), Err(AccessDenied::Unauthorized));
    }
}

#[test]
fn a_payment_sent_elsewhere_is_turned_away() {
    let answer = paid(Some(1), Some(elsewhere()));
    assert_eq!(gate().judge(&answer), Err(AccessDenied::Unauthorized));
    let created = paid(Some(1), None);
    assert_eq!(gate().judge(&created), Err(AccessDenied::Unauthorized));
}

#[test]
fn a_missing_destination_counts_as_the_zero_address() {
    let zero_gate = AccessGate::new(Address { bytes: [0; 20] });
    assert_eq!(zero_gate.judge(&paid(Some(1), None)), Ok(()));
    assert_eq!(zero_gate.judge(&paid(Some(0), None)), Err(AccessDenied::Unauthorized));
}

#[test]
fn an_unmined_transaction_and_a_silent_oracle_are_turned_away() {
    assert_eq!(gate().judge(&OracleAnswer::Unknown), Err(AccessDenied::Unauthorized));
    assert_eq!(gate().judge(&OracleAnswer::Unreachable), Err(AccessDenied::Unauthorized));
    assert_eq!(gate().verify(TOKEN, &OracleAnswer::Unreachable), Err(AccessDenied::Unauthorized));
}

#[test]
fn a_malformed_token_is_turned_away_whatever_the_oracle_says() {
    let answer = paid(Some(1), Some(Address { bytes: CONTRACT_BYTES }));
    assert_eq!(gate().verify("not-a-hash", &answer), Err(AccessDenied::MalformedToken));
    assert_eq!(gate().verify("", &OracleAnswer::Unknown), Err(AccessDenied::MalformedToken));
}

#[test]
fn each_decision_has_its_response() {
    let granted = response_for(&Ok(()));
    assert_eq!(granted.status, 200);
    assert_eq!(granted.message, "Verifikasi berhasil. Silakan hubungkan WebSocket.");
    let malformed = response_for(&Err(AccessDenied::MalformedToken));
    assert_eq!(malformed.status, 400);
    assert_eq!(malformed.message, "Format tx_hash tidak valid.");
    let refused = response_for(&Err(AccessDenied::Unauthorized));
    assert_eq!(refused.status, 401);
    assert_eq!(refused.message, "Bukti pembayaran tidak valid atau tidak ditemukan.");
}

#[test]
fn a_subscriber_with_a_payment_sent_elsewhere_is_not_registered() {
    let mut registry = Registry::new();
    let answer = paid(Some(1), Some(elsewhere()));
    let refused = gate().enroll(TOKEN, &answer, &mut registry);
    assert_eq!(refused.err(), Some(AccessDenied::Unauthorized));
    assert_eq!(registry.len(), 0);
    assert!(registry.ids().is_empty());
}

#[test]
fn a_subscriber_with_a_malformed_token_is_not_registered() {
    let mut registry = Registry::new();
    let answer = paid(Some(1), Some(Address { bytes: CONTRACT_BYTES }));
    let refused = gate().enroll("0x12", &answer, &mut registry);
    assert_eq!(refused.err(), Some(AccessDenied::MalformedToken));
    assert_eq!(registry.len(), 0);
}

#[test]
fn a_subscriber_with_a_good_payment_is_registered() {
    let mut registry = Registry::new();
    let answer = paid(Some(1), Some(Address { bytes: CONTRACT_BYTES }));
    let mut subscription = gate().enroll(TOKEN, &answer, &mut registry).ok().unwrap();
    assert_eq!(registry.ids(), vec![subscription.id]);
    registry.broadcast("frame");
    assert_eq!(subscription.inbox.try_recv().ok(), Some("frame".to_string()));
}
