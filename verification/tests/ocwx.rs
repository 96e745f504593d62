use ledger_modules::ocwx::crypto::{AuthId, KEY_TYPE};
use ledger_modules::ocwx::price::{
    check_numbers_fit, document_price, fetch_deadline, fetch_price, number_to_cents, parse_price,
    Document, HttpError, HttpOutcome, Member, NumberValue, PRICE_URL,
};
use ledger_modules::ocwx::{
    Call, Error, Event, IndexingData, InvalidTransaction, Pallet, Payload, ValidTransaction,
    WorkerStep,
};
use ledger_modules::system::{DispatchError, RawOrigin, RuntimeEvent, System};
use sp_core::{sr25519, Pair};

fn price_oracle_response() -> HttpOutcome {
    HttpOutcome::Response { code: 200, body: br#"{"USD": 155.23}"#.to_vec() }
}

fn accepted() -> ValidTransaction {
    ValidTransaction { priority: 0, requires: vec![], provides: vec![], longevity: 5, propagate: true }
}

fn signed(number: u32, block_number: u64) -> (Payload, [u8; 64]) {
    let pair = sr25519::Pair::from_seed(&[7u8; 32]);
    let payload = Payload { number, public: pair.public().0, block_number };
    let signature = pair.sign(&payload.encode());
    (payload, signature.0)
}

#[test]
fn should_submit_raw_unsigned_transaction_on_chain() {
    assert_eq!(PRICE_URL, "https://min-api.cryptocompare.com/data/price?fsym=BTC&tsyms=USD");
    let outcome = price_oracle_response();
    assert_eq!(fetch_price(&outcome), Ok(15523));
    let (payload, signature) = signed(15523, 1);
    assert_eq!(
        Pallet::call_fetch_price(1, &outcome, Some(payload.public)),
        WorkerStep::Sign(payload)
    );
    let call = Pallet::signed_payload_call(1_700_000_000_000, payload, signature);
    assert_eq!(Pallet::validate_unsigned(&call), Ok(accepted()));
    let mut ocwx = Pallet::new(b"OcwxModule");
    let mut sys = System::new();
    assert_eq!(ocwx.dispatch(&mut sys, RawOrigin::Unsigned, call), Ok(()));
    assert_eq!(ocwx.payload_numbers(1_700_000_000_000), Some((15523, true)));
    assert_eq!(
        Pallet::validate_unsigned(&Call::submit_price_unsigned { block_number: 1, price: 15523 }),
        Ok(accepted())
    );
}

#[test]
fn price_is_read_in_cents() {
    assert_eq!(parse_price(r#"{"USD": 155.23}"#), Some(15523));
    assert_eq!(parse_price(r#"{"USD":155}"#), Some(15500));
    assert_eq!(parse_price(r#"{"USD": 155.2}"#), Some(15502));
    assert_eq!(parse_price(r#"{"USD": 1.234}"#), Some(123));
    assert_eq!(parse_price(r#"{"USD": 0.999999}"#), Some(99));
    assert_eq!(parse_price(r#"{"EUR": 3, "USD": 67234.12, "USD": 1}"#), Some(6723412));
    assert_eq!(parse_price(r#"  {"USD": -5.5e3}  "#), Some(505));
    assert_eq!(parse_price(r#"{"USD": 42949672.95}"#), Some(u32::MAX));
    assert_eq!(parse_price(r#"{"USD": 1.0000000000000000001}"#), Some(100));
}

#[test]
fn price_is_missing_where_the_text_holds_none() {
    assert_eq!(parse_price(""), None);
    assert_eq!(parse_price("155.23"), None);
    assert_eq!(parse_price(r#"[{"USD": 1}]"#), None);
    assert_eq!(parse_price(r#"{"usd": 1}"#), None);
    assert_eq!(parse_price(r#"{"USD": "1"}"#), None);
    assert_eq!(parse_price(r#"{"USD": "1", "USD": 2}"#), None);
    assert_eq!(parse_price(r#"{"USD": 1"#), None);
    assert_eq!(parse_price(r#"{"USD": 1} x"#), None);
    assert_eq!(parse_price(r#"{"USD": 42949672.96}"#), None);
    assert_eq!(parse_price(r#"{"USD": 18446744073709551615}"#), None);
    assert_eq!(parse_price(r#"{"USD": 12345678901234567890}"#), None);
    assert_eq!(parse_price(r#"{"USD": 1e1234567890}"#), None);
    assert_eq!(parse_price(r#"{"USD": 1, "id": "00000000000000000000"}"#), None);
}

#[test]
fn numbers_fit_up_to_the_longest_run() {
    assert!(check_numbers_fit(b""));
    assert!(check_numbers_fit(b"1234567890123456789"));
    assert!(!check_numbers_fit(b"12345678901234567890"));
    assert!(check_numbers_fit(b"1234567890123456789.1234567890123456789"));
    assert!(check_numbers_fit(b"1e123456789"));
    assert!(!check_numbers_fit(b"1e1234567890"));
    assert!(check_numbers_fit(b"1E-123456789"));
    assert!(!check_numbers_fit(b"1E+1234567890"));
    assert!(check_numbers_fit(b"1x1234567890"));
    assert!(check_numbers_fit(b"+1234567890"));
}

#[test]
fn cents_of_a_number() {
    let n = |integer, fraction, fraction_length| NumberValue {
        integer,
        fraction,
        fraction_length,
        exponent: 0,
        negative: false,
    };
    assert_eq!(number_to_cents(&n(155, 23, 2)), Some(15523));
    assert_eq!(number_to_cents(&n(155, 2, 1)), Some(15502));
    assert_eq!(number_to_cents(&n(0, 0, 0)), Some(0));
    assert_eq!(number_to_cents(&n(1, 999, 3)), Some(199));
    assert_eq!(number_to_cents(&n(1, u64::MAX, 21)), Some(101));
    assert_eq!(number_to_cents(&n(1, u64::MAX, 22)), Some(100));
    assert_eq!(number_to_cents(&n(1, u64::MAX, u32::MAX)), Some(100));
    assert_eq!(number_to_cents(&n(42949672, 95, 2)), Some(u32::MAX));
    assert_eq!(number_to_cents(&n(42949672, 96, 2)), None);
    assert_eq!(number_to_cents(&n(u64::MAX, 0, 0)), None);
    assert_eq!(number_to_cents(&n(0, u64::MAX, 2)), None);
}

#[test]
fn price_of_a_document_is_that_of_the_first_usd_member() {
    let number = |integer| {
        Member::Number(NumberValue {
            integer,
            fraction: 0,
            fraction_length: 0,
            exponent: 0,
            negative: false,
        })
    };
    let key = |s: &str| s.chars().collect::<Vec<char>>();
    assert_eq!(document_price(&Document::Other), None);
    assert_eq!(document_price(&Document::Object(vec![])), None);
    assert_eq!(
        document_price(&Document::Object(vec![(key("USDT"), number(1)), (key("USD"), number(2))])),
        Some(200)
    );
    assert_eq!(
        document_price(&Document::Object(vec![(key("USD"), Member::Other), (key("USD"), number(2))])),
        None
    );
}

#[test]
fn fetch_fails_for_each_reason() {
    assert_eq!(fetch_price(&HttpOutcome::NotSent), Err(HttpError::IoError));
    assert_eq!(fetch_price(&HttpOutcome::TimedOut), Err(HttpError::DeadlineReached));
    assert_eq!(fetch_price(&HttpOutcome::Failed(HttpError::IoError)), Err(HttpError::IoError));
    assert_eq!(
        fetch_price(&HttpOutcome::Response { code: 404, body: br#"{"USD": 1}"#.to_vec() }),
        Err(HttpError::Unknown)
    );
    assert_eq!(
        fetch_price(&HttpOutcome::Response { code: 200, body: vec![0xff, 0xfe] }),
        Err(HttpError::Unknown)
    );
    assert_eq!(
        fetch_price(&HttpOutcome::Response { code: 200, body: b"{}".to_vec() }),
        Err(HttpError::Unknown)
    );
    assert_eq!(
        fetch_price(&HttpOutcome::Response { code: 200, body: b"{\"USD\": 2, \"e\": 1}".to_vec() }),
        Ok(200)
    );
}

#[test]
fn deadline_is_six_seconds_on() {
    assert_eq!(fetch_deadline(1_000), 7_000);
    assert_eq!(fetch_deadline(u64::MAX - 5), u64::MAX);
}

#[test]
fn worker_stops_without_price_and_reports_a_missing_account() {
    assert_eq!(Pallet::call_fetch_price(3, &HttpOutcome::TimedOut, Some([1; 32])), WorkerStep::Stop);
    assert_eq!(Pallet::call_fetch_price(3, &HttpOutcome::TimedOut, None), WorkerStep::Stop);
    assert_eq!(
        Pallet::call_fetch_price(3, &price_oracle_response(), None),
        WorkerStep::NoLocalAccount
    );
    assert_eq!(
        Pallet::call_fetch_price(3, &price_oracle_response(), Some([1; 32])),
        WorkerStep::Sign(Payload { number: 15523, public: [1; 32], block_number: 3 })
    );
}

#[test]
fn payload_is_encoded_field_by_field() {
    let payload = Payload { number: 0x01020304, public: [9; 32], block_number: 0x0a0b };
    let mut expected = vec![4, 3, 2, 1];
    expected.extend_from_slice(&[9; 32]);
    expected.extend_from_slice(&[0x0b, 0x0a, 0, 0, 0, 0, 0, 0]);
    assert_eq!(payload.encode(), expected);
    assert_eq!(payload.public(), [9; 32]);
    assert_eq!(KEY_TYPE, *b"ocwx");
}

#[test]
fn bad_signature_is_bad_proof() {
    let (payload, signature) = signed(15523, 1);
    assert!(AuthId::verify(&payload.encode(), &payload.public, &signature));
    let mut wrong = signature;
    wrong[3] ^= 1;
    assert!(!AuthId::verify(&payload.encode(), &payload.public, &wrong));
    assert_eq!(
        Pallet::validate_unsigned(&Pallet::signed_payload_call(5, payload, wrong)),
        Err(InvalidTransaction::BadProof)
    );
    let changed = Payload { number: 15524, ..payload };
    assert_eq!(
        Pallet::validate_unsigned(&Pallet::signed_payload_call(5, changed, signature)),
        Err(InvalidTransaction::BadProof)
    );
    let other = Payload { public: sr25519::Pair::from_seed(&[8u8; 32]).public().0, ..payload };
    assert_eq!(
        Pallet::validate_unsigned(&Pallet::signed_payload_call(5, other, signature)),
        Err(InvalidTransaction::BadProof)
    );
    assert_eq!(
        Pallet::validate_unsigned(&Pallet::signed_payload_call(5, payload, [0; 64])),
        Err(InvalidTransaction::BadProof)
    );
    assert_eq!(Pallet::admit_signed_payload(false, &payload), Err(InvalidTransaction::BadProof));
    assert_eq!(Pallet::admit_signed_payload(true, &payload), Ok(accepted()));
    assert_eq!(Pallet::validate_transaction_parameters(&1, &2), Ok(accepted()));
}

#[test]
fn signed_command_is_not_admitted_unsigned() {
    assert_eq!(
        Pallet::validate_unsigned(&Call::storage_number { number: 1 }),
        Err(InvalidTransaction::Call)
    );
}

#[test]
fn storage_number_stores_indexes_and_reports() {
    let mut ocwx = Pallet::new(b"OcwxModule");
    let mut sys = System::new();
    sys.set_block_number(0x0102);
    assert_eq!(ocwx.storage_number(&mut sys, RawOrigin::Signed(4), 99), Ok(()));
    assert_eq!(ocwx.numbers(), Some(99));
    let mut key = b"ocwx-key-".to_vec();
    key.extend_from_slice(&[2, 1, 0, 0, 0, 0, 0, 0]);
    assert_eq!(Pallet::derive_block_number_to_key(0x0102), key);
    assert_eq!(ocwx.block_keys(0x0102).unwrap().as_slice(), &key[..]);
    assert_eq!(ocwx.block_keys(0x0102).unwrap().bound(), 32);
    assert_eq!(
        ocwx.offchain_index.get(&key),
        Some(&IndexingData(99, b"ocwx.indexing.data".to_vec()))
    );
    assert_eq!(
        sys.events.last(),
        Some(&RuntimeEvent::Ocwx(Event::NumberStored { number: 99, who: 4, block_number: 0x0102 }))
    );
    let refused: Result<(), DispatchError<Error>> = Err(DispatchError::BadOrigin);
    assert_eq!(ocwx.storage_number(&mut sys, RawOrigin::Unsigned, 100), refused);
    assert_eq!(ocwx.storage_number(&mut sys, RawOrigin::Root, 100), refused);
    assert_eq!(ocwx.numbers(), Some(99));
    assert_eq!(sys.events.count(), 1);
}

#[test]
fn unsigned_commands_take_only_the_unsigned_origin() {
    let mut ocwx = Pallet::new(b"OcwxModule");
    let (payload, signature) = signed(7, 1);
    let refused: Result<(), DispatchError<Error>> = Err(DispatchError::BadOrigin);
    assert_eq!(
        ocwx.submit_price_unsigned_with_signed_payload(RawOrigin::Signed(1), 5, payload, signature),
        refused
    );
    assert_eq!(ocwx.payload_numbers(5), None);
    assert_eq!(
        ocwx.submit_price_unsigned_with_signed_payload(RawOrigin::Unsigned, 5, payload, signature),
        Ok(())
    );
    assert_eq!(ocwx.payload_numbers(5), Some((7, true)));
    assert_eq!(ocwx.submit_price_unsigned(RawOrigin::Unsigned, 1, 2), Ok(()));
    assert_eq!(ocwx.submit_price_unsigned(RawOrigin::Root, 1, 2), refused);
    assert_eq!(Call::storage_number { number: 1 }.index(), 0);
    assert_eq!(Pallet::signed_payload_call(5, payload, signature).index(), 1);
    assert_eq!(Call::submit_price_unsigned { block_number: 1, price: 2 }.index(), 2);
}
