use holochain_runner::config::{conductor_config, ConductorSettings};
use holochain_runner::error::OrchestrationError;
use holochain_runner::identity::{find_or_generate_key, Identity, KeyPlan, KeystoreEntry};
use holochain_runner::install::{
    check_registrations, enable_app, install_app, ActivationError, CellId, DnaHash,
};
use holochain_runner::interface::{allocate_or_reuse, PortPlan};
use holochain_runner::passphrase::{
    read_piped_passphrase, take_line, PassphraseError, PassphraseReader, PASSPHRASE_CAPACITY,
};
use holochain_runner::signal::{state_signal_to_stdout, StateSignal};

fn key(byte: u8) -> Identity {
    Identity { public_key: [byte; 32] }
}

fn dna(byte: u8) -> DnaHash {
    DnaHash { bytes: [byte; 32] }
}

#[test]
fn signals_are_numbered_in_milestone_order() {
    assert_eq!(state_signal_to_stdout(&StateSignal::IsFirstRun), 0);
    assert_eq!(state_signal_to_stdout(&StateSignal::IsNotFirstRun), 1);
    assert_eq!(state_signal_to_stdout(&StateSignal::CreatingKeys), 2);
    assert_eq!(state_signal_to_stdout(&StateSignal::RegisteringDna), 3);
    assert_eq!(state_signal_to_stdout(&StateSignal::InstallingApp), 4);
    assert_eq!(state_signal_to_stdout(&StateSignal::EnablingApp), 5);
    assert_eq!(state_signal_to_stdout(&StateSignal::AddingAppInterface), 6);
    assert_eq!(state_signal_to_stdout(&StateSignal::IsReady), 7);
}

#[test]
fn empty_keystore_calls_for_a_new_key() {
    assert_eq!(find_or_generate_key(&vec![]), KeyPlan::Generate);
}

#[test]
fn keystore_without_signing_keys_calls_for_a_new_key() {
    let entries = vec![
        KeystoreEntry::Certificate,
        KeystoreEntry::LockedSeed,
        KeystoreEntry::Unrecognized,
    ];
    assert_eq!(find_or_generate_key(&entries), KeyPlan::Generate);
}

#[test]
fn earliest_signing_key_wins() {
    let entries = vec![
        KeystoreEntry::Certificate,
        KeystoreEntry::SigningKeypair(key(7)),
        KeystoreEntry::LockedSeed,
        KeystoreEntry::SigningKeypair(key(9)),
    ];
    assert_eq!(find_or_generate_key(&entries), KeyPlan::Reuse(key(7)));
}

#[test]
fn single_signing_key_is_reused() {
    let entries = vec![KeystoreEntry::SigningKeypair(key(3))];
    assert_eq!(find_or_generate_key(&entries), KeyPlan::Reuse(key(3)));
}

#[test]
fn install_request_pairs_each_dna_with_the_agent() {
    let request = install_app(
        key(1),
        "main-app".to_string(),
        &vec![dna(10), dna(20)],
        Some("seed".to_string()),
    );
    assert_eq!(request.app_id, "main-app");
    assert_eq!(
        request.cells,
        vec![
            CellId { dna: dna(10), agent: key(1) },
            CellId { dna: dna(20), agent: key(1) },
        ]
    );
    assert_eq!(request.network_seed, Some("seed".to_string()));
}

#[test]
fn install_request_for_an_empty_bundle_has_no_cells() {
    let request = install_app(key(1), "main-app".to_string(), &vec![], None);
    assert_eq!(request.app_id, "main-app");
    assert!(request.cells.is_empty());
    assert_eq!(request.network_seed, None);
}

#[test]
fn registrations_without_rejection_pass() {
    assert_eq!(check_registrations(&vec![dna(1), dna(2)], &vec![None, None]), Ok(()));
    assert_eq!(check_registrations(&vec![], &vec![]), Ok(()));
}

#[test]
fn one_rejection_fails_the_bundle() {
    let verdict = check_registrations(
        &vec![dna(1), dna(2)],
        &vec![None, Some("bad wasm".to_string())],
    );
    assert_eq!(
        verdict,
        Err(OrchestrationError::DnaRegistration { dna: dna(2), message: "bad wasm".to_string() })
    );
}

#[test]
fn earliest_rejection_is_reported() {
    let verdict = check_registrations(
        &vec![dna(1), dna(2), dna(3)],
        &vec![None, Some("first".to_string()), Some("second".to_string())],
    );
    assert_eq!(
        verdict,
        Err(OrchestrationError::DnaRegistration { dna: dna(2), message: "first".to_string() })
    );
}

#[test]
fn outcomes_must_match_the_dnas_in_number() {
    assert_eq!(
        check_registrations(&vec![dna(1), dna(2)], &vec![None]),
        Err(OrchestrationError::UnexpectedEvent)
    );
    assert_eq!(
        check_registrations(&vec![], &vec![Some("stray".to_string())]),
        Err(OrchestrationError::UnexpectedEvent)
    );
}

#[test]
fn enabling_without_errors_succeeds() {
    assert_eq!(enable_app("main-app".to_string(), true, vec![]), Ok(()));
}

#[test]
fn enabling_reports_the_last_cell_error_only() {
    let errors = vec![
        ActivationError { cell: CellId { dna: dna(1), agent: key(1) }, message: "one".to_string() },
        ActivationError { cell: CellId { dna: dna(2), agent: key(1) }, message: "two".to_string() },
        ActivationError { cell: CellId { dna: dna(3), agent: key(1) }, message: "three".to_string() },
    ];
    assert_eq!(
        enable_app("main-app".to_string(), true, errors),
        Err(OrchestrationError::CellActivation {
            cell: CellId { dna: dna(3), agent: key(1) },
            message: "three".to_string(),
        })
    );
}

#[test]
fn enabling_an_app_that_is_gone_fails() {
    assert_eq!(
        enable_app("main-app".to_string(), false, vec![]),
        Err(OrchestrationError::AppNotInstalled { app_id: "main-app".to_string() })
    );
    let errors = vec![ActivationError {
        cell: CellId { dna: dna(1), agent: key(1) },
        message: "one".to_string(),
    }];
    assert_eq!(
        enable_app("main-app".to_string(), false, errors),
        Err(OrchestrationError::AppNotInstalled { app_id: "main-app".to_string() })
    );
}

#[test]
fn app_without_interface_gets_the_requested_port() {
    assert_eq!(allocate_or_reuse(&vec![], 8888), PortPlan::Bind(8888));
    assert_eq!(allocate_or_reuse(&vec![], 0), PortPlan::Bind(0));
}

#[test]
fn first_interface_is_reused_whatever_was_requested() {
    assert_eq!(allocate_or_reuse(&vec![4444], 8888), PortPlan::Reuse(4444));
    assert_eq!(allocate_or_reuse(&vec![4444, 5555], 0), PortPlan::Reuse(4444));
    assert_eq!(allocate_or_reuse(&vec![4444], 4444), PortPlan::Reuse(4444));
}

fn passphrase(piped: &[u8]) -> Result<Vec<u8>, PassphraseError> {
    read_piped_passphrase(&piped.to_vec()).map(|secret| secret.read_lock().to_vec())
}

#[test]
fn passphrase_ends_at_the_line_feed() {
    assert_eq!(passphrase(b"secret\n"), Ok(b"secret".to_vec()));
    assert_eq!(passphrase(b"secret\nmore\n"), Ok(b"secret".to_vec()));
}

#[test]
fn passphrase_ends_with_the_input() {
    assert_eq!(passphrase(b"secret"), Ok(b"secret".to_vec()));
}

#[test]
fn passphrase_loses_one_carriage_return() {
    assert_eq!(passphrase(b"secret\r\n"), Ok(b"secret".to_vec()));
    assert_eq!(passphrase(b"secret\r"), Ok(b"secret".to_vec()));
    assert_eq!(passphrase(b"secret\r\r\n"), Ok(b"secret\r".to_vec()));
    assert_eq!(passphrase(b"se\rcret\n"), Ok(b"se\rcret".to_vec()));
}

#[test]
fn empty_input_gives_an_empty_passphrase() {
    assert_eq!(passphrase(b""), Ok(vec![]));
    assert_eq!(passphrase(b"\n"), Ok(vec![]));
    assert_eq!(passphrase(b"\r\n"), Ok(vec![]));
    assert_eq!(passphrase(b"\r"), Ok(vec![]));
    assert_eq!(passphrase(b"\nsecret"), Ok(vec![]));
}

#[test]
fn passphrase_must_end_within_the_buffer() {
    assert_eq!(PASSPHRASE_CAPACITY, 512);
    let longest = vec![b'x'; 511];
    assert_eq!(passphrase(&longest), Ok(longest.clone()));
    let mut with_line_feed = longest.clone();
    with_line_feed.push(b'\n');
    assert_eq!(passphrase(&with_line_feed), Ok(longest.clone()));
    assert_eq!(passphrase(&vec![b'x'; 512]), Err(PassphraseError::TooLong));
    let mut too_long = vec![b'x'; 512];
    too_long.push(b'\n');
    assert_eq!(passphrase(&too_long), Err(PassphraseError::TooLong));
    let mut late_line = vec![b'x'; 600];
    late_line.push(b'\n');
    assert_eq!(passphrase(&late_line), Err(PassphraseError::TooLong));
}

#[test]
fn passphrase_keeps_every_byte_in_its_place() {
    let mut piped: Vec<u8> = (0..=255u8).filter(|byte| *byte != 10).collect();
    let expected = piped.clone();
    piped.push(10);
    piped.extend_from_slice(b"not this");
    assert_eq!(passphrase(&piped), Ok(expected));
}

#[test]
fn reader_takes_bytes_until_the_line_feed() {
    let mut reader = PassphraseReader::new().unwrap();
    assert!(reader.has_room());
    assert!(!reader.accept(b'a'));
    assert!(!reader.accept(b'\r'));
    assert!(!reader.accept(b'b'));
    assert!(!reader.accept(b'\r'));
    assert!(reader.accept(b'\n'));
    let secret = reader.finish().unwrap();
    assert_eq!(secret.read_lock().to_vec(), b"a\rb".to_vec());
}

#[test]
fn reader_without_input_gives_an_empty_passphrase() {
    let reader = PassphraseReader::new().unwrap();
    let secret = reader.finish().unwrap();
    assert!(secret.is_empty());
}

#[test]
fn reader_is_full_after_its_capacity() {
    let mut reader = PassphraseReader::new().unwrap();
    for at in 0..PASSPHRASE_CAPACITY {
        assert!(reader.has_room());
        assert!(!reader.accept((at % 251) as u8 + 11));
    }
    assert!(!reader.has_room());
    let secret = reader.finish().unwrap();
    let expected: Vec<u8> = (0..PASSPHRASE_CAPACITY).map(|at| (at % 251) as u8 + 11).collect();
    assert_eq!(secret.read_lock().to_vec(), expected);
}

#[test]
fn line_is_taken_whole_or_not_at_all() {
    let reader = PassphraseReader::new().unwrap();
    assert!(take_line(reader, &vec![b'x'; 512]).is_none());
    let reader = PassphraseReader::new().unwrap();
    let filled = take_line(reader, &b"abc\r\nrest".to_vec()).unwrap();
    assert_eq!(filled.finish().unwrap().read_lock().to_vec(), b"abc".to_vec());
}

#[test]
fn conductor_settings_follow_the_arguments() {
    let settings = conductor_config(
        1234,
        "databases".to_string(),
        &Some("keys".to_string()),
        &"wss://signal.holo.host".to_string(),
        &"https://bootstrap.holo.host".to_string(),
    );
    assert_eq!(
        settings,
        ConductorSettings {
            environment_path: "databases".to_string(),
            keystore_root: Some("keys".to_string()),
            admin_port: 1234,
            bootstrap_service: "https://bootstrap.holo.host".to_string(),
            quic_bind_to: "kitsune-quic://0.0.0.0:0".to_string(),
            proxy_url: "wss://signal.holo.host".to_string(),
        }
    );
}

#[test]
fn conductor_settings_leave_the_keystore_root_open() {
    let settings = conductor_config(
        0,
        "d".to_string(),
        &None,
        &"p".to_string(),
        &"b".to_string(),
    );
    assert_eq!(settings.keystore_root, None);
    assert_eq!(settings.admin_port, 0);
    assert_eq!(settings.environment_path, "d");
    assert_eq!(settings.proxy_url, "p");
    assert_eq!(settings.bootstrap_service, "b");
}
