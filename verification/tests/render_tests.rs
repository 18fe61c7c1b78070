use wallet_cli::AddressRecord;
use wallet_cli::BalanceRecord;
use wallet_cli::MessageRecord;
use wallet_cli::account_not_found_line;
use wallet_cli::account_removed_line;
use wallet_cli::address_block;
use wallet_cli::addresses_report;
use wallet_cli::backup_imported_line;
use wallet_cli::backup_stored_line;
use wallet_cli::balance_line;
use wallet_cli::created_account_line;
use wallet_cli::error_line;
use wallet_cli::message_block;
use wallet_cli::message_not_found_line;
use wallet_cli::messages_report;
use wallet_cli::no_addresses_line;
use wallet_cli::no_messages_line;
use wallet_cli::sync_report;
use wallet_cli::synchronized_line;
use wallet_cli::syncing_gap_line;
use wallet_cli::u64_to_string;

fn sample_message() -> MessageRecord {
    MessageRecord {
        id: "ab".repeat(32),
        value: Some(1000),
        timestamp: "2021-03-04T05:06:07Z".to_string(),
        broadcasted: true,
        confirmed: None,
    }
}

fn sample_address() -> AddressRecord {
    AddressRecord {
        bech32: "iota1qxyz".to_string(),
        total_balance: 42,
        available_balance: 40,
        key_index: 3,
        internal: false,
    }
}

#[test]
fn u64_rendering_is_plain_decimal() {
    assert_eq!(u64_to_string(0), "0");
    assert_eq!(u64_to_string(7), "7");
    assert_eq!(u64_to_string(10), "10");
    assert_eq!(u64_to_string(1000), "1000");
    assert_eq!(u64_to_string(u64::MAX), "18446744073709551615");
}

#[test]
fn message_block_with_value() {
    let lines = message_block(&sample_message());
    assert_eq!(
        lines,
        vec![
            format!("MESSAGE {}", "ab".repeat(32)),
            "--- Value: 1000".to_string(),
            "--- Timestamp: 2021-03-04T05:06:07Z".to_string(),
            "--- Broadcasted: true, confirmed: unknown".to_string(),
        ]
    );
}

#[test]
fn message_block_without_value_and_confirmed() {
    let mut m = sample_message();
    m.value = None;
    m.broadcasted = false;
    m.confirmed = Some(false);
    let lines = message_block(&m);
    assert_eq!(lines.len(), 3);
    assert_eq!(lines[2], "--- Broadcasted: false, confirmed: false");
    m.confirmed = Some(true);
    assert_eq!(message_block(&m)[2], "--- Broadcasted: false, confirmed: true");
}

#[test]
fn address_block_layout() {
    let lines = address_block(&sample_address());
    assert_eq!(
        lines,
        vec![
            "ADDRESS \"iota1qxyz\"".to_string(),
            "Total balance: 42".to_string(),
            "--- Balance: 40".to_string(),
            "--- Index: 3".to_string(),
            "--- Change address: false".to_string(),
        ]
    );
}

#[test]
fn balance_record_layout() {
    let b = BalanceRecord { total: 10, available: 5, incoming: 1, outgoing: 2 };
    assert_eq!(
        balance_line(&b),
        "Balance { total: 10, available: 5, incoming: 1, outgoing: 2 }"
    );
}

#[test]
fn empty_lists_report_fixed_lines() {
    assert_eq!(messages_report(&Vec::new()), vec!["No messages found".to_string()]);
    assert_eq!(addresses_report(&Vec::new()), vec!["No addresses found".to_string()]);
}

#[test]
fn list_reports_concatenate_blocks() {
    let msgs = vec![sample_message(), sample_message()];
    let report = messages_report(&msgs);
    assert_eq!(report.len(), 8);
    assert_eq!(&report[0..4], &message_block(&msgs[0])[..]);
    let addrs = vec![sample_address()];
    assert_eq!(addresses_report(&addrs), address_block(&addrs[0]));
}

#[test]
fn sync_report_lists_addresses_then_messages() {
    let addrs = vec![sample_address()];
    let msgs = vec![sample_message()];
    let report = sync_report(&addrs, &msgs);
    assert_eq!(report.len(), 9);
    assert_eq!(&report[0..5], &address_block(&addrs[0])[..]);
    assert_eq!(&report[5..9], &message_block(&msgs[0])[..]);
    assert_eq!(sync_report(&Vec::new(), &Vec::new()), Vec::<String>::new());
}

#[test]
fn error_lines_are_tagged() {
    assert_eq!(error_line("boom"), "ERROR: boom");
}

#[test]
fn status_lines() {
    assert_eq!(created_account_line("alice"), "Created account `alice`");
    assert_eq!(synchronized_line(3), "Synchronized 3 accounts");
    assert_eq!(syncing_gap_line(25), "Syncing with gap limit 25");
    assert_eq!(backup_stored_line("./safe"), "Backup stored at \"./safe\"");
    assert_eq!(message_not_found_line(), "Message not found");
    assert_eq!(no_messages_line(), "No messages found");
    assert_eq!(no_addresses_line(), "No addresses found");
    assert_eq!(account_not_found_line(), "Account not found");
    assert_eq!(account_removed_line(), "Account removed");
    assert_eq!(backup_imported_line(), "Backup successfully imported");
}
