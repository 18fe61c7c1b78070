use wallet_cli::AccountCommand;
use wallet_cli::AccountError;
use wallet_cli::DispatchPlan;
use wallet_cli::EngineCall;
use wallet_cli::MessageKind;
use wallet_cli::ReplayKind;
use wallet_cli::TransferCheck;
use wallet_cli::bad_id_line;
use wallet_cli::check_transfer;
use wallet_cli::dispatch_command;
use wallet_cli::error_line;
use wallet_cli::parse_message_id;
use wallet_cli::parse_u64;

#[test]
fn parse_u64_accepts_plain_and_signed_decimals() {
    assert_eq!(parse_u64("42"), Some(42));
    assert_eq!(parse_u64("+42"), Some(42));
    assert_eq!(parse_u64("0"), Some(0));
    assert_eq!(parse_u64("007"), Some(7));
    assert_eq!(parse_u64("18446744073709551615"), Some(u64::MAX));
}

#[test]
fn parse_u64_rejects_junk_and_overflow() {
    assert_eq!(parse_u64(""), None);
    assert_eq!(parse_u64("+"), None);
    assert_eq!(parse_u64("abc"), None);
    assert_eq!(parse_u64("12x"), None);
    assert_eq!(parse_u64("-1"), None);
    assert_eq!(parse_u64("18446744073709551616"), None);
    assert_eq!(parse_u64("1 2"), None);
}

#[test]
fn parse_u64_matches_std() {
    for s in ["42", "+42", "0", "007", "", "abc", "-1", "18446744073709551616", " 1"] {
        assert_eq!(parse_u64(s), s.parse::<u64>().ok(), "input {:?}", s);
    }
}

#[test]
fn message_id_must_be_64_hex_chars() {
    let good = "0123456789abcdefABCDEF0123456789abcdef0123456789abcdef0123456789";
    assert_eq!(good.len(), 64);
    let parsed = parse_message_id(good).expect("64 hex chars parse");
    assert_eq!(parsed.as_str(), good);
    assert!(parse_message_id("deadbeef").is_none());
    assert!(parse_message_id(&"0".repeat(63)).is_none());
    assert!(parse_message_id(&"0".repeat(65)).is_none());
    let bad = format!("{}g", "0".repeat(63));
    assert!(parse_message_id(&bad).is_none());
}

#[test]
fn dispatch_list_messages_by_bad_id_never_reaches_engine() {
    let cmd = AccountCommand::ListMessages { id: Some("deadbeef".to_string()), kind: None };
    let plan = dispatch_command(&cmd);
    assert_eq!(plan, DispatchPlan::Output("Message id must be a hex string of length 64"));
    assert_eq!(bad_id_line(), "Message id must be a hex string of length 64");
}

#[test]
fn dispatch_list_messages_by_good_id() {
    let id = "ab".repeat(32);
    let cmd = AccountCommand::ListMessages { id: Some(id.clone()), kind: None };
    match dispatch_command(&cmd) {
        DispatchPlan::Engine(EngineCall::GetMessage { id: m }) => assert_eq!(m.as_str(), id),
        other => panic!("unexpected plan {:?}", other),
    }
}

#[test]
fn dispatch_list_messages_filter_passes_through() {
    let cmd = AccountCommand::ListMessages { id: None, kind: Some(MessageKind::Unconfirmed) };
    assert_eq!(
        dispatch_command(&cmd),
        DispatchPlan::Engine(EngineCall::ListMessages { kind: Some(MessageKind::Unconfirmed) })
    );
}

#[test]
fn dispatch_sync_parses_gap() {
    let ok = AccountCommand::Sync { gap: Some("25".to_string()) };
    assert_eq!(dispatch_command(&ok), DispatchPlan::Engine(EngineCall::Sync { gap: Some(25) }));
    let none = AccountCommand::Sync { gap: None };
    assert_eq!(dispatch_command(&none), DispatchPlan::Engine(EngineCall::Sync { gap: None }));
    let bad = AccountCommand::Sync { gap: Some("soon".to_string()) };
    assert_eq!(dispatch_command(&bad), DispatchPlan::Fail(AccountError::GapNotANumber));
}

#[test]
fn dispatch_replay_checks_id_shape() {
    let id = "0".repeat(64);
    let cmd = AccountCommand::Replay { kind: ReplayKind::Retry, id: id.clone() };
    match dispatch_command(&cmd) {
        DispatchPlan::Engine(EngineCall::Replay { kind, id: m }) => {
            assert_eq!(kind, ReplayKind::Retry);
            assert_eq!(m.as_str(), id);
        },
        other => panic!("unexpected plan {:?}", other),
    }
    let bad = AccountCommand::Replay { kind: ReplayKind::Promote, id: "zz".to_string() };
    assert_eq!(
        dispatch_command(&bad),
        DispatchPlan::Output("Message id must be a hex string of length 64")
    );
}

#[test]
fn dispatch_transfer_defers_to_address_parse() {
    let cmd = AccountCommand::Transfer {
        address: "iota1qxyz".to_string(),
        amount: "1000".to_string(),
    };
    assert_eq!(
        dispatch_command(&cmd),
        DispatchPlan::Engine(EngineCall::ParseTransferAddress {
            address: "iota1qxyz".to_string(),
            amount: "1000".to_string(),
        })
    );
}

#[test]
fn dispatch_set_node_and_set_alias() {
    let node = AccountCommand::SetNode { url: "https://example.test".to_string() };
    assert_eq!(
        dispatch_command(&node),
        DispatchPlan::Engine(EngineCall::SetNode { url: "https://example.test".to_string() })
    );
    let alias = AccountCommand::SetAlias { alias: "bob".to_string() };
    assert_eq!(
        dispatch_command(&alias),
        DispatchPlan::Engine(EngineCall::SetAlias { alias: "bob".to_string() })
    );
}

#[test]
fn transfer_zero_amount_is_rejected_before_the_engine() {
    assert_eq!(check_transfer(true, "0"), TransferCheck::Rejected(AccountError::ZeroAmount));
    assert_eq!(error_line(AccountError::ZeroAmount.message()), "ERROR: amount can't be zero");
}

#[test]
fn transfer_non_numeric_amount_is_rejected_before_the_engine() {
    assert_eq!(
        check_transfer(true, "lots"),
        TransferCheck::Rejected(AccountError::AmountNotANumber)
    );
    assert_eq!(error_line(AccountError::AmountNotANumber.message()), "ERROR: Amount must be a number");
}

#[test]
fn transfer_bad_address_is_rejected_first() {
    assert_eq!(
        check_transfer(false, "1000"),
        TransferCheck::Rejected(AccountError::AddressNotBech32)
    );
    assert_eq!(
        check_transfer(false, "0"),
        TransferCheck::Rejected(AccountError::AddressNotBech32)
    );
}

#[test]
fn transfer_positive_amount_is_sent() {
    assert_eq!(check_transfer(true, "1000"), TransferCheck::Send { amount: 1000 });
    assert_eq!(check_transfer(true, "+1"), TransferCheck::Send { amount: 1 });
}

#[test]
fn account_error_messages() {
    assert_eq!(AccountError::ZeroAmount.message(), "amount can't be zero");
    assert_eq!(AccountError::AmountNotANumber.message(), "Amount must be a number");
    assert_eq!(AccountError::AddressNotBech32.message(), "Address must be a bech32 string");
    assert_eq!(AccountError::GapNotANumber.message(), "Gap limit must be a number");
}
