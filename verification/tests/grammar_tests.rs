use wallet_cli::AccountCommand;
use wallet_cli::MessageKind;
use wallet_cli::ParseError;
use wallet_cli::ReplAction;
use wallet_cli::ReplayKind;
use wallet_cli::parse_tokens;
use wallet_cli::repl_step;
use wallet_cli::tokenize;

fn toks(line: &str) -> Vec<String> {
    tokenize(line)
}

#[test]
fn tokenize_splits_on_single_spaces() {
    let t = toks("a b");
    assert_eq!(t, vec!["a".to_string(), "b".to_string()]);
}

#[test]
fn tokenize_empty_line_is_one_empty_token() {
    assert_eq!(toks(""), vec![String::new()]);
}

#[test]
fn tokenize_keeps_empty_tokens_between_spaces() {
    assert_eq!(toks("a  b"), vec!["a".to_string(), String::new(), "b".to_string()]);
    assert_eq!(toks(" x"), vec![String::new(), "x".to_string()]);
}

#[test]
fn parse_exit() {
    assert_eq!(parse_tokens(&toks("exit")), Ok(AccountCommand::Exit));
}

#[test]
fn parse_bare_commands() {
    assert_eq!(parse_tokens(&toks("list-addresses")), Ok(AccountCommand::ListAddresses));
    assert_eq!(parse_tokens(&toks("address")), Ok(AccountCommand::GenerateAddress));
    assert_eq!(parse_tokens(&toks("balance")), Ok(AccountCommand::Balance));
    assert_eq!(parse_tokens(&toks("sync")), Ok(AccountCommand::Sync { gap: None }));
    assert_eq!(
        parse_tokens(&toks("list-messages")),
        Ok(AccountCommand::ListMessages { id: None, kind: None })
    );
}

#[test]
fn parse_sync_with_gap() {
    assert_eq!(
        parse_tokens(&toks("sync --gap 25")),
        Ok(AccountCommand::Sync { gap: Some("25".to_string()) })
    );
}

#[test]
fn parse_list_messages_flags() {
    let id = "deadbeef".to_string();
    assert_eq!(
        parse_tokens(&toks("list-messages --id deadbeef")),
        Ok(AccountCommand::ListMessages { id: Some(id.clone()), kind: None })
    );
    assert_eq!(
        parse_tokens(&toks("list-messages --type received")),
        Ok(AccountCommand::ListMessages { id: None, kind: Some(MessageKind::Received) })
    );
    assert_eq!(
        parse_tokens(&toks("list-messages --id deadbeef --type sent")),
        Ok(AccountCommand::ListMessages { id: Some(id.clone()), kind: Some(MessageKind::Sent) })
    );
    assert_eq!(
        parse_tokens(&toks("list-messages --type value --id deadbeef")),
        Ok(AccountCommand::ListMessages { id: Some(id), kind: Some(MessageKind::Value) })
    );
}

#[test]
fn parse_list_messages_rejects_unknown_kind() {
    assert_eq!(
        parse_tokens(&toks("list-messages --type nonsense")),
        Err(ParseError::UnknownMessageKind)
    );
    assert_eq!(
        parse_tokens(&toks("list-messages --id deadbeef --type nonsense")),
        Err(ParseError::UnknownMessageKind)
    );
}

#[test]
fn parse_transfer_both_flag_orders() {
    let want = AccountCommand::Transfer {
        address: "iota1qxyz".to_string(),
        amount: "1000".to_string(),
    };
    assert_eq!(parse_tokens(&toks("transfer --address iota1qxyz --amount 1000")), Ok(want.clone()));
    assert_eq!(parse_tokens(&toks("transfer --amount 1000 --address iota1qxyz")), Ok(want));
}

#[test]
fn parse_replay_commands() {
    let id = "00".repeat(32);
    for (word, kind) in [
        ("promote", ReplayKind::Promote),
        ("retry", ReplayKind::Retry),
        ("reattach", ReplayKind::Reattach),
    ] {
        let line = format!("{} --id {}", word, id);
        assert_eq!(
            parse_tokens(&tokenize(&line)),
            Ok(AccountCommand::Replay { kind, id: id.clone() })
        );
    }
}

#[test]
fn parse_set_node_and_set_alias() {
    assert_eq!(
        parse_tokens(&toks("set-node --node https://example.test")),
        Ok(AccountCommand::SetNode { url: "https://example.test".to_string() })
    );
    assert_eq!(
        parse_tokens(&toks("set-alias --alias alice")),
        Ok(AccountCommand::SetAlias { alias: "alice".to_string() })
    );
}

#[test]
fn parse_rejects_bad_shapes() {
    assert_eq!(parse_tokens(&toks("exit now")), Err(ParseError::BadArguments));
    assert_eq!(parse_tokens(&toks("transfer --address x")), Err(ParseError::BadArguments));
    assert_eq!(parse_tokens(&toks("promote")), Err(ParseError::BadArguments));
    assert_eq!(parse_tokens(&toks("sync --gap")), Err(ParseError::BadArguments));
    assert_eq!(parse_tokens(&toks("list-messages --id a --id b")), Err(ParseError::BadArguments));
}

#[test]
fn parse_rejects_unknown_and_empty() {
    assert_eq!(parse_tokens(&toks("frobnicate")), Err(ParseError::UnknownCommand));
    assert_eq!(parse_tokens(&toks("")), Err(ParseError::EmptyInput));
    assert_eq!(parse_tokens(&toks("  ")), Err(ParseError::UnknownCommand));
}

#[test]
fn parse_error_messages() {
    assert_eq!(ParseError::EmptyInput.message(), "no command supplied");
    assert_eq!(ParseError::UnknownCommand.message(), "unrecognized command");
    assert_eq!(ParseError::BadArguments.message(), "invalid command arguments");
    assert_eq!(ParseError::UnknownMessageKind.message(), "unexpected message type");
}

#[test]
fn repl_handles_verbatim_lines() {
    assert_eq!(repl_step("h"), ReplAction::PrintHelp);
    assert_eq!(repl_step("clear"), ReplAction::ClearScreen);
}

#[test]
fn repl_exits_only_on_exit() {
    assert_eq!(repl_step("exit"), ReplAction::Exit);
    assert_eq!(repl_step("exit please"), ReplAction::Report(ParseError::BadArguments));
}

#[test]
fn repl_dispatches_parsed_commands() {
    assert_eq!(repl_step("balance"), ReplAction::Dispatch(AccountCommand::Balance));
    assert_eq!(
        repl_step("transfer --address iota1qxyz --amount 0"),
        ReplAction::Dispatch(AccountCommand::Transfer {
            address: "iota1qxyz".to_string(),
            amount: "0".to_string(),
        })
    );
}

#[test]
fn repl_reports_rejected_lines() {
    assert_eq!(repl_step("bogus"), ReplAction::Report(ParseError::UnknownCommand));
    assert_eq!(repl_step(""), ReplAction::Report(ParseError::EmptyInput));
}
