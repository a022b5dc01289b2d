use spectre::cli::{AmountArg, Connect, ConnectTarget, Send, SendCommand, SendError};

fn args(a: &[&str]) -> Vec<String> {
    a.iter().map(|s| s.to_string()).collect()
}

#[test]
fn connect_to_named_server() {
    let t = Connect.target(&args(&["wss://node.example:17110"]), Some("other".to_string()));
    match &t {
        ConnectTarget::Server(url) => assert_eq!(url, "wss://node.example:17110"),
        _ => panic!("expected a server"),
    }
    assert_eq!(t.announcement(), None);
    assert!(!t.shows_privacy_notice());
}

#[test]
fn connect_to_configured_server() {
    let t = Connect.target(&args(&[]), Some("127.0.0.1".to_string()));
    assert!(matches!(t, ConnectTarget::Server(ref u) if u == "127.0.0.1"));
}

#[test]
fn connect_public_keywords() {
    for word in ["public", "resolver"] {
        let t = Connect.target(&args(&[word]), None);
        assert!(matches!(t, ConnectTarget::PublicNode));
        assert_eq!(t.announcement(), Some("Connecting to a public node"));
        assert!(t.shows_privacy_notice());
    }
    let t = Connect.target(&args(&[]), Some("resolver".to_string()));
    assert!(matches!(t, ConnectTarget::PublicNode));
    let t = Connect.target(&args(&["Public"]), None);
    assert!(matches!(t, ConnectTarget::Server(_)));
}

#[test]
fn connect_without_any_server() {
    let t = Connect.target(&args(&[]), None);
    assert!(matches!(t, ConnectTarget::NoServerSet));
    assert_eq!(t.announcement(), Some("No server set, connecting to a public node"));
    assert!(t.shows_privacy_notice());
    assert!(ConnectTarget::privacy_notice().starts_with("Please note that public node infrastructure"));
    assert!(ConnectTarget::privacy_notice().ends_with("for enhanced privacy."));
}

#[test]
fn send_needs_two_arguments() {
    assert!(matches!(Send.command(&args(&[])), SendCommand::Usage));
    assert!(matches!(Send.command(&args(&["spectre:qq"])), SendCommand::Usage));
    assert_eq!(Send::usage(), "Usage: send <address> <amount|--send-all> <priority fee>");
}

#[test]
fn send_amount_and_priority_fee() {
    match Send.command(&args(&["spectre:qq", "12.5", "0.01"])) {
        SendCommand::Transfer { address, amount: AmountArg::Amount(a), priority_fee } => {
            assert_eq!(address, "spectre:qq");
            assert_eq!(a, "12.5");
            assert_eq!(priority_fee.as_deref(), Some("0.01"));
        }
        _ => panic!("expected a transfer"),
    }
}

#[test]
fn send_all_flag() {
    match Send.command(&args(&["spectre:qq", "--send-all"])) {
        SendCommand::Transfer { amount: AmountArg::SendAll, priority_fee: None, .. } => {}
        _ => panic!("expected send-all without priority fee"),
    }
}

#[test]
fn send_all_amount_subtracts_fees() {
    assert_eq!(Send::send_all_amount(1_000, 100, 50), Ok(850));
    assert_eq!(Send::send_all_amount(1_000, 100, 0), Ok(900));
    assert_eq!(Send::send_all_amount(1_000, 1_000, 0), Ok(0));
    assert_eq!(Send::send_all_amount(u64::MAX, 0, i64::MAX), Ok(u64::MAX - i64::MAX as u64));
}

#[test]
fn send_all_negative_priority_fee_counts_as_none() {
    assert_eq!(Send::send_all_amount(1_000, 100, -5), Ok(900));
    assert_eq!(Send::send_all_amount(1_000, 100, i64::MIN), Ok(900));
}

#[test]
fn send_all_insufficient_funds() {
    assert_eq!(Send::send_all_amount(99, 100, 0), Err(SendError::InsufficientFundsForFee));
    assert_eq!(Send::send_all_amount(99, 100, -1), Err(SendError::InsufficientFundsForFee));
    assert_eq!(Send::send_all_amount(150, 100, 51), Err(SendError::InsufficientFundsForPriorityFee));
}

#[test]
fn send_error_messages() {
    assert_eq!(SendError::BalanceUnavailable.message(), "Failed to retrieve account balance");
    assert_eq!(SendError::InsufficientFundsForFee.message(), "Insufficient funds to cover the transaction fee.");
    assert_eq!(
        SendError::InsufficientFundsForPriorityFee.message(),
        "Insufficient funds to cover the priority fee."
    );
}
