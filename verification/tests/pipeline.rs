use tari_deploy::account::Account;
use tari_deploy::balance::{check_balance, wallet_xtr_balance, BalanceEntry};
use tari_deploy::deployer::{
    check_balance_to_deploy, publish_fee_from_response, DeployAction, DeployPhase, Deployment,
    TemplateDeployer, WalletResponse, DEFAULT_WAIT_TIMEOUT_SECS, TOKEN_SYMBOL,
};
use tari_deploy::error::Error;
use tari_deploy::loader::ValidatedTemplate;
use tari_deploy::network::NetworkConfig;
use tari_deploy::outcome::{
    evaluate_wait_result, extract_template_address, SubstateDiff, SubstateId, TransactionResult,
    TransactionWaitResult,
};

fn counter_template() -> ValidatedTemplate {
    ValidatedTemplate { bytes: vec![7u8; 32], hash: vec![0u8; 32] }
}

fn alice() -> Account {
    Account::Name { name: "alice".to_string() }
}

fn xtr_row(balance: i64) -> BalanceEntry {
    BalanceEntry { resource_address: vec![1u8; 32], balance }
}

fn accept_with_template() -> TransactionWaitResult {
    TransactionWaitResult {
        timed_out: false,
        status: "Accepted".to_string(),
        result: Some(TransactionResult::Accept {
            diff: SubstateDiff {
                up_substates: vec![
                    SubstateId::Other { id: "component-1".to_string() },
                    SubstateId::Template { address: "tpl-addr-abc".to_string() },
                ],
            },
        }),
    }
}

#[test]
fn deploy_happy_path_returns_template_address() {
    // 32-byte binary, account "alice", dry-run fee 1000, balance 5000:
    // the pipeline runs through and returns "tpl-addr-abc".
    let deployment = Deployment::new(alice(), counter_template(), 1000, None);
    assert!(matches!(deployment.phase, DeployPhase::EstimatingFee));
    assert_eq!(deployment.wait_timeout_secs, 120);

    let action = deployment.start();
    let request = match action {
        DeployAction::PublishDryRun { request } => request,
        _ => panic!("expected the dry-run publish first"),
    };
    assert!(request.dry_run);
    assert!(request.detect_inputs);
    assert_eq!(request.binary, vec![7u8; 32]);
    assert_eq!(request.max_fee, 1_000_000);
    assert!(matches!(request.fee_account, Some(Account::Name { ref name }) if name == "alice"));

    let (deployment, action) = deployment.step(WalletResponse::Published {
        transaction_id: "tx-0".to_string(),
        dry_run_fee: Some(1000),
    });
    let request = match action {
        DeployAction::QueryBalances { request } => request,
        _ => panic!("expected the balances query after the fee quote"),
    };
    assert!(!request.refresh);
    assert!(matches!(request.account, Account::Name { ref name } if name == "alice"));
    assert!(matches!(deployment.phase, DeployPhase::CheckingBalance { fee: 1000 }));

    let (deployment, action) = deployment.step(WalletResponse::Balances {
        balances: vec![xtr_row(5000)],
    });
    let request = match action {
        DeployAction::Publish { request } => request,
        _ => panic!("expected the real publish after a sufficient balance"),
    };
    assert!(!request.dry_run);
    assert_eq!(request.max_fee, 1000);
    assert_eq!(request.binary, vec![7u8; 32]);

    let (deployment, action) = deployment.step(WalletResponse::Published {
        transaction_id: "tx-1".to_string(),
        dry_run_fee: None,
    });
    let request = match action {
        DeployAction::WaitForResult { request } => request,
        _ => panic!("expected the bounded wait after submission"),
    };
    assert_eq!(request.transaction_id, "tx-1");
    assert_eq!(request.timeout_secs, DEFAULT_WAIT_TIMEOUT_SECS);

    let (deployment, action) = deployment.step(WalletResponse::WaitOutcome {
        result: accept_with_template(),
    });
    match action {
        DeployAction::Done { address } => assert_eq!(address, "tpl-addr-abc"),
        _ => panic!("expected the deployment to finish"),
    }
    assert!(matches!(deployment.phase, DeployPhase::Complete));
}

#[test]
fn deploy_insufficient_balance_stops_before_publish() {
    // Balance 500 against a quoted fee of 1000: the pipeline fails before
    // any real publish goes out.
    let deployment = Deployment::new(alice(), counter_template(), 1000, None);
    let (deployment, _) = deployment.step(WalletResponse::Published {
        transaction_id: "tx-0".to_string(),
        dry_run_fee: Some(1000),
    });
    let (deployment, action) = deployment.step(WalletResponse::Balances {
        balances: vec![xtr_row(500)],
    });
    match action {
        DeployAction::Fail { error } => {
            assert_eq!(error, Error::InsufficientBalance { current: 500, fee: 1000 });
        }
        _ => panic!("expected the deployment to fail on the balance check"),
    }
    assert!(matches!(deployment.phase, DeployPhase::Failed));
}

#[test]
fn deploy_wait_timeout_is_distinct_from_rejection() {
    // A timed-out wait after submission fails with the timeout error for
    // "tx-1", which is a different variant from a rejection.
    let deployment = Deployment::new(alice(), counter_template(), 1000, Some(120));
    let (deployment, _) = deployment.step(WalletResponse::Published {
        transaction_id: "tx-0".to_string(),
        dry_run_fee: Some(1000),
    });
    let (deployment, _) = deployment.step(WalletResponse::Balances {
        balances: vec![xtr_row(5000)],
    });
    let (deployment, _) = deployment.step(WalletResponse::Published {
        transaction_id: "tx-1".to_string(),
        dry_run_fee: None,
    });
    let (deployment, action) = deployment.step(WalletResponse::WaitOutcome {
        result: TransactionWaitResult {
            timed_out: true,
            status: "Pending".to_string(),
            result: None,
        },
    });
    match action {
        DeployAction::Fail { error } => {
            assert_eq!(
                error,
                Error::WaitForTransactionTimeout { transaction_id: "tx-1".to_string() }
            );
            assert!(!matches!(error, Error::InvalidTransaction { .. }));
        }
        _ => panic!("expected the deployment to fail on the timeout"),
    }
    assert!(matches!(deployment.phase, DeployPhase::Failed));
}

#[test]
fn deploy_missing_dry_run_fee_is_a_protocol_violation() {
    let deployment = Deployment::new(alice(), counter_template(), 1000, None);
    let (deployment, action) = deployment.step(WalletResponse::Published {
        transaction_id: "tx-0".to_string(),
        dry_run_fee: None,
    });
    match action {
        DeployAction::Fail { error } => {
            assert_eq!(
                error,
                Error::InvalidResponse {
                    message: "Wallet daemon returned an empty dry run fee".to_string()
                }
            );
        }
        _ => panic!("expected the deployment to fail on the missing fee"),
    }
    assert!(matches!(deployment.phase, DeployPhase::Failed));
}

#[test]
fn deploy_transport_failure_surfaces_the_error() {
    let deployment = Deployment::new(alice(), counter_template(), 1000, None);
    let (deployment, action) = deployment.step(WalletResponse::Failed {
        error: Error::WalletDaemonClient { message: "connection refused".to_string() },
    });
    match action {
        DeployAction::Fail { error } => {
            assert_eq!(
                error,
                Error::WalletDaemonClient { message: "connection refused".to_string() }
            );
        }
        _ => panic!("expected the deployment to fail"),
    }
    assert!(matches!(deployment.phase, DeployPhase::Failed));
}

#[test]
fn evaluate_wait_timeout_never_extracts() {
    // Even when an accepted result with a template entry rides along, a
    // timed-out wait reads as the timeout, never as success.
    let mut response = accept_with_template();
    response.timed_out = true;
    let verdict = evaluate_wait_result("tx-9".to_string(), response);
    assert_eq!(
        verdict,
        Err(Error::WaitForTransactionTimeout { transaction_id: "tx-9".to_string() })
    );
}

#[test]
fn evaluate_wait_missing_result_is_a_protocol_violation() {
    let verdict = evaluate_wait_result(
        "tx-2".to_string(),
        TransactionWaitResult {
            timed_out: false,
            status: "Accepted".to_string(),
            result: None,
        },
    );
    assert_eq!(
        verdict,
        Err(Error::MissingTransactionResult { transaction_id: "tx-2".to_string() })
    );
}

#[test]
fn evaluate_wait_rejection_surfaces_the_reason() {
    let verdict = evaluate_wait_result(
        "tx-3".to_string(),
        TransactionWaitResult {
            timed_out: false,
            status: "Rejected".to_string(),
            result: Some(TransactionResult::Reject { reason: "out of gas".to_string() }),
        },
    );
    assert_eq!(
        verdict,
        Err(Error::InvalidTransaction {
            transaction_id: "tx-3".to_string(),
            status: "Rejected".to_string(),
            reason: "out of gas".to_string(),
        })
    );
}

#[test]
fn evaluate_wait_partial_acceptance_is_not_success() {
    let verdict = evaluate_wait_result(
        "tx-4".to_string(),
        TransactionWaitResult {
            timed_out: false,
            status: "OnlyFeeAccepted".to_string(),
            result: Some(TransactionResult::AcceptFeeRejectRest {
                diff: SubstateDiff {
                    up_substates: vec![SubstateId::Template { address: "tpl-x".to_string() }],
                },
                reason: "constraint failed".to_string(),
            }),
        },
    );
    assert_eq!(
        verdict,
        Err(Error::InvalidTransaction {
            transaction_id: "tx-4".to_string(),
            status: "OnlyFeeAccepted".to_string(),
            reason: "constraint failed".to_string(),
        })
    );
}

#[test]
fn extract_without_template_entry_fails() {
    // Acceptance whose diff created no template substate is the missing-
    // template protocol violation, not a default address.
    let diff = SubstateDiff {
        up_substates: vec![
            SubstateId::Other { id: "component-1".to_string() },
            SubstateId::Other { id: "vault-1".to_string() },
        ],
    };
    assert_eq!(extract_template_address(&diff), Err(Error::MissingPublishedTemplate));

    let empty = SubstateDiff { up_substates: vec![] };
    assert_eq!(extract_template_address(&empty), Err(Error::MissingPublishedTemplate));
}

#[test]
fn extract_takes_the_first_template_entry() {
    let diff = SubstateDiff {
        up_substates: vec![
            SubstateId::Other { id: "component-1".to_string() },
            SubstateId::Template { address: "tpl-first".to_string() },
            SubstateId::Template { address: "tpl-second".to_string() },
        ],
    };
    assert_eq!(extract_template_address(&diff), Ok("tpl-first".to_string()));
}

#[test]
fn check_balance_fails_exactly_when_fee_exceeds_balance() {
    assert!(check_balance(1000, 1001).is_err());
    assert!(check_balance(1000, 1000).is_ok());
    assert!(check_balance(1000, 999).is_ok());
    assert!(check_balance(-1, 0).is_err());
    assert!(check_balance(-1, 1).is_err());
    assert!(check_balance(0, 0).is_ok());
    assert_eq!(
        check_balance(500, 1000),
        Err(Error::InsufficientBalance { current: 500, fee: 1000 })
    );
}

#[test]
fn wallet_balance_reads_the_first_native_row() {
    let balances = vec![
        BalanceEntry { resource_address: vec![2u8; 32], balance: 77 },
        xtr_row(4000),
        xtr_row(9000),
    ];
    assert_eq!(wallet_xtr_balance(&balances), 4000);
    assert_eq!(wallet_xtr_balance(&vec![]), 0);
    assert_eq!(
        wallet_xtr_balance(&vec![BalanceEntry { resource_address: vec![2u8; 32], balance: 5 }]),
        0
    );
}

#[test]
fn publish_fee_requires_a_fee_figure() {
    assert_eq!(publish_fee_from_response(Some(1234)), Ok(1234));
    assert!(matches!(
        publish_fee_from_response(None),
        Err(Error::InvalidResponse { .. })
    ));
}

#[test]
fn check_balance_to_deploy_reports_fee_and_size() {
    let template = counter_template();
    let result = check_balance_to_deploy(&template, Some(1000), &vec![xtr_row(5000)]).unwrap();
    assert_eq!(result.max_fee, 1000);
    assert_eq!(result.binary_size, 32);

    let err = check_balance_to_deploy(&template, Some(1000), &vec![xtr_row(500)]);
    assert!(matches!(err, Err(Error::InsufficientBalance { current: 500, fee: 1000 })));

    let err = check_balance_to_deploy(&template, None, &vec![xtr_row(500)]);
    assert!(matches!(err, Err(Error::InvalidResponse { .. })));
}

#[test]
fn deployer_holds_the_network_endpoint() {
    let deployer = TemplateDeployer::new(NetworkConfig::new("http://127.0.0.1:12047".to_string()));
    assert_eq!(
        deployer.network().wallet_daemon_jrpc_address(),
        "http://127.0.0.1:12047"
    );
    assert_eq!(TOKEN_SYMBOL, "XTR");
}
