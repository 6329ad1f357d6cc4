use vstd::prelude::*;

use crate::account::Account;
use crate::balance::{check_balance, spec_insufficient, spec_native_balance, wallet_xtr_balance, BalanceEntry};
use crate::error::Error;
use crate::loader::ValidatedTemplate;
use crate::network::NetworkConfig;
use crate::outcome::{evaluate_wait_result, spec_first_template_address, TransactionResult, TransactionWaitResult};
use crate::request::{create_dry_run_request, create_publish_template_request, spec_publish_request, BalancesRequest, PublishRequest, PublishRequestV, WaitRequest, ESTIMATE_MAX_FEE};

verus! {

/// Ticker of the network's native token, in which fees are charged.
pub const TOKEN_SYMBOL: &'static str = "XTR";

/// How long the wait call may block when the caller sets no bound.
pub const DEFAULT_WAIT_TIMEOUT_SECS: u64 = 120;

/// Template deployer: holds the network a deployment talks to. Deployments
/// themselves run as [`Deployment`] state machines, one per attempt.
pub struct TemplateDeployer {
    network: NetworkConfig,
}

impl View for TemplateDeployer {
    type V = Seq<char>;

    closed spec fn view(&self) -> Seq<char> {
        self.network@
    }
}

impl TemplateDeployer {
    pub fn new(network: NetworkConfig) -> (r: Self)
        ensures
            r@ == network@,
    {
        Self { network }
    }

    /// The wallet daemon endpoint this deployer's deployments talk to.
    pub fn network(&self) -> (r: &NetworkConfig)
        ensures
            r@ == self@,
    {
        &self.network
    }
}

/// What a deployment reports once the balance pre-check has passed: the fee
/// the network quoted and the size of the module binary it was quoted for.
pub struct CheckBalanceResult {
    pub max_fee: u64,
    pub binary_size: usize,
}

/// The fee figure of a dry-run publish response. A dry run owes its caller
/// a fee; a response without one violates the service's contract and is
/// never defaulted.
pub fn publish_fee_from_response(dry_run_fee: Option<u64>) -> (r: Result<u64, Error>)
    ensures
        dry_run_fee matches Some(fee) ==> r == Ok::<u64, Error>(fee),
        dry_run_fee is None ==> (r matches Err(e) && e matches Error::InvalidResponse { message }
            && message@ == "Wallet daemon returned an empty dry run fee"@),
{
    match dry_run_fee {
        Some(fee) => Ok(fee),
        None => Err(
            Error::InvalidResponse {
                message: "Wallet daemon returned an empty dry run fee".to_owned(),
            },
        ),
    }
}

/// The balance pre-check's verdict, from the two responses it rests on: the
/// dry-run publish response's fee figure and the account's balances. A
/// missing fee is a protocol violation; a fee above the native-token
/// balance refuses the deployment before anything is spent; otherwise the
/// quoted fee and the binary's size come back.
pub fn check_balance_to_deploy(
    template: &ValidatedTemplate,
    dry_run_fee: Option<u64>,
    balances: &Vec<BalanceEntry>,
) -> (r: Result<CheckBalanceResult, Error>)
    ensures
        dry_run_fee is None ==> (r matches Err(e) && e matches Error::InvalidResponse { .. }),
        dry_run_fee matches Some(fee) ==> {
            let balance = spec_native_balance(balances.deep_view());
            if spec_insufficient(balance, fee) {
                r == Err::<CheckBalanceResult, Error>(
                    Error::InsufficientBalance { current: balance, fee },
                )
            } else {
                r matches Ok(c) && c.max_fee == fee && c.binary_size == template.bytes.len()
            }
        },
{
    let fee = match publish_fee_from_response(dry_run_fee) {
        Ok(fee) => fee,
        Err(e) => {
            return Err(e);
        },
    };
    let balance = wallet_xtr_balance(balances);
    match check_balance(balance, fee) {
        Ok(()) => Ok(CheckBalanceResult { max_fee: fee, binary_size: template.bytes.len() }),
        Err(e) => Err(e),
    }
}

/// Where a deployment stands: each phase names the wallet response it is
/// waiting on. `Complete` and `Failed` are terminal.
pub enum DeployPhase {
    /// The dry-run publish is out; its response carries the fee quote.
    EstimatingFee,
    /// The balances query is out; `fee` is the quote being checked against.
    CheckingBalance { fee: u64 },
    /// The balance passed and the real publish is out.
    Submitting,
    /// The publish was accepted into the mempool; the wait call is out.
    WaitingForResult { transaction_id: String },
    /// The template's address was extracted; the deployment succeeded.
    Complete,
    /// The deployment failed; the error went out with the final action.
    Failed,
}

/// A wallet response the embedder feeds back into the machine. `Failed`
/// stands for an RPC that could not be completed at all, with the error the
/// transport or session layer reported.
pub enum WalletResponse {
    /// Answer to a publish call, dry-run or real.
    Published { transaction_id: String, dry_run_fee: Option<u64> },
    /// Answer to a balances query.
    Balances { balances: Vec<BalanceEntry> },
    /// Answer to a wait call.
    WaitOutcome { result: TransactionWaitResult },
    /// The call itself failed.
    Failed { error: Error },
}

/// What the machine asks the embedder to do next. The request-carrying
/// actions expect the matching [`WalletResponse`] fed back; `Done` and
/// `Fail` end the deployment.
#[allow(inconsistent_fields)]
pub enum DeployAction {
    PublishDryRun { request: PublishRequest },
    QueryBalances { request: BalancesRequest },
    Publish { request: PublishRequest },
    WaitForResult { request: WaitRequest },
    Done { address: String },
    Fail { error: Error },
}

/// Which responses a phase can take.
pub open spec fn spec_expects(phase: DeployPhase, response: WalletResponse) -> bool {
    match phase {
        DeployPhase::EstimatingFee => response is Published || response is Failed,
        DeployPhase::CheckingBalance { .. } => response is Balances || response is Failed,
        DeployPhase::Submitting => response is Published || response is Failed,
        DeployPhase::WaitingForResult { .. } => response is WaitOutcome || response is Failed,
        DeployPhase::Complete => false,
        DeployPhase::Failed => false,
    }
}

/// One deployment attempt, as a state machine over the wallet protocol.
///
/// The machine owns the validated template, the paying account, the
/// caller-approved fee bound and the wait bound. [`Deployment::start`]
/// hands out the first request; each response stepped in yields the next
/// request, until `Done` carries the new template address out or `Fail`
/// carries the error. The order is fixed: fee estimate, balance check,
/// real publish, bounded wait — nothing is submitted unless the balance
/// check passed, and a timed-out wait ends the deployment with the timeout
/// error, never with an address.
pub struct Deployment {
    pub account: Account,
    pub template: ValidatedTemplate,
    pub max_fee: u64,
    pub wait_timeout_secs: u64,
    pub phase: DeployPhase,
}

impl Deployment {
    /// A fresh deployment of `template`, paying from `account`, submitting
    /// with the approved `max_fee`, waiting at most `wait_timeout_secs`
    /// (the default bound when unset).
    pub fn new(
        account: Account,
        template: ValidatedTemplate,
        max_fee: u64,
        wait_timeout_secs: Option<u64>,
    ) -> (r: Self)
        ensures
            r.account == account,
            r.template == template,
            r.max_fee == max_fee,
            r.wait_timeout_secs == (match wait_timeout_secs {
                Some(t) => t,
                None => DEFAULT_WAIT_TIMEOUT_SECS,
            }),
            r.phase is EstimatingFee,
    {
        let timeout = match wait_timeout_secs {
            Some(t) => t,
            None => DEFAULT_WAIT_TIMEOUT_SECS,
        };
        Deployment {
            account,
            template,
            max_fee,
            wait_timeout_secs: timeout,
            phase: DeployPhase::EstimatingFee,
        }
    }

    /// The deployment's first request: the fee-estimating dry-run publish.
    pub fn start(&self) -> (a: DeployAction)
        requires
            self.phase is EstimatingFee,
        ensures
            a matches DeployAction::PublishDryRun { request } && request@ == (PublishRequestV {
                dry_run: true,
                ..spec_publish_request(self.template, self.account, ESTIMATE_MAX_FEE)
            }),
    {
        DeployAction::PublishDryRun {
            request: create_dry_run_request(&self.template, &self.account),
        }
    }

    /// Advances the deployment on a wallet response, yielding the next
    /// action. The contract walks the protocol:
    ///
    /// - a failed call fails the deployment with that error;
    /// - a dry-run response without a fee is a protocol violation; with a
    ///   fee, the balances query goes out;
    /// - the real publish goes out if and only if the quoted fee is within
    ///   the account's native-token balance — an insufficient balance fails
    ///   the deployment before anything is submitted;
    /// - the publish response's transaction id goes into the bounded wait;
    /// - the wait's answer decides: timeout, missing result and rejection
    ///   each fail with their own error, and only full acceptance that
    ///   created a template yields `Done` with its address.
    pub fn step(self, response: WalletResponse) -> (r: (Deployment, DeployAction))
        requires
            spec_expects(self.phase, response),
        ensures
            r.0.account == self.account,
            r.0.template == self.template,
            r.0.max_fee == self.max_fee,
            r.0.wait_timeout_secs == self.wait_timeout_secs,
            // A failed call fails the deployment with the reported error.
            response matches WalletResponse::Failed { error } ==> r.0.phase is Failed && r.1
                == (DeployAction::Fail { error }),
            // The fee quote moves the machine to the balance check.
            self.phase is EstimatingFee ==> (match response {
                WalletResponse::Published { transaction_id: _, dry_run_fee } => match dry_run_fee {
                    Some(fee) => {
                        &&& r.0.phase == (DeployPhase::CheckingBalance { fee })
                        &&& r.1 matches DeployAction::QueryBalances { request }
                            && request.account == self.account && request.refresh == false
                    },
                    None => r.0.phase is Failed && (r.1 matches DeployAction::Fail { error }
                        && error matches Error::InvalidResponse { .. }),
                },
                _ => true,
            }),
            // The publish goes out exactly when the balance covers the fee.
            self.phase matches DeployPhase::CheckingBalance { fee } ==> (match response {
                WalletResponse::Balances { balances } => {
                    let balance = spec_native_balance(balances.deep_view());
                    if spec_insufficient(balance, fee) {
                        r.0.phase is Failed && r.1 == (DeployAction::Fail {
                            error: Error::InsufficientBalance { current: balance, fee },
                        })
                    } else {
                        r.0.phase is Submitting && (r.1 matches DeployAction::Publish { request }
                            && request@ == spec_publish_request(
                            self.template,
                            self.account,
                            self.max_fee,
                        ))
                    }
                },
                _ => true,
            }),
            // The accepted submission's id goes into the bounded wait.
            self.phase is Submitting ==> (match response {
                WalletResponse::Published { transaction_id, dry_run_fee: _ } => {
                    &&& r.0.phase == (DeployPhase::WaitingForResult { transaction_id })
                    &&& r.1 matches DeployAction::WaitForResult { request }
                        && request.transaction_id == transaction_id && request.timeout_secs
                        == self.wait_timeout_secs
                },
                _ => true,
            }),
            // The wait's answer is final: timeout, missing result and
            // rejection fail with their own errors; only full acceptance
            // that created a template completes with its address.
            self.phase matches DeployPhase::WaitingForResult { transaction_id } ==> (match response {
                WalletResponse::WaitOutcome { result } => {
                    &&& result.timed_out ==> r.0.phase is Failed && r.1 == (DeployAction::Fail {
                        error: Error::WaitForTransactionTimeout { transaction_id },
                    })
                    &&& !result.timed_out && result.result is None ==> r.0.phase is Failed && r.1
                        == (DeployAction::Fail {
                        error: Error::MissingTransactionResult { transaction_id },
                    })
                    &&& !result.timed_out ==> match result.result {
                        Some(TransactionResult::Reject { reason }) => r.0.phase is Failed && r.1
                            == (DeployAction::Fail {
                            error: Error::InvalidTransaction {
                                transaction_id,
                                status: result.status,
                                reason,
                            },
                        }),
                        Some(TransactionResult::AcceptFeeRejectRest { diff: _, reason }) => r.0.phase
                            is Failed && r.1 == (DeployAction::Fail {
                            error: Error::InvalidTransaction {
                                transaction_id,
                                status: result.status,
                                reason,
                            },
                        }),
                        Some(TransactionResult::Accept { diff }) => match
                            spec_first_template_address(diff@) {
                            Some(address) => r.0.phase is Complete && (r.1 matches
                                DeployAction::Done { address: a } && a@ == address),
                            None => r.0.phase is Failed && r.1 == (DeployAction::Fail {
                                error: Error::MissingPublishedTemplate,
                            }),
                        },
                        None => true,
                    }
                },
                _ => true,
            }),
            // Nothing is ever submitted unless the balance check passed.
            r.1 is Publish ==> (self.phase matches DeployPhase::CheckingBalance { fee } && (response
                matches WalletResponse::Balances { balances } && !spec_insufficient(
                spec_native_balance(balances.deep_view()),
                fee,
            ))),
            // An address is only ever reported out of full acceptance.
            r.1 is Done ==> self.phase is WaitingForResult && r.0.phase is Complete,
            r.1 is Done || r.1 is Fail <==> (r.0.phase is Complete || r.0.phase is Failed),
    {
        let Deployment { account, template, max_fee, wait_timeout_secs, phase } = self;
        match response {
            WalletResponse::Failed { error } => (
                Deployment { account, template, max_fee, wait_timeout_secs, phase: DeployPhase::Failed },
                DeployAction::Fail { error },
            ),
            WalletResponse::Published { transaction_id, dry_run_fee } => {
                match phase {
                    DeployPhase::EstimatingFee => match publish_fee_from_response(dry_run_fee) {
                        Ok(fee) => {
                            let request = BalancesRequest { account: account.clone(), refresh: false };
                            (
                                Deployment {
                                    account,
                                    template,
                                    max_fee,
                                    wait_timeout_secs,
                                    phase: DeployPhase::CheckingBalance { fee },
                                },
                                DeployAction::QueryBalances { request },
                            )
                        },
                        Err(error) => (
                            Deployment {
                                account,
                                template,
                                max_fee,
                                wait_timeout_secs,
                                phase: DeployPhase::Failed,
                            },
                            DeployAction::Fail { error },
                        ),
                    },
                    _ => {
                        // phase is Submitting: the real publish was accepted.
                        let request = WaitRequest {
                            transaction_id: transaction_id.clone(),
                            timeout_secs: wait_timeout_secs,
                        };
                        (
                            Deployment {
                                account,
                                template,
                                max_fee,
                                wait_timeout_secs,
                                phase: DeployPhase::WaitingForResult { transaction_id },
                            },
                            DeployAction::WaitForResult { request },
                        )
                    },
                }
            },
            WalletResponse::Balances { balances } => {
                let fee = match phase {
                    DeployPhase::CheckingBalance { fee } => fee,
                    _ => 0,  // unreachable under the precondition
                };
                let balance = wallet_xtr_balance(&balances);
                match check_balance(balance, fee) {
                    Ok(()) => {
                        let request = create_publish_template_request(&template, &account, max_fee);
                        (
                            Deployment {
                                account,
                                template,
                                max_fee,
                                wait_timeout_secs,
                                phase: DeployPhase::Submitting,
                            },
                            DeployAction::Publish { request },
                        )
                    },
                    Err(error) => (
                        Deployment {
                            account,
                            template,
                            max_fee,
                            wait_timeout_secs,
                            phase: DeployPhase::Failed,
                        },
                        DeployAction::Fail { error },
                    ),
                }
            },
            WalletResponse::WaitOutcome { result } => {
                let transaction_id = match phase {
                    DeployPhase::WaitingForResult { transaction_id } => transaction_id,
                    _ => String::new(),  // unreachable under the precondition
                };
                match evaluate_wait_result(transaction_id, result) {
                    Ok(address) => (
                        Deployment {
                            account,
                            template,
                            max_fee,
                            wait_timeout_secs,
                            phase: DeployPhase::Complete,
                        },
                        DeployAction::Done { address },
                    ),
                    Err(error) => (
                        Deployment {
                            account,
                            template,
                            max_fee,
                            wait_timeout_secs,
                            phase: DeployPhase::Failed,
                        },
                        DeployAction::Fail { error },
                    ),
                }
            },
        }
    }
}

} // verus!
