use vstd::prelude::*;

use crate::account::{Account, AccountV};
use crate::loader::ValidatedTemplate;

verus! {

/// The publish call's payload: one is built fresh for every RPC, because
/// the dry-run flag and the fee bound differ between the estimating call
/// and the real submission.
pub struct PublishRequest {
    pub binary: Vec<u8>,
    pub fee_account: Option<Account>,
    pub max_fee: u64,
    pub detect_inputs: bool,
    pub dry_run: bool,
}

pub ghost struct PublishRequestV {
    pub binary: Seq<u8>,
    pub fee_account: Option<AccountV>,
    pub max_fee: u64,
    pub detect_inputs: bool,
    pub dry_run: bool,
}

impl View for PublishRequest {
    type V = PublishRequestV;

    open spec fn view(&self) -> PublishRequestV {
        PublishRequestV {
            binary: self.binary@,
            fee_account: match self.fee_account {
                Some(a) => Some(a@),
                None => None,
            },
            max_fee: self.max_fee,
            detect_inputs: self.detect_inputs,
            dry_run: self.dry_run,
        }
    }
}

/// The balances call's payload. The deployment pipeline always asks without
/// a refresh: it reads the wallet's last-known balance.
pub struct BalancesRequest {
    pub account: Account,
    pub refresh: bool,
}

pub ghost struct BalancesRequestV {
    pub account: AccountV,
    pub refresh: bool,
}

impl View for BalancesRequest {
    type V = BalancesRequestV;

    open spec fn view(&self) -> BalancesRequestV {
        BalancesRequestV { account: self.account@, refresh: self.refresh }
    }
}

/// The wait call's payload: which transaction to wait on and for how long
/// the wallet service may block before reporting a timeout.
pub struct WaitRequest {
    pub transaction_id: String,
    pub timeout_secs: u64,
}

pub ghost struct WaitRequestV {
    pub transaction_id: Seq<char>,
    pub timeout_secs: u64,
}

impl View for WaitRequest {
    type V = WaitRequestV;

    open spec fn view(&self) -> WaitRequestV {
        WaitRequestV { transaction_id: self.transaction_id@, timeout_secs: self.timeout_secs }
    }
}

/// What a fresh real-submission publish request holds for a given template,
/// account and fee bound: the validated bytes, the paying account, input
/// detection on and the dry-run flag off.
pub open spec fn spec_publish_request(
    template: ValidatedTemplate,
    account: Account,
    max_fee: u64,
) -> PublishRequestV {
    PublishRequestV {
        binary: template@.bytes,
        fee_account: Some(account@),
        max_fee,
        detect_inputs: true,
        dry_run: false,
    }
}

/// Builds the publish request for a validated template: the module bytes,
/// the paying account, and the given fee bound, with input detection on and
/// the dry-run flag off.
pub fn create_publish_template_request(
    template: &ValidatedTemplate,
    account: &Account,
    max_fee: u64,
) -> (r: PublishRequest)
    ensures
        r@ == spec_publish_request(*template, *account, max_fee),
{
    let r = PublishRequest {
        binary: vstd::slice::slice_to_vec(template.bytes.as_slice()),
        fee_account: Some(account.clone()),
        max_fee,
        detect_inputs: true,
        dry_run: false,
    };
    r
}

/// The nominal fee bound put on an estimating request. It only sizes the
/// request: a dry run never spends, and the network's fee figure must not
/// depend on it.
pub const ESTIMATE_MAX_FEE: u64 = 1_000_000;

/// Builds the fee-estimating variant of the publish request: the same
/// payload as [`create_publish_template_request`] but with the dry-run flag
/// on and the nominal placeholder fee bound.
pub fn create_dry_run_request(template: &ValidatedTemplate, account: &Account) -> (r:
    PublishRequest)
    ensures
        r@ == (PublishRequestV {
            dry_run: true,
            ..spec_publish_request(*template, *account, ESTIMATE_MAX_FEE)
        }),
{
    let mut r = create_publish_template_request(template, account, ESTIMATE_MAX_FEE);
    r.dry_run = true;
    r
}

} // verus!
