use vstd::prelude::*;

use crate::error::Error;

verus! {

/// A created substate entry of an accepted transaction's state diff, as
/// much of it as the pipeline reads: whether the entry is a template, and
/// its address.
#[derive(Debug, PartialEq, Eq)]
pub enum SubstateId {
    /// A published template, at its on-chain address.
    Template { address: String },
    /// Any other substate kind (component, resource, vault, ...).
    Other { id: String },
}

pub ghost enum SubstateIdV {
    Template { address: Seq<char> },
    Other { id: Seq<char> },
}

impl View for SubstateId {
    type V = SubstateIdV;

    open spec fn view(&self) -> SubstateIdV {
        match self {
            SubstateId::Template { address } => SubstateIdV::Template { address: address@ },
            SubstateId::Other { id } => SubstateIdV::Other { id: id@ },
        }
    }
}

impl DeepView for SubstateId {
    type V = SubstateIdV;

    open spec fn deep_view(&self) -> SubstateIdV {
        self@
    }
}

/// An accepted transaction's state diff: the substates it created, in the
/// order the service returned them.
#[derive(Debug, PartialEq, Eq)]
pub struct SubstateDiff {
    pub up_substates: Vec<SubstateId>,
}

impl View for SubstateDiff {
    type V = Seq<SubstateIdV>;

    open spec fn view(&self) -> Seq<SubstateIdV> {
        self.up_substates.deep_view()
    }
}

/// How the network finalized the transaction: accepted in full, fee taken
/// but the rest rejected, or rejected outright.
#[derive(Debug, PartialEq, Eq)]
pub enum TransactionResult {
    Accept { diff: SubstateDiff },
    AcceptFeeRejectRest { diff: SubstateDiff, reason: String },
    Reject { reason: String },
}

/// The wait call's answer: whether the bounded wait ran out, the
/// transaction's reported status, and the finalized result when one was
/// observed.
#[derive(Debug, PartialEq, Eq)]
pub struct TransactionWaitResult {
    pub timed_out: bool,
    pub status: String,
    pub result: Option<TransactionResult>,
}

/// The address of the first created template entry of a diff, scanned in
/// returned order; nothing when the diff created no template.
pub open spec fn spec_first_template_address(ups: Seq<SubstateIdV>) -> Option<Seq<char>>
    decreases ups.len(),
{
    if ups.len() == 0 {
        None
    } else {
        match ups[0] {
            SubstateIdV::Template { address } => Some(address),
            SubstateIdV::Other { .. } => spec_first_template_address(ups.drop_first()),
        }
    }
}

/// The Result Extractor: scans the accepted diff's created entries in their
/// returned order for the first template entry and returns its address.
/// Acceptance that created no template substate is a protocol violation and
/// never reads as success.
pub fn extract_template_address(diff: &SubstateDiff) -> (r: Result<String, Error>)
    ensures
        match r {
            Ok(address) => spec_first_template_address(diff@) == Some(address@),
            Err(e) => spec_first_template_address(diff@) is None
                && e == Error::MissingPublishedTemplate,
        },
{
    let mut i: usize = 0;
    proof {
        assert(diff@.skip(0) =~= diff@);
    }
    while i < diff.up_substates.len()
        invariant
            i <= diff@.len(),
            diff@.len() == diff.up_substates@.len(),
            spec_first_template_address(diff@) == spec_first_template_address(
                diff@.skip(i as int),
            ),
        decreases diff@.len() - i,
    {
        assert(diff@.skip(i as int)[0] == diff.up_substates@[i as int]@);
        match &diff.up_substates[i] {
            SubstateId::Template { address } => {
                return Ok(address.clone());
            },
            SubstateId::Other { .. } => {
                assert(diff@.skip(i as int).drop_first() =~= diff@.skip(i + 1));
                i = i + 1;
            },
        }
    }
    assert(diff@.skip(i as int).len() == 0);
    Err(Error::MissingPublishedTemplate)
}

/// The Publisher's verdict on a wait answer for transaction
/// `transaction_id`:
///
/// - a timed-out wait is indeterminate, never a success and never a
///   rejection: the timeout error, and no address, comes back;
/// - a final answer without a result payload is a protocol violation;
/// - a rejection, in whole or with the fee taken, surfaces the network's
///   reason and yields no address;
/// - full acceptance hands the diff to the Result Extractor, whose verdict
///   stands.
pub fn evaluate_wait_result(transaction_id: String, response: TransactionWaitResult) -> (r: Result<
    String,
    Error,
>)
    ensures
        response.timed_out ==> r == Err::<String, Error>(
            Error::WaitForTransactionTimeout { transaction_id },
        ),
        !response.timed_out && response.result is None ==> r == Err::<String, Error>(
            Error::MissingTransactionResult { transaction_id },
        ),
        !response.timed_out ==> match response.result {
            Some(TransactionResult::Reject { reason }) => r == Err::<String, Error>(
                Error::InvalidTransaction {
                    transaction_id,
                    status: response.status,
                    reason,
                },
            ),
            Some(TransactionResult::AcceptFeeRejectRest { diff: _, reason }) => r == Err::<
                String,
                Error,
            >(
                Error::InvalidTransaction {
                    transaction_id,
                    status: response.status,
                    reason,
                },
            ),
            Some(TransactionResult::Accept { diff }) => match spec_first_template_address(diff@) {
                Some(address) => r matches Ok(a) && a@ == address,
                None => r == Err::<String, Error>(Error::MissingPublishedTemplate),
            },
            None => true,
        },
        r is Ok ==> !response.timed_out && (response.result matches Some(
            TransactionResult::Accept { diff },
        ) && spec_first_template_address(diff@) is Some),
{
    if response.timed_out {
        return Err(Error::WaitForTransactionTimeout { transaction_id });
    }
    match response.result {
        None => Err(Error::MissingTransactionResult { transaction_id }),
        Some(TransactionResult::Reject { reason }) => Err(
            Error::InvalidTransaction { transaction_id, status: response.status, reason },
        ),
        Some(TransactionResult::AcceptFeeRejectRest { diff: _, reason }) => Err(
            Error::InvalidTransaction { transaction_id, status: response.status, reason },
        ),
        Some(TransactionResult::Accept { diff }) => extract_template_address(&diff),
    }
}

} // verus!
