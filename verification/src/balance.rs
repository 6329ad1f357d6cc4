use vstd::prelude::*;

use crate::error::Error;

verus! {

/// One row of the wallet's balances response: a resource address and the
/// account's balance of that resource.
pub struct BalanceEntry {
    pub resource_address: Vec<u8>,
    pub balance: i64,
}

pub ghost struct BalanceEntryV {
    pub resource_address: Seq<u8>,
    pub balance: i64,
}

impl View for BalanceEntry {
    type V = BalanceEntryV;

    open spec fn view(&self) -> BalanceEntryV {
        BalanceEntryV { resource_address: self.resource_address@, balance: self.balance }
    }
}

impl DeepView for BalanceEntry {
    type V = BalanceEntryV;

    open spec fn deep_view(&self) -> BalanceEntryV {
        self@
    }
}

/// The resource address of the network's native token: 32 bytes of 0x01.
pub open spec fn native_token_address() -> Seq<u8> {
    Seq::new(32, |i: int| 1u8)
}

/// Relies on tari_template_lib_types::constants::TARI_TOKEN for the native
/// token's resource address, whose object key is 32 bytes of 0x01.
#[verifier::external_body]
fn native_token_resource_address() -> (r: Vec<u8>)
    ensures
        r@ == native_token_address(),
{
    tari_template_lib::types::constants::TARI_TOKEN.as_bytes().to_vec()
}

fn bytes_eq(a: &Vec<u8>, b: &Vec<u8>) -> (r: bool)
    ensures
        r == (a@ == b@),
{
    if a.len() != b.len() {
        assert(a@.len() != b@.len());
        return false;
    }
    let mut i: usize = 0;
    while i < a.len()
        invariant
            i <= a@.len(),
            a@.len() == b@.len(),
            forall|j: int| 0 <= j < i ==> a@[j] == b@[j],
        decreases a@.len() - i,
    {
        if a[i] != b[i] {
            return false;
        }
        i = i + 1;
    }
    assert(a@ =~= b@);
    true
}

/// The native-token balance a balances response reports: the balance of its
/// first native-token row, or zero when no row names the native token.
pub open spec fn spec_native_balance(balances: Seq<BalanceEntryV>) -> i64
    decreases balances.len(),
{
    if balances.len() == 0 {
        0i64
    } else if balances[0].resource_address == native_token_address() {
        balances[0].balance
    } else {
        spec_native_balance(balances.drop_first())
    }
}

/// The paying account's available balance of the network's native token,
/// read out of the wallet's balances response. Rows for other resources are
/// passed over; a response without a native-token row reads as zero, the
/// wallet's default.
pub fn wallet_xtr_balance(balances: &Vec<BalanceEntry>) -> (r: i64)
    ensures
        r == spec_native_balance(balances.deep_view()),
{
    let native = native_token_resource_address();
    let mut i: usize = 0;
    assert(balances.deep_view().skip(0) =~= balances.deep_view());
    while i < balances.len()
        invariant
            i <= balances@.len(),
            native@ == native_token_address(),
            spec_native_balance(balances.deep_view())
                == spec_native_balance(balances.deep_view().skip(i as int)),
        decreases balances@.len() - i,
    {
        assert(balances.deep_view().skip(i as int)[0] == balances@[i as int]@);
        if bytes_eq(&balances[i].resource_address, &native) {
            return balances[i].balance;
        }
        assert(balances.deep_view().skip(i as int).drop_first()
            =~= balances.deep_view().skip(i + 1));
        i = i + 1;
    }
    assert(balances.deep_view().skip(i as int).len() == 0);
    0
}

/// Whether a fee exceeds a balance: the one condition on which the Balance
/// Guard refuses to proceed.
pub open spec fn spec_insufficient(balance: i64, fee: u64) -> bool {
    balance < fee
}

/// The Balance Guard: fails exactly when the estimated fee exceeds the
/// account's native-token balance, and never when the two are equal. The
/// check is advisory — the network re-verifies the balance at submission —
/// but nothing is submitted while it fails.
pub fn check_balance(balance: i64, fee: u64) -> (r: Result<(), Error>)
    ensures
        r is Err <==> spec_insufficient(balance, fee),
        r is Err ==> r == Err::<(), Error>(Error::InsufficientBalance { current: balance, fee }),
{
    if balance < 0 || (balance as u64) < fee {
        Err(Error::InsufficientBalance { current: balance, fee })
    } else {
        Ok(())
    }
}

} // verus!
