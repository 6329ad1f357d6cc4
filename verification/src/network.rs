use vstd::prelude::*;

verus! {

/// Where the target network's wallet daemon listens: the HTTP address of
/// its JSON-RPC endpoint, e.g. `http://127.0.0.1:12047`.
pub struct NetworkConfig {
    wallet_daemon_jrpc_address: String,
}

impl View for NetworkConfig {
    type V = Seq<char>;

    closed spec fn view(&self) -> Seq<char> {
        self.wallet_daemon_jrpc_address@
    }
}

impl NetworkConfig {
    pub fn new(wallet_daemon_jrpc_address: String) -> (r: Self)
        ensures
            r@ == wallet_daemon_jrpc_address@,
    {
        Self { wallet_daemon_jrpc_address }
    }

    pub fn wallet_daemon_jrpc_address(&self) -> (r: &String)
        ensures
            r@ == self@,
    {
        &self.wallet_daemon_jrpc_address
    }
}

} // verus!
