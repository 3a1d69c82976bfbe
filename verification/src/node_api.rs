//! The RPC handler types that bundle node components, and the network stack id of a chain.

use vstd::prelude::*;
use crate::text::{decimal_text, u64_to_decimal};

verus! {

/// An adapter that builds the core RPC node view from its components.
#[derive(Debug, Clone)]
pub struct RpcNodeCoreAdapter<Provider, Pool, Network, Savm> {
    provider: Provider,
    pool: Pool,
    network: Network,
    evm_config: Savm,
}

impl<Provider, Pool, Network, Savm> RpcNodeCoreAdapter<Provider, Pool, Network, Savm> {
    /// The provider.
    pub closed spec fn spec_provider(&self) -> Provider {
        self.provider
    }

    /// The transaction pool.
    pub closed spec fn spec_pool(&self) -> Pool {
        self.pool
    }

    /// The network.
    pub closed spec fn spec_network(&self) -> Network {
        self.network
    }

    /// The SAVM configuration.
    pub closed spec fn spec_evm_config(&self) -> Savm {
        self.evm_config
    }

    /// Creates a new adapter from its components.
    pub fn new(provider: Provider, pool: Pool, network: Network, evm_config: Savm) -> (r: Self)
        ensures
            r.spec_provider() == provider,
            r.spec_pool() == pool,
            r.spec_network() == network,
            r.spec_evm_config() == evm_config,
    {
        RpcNodeCoreAdapter { provider, pool, network, evm_config }
    }

    /// The transaction pool.
    pub fn pool(&self) -> (r: &Pool)
        ensures
            *r == self.spec_pool(),
    {
        &self.pool
    }

    /// The SAVM configuration.
    pub fn evm_config(&self) -> (r: &Savm)
        ensures
            *r == self.spec_evm_config(),
    {
        &self.evm_config
    }

    /// The network.
    pub fn network(&self) -> (r: &Network)
        ensures
            *r == self.spec_network(),
    {
        &self.network
    }

    /// The provider.
    pub fn provider(&self) -> (r: &Provider)
        ensures
            *r == self.spec_provider(),
    {
        &self.provider
    }
}

/// The `sil` API subset served beside the `engine` namespace.
#[derive(Debug, Clone)]
pub struct EngineEthApi<Sil, SilFilter> {
    sil: Sil,
    eth_filter: SilFilter,
}

impl<Sil, SilFilter> EngineEthApi<Sil, SilFilter> {
    /// The `sil` API.
    pub closed spec fn spec_sil(&self) -> Sil {
        self.sil
    }

    /// The filter API.
    pub closed spec fn spec_eth_filter(&self) -> SilFilter {
        self.eth_filter
    }

    /// Creates a new instance.
    pub fn new(sil: Sil, eth_filter: SilFilter) -> (r: Self)
        ensures
            r.spec_sil() == sil,
            r.spec_eth_filter() == eth_filter,
    {
        EngineEthApi { sil, eth_filter }
    }

    /// The `sil` API.
    pub fn sil(&self) -> (r: &Sil)
        ensures
            *r == self.spec_sil(),
    {
        &self.sil
    }

    /// The filter API.
    pub fn eth_filter(&self) -> (r: &SilFilter)
        ensures
            *r == self.spec_eth_filter(),
    {
        &self.eth_filter
    }
}

/// The `net` API.
#[derive(Debug)]
pub struct NetApi<Net, Sil> {
    network: Net,
    sil: Sil,
}

impl<Net, Sil> NetApi<Net, Sil> {
    /// The network.
    pub closed spec fn spec_network(&self) -> Net {
        self.network
    }

    /// The `sil` API.
    pub closed spec fn spec_sil(&self) -> Sil {
        self.sil
    }

    /// Creates a new instance with the given network and `sil` API.
    pub fn new(network: Net, sil: Sil) -> (r: Self)
        ensures
            r.spec_network() == network,
            r.spec_sil() == sil,
    {
        NetApi { network, sil }
    }

    /// The network.
    pub fn network(&self) -> (r: &Net)
        ensures
            *r == self.spec_network(),
    {
        &self.network
    }

    /// The `sil` API.
    pub fn sil(&self) -> (r: &Sil)
        ensures
            *r == self.spec_sil(),
    {
        &self.sil
    }

    /// `net_version`: the chain id, as decimal text.
    pub fn version(&self, chain_id: u64) -> (r: String)
        ensures
            r@ == decimal_text(chain_id as nat),
    {
        u64_to_decimal(chain_id)
    }

    /// `net_peerCount`: the number of connected peers.
    pub fn peer_count(&self, connected_peers: usize) -> (r: u64)
        ensures
            r == connected_peers,
    {
        connected_peers as u64
    }

    /// `net_listening`: always true.
    pub fn is_listening(&self) -> (r: bool)
        ensures
            r,
    {
        true
    }
}

/// Which network stack a node belongs to, on the discovery network.
#[derive(Debug)]
pub struct NetworkStackId;

/// The key of a Sila execution-layer node.
pub open spec fn sil_key() -> Seq<u8> {
    seq![0x73u8, 0x69u8, 0x6cu8]
}

/// The key of an Optimism execution-layer node.
pub open spec fn opel_key() -> Seq<u8> {
    seq![0x6fu8, 0x70u8, 0x65u8, 0x6cu8]
}

impl NetworkStackId {
    /// The key of a Sila execution-layer node: `sil`.
    pub fn sil() -> (r: Vec<u8>)
        ensures
            r@ == sil_key(),
    {
        let r = vec![0x73u8, 0x69u8, 0x6cu8];
        assert(r@ =~= sil_key());
        r
    }

    /// The key of a Sila consensus-layer node: `eth2`.
    pub fn eth2() -> (r: Vec<u8>)
        ensures
            r@ == seq![0x65u8, 0x74u8, 0x68u8, 0x32u8],
    {
        let r = vec![0x65u8, 0x74u8, 0x68u8, 0x32u8];
        assert(r@ =~= seq![0x65u8, 0x74u8, 0x68u8, 0x32u8]);
        r
    }

    /// The key of an Optimism execution-layer node: `opel`.
    pub fn opel() -> (r: Vec<u8>)
        ensures
            r@ == opel_key(),
    {
        let r = vec![0x6fu8, 0x70u8, 0x65u8, 0x6cu8];
        assert(r@ =~= opel_key());
        r
    }

    /// The key of an Optimism consensus-layer node: `opstack`.
    pub fn opstack() -> (r: Vec<u8>)
        ensures
            r@ == seq![0x6fu8, 0x70u8, 0x73u8, 0x74u8, 0x61u8, 0x63u8, 0x6bu8],
    {
        let r = vec![0x6fu8, 0x70u8, 0x73u8, 0x74u8, 0x61u8, 0x63u8, 0x6bu8];
        assert(r@ =~= seq![0x6fu8, 0x70u8, 0x73u8, 0x74u8, 0x61u8, 0x63u8, 0x6bu8]);
        r
    }

    /// The key for a chain: Optimism first, then Sila, otherwise none.
    pub fn id(is_optimism: bool, is_sila: bool) -> (r: Option<Vec<u8>>)
        ensures
            is_optimism ==> (r matches Some(k) && k@ == opel_key()),
            !is_optimism && is_sila ==> (r matches Some(k) && k@ == sil_key()),
            !is_optimism && !is_sila ==> r is None,
    {
        if is_optimism {
            Some(NetworkStackId::opel())
        } else if is_sila {
            Some(NetworkStackId::sil())
        } else {
            None
        }
    }
}

} // verus!
