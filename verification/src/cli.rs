//! Choices that the operator command line makes before talking to a cluster.
use vstd::prelude::*;

verus! {

/// The cluster that the command line talks to.
#[derive(Clone, Debug)]
pub enum Cluster {
    Devnet,
    Mainnet,
    Localnet,
    /// Any other name, taken as both the RPC and the websocket URL.
    Custom(String, String),
}

/// The cluster named `name`, described without its URLs.
pub open spec fn spec_cluster_kind(name: Seq<char>) -> u8 {
    if name == "devnet"@ {
        0
    } else if name == "mainnet"@ {
        1
    } else if name == "localnet"@ || name == "localhost"@ {
        2
    } else {
        3
    }
}

impl Cluster {
    /// Which variant `self` is, in declaration order.
    pub open spec fn kind(&self) -> u8 {
        match self {
            Cluster::Devnet => 0,
            Cluster::Mainnet => 1,
            Cluster::Localnet => 2,
            Cluster::Custom(..) => 3,
        }
    }
}

/// The cluster named `name`: "devnet", "mainnet", "localnet" or "localhost";
/// any other text is a custom cluster whose RPC and websocket URLs are that text.
pub fn parse_cluster(name: &str) -> (c: Cluster)
    ensures
        c.kind() == spec_cluster_kind(name@),
        c matches Cluster::Custom(rpc, ws) ==> rpc@ == name@ && ws@ == name@,
{
    let owned: String = name.to_owned();
    if owned == String::from_str("devnet") {
        Cluster::Devnet
    } else if owned == String::from_str("mainnet") {
        Cluster::Mainnet
    } else if owned == String::from_str("localnet") || owned == String::from_str("localhost") {
        Cluster::Localnet
    } else {
        Cluster::Custom(name.to_owned(), owned)
    }
}

} // verus!
