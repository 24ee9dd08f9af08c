use vstd::prelude::*;

verus! {

/// A symbolic cluster selector: which of the three known networks a request
/// targets. Carried in every request envelope and immutable once constructed.
#[derive(Clone, Copy, Debug, PartialEq, Eq, Structural)]
pub enum Network {
    Mainnet,
    Devnet,
    Localnet,
}

/// Network config object for requests to use.
#[derive(Clone, Copy, Debug, PartialEq, Eq, Structural)]
pub struct NetworkConfig {
    pub variant: Network,
}

/// The canonical name of each selector, as it appears in request bodies.
pub open spec fn spec_network_name(n: Network) -> Seq<char> {
    match n {
        Network::Mainnet => "Mainnet"@,
        Network::Devnet => "Devnet"@,
        Network::Localnet => "Localnet"@,
    }
}

/// The endpoint URL each selector resolves to.
pub open spec fn spec_network_url(n: Network) -> Seq<char> {
    match n {
        Network::Mainnet => "https://solana-api.projectserum.com"@,
        Network::Devnet => "https://api.devnet.solana.com"@,
        Network::Localnet => "http://localhost:8899"@,
    }
}

/// The variant a selector string denotes. A string that is not one of the
/// three canonical names deliberately defaults to the primary cluster; the
/// leniency is part of the documented interface, not an accident of the code.
pub open spec fn spec_variant_of(s: Seq<char>) -> Network {
    if s == "Mainnet"@ {
        Network::Mainnet
    } else if s == "Devnet"@ {
        Network::Devnet
    } else if s == "Localnet"@ {
        Network::Localnet
    } else {
        Network::Mainnet
    }
}

/// Character-by-character string equality, decided in terms of the views.
fn str_eq(a: &str, b: &str) -> (r: bool)
    ensures
        r == (a@ == b@),
{
    let la = a.unicode_len();
    let lb = b.unicode_len();
    if la != lb {
        return false;
    }
    let mut i: usize = 0;
    while i < la
        invariant
            la == a@.len(),
            lb == b@.len(),
            la == lb,
            i <= la,
            forall|j: int| 0 <= j < i ==> a@[j] == b@[j],
        decreases la - i,
    {
        let ca = a.get_char(i);
        let cb = b.get_char(i);
        if ca != cb {
            return false;
        }
        i += 1;
    }
    proof {
        assert(a@ =~= b@);
    }
    true
}

impl Network {
    /// Takes in a string and returns the corresponding Network variant;
    /// an unrecognized string defaults to the primary cluster.
    pub fn fetch_variant(network_str: &str) -> (n: Self)
        ensures
            n == spec_variant_of(network_str@),
    {
        if str_eq(network_str, "Mainnet") {
            Network::Mainnet
        } else if str_eq(network_str, "Devnet") {
            Network::Devnet
        } else if str_eq(network_str, "Localnet") {
            Network::Localnet
        } else {
            Network::Mainnet
        }
    }

    /// Takes in a network variant and returns the corresponding string.
    pub fn fetch_str<'a>(network: Network) -> (s: &'a str)
        ensures
            s@ == spec_network_name(network),
    {
        match network {
            Network::Mainnet => "Mainnet",
            Network::Devnet => "Devnet",
            Network::Localnet => "Localnet",
        }
    }

    /// Takes in a Network variant and returns the RPC endpoint URL to query.
    pub fn fetch_url(self) -> (url: String)
        ensures
            url@ == spec_network_url(self),
    {
        match self {
            Network::Mainnet => "https://solana-api.projectserum.com".to_owned(),
            Network::Devnet => "https://api.devnet.solana.com".to_owned(),
            Network::Localnet => "http://localhost:8899".to_owned(),
        }
    }
}

/// Resolving each of the three known cluster selectors yields a distinct,
/// stable endpoint string.
pub proof fn lemma_network_urls_distinct()
    ensures
        spec_network_url(Network::Mainnet) != spec_network_url(Network::Devnet),
        spec_network_url(Network::Mainnet) != spec_network_url(Network::Localnet),
        spec_network_url(Network::Devnet) != spec_network_url(Network::Localnet),
{
    reveal_strlit("https://solana-api.projectserum.com");
    reveal_strlit("https://api.devnet.solana.com");
    reveal_strlit("http://localhost:8899");
    assert(spec_network_url(Network::Mainnet).len() == 35);
    assert(spec_network_url(Network::Devnet).len() == 29);
    assert(spec_network_url(Network::Localnet).len() == 21);
}

} // verus!
