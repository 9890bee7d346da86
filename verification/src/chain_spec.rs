//! The chain alternatives selectable from the command line, and the plain
//! data each one contributes to the host's chain specification: names,
//! bootnodes, token properties, and the genesis configuration.
//!
//! Deriving the actual account keys from the seed names, and assembling the
//! host's chain-spec object, is cryptography and service plumbing that stays
//! with the host; everything here is the decision of *what* goes into it.

use vstd::prelude::*;
use vstd::string::StrSliceExecFns;
use crate::account::{AccountId, Balance};
use crate::pow_params::Difficulty;

verus! {

/// The balance every endowed account starts with.
pub const ENDOWMENT: u128 = 1u128 << 60;

/// The chain specification option, as it comes in from the command line.
#[derive(Clone, Copy, PartialEq, Eq, Structural, Debug)]
pub enum Alternative {
    /// Whatever the current runtime is, with just Alice as an auth.
    Development,
    /// Whatever the current runtime is, with simple Alice/Bob auths.
    LocalTestnet,
}

/// Character-wise string equality, decided against the string views.
fn str_eq(a: &str, b: &str) -> (r: bool)
    ensures
        r == (a@ == b@),
{
    let alen = a.unicode_len();
    let blen = b.unicode_len();
    if alen != blen {
        return false;
    }
    let mut i: usize = 0;
    while i < alen
        invariant
            alen == a@.len(),
            alen == b@.len(),
            i <= alen,
            forall|k: int| 0 <= k < i ==> a@[k] == b@[k],
        decreases alen - i,
    {
        if a.get_char(i) != b.get_char(i) {
            return false;
        }
        i += 1;
    }
    proof {
        assert(a@ =~= b@);
    }
    true
}

impl Alternative {
    /// Picks the alternative a `--chain` argument names; the empty string
    /// means the local testnet, our default.
    pub fn from(s: &str) -> (r: Option<Alternative>)
        ensures
            s@ == "dev"@ ==> r == Some(Alternative::Development),
            s@ == ""@ || s@ == "local"@ ==> r == Some(Alternative::LocalTestnet),
            s@ != "dev"@ && s@ != ""@ && s@ != "local"@ ==> r is None,
    {
        proof {
            reveal_strlit("dev");
            reveal_strlit("");
            reveal_strlit("local");
            assert("dev"@.len() == 3);
            assert(""@.len() == 0);
            assert("local"@.len() == 5);
        }
        if str_eq(s, "dev") {
            Some(Alternative::Development)
        } else if str_eq(s, "") || str_eq(s, "local") {
            Some(Alternative::LocalTestnet)
        } else {
            None
        }
    }

    /// The seed name the chain's sudo key is derived from.
    pub fn root_seed(&self) -> (r: &'static str)
        ensures
            r@ == "Alice"@,
    {
        "Alice"
    }

    /// The seed names the endowed accounts are derived from, in order.
    pub fn endowed_seeds(&self) -> (r: Vec<&'static str>)
        ensures
            *self is Development ==> r@.len() == 4 && r@[0]@ == "Alice"@ && r@[1]@ == "Bob"@
                && r@[2]@ == "Alice//stash"@ && r@[3]@ == "Bob//stash"@,
            *self is LocalTestnet ==> r@.len() == 12 && r@[0]@ == "Alice"@ && r@[1]@ == "Bob"@
                && r@[2]@ == "Charlie"@ && r@[3]@ == "Dave"@ && r@[4]@ == "Eve"@ && r@[5]@
                == "Ferdie"@ && r@[6]@ == "Alice//stash"@ && r@[7]@ == "Bob//stash"@ && r@[8]@
                == "Charlie//stash"@ && r@[9]@ == "Dave//stash"@ && r@[10]@ == "Eve//stash"@
                && r@[11]@ == "Ferdie//stash"@,
    {
        let mut seeds: Vec<&'static str> = Vec::new();
        match self {
            Alternative::Development => {
                seeds.push("Alice");
                seeds.push("Bob");
                seeds.push("Alice//stash");
                seeds.push("Bob//stash");
            },
            Alternative::LocalTestnet => {
                seeds.push("Alice");
                seeds.push("Bob");
                seeds.push("Charlie");
                seeds.push("Dave");
                seeds.push("Eve");
                seeds.push("Ferdie");
                seeds.push("Alice//stash");
                seeds.push("Bob//stash");
                seeds.push("Charlie//stash");
                seeds.push("Dave//stash");
                seeds.push("Eve//stash");
                seeds.push("Ferdie//stash");
            },
        }
        seeds
    }

    /// Lays out the plain chain specification for this alternative, over the
    /// already-derived root and endowed account identifiers.
    pub fn load(self, root_key: AccountId, endowed_accounts: Vec<AccountId>) -> (r: ChainSpecPlan)
        ensures
            r.genesis.sudo_key == root_key,
            r.genesis.indices@ == endowed_accounts@,
            r.genesis.balances@.len() == endowed_accounts@.len(),
            forall|i: int|
                0 <= i < endowed_accounts@.len() ==> #[trigger] r.genesis.balances@[i] == (
                endowed_accounts@[i],
                ENDOWMENT,
                ),
            r.genesis.pow_params == (PowParamsConfig {
                difficulty: Difficulty { lo: 5000, hi: 0 },
                reward: 100,
            }),
            self is Development ==> r.name@ == "Development"@ && r.id@ == "dev"@ && r.bootnodes@.len()
                == 0 && r.telemetry_endpoint is None && r.protocol_id is None && r.properties
                is None,
            self is LocalTestnet ==> r.name@ == "CLE Coin Mainnet"@ && r.id@ == "cle_coin"@
                && r.bootnodes@.len() == 1 && r.bootnodes@[0]@
                == "/dns4/cleveland.bootnodes.net/tcp/30333/p2p/QmPQwJBLMZTsJxFC4AFEGAiXSN9R49aJ8B2UNE6FaLdhFd"@
                && (r.telemetry_endpoint matches Some(t) && t.0@
                == "wss://telemetry.polkadot.io/submit/"@ && t.1 == 1) && (r.protocol_id
                matches Some(p) && p@ == "cle"@) && (r.properties matches Some(q)
                && q.token_decimals == 12 && q.token_symbol@ == "CLE"@),
    {
        let genesis = testnet_genesis(root_key, endowed_accounts, true);
        match self {
            Alternative::Development => ChainSpecPlan {
                name: "Development",
                id: "dev",
                genesis,
                bootnodes: Vec::new(),
                telemetry_endpoint: None,
                protocol_id: None,
                properties: None,
            },
            Alternative::LocalTestnet => {
                let mut bootnodes: Vec<&'static str> = Vec::new();
                bootnodes.push(
                    "/dns4/cleveland.bootnodes.net/tcp/30333/p2p/QmPQwJBLMZTsJxFC4AFEGAiXSN9R49aJ8B2UNE6FaLdhFd",
                );
                ChainSpecPlan {
                    name: "CLE Coin Mainnet",
                    id: "cle_coin",
                    genesis,
                    bootnodes,
                    telemetry_endpoint: Some(("wss://telemetry.polkadot.io/submit/", 1)),
                    protocol_id: Some("cle"),
                    properties: Some(TokenProperties { token_decimals: 12, token_symbol: "CLE" }),
                }
            },
        }
    }
}

/// The token metadata a chain spec advertises to wallets and explorers.
#[derive(Clone, Copy, Debug)]
pub struct TokenProperties {
    pub token_decimals: u32,
    pub token_symbol: &'static str,
}

/// Everything this crate decides about a chain specification, as plain data
/// for the host's bootstrap layer to assemble and serve.
pub struct ChainSpecPlan {
    pub name: &'static str,
    pub id: &'static str,
    pub genesis: GenesisConfig,
    pub bootnodes: Vec<&'static str>,
    /// A telemetry endpoint URL and its verbosity level, if any.
    pub telemetry_endpoint: Option<(&'static str, u32)>,
    pub protocol_id: Option<&'static str>,
    pub properties: Option<TokenProperties>,
}

/// The governed parameters' genesis configuration.
#[derive(Clone, Copy, PartialEq, Eq, Structural, Debug)]
pub struct PowParamsConfig {
    pub difficulty: Difficulty,
    pub reward: Balance,
}

/// The genesis state this crate decides: endowed balances, the index list,
/// the sudo key, and the governed parameters' initial values.
pub struct GenesisConfig {
    pub indices: Vec<AccountId>,
    pub balances: Vec<(AccountId, Balance)>,
    pub sudo_key: AccountId,
    pub pow_params: PowParamsConfig,
}

/// The testnet genesis: every endowed account starts with `ENDOWMENT`, the
/// endowed accounts double as the index list, `root_key` is the sudo key,
/// and the governed parameters start at difficulty 5000 and reward 100.
pub fn testnet_genesis(
    root_key: AccountId,
    endowed_accounts: Vec<AccountId>,
    _enable_println: bool,
) -> (r: GenesisConfig)
    ensures
        r.sudo_key == root_key,
        r.indices@ == endowed_accounts@,
        r.balances@.len() == endowed_accounts@.len(),
        forall|i: int|
            0 <= i < endowed_accounts@.len() ==> #[trigger] r.balances@[i] == (
            endowed_accounts@[i],
            ENDOWMENT,
            ),
        r.pow_params == (PowParamsConfig { difficulty: Difficulty { lo: 5000, hi: 0 }, reward: 100 }),
{
    let n = endowed_accounts.len();
    let mut indices: Vec<AccountId> = Vec::new();
    let mut balances: Vec<(AccountId, Balance)> = Vec::new();
    let mut i: usize = 0;
    while i < n
        invariant
            n == endowed_accounts@.len(),
            i <= n,
            indices@.len() == i,
            balances@.len() == i,
            forall|k: int| 0 <= k < i ==> #[trigger] indices@[k] == endowed_accounts@[k],
            forall|k: int|
                0 <= k < i ==> #[trigger] balances@[k] == (endowed_accounts@[k], ENDOWMENT),
        decreases n - i,
    {
        let account = endowed_accounts[i];
        indices.push(account);
        balances.push((account, ENDOWMENT));
        i += 1;
    }
    proof {
        assert(indices@ =~= endowed_accounts@);
    }
    GenesisConfig {
        indices,
        balances,
        sudo_key: root_key,
        pow_params: PowParamsConfig { difficulty: Difficulty { lo: 5000, hi: 0 }, reward: 100 },
    }
}

} // verus!

