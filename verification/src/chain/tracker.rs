//! What a watcher knows of its chain, and how a fresh connection is
//! prepared.

use crate::chain::definitions::{BlockHash, InvoiceView};
use crate::chain::monitor::{ChainMonitor, Phase};
use crate::definitions::{names_distinct, Chain, ChainView, Currencies, ShortSpecs};
use crate::error::{ChainError, ChainErrorView};
use crate::server::definitions::api_v2::{AssetId, CurrencyPropertiesView, Decimals};
use vstd::prelude::*;

verus! {

/// What the first reads on a fresh connection returned: the genesis
/// hash, the block that pins the view, and what the chain says of itself
/// and offers at that block.
#[derive(Debug)]
pub struct PinReading {
    pub genesis_hash: BlockHash,
    pub block: BlockHash,
    pub version: String,
    pub spec_name: String,
    pub specs: ShortSpecs,
    pub assets: Currencies,
}

/// What a watcher knows of the chain it is connected to. The runtime
/// version is the one under which everything else was read.
#[derive(Debug)]
pub struct ChainWatcher {
    pub genesis_hash: BlockHash,
    pub specs: ShortSpecs,
    pub assets: Currencies,
    pub version: String,
}

/// [`ChainWatcher`] as mathematical data.
pub struct ChainWatcherView {
    pub genesis_hash: Seq<u8>,
    pub base58prefix: u16,
    pub decimals: Decimals,
    pub unit: Seq<char>,
    pub assets: Seq<(Seq<char>, CurrencyPropertiesView)>,
    pub version: Seq<char>,
}

impl View for ChainWatcher {
    type V = ChainWatcherView;

    open spec fn view(&self) -> ChainWatcherView {
        ChainWatcherView {
            genesis_hash: self.genesis_hash@,
            base58prefix: self.specs.base58prefix,
            decimals: self.specs.decimals,
            unit: self.specs.unit@,
            assets: self.assets@,
            version: self.version@,
        }
    }
}

impl Clone for ChainWatcher {
    fn clone(&self) -> (copy: Self)
        ensures
            copy@ == self@,
    {
        ChainWatcher {
            genesis_hash: self.genesis_hash,
            specs: self.specs.clone(),
            assets: self.assets.clone(),
            version: self.version.clone(),
        }
    }
}

/// Of the first `n` offered currencies, those that the chain is
/// configured with, in the order in which they are offered.
pub open spec fn wanted_upto(
    chain: ChainView,
    decimals: Decimals,
    offered: Seq<(Seq<char>, CurrencyPropertiesView)>,
    n: int,
) -> Seq<(Seq<char>, CurrencyPropertiesView)>
    decreases n,
{
    if n <= 0 {
        Seq::empty()
    } else {
        let before = wanted_upto(chain, decimals, offered, n - 1);
        if chain.wants(offered[n - 1].0, offered[n - 1].1.asset_id, decimals) {
            before.push(offered[n - 1])
        } else {
            before
        }
    }
}

/// Of the offered currencies, those that the chain is configured with.
pub open spec fn wanted(
    chain: ChainView,
    decimals: Decimals,
    offered: Seq<(Seq<char>, CurrencyPropertiesView)>,
) -> Seq<(Seq<char>, CurrencyPropertiesView)> {
    wanted_upto(chain, decimals, offered, offered.len() as int)
}

/// What a connection is prepared to, from what was read of it: an error
/// for another network than the configured one; else an error where not
/// every configured currency is offered; else the watcher that holds
/// what was read, with the configured currencies alone.
pub open spec fn prepared(
    chain: ChainView,
    rpc_url: Seq<char>,
    genesis_hash: Seq<u8>,
    version: Seq<char>,
    spec_name: Seq<char>,
    specs: (u16, Decimals, Seq<char>),
    offered: Seq<(Seq<char>, CurrencyPropertiesView)>,
) -> Result<ChainWatcherView, ChainErrorView> {
    if spec_name != chain.name {
        Err(ChainErrorView::WrongNetwork { expected: chain.name, actual: spec_name, rpc: rpc_url })
    } else if wanted(chain, specs.1, offered).len() != chain.currency_count() {
        Err(ChainErrorView::AssetsInvalid(chain.name))
    } else {
        Ok(
            ChainWatcherView {
                genesis_hash,
                base58prefix: specs.0,
                decimals: specs.1,
                unit: specs.2,
                assets: wanted(chain, specs.1, offered),
                version,
            },
        )
    }
}

/// Every wanted currency is one of the offered ones, and the wanted
/// ones keep the order of the offer: the `a`-th of them stands in the
/// offer at a position that grows with `a`.
pub proof fn lemma_wanted_upto(
    chain: ChainView,
    decimals: Decimals,
    offered: Seq<(Seq<char>, CurrencyPropertiesView)>,
    n: int,
) -> (at: Seq<int>)
    requires
        0 <= n <= offered.len(),
    ensures
        at.len() == wanted_upto(chain, decimals, offered, n).len(),
        forall|a: int|
            0 <= a < at.len() ==> 0 <= #[trigger] at[a] < n && wanted_upto(
                chain,
                decimals,
                offered,
                n,
            )[a] == offered[at[a]],
        forall|a: int, b: int| 0 <= a < b < at.len() ==> #[trigger] at[a] < #[trigger] at[b],
    decreases n,
{
    if n <= 0 {
        Seq::empty()
    } else {
        let before = lemma_wanted_upto(chain, decimals, offered, n - 1);
        if chain.wants(offered[n - 1].0, offered[n - 1].1.asset_id, decimals) {
            before.push(n - 1)
        } else {
            before
        }
    }
}

impl Chain {
    /// Whether the configuration asks for a currency of this name and
    /// asset id on a chain with `decimals` decimals.
    pub fn wants(&self, name: &String, asset_id: Option<AssetId>, decimals: Decimals) -> (wanted: bool)
        ensures
            wanted == self@.wants(name@, asset_id, decimals),
    {
        if let Some(token) = &self.native_token {
            if token.name == *name && token.decimals == decimals {
                return true;
            }
        }
        let mut k: usize = 0;
        while k < self.asset.len()
            invariant
                k <= self.asset@.len(),
                self@.asset.len() == self.asset@.len(),
                forall|j: int|
                    0 <= j < k ==> !((#[trigger] self@.asset[j]).0 == name@ && Some(self@.asset[j].1)
                        == asset_id),
            decreases self.asset@.len() - k,
        {
            let listed = &self.asset[k];
            let same_id = match asset_id {
                Some(id) => id == listed.id,
                None => false,
            };
            if same_id && listed.name == *name {
                assert(self@.asset[k as int].0 == name@ && Some(self@.asset[k as int].1) == asset_id);
                return true;
            }
            k += 1;
        }
        false
    }

    /// How many currencies the chain is configured with equals `n`.
    fn currency_count_is(&self, n: usize) -> (same: bool)
        ensures
            same == (n == self@.currency_count()),
    {
        if self.native_token.is_some() {
            n >= 1 && n - 1 == self.asset.len()
        } else {
            n == self.asset.len()
        }
    }
}

impl Currencies {
    /// Of these currencies, those that `chain` is configured with on a
    /// chain of `decimals` decimals, in the same order.
    pub fn retain_wanted(&self, chain: &Chain, decimals: Decimals) -> (kept: Currencies)
        ensures
            kept.wf(),
            kept@ == wanted(chain@, decimals, self@),
    {
        proof {
            use_type_invariant(self);
        }
        let mut kept = Currencies::new();
        let mut i: usize = 0;
        while i < self.len()
            invariant
                i <= self@.len(),
                self.wf(),
                kept.wf(),
                kept@ == wanted_upto(chain@, decimals, self@, i as int),
            decreases self@.len() - i,
        {
            let name = self.name_at(i);
            let properties = self.properties_at(i);
            if chain.wants(name, properties.asset_id, decimals) {
                proof {
                    let at = lemma_wanted_upto(chain@, decimals, self@, i as int);
                    crate::definitions::lemma_find_currency_from(kept@, name@, 0);
                    if crate::definitions::find_currency_from(kept@, name@, 0) is Some {
                        let a = crate::definitions::find_currency_from(kept@, name@, 0)->0;
                        assert(kept@[a] == self@[at[a]]);
                        assert(self@[at[a]].0 != self@[i as int].0);
                    }
                }
                kept.insert(name.clone(), properties.clone());
            }
            i += 1;
        }
        kept
    }
}

impl ChainWatcher {
    /// Prepares a fresh connection from what was read of it. The endpoint
    /// is refused where it serves another network than `chain`, or where
    /// it does not offer every currency that `chain` is configured with.
    /// The watcher holds the configured currencies alone: as many as the
    /// chain has assets, and one more where it has a native token.
    pub fn prepare_chain(chain: &Chain, rpc_url: &str, pin: PinReading) -> (watcher: Result<
        ChainWatcher,
        ChainError,
    >)
        ensures
            match watcher {
                Ok(w) => prepared(
                    chain@,
                    rpc_url@,
                    pin.genesis_hash@,
                    pin.version@,
                    pin.spec_name@,
                    (pin.specs.base58prefix, pin.specs.decimals, pin.specs.unit@),
                    pin.assets@,
                ) == Ok::<_, ChainErrorView>(w@) && w.assets.wf(),
                Err(e) => prepared(
                    chain@,
                    rpc_url@,
                    pin.genesis_hash@,
                    pin.version@,
                    pin.spec_name@,
                    (pin.specs.base58prefix, pin.specs.decimals, pin.specs.unit@),
                    pin.assets@,
                ) == Err::<ChainWatcherView, _>(e@),
            },
            watcher matches Ok(w) ==> w.assets@.len() == chain@.currency_count(),
            pin.spec_name@ != chain.name@ ==> watcher is Err,
    {
        if pin.spec_name != chain.name {
            return Err(
                ChainError::WrongNetwork {
                    expected: chain.name.clone(),
                    actual: pin.spec_name,
                    rpc: rpc_url.to_owned(),
                },
            );
        }
        let assets = pin.assets.retain_wanted(chain, pin.specs.decimals);
        if !chain.currency_count_is(assets.len()) {
            return Err(ChainError::AssetsInvalid(chain.name.clone()));
        }
        Ok(
            ChainWatcher {
                genesis_hash: pin.genesis_hash,
                specs: pin.specs,
                assets,
                version: pin.version,
            },
        )
    }
}

/// [`PinReading`] as mathematical data.
pub struct PinReadingView {
    pub genesis_hash: Seq<u8>,
    pub block: Seq<u8>,
    pub version: Seq<char>,
    pub spec_name: Seq<char>,
    pub specs: (u16, Decimals, Seq<char>),
    pub assets: Seq<(Seq<char>, CurrencyPropertiesView)>,
}

impl View for PinReading {
    type V = PinReadingView;

    open spec fn view(&self) -> PinReadingView {
        PinReadingView {
            genesis_hash: self.genesis_hash@,
            block: self.block@,
            version: self.version@,
            spec_name: self.spec_name@,
            specs: (self.specs.base58prefix, self.specs.decimals, self.specs.unit@),
            assets: self.assets@,
        }
    }
}

/// The wanted currencies of an offer without a name twice have no name
/// twice.
pub proof fn lemma_wanted_distinct(
    chain: ChainView,
    decimals: Decimals,
    offered: Seq<(Seq<char>, CurrencyPropertiesView)>,
)
    requires
        names_distinct(offered),
    ensures
        names_distinct(wanted(chain, decimals, offered)),
{
    let at = lemma_wanted_upto(chain, decimals, offered, offered.len() as int);
    let kept = wanted(chain, decimals, offered);
    assert forall|a: int, b: int| 0 <= a < b < kept.len() implies (#[trigger] kept[a]).0 != (
    #[trigger] kept[b]).0 by {
        assert(kept[a] == offered[at[a]]);
        assert(kept[b] == offered[at[b]]);
        assert(at[a] < at[b]);
    }
}

/// Every currency that a prepared watcher holds is offered by the chain
/// and asked for by the configuration.
pub proof fn lemma_wanted_are_wanted(
    chain: ChainView,
    decimals: Decimals,
    offered: Seq<(Seq<char>, CurrencyPropertiesView)>,
    n: int,
)
    requires
        0 <= n <= offered.len(),
    ensures
        forall|a: int|
            0 <= a < wanted_upto(chain, decimals, offered, n).len() ==> chain.wants(
                (#[trigger] wanted_upto(chain, decimals, offered, n)[a]).0,
                wanted_upto(chain, decimals, offered, n)[a].1.asset_id,
                decimals,
            ) && offered.contains(wanted_upto(chain, decimals, offered, n)[a]),
    decreases n,
{
    if n > 0 {
        lemma_wanted_are_wanted(chain, decimals, offered, n - 1);
        let before = wanted_upto(chain, decimals, offered, n - 1);
        let all = wanted_upto(chain, decimals, offered, n);
        assert forall|a: int| 0 <= a < all.len() implies chain.wants(
            (#[trigger] all[a]).0,
            all[a].1.asset_id,
            decimals,
        ) && offered.contains(all[a]) by {
            if a < before.len() {
                assert(all[a] == before[a]);
            } else {
                assert(all[a] == offered[n - 1]);
            }
        }
    }
}

/// Starts the watch of a chain: the watcher before its first connection,
/// with nothing watched and the cursor at the first endpoint.
pub fn start_chain_watch(chain: Chain) -> (monitor: ChainMonitor)
    ensures
        monitor@.chain == chain@,
        monitor@.cursor == 0,
        !monitor@.shutdown,
        monitor@.phase == Phase::Idle,
        monitor@.watched == Seq::<InvoiceView>::empty(),
        monitor@.watcher is None,
        monitor.wf(),
{
    ChainMonitor::new(chain)
}

} // verus!
