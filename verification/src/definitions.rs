//! Chain descriptors and the set of currencies a chain offers.

use crate::server::definitions::api_v2::{AssetId, CurrencyProperties, CurrencyPropertiesView, Decimals};
use vstd::prelude::*;

verus! {

/// Seed entropy of the signer.
pub type Entropy = Vec<u8>;

/// The native token that a chain is configured with.
#[derive(Debug)]
pub struct NativeToken {
    pub name: String,
    pub decimals: Decimals,
}

/// One asset that a chain is configured with.
#[derive(Debug)]
pub struct AssetInfo {
    pub name: String,
    pub id: AssetId,
}

/// One configured chain: its name, its endpoints in the order in which
/// they are tried, and the currencies it is expected to offer.
#[derive(Debug)]
pub struct Chain {
    pub name: String,
    pub endpoints: Vec<String>,
    pub native_token: Option<NativeToken>,
    pub asset: Vec<AssetInfo>,
}

/// [`Chain`] as mathematical data.
pub struct ChainView {
    pub name: Seq<char>,
    pub endpoints: Seq<Seq<char>>,
    pub native_token: Option<(Seq<char>, Decimals)>,
    pub asset: Seq<(Seq<char>, AssetId)>,
}

impl View for Chain {
    type V = ChainView;

    open spec fn view(&self) -> ChainView {
        ChainView {
            name: self.name@,
            endpoints: Seq::new(self.endpoints@.len(), |i: int| self.endpoints@[i]@),
            native_token: match self.native_token {
                Some(token) => Some((token.name@, token.decimals)),
                None => None,
            },
            asset: Seq::new(self.asset@.len(), |i: int| (self.asset@[i].name@, self.asset@[i].id)),
        }
    }
}

impl ChainView {
    /// How many currencies the chain is configured with: its assets, and
    /// its native token if it has one.
    pub open spec fn currency_count(self) -> nat {
        self.asset.len() + if self.native_token is Some { 1nat } else { 0nat }
    }

    /// Whether the configuration asks for a currency of this name and
    /// these properties on a chain with `decimals` decimals: the native
    /// token under its name, or a declared asset under its name and id.
    pub open spec fn wants(self, name: Seq<char>, asset_id: Option<AssetId>, decimals: Decimals) -> bool {
        ||| (self.native_token matches Some(token) && token.0 == name && token.1 == decimals)
        ||| exists|k: int|
            0 <= k < self.asset.len() && (#[trigger] self.asset[k]).0 == name && Some(
                self.asset[k].1,
            ) == asset_id
    }
}

impl Clone for Chain {
    fn clone(&self) -> (copy: Self)
        ensures
            copy@ == self@,
    {
        let mut endpoints: Vec<String> = Vec::new();
        let mut i: usize = 0;
        while i < self.endpoints.len()
            invariant
                i <= self.endpoints@.len(),
                endpoints@.len() == i,
                forall|j: int| 0 <= j < i ==> endpoints@[j]@ == self.endpoints@[j]@,
            decreases self.endpoints@.len() - i,
        {
            endpoints.push(self.endpoints[i].clone());
            i += 1;
        }
        let mut asset: Vec<AssetInfo> = Vec::new();
        let mut k: usize = 0;
        while k < self.asset.len()
            invariant
                k <= self.asset@.len(),
                asset@.len() == k,
                forall|j: int|
                    0 <= j < k ==> asset@[j].name@ == self.asset@[j].name@ && asset@[j].id
                        == self.asset@[j].id,
            decreases self.asset@.len() - k,
        {
            asset.push(AssetInfo { name: self.asset[k].name.clone(), id: self.asset[k].id });
            k += 1;
        }
        let native_token = match &self.native_token {
            Some(token) => Some(NativeToken { name: token.name.clone(), decimals: token.decimals }),
            None => None,
        };
        let copy = Chain { name: self.name.clone(), endpoints, native_token, asset };
        assert(copy@.endpoints =~= self@.endpoints);
        assert(copy@.asset =~= self@.asset);
        copy
    }
}

/// Units, decimals and address prefix that a chain reports of itself.
#[derive(Debug)]
pub struct ShortSpecs {
    pub base58prefix: u16,
    pub decimals: Decimals,
    pub unit: String,
}

impl Clone for ShortSpecs {
    fn clone(&self) -> (copy: Self)
        ensures
            copy == *self,
    {
        ShortSpecs { base58prefix: self.base58prefix, decimals: self.decimals, unit: self.unit.clone() }
    }
}

/// A currency under its name.
#[derive(Debug)]
pub struct CurrencyEntry {
    pub name: String,
    pub properties: CurrencyProperties,
}

/// The currencies of a chain by name. No name occurs twice; the entries
/// keep the order in which their names first came in.
#[derive(Debug)]
pub struct Currencies {
    entries: Vec<CurrencyEntry>,
}

/// The entry of the first occurrence of `name` at or after position
/// `from`, if there is one.
pub open spec fn find_currency_from(
    entries: Seq<(Seq<char>, CurrencyPropertiesView)>,
    name: Seq<char>,
    from: int,
) -> Option<int>
    decreases entries.len() - from,
{
    if from < 0 || from >= entries.len() {
        None
    } else if entries[from].0 == name {
        Some(from)
    } else {
        find_currency_from(entries, name, from + 1)
    }
}

/// The properties listed under `name`, if any.
pub open spec fn find_currency(
    entries: Seq<(Seq<char>, CurrencyPropertiesView)>,
    name: Seq<char>,
) -> Option<CurrencyPropertiesView> {
    match find_currency_from(entries, name, 0) {
        Some(i) => Some(entries[i].1),
        None => None,
    }
}

/// Whether no name occurs twice.
pub open spec fn names_distinct(entries: Seq<(Seq<char>, CurrencyPropertiesView)>) -> bool {
    forall|i: int, j: int|
        0 <= i < j < entries.len() ==> (#[trigger] entries[i]).0 != (#[trigger] entries[j]).0
}

/// What [`find_currency_from`] finds is a position at or after `from`
/// that holds `name`, and nothing before it does; it finds nothing
/// only where no position at or after `from` holds `name`.
pub proof fn lemma_find_currency_from(
    entries: Seq<(Seq<char>, CurrencyPropertiesView)>,
    name: Seq<char>,
    from: int,
)
    requires
        0 <= from,
    ensures
        match find_currency_from(entries, name, from) {
            Some(i) => from <= i < entries.len() && entries[i].0 == name && forall|j: int|
                from <= j < i ==> (#[trigger] entries[j]).0 != name,
            None => forall|j: int| from <= j < entries.len() ==> (#[trigger] entries[j]).0 != name,
        },
    decreases entries.len() - from,
{
    if from < entries.len() && entries[from].0 != name {
        lemma_find_currency_from(entries, name, from + 1);
    }
}

/// The entries of a list, each as mathematical data.
pub open spec fn entries_view(entries: Seq<CurrencyEntry>) -> Seq<
    (Seq<char>, CurrencyPropertiesView),
> {
    Seq::new(entries.len(), |i: int| (entries[i].name@, entries[i].properties@))
}

impl View for Currencies {
    type V = Seq<(Seq<char>, CurrencyPropertiesView)>;

    closed spec fn view(&self) -> Seq<(Seq<char>, CurrencyPropertiesView)> {
        entries_view(self.entries@)
    }
}

impl Currencies {
    /// Whether the set is valid: no name occurs twice. Every set is.
    #[verifier::type_invariant]
    pub open spec fn wf(&self) -> bool {
        names_distinct(self@)
    }

    /// The empty set.
    pub fn new() -> (currencies: Self)
        ensures
            currencies@ == Seq::<(Seq<char>, CurrencyPropertiesView)>::empty(),
            currencies.wf(),
    {
        let currencies = Currencies { entries: Vec::new() };
        assert(currencies@ =~= Seq::<(Seq<char>, CurrencyPropertiesView)>::empty());
        currencies
    }

    /// The number of currencies.
    pub fn len(&self) -> (n: usize)
        ensures
            n == self@.len(),
    {
        self.entries.len()
    }

    /// The name at position `i`.
    pub fn name_at(&self, i: usize) -> (name: &String)
        requires
            i < self@.len(),
        ensures
            name@ == self@[i as int].0,
    {
        &self.entries[i].name
    }

    /// The properties at position `i`.
    pub fn properties_at(&self, i: usize) -> (properties: &CurrencyProperties)
        requires
            i < self@.len(),
        ensures
            properties@ == self@[i as int].1,
    {
        &self.entries[i].properties
    }

    /// The position of `name`, if it is listed.
    fn position(&self, name: &String) -> (found: Option<usize>)
        ensures
            match found {
                Some(i) => i < self@.len() && find_currency_from(self@, name@, 0) == Some(i as int),
                None => find_currency_from(self@, name@, 0) is None,
            },
    {
        let mut i: usize = 0;
        while i < self.entries.len()
            invariant
                i <= self.entries@.len(),
                self@.len() == self.entries@.len(),
                find_currency_from(self@, name@, 0) == find_currency_from(self@, name@, i as int),
            decreases self.entries@.len() - i,
        {
            if self.entries[i].name == *name {
                return Some(i);
            }
            i += 1;
        }
        None
    }

    /// The properties listed under `name`.
    pub fn get(&self, name: &String) -> (found: Option<&CurrencyProperties>)
        ensures
            match found {
                Some(properties) => find_currency(self@, name@) == Some(properties@),
                None => find_currency(self@, name@) is None,
            },
    {
        match self.position(name) {
            Some(i) => Some(&self.entries[i].properties),
            None => None,
        }
    }

    /// Lists `properties` under `name`: in place of what was listed under
    /// that name, or else at the end.
    pub fn insert(&mut self, name: String, properties: CurrencyProperties)
        ensures
            final(self).wf(),
            final(self)@ == match find_currency_from(old(self)@, name@, 0) {
                Some(i) => old(self)@.update(i, (name@, properties@)),
                None => old(self)@.push((name@, properties@)),
            },
            find_currency(final(self)@, name@) == Some(properties@),
    {
        proof {
            use_type_invariant(&*self);
            lemma_find_currency_from(self@, name@, 0);
        }
        let ghost before = self@;
        let ghost entry = (name@, properties@);
        let found = self.position(&name);
        let mut entries: Vec<CurrencyEntry> = Vec::new();
        core::mem::swap(&mut self.entries, &mut entries);
        assert(entries_view(entries@) =~= before);
        match found {
            Some(i) => {
                entries[i] = CurrencyEntry { name, properties };
                assert(entries_view(entries@) =~= before.update(i as int, entry));
            },
            None => {
                entries.push(CurrencyEntry { name, properties });
                assert(entries_view(entries@) =~= before.push(entry));
            },
        }
        let ghost after = entries_view(entries@);
        proof {
            assert(names_distinct(after)) by {
                assert forall|a: int, b: int| 0 <= a < b < after.len() implies (#[trigger] after[a]).0
                    != (#[trigger] after[b]).0 by {
                    if a < before.len() && after[a] != entry {
                        assert(after[a] == before[a]);
                    }
                    if b < before.len() && after[b] != entry {
                        assert(after[b] == before[b]);
                    }
                }
            }
            lemma_find_currency_from(after, entry.0, 0);
            let at = find_currency_from(after, entry.0, 0);
            let was = find_currency_from(before, entry.0, 0);
            if was is Some {
                assert(after[was->0] == entry);
                assert(at is Some);
                if at->0 < was->0 {
                    assert(before[at->0] == after[at->0]);
                }
            } else {
                assert(after[before.len() as int] == entry);
                assert(at is Some);
                if at->0 < before.len() {
                    assert(before[at->0] == after[at->0]);
                }
            }
        }
        self.entries = entries;
    }
}

impl Clone for Currencies {
    fn clone(&self) -> (copy: Self)
        ensures
            copy@ == self@,
    {
        let mut entries: Vec<CurrencyEntry> = Vec::new();
        let mut i: usize = 0;
        while i < self.entries.len()
            invariant
                i <= self.entries@.len(),
                entries@.len() == i,
                forall|j: int|
                    0 <= j < i ==> entries@[j].name@ == self.entries@[j].name@
                        && entries@[j].properties@ == self.entries@[j].properties@,
            decreases self.entries@.len() - i,
        {
            entries.push(
                CurrencyEntry {
                    name: self.entries[i].name.clone(),
                    properties: self.entries[i].properties.clone(),
                },
            );
            i += 1;
        }
        proof {
            use_type_invariant(self);
            assert(entries_view(entries@) =~= self@);
        }
        Currencies { entries }
    }
}

} // verus!
