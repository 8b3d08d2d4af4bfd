//! The marketplace: plugins on offer, the curated ones among them, and the
//! best rated.

use vstd::prelude::*;
use crate::fixed::{add_capped, capped_sum};
use crate::listing::kept;
use crate::models::{is_ranking, ranking_of};
use crate::plugin::{PluginMetadata, PluginMetadataView};
use crate::strmap::{listed, placed_keys, value_views, view_map, views_of, StrMap};

verus! {

/// What a plugin of the marketplace is for.
#[derive(Clone, Copy, Debug, PartialEq, Eq, Structural, Hash)]
pub enum PluginCategory {
    Productivity,
    Focus,
    Automation,
    Learning,
    Wellbeing,
}

/// A plugin on offer. Price and rating are fixed-point; ratings go from zero
/// to five.
#[derive(Debug)]
pub struct MarketplacePlugin {
    pub metadata: PluginMetadata,
    pub price: i64,
    pub rating: i64,
    pub download_count: usize,
    pub verified: bool,
    pub category: PluginCategory,
}

/// What a plugin on offer holds.
pub struct MarketplacePluginView {
    pub metadata: PluginMetadataView,
    pub price: i64,
    pub rating: i64,
    pub download_count: usize,
    pub verified: bool,
    pub category: PluginCategory,
}

impl View for MarketplacePlugin {
    type V = MarketplacePluginView;

    open spec fn view(&self) -> MarketplacePluginView {
        MarketplacePluginView {
            metadata: self.metadata@,
            price: self.price,
            rating: self.rating,
            download_count: self.download_count,
            verified: self.verified,
            category: self.category,
        }
    }
}

impl Clone for MarketplacePlugin {
    fn clone(&self) -> (r: Self)
        ensures
            r@ == self@,
    {
        MarketplacePlugin {
            metadata: self.metadata.clone(),
            price: self.price,
            rating: self.rating,
            download_count: self.download_count,
            verified: self.verified,
            category: self.category,
        }
    }
}

/// What each plugin holds, by id.
pub open spec fn plugin_views(plugins: Map<Seq<char>, MarketplacePlugin>) -> Map<
    Seq<char>,
    MarketplacePluginView,
> {
    view_map(plugins)
}

/// The plugins behind the first `n` curated ids, in their order; an id
/// without a plugin is passed over.
pub open spec fn curated_upto(
    plugins: Map<Seq<char>, MarketplacePluginView>,
    ids: Seq<Seq<char>>,
    n: int,
) -> Seq<MarketplacePluginView>
    decreases n,
{
    if n <= 0 {
        Seq::empty()
    } else if plugins.contains_key(ids[n - 1]) {
        curated_upto(plugins, ids, n - 1).push(plugins[ids[n - 1]])
    } else {
        curated_upto(plugins, ids, n - 1)
    }
}

/// The rating of each plugin.
pub open spec fn ratings_of(list: Seq<MarketplacePluginView>) -> Seq<i64> {
    Seq::new(list.len(), |i: int| list[i].rating)
}

/// Whether a plugin is of the category given.
pub open spec fn of_category(category: PluginCategory) -> spec_fn(MarketplacePluginView) -> bool {
    |plugin: MarketplacePluginView| plugin.category == category
}

/// Whether `result` holds the best rated plugins of `list`, at most `limit`
/// of them: the highest rating first, and plugins of the same rating in the
/// order in which they were added.
pub open spec fn is_top_rated(
    list: Seq<MarketplacePluginView>,
    limit: int,
    result: Seq<MarketplacePluginView>,
) -> bool {
    &&& result.len() == if limit <= list.len() {
        limit
    } else {
        list.len() as int
    }
    &&& exists|order: Seq<usize>| #[trigger]
        is_ranking(order, ratings_of(list)) && forall|i: int|
            0 <= i < result.len() ==> #[trigger] result[i] == list[order[i] as int]
}

/// What each plugin that was found holds.
pub open spec fn found_offers(found: Seq<&MarketplacePlugin>) -> Seq<MarketplacePluginView> {
    Seq::new(found.len(), |i: int| found[i]@)
}

/// Keeps the plugins on offer.
pub struct AutomationMarketplace {
    plugins: StrMap<MarketplacePlugin>,
    curated_plugins: Vec<String>,
}

impl View for AutomationMarketplace {
    type V = Map<Seq<char>, MarketplacePluginView>;

    closed spec fn view(&self) -> Map<Seq<char>, MarketplacePluginView> {
        plugin_views(self.plugins@)
    }
}

impl AutomationMarketplace {
    /// The ids of the plugins, in the order in which they were first added.
    pub closed spec fn offer_ids(&self) -> Seq<Seq<char>> {
        self.plugins.keys()
    }

    /// The plugins in the order in which their ids were first added.
    pub open spec fn offers(&self) -> Seq<MarketplacePluginView> {
        listed(self@, self.offer_ids())
    }

    /// The ids of the curated plugins, in the order in which they were added.
    pub closed spec fn curated(&self) -> Seq<Seq<char>> {
        views_of(self.curated_plugins@)
    }

    /// A marketplace without plugins.
    pub fn new() -> (r: Self)
        ensures
            r@ == Map::<Seq<char>, MarketplacePluginView>::empty(),
            r.offer_ids() == Seq::<Seq<char>>::empty(),
            r.curated() == Seq::<Seq<char>>::empty(),
    {
        let r = AutomationMarketplace { plugins: StrMap::new(), curated_plugins: Vec::new() };
        assert(r@ =~= Map::<Seq<char>, MarketplacePluginView>::empty());
        assert(r.curated() =~= Seq::<Seq<char>>::empty());
        r
    }

    /// How many plugins are on offer.
    pub fn plugin_count(&self) -> (n: usize)
        ensures
            n == self.offer_ids().len(),
    {
        self.plugins.len()
    }

    /// The plugin under `plugin_id`.
    pub fn get_plugin(&self, plugin_id: &str) -> (r: Option<&MarketplacePlugin>)
        ensures
            match r {
                Some(plugin) => self@.contains_key(plugin_id@) && plugin@ == self@[plugin_id@],
                None => !self@.contains_key(plugin_id@),
            },
    {
        self.plugins.get(plugin_id)
    }

    /// Puts `plugin` on offer under its id, in place of the plugin that was
    /// there, if any. A verified plugin has its id added to the curated ones.
    pub fn add_plugin(&mut self, plugin: MarketplacePlugin)
        ensures
            final(self)@ == old(self)@.insert(plugin.metadata.id@, plugin@),
            final(self).offer_ids() == placed_keys(old(self).offer_ids(), plugin.metadata.id@),
            final(self).curated() == if plugin.verified {
                old(self).curated().push(plugin.metadata.id@)
            } else {
                old(self).curated()
            },
    {
        let plugin_id = plugin.metadata.id.clone();
        if plugin.verified {
            let ghost before = self.curated();
            self.curated_plugins.push(plugin_id.clone());
            assert(self.curated() =~= before.push(plugin_id@));
        }
        self.plugins.insert(plugin_id, plugin);
        assert(self@ =~= old(self)@.insert(plugin.metadata.id@, plugin@));
    }

    /// The curated plugins, in the order in which their ids were added.
    pub fn get_curated_plugins(&self) -> (r: Vec<&MarketplacePlugin>)
        ensures
            found_offers(r@) == curated_upto(self@, self.curated(), self.curated().len() as int),
    {
        let mut r: Vec<&MarketplacePlugin> = Vec::new();
        let mut i: usize = 0;
        assert(found_offers(r@) =~= Seq::<MarketplacePluginView>::empty());
        while i < self.curated_plugins.len()
            invariant
                i <= self.curated_plugins.len(),
                found_offers(r@) == curated_upto(self@, self.curated(), i as int),
            decreases self.curated_plugins.len() - i,
        {
            assert(self.curated()[i as int] == self.curated_plugins@[i as int]@);
            match self.plugins.get(self.curated_plugins[i].as_str()) {
                Some(plugin) => {
                    let ghost before = found_offers(r@);
                    r.push(plugin);
                    assert(found_offers(r@) =~= before.push(plugin@));
                },
                None => {},
            }
            i += 1;
        }
        r
    }

    /// The plugins of `category`, in the order in which their ids were first
    /// added.
    pub fn search_by_category(&self, category: PluginCategory) -> (r: Vec<&MarketplacePlugin>)
        ensures
            found_offers(r@) == kept(self.offers(), of_category(category), self.offers().len() as int),
    {
        let mut r: Vec<&MarketplacePlugin> = Vec::new();
        let mut i: usize = 0;
        let n = self.plugins.len();
        proof {
            use_type_invariant(&self.plugins);
            self.plugins.lemma_listed_views();
        }
        assert(found_offers(r@) =~= Seq::<MarketplacePluginView>::empty());
        while i < n
            invariant
                i <= n,
                n == self.offers().len(),
                n == self.plugins.values().len(),
                self.offers() == value_views(self.plugins.values()),
                found_offers(r@) == kept(self.offers(), of_category(category), i as int),
            decreases n - i,
        {
            let plugin = self.plugins.value_at(i);
            assert(self.offers()[i as int] == plugin@);
            if plugin.category == category {
                let ghost before = found_offers(r@);
                r.push(plugin);
                assert(found_offers(r@) =~= before.push(plugin@));
            }
            i += 1;
        }
        r
    }

    /// The best rated plugins, at most `limit` of them.
    pub fn get_top_rated(&self, limit: usize) -> (r: Vec<&MarketplacePlugin>)
        ensures
            is_top_rated(self.offers(), limit as int, found_offers(r@)),
    {
        let n = self.plugins.len();
        proof {
            use_type_invariant(&self.plugins);
            self.plugins.lemma_listed_views();
        }
        let mut ratings: Vec<i64> = Vec::new();
        let mut i: usize = 0;
        while i < n
            invariant
                i <= n,
                n == self.offers().len(),
                n == self.plugins.values().len(),
                self.offers() == value_views(self.plugins.values()),
                ratings@.len() == i,
                forall|j: int| 0 <= j < i ==> #[trigger] ratings@[j] == ratings_of(self.offers())[j],
            decreases n - i,
        {
            assert(self.offers()[i as int] == self.plugins.values()[i as int]@);
            ratings.push(self.plugins.value_at(i).rating);
            i += 1;
        }
        assert(ratings@ =~= ratings_of(self.offers()));
        let order = ranking_of(&ratings);
        let wanted = if limit <= n {
            limit
        } else {
            n
        };
        let mut r: Vec<&MarketplacePlugin> = Vec::new();
        let mut k: usize = 0;
        while k < wanted
            invariant
                k <= wanted,
                wanted <= n,
                n == self.offers().len(),
                n == self.plugins.values().len(),
                self.offers() == value_views(self.plugins.values()),
                is_ranking(order@, ratings@),
                ratings@.len() == n,
                r@.len() == k,
                forall|j: int| 0 <= j < k ==> (#[trigger] r@[j])@ == self.offers()[order@[j] as int],
            decreases wanted - k,
        {
            let at = order[k];
            assert(self.offers()[at as int] == self.plugins.values()[at as int]@);
            r.push(self.plugins.value_at(at));
            k += 1;
        }
        proof {
            let result = found_offers(r@);
            assert forall|i: int| 0 <= i < result.len() implies #[trigger] result[i] == self.offers()[order@[i] as int] by {
                assert(result[i] == r@[i]@);
            }
        }
        r
    }

    /// Counts one more download of the plugin `plugin_id`; fails where there
    /// is no such plugin.
    pub fn install_plugin(&mut self, plugin_id: &str) -> (r: Result<(), String>)
        ensures
            final(self).curated() == old(self).curated(),
            final(self).offer_ids() == old(self).offer_ids(),
            match r {
                Ok(_) => old(self)@.contains_key(plugin_id@) && final(self)@ == old(self)@.insert(
                    plugin_id@,
                    MarketplacePluginView {
                        download_count: capped_sum(
                            old(self)@[plugin_id@].download_count as int,
                            1,
                        ) as usize,
                        ..old(self)@[plugin_id@]
                    },
                ),
                Err(e) => !old(self)@.contains_key(plugin_id@) && e@ == "Plugin not found"@
                    && final(self)@ == old(self)@,
            },
    {
        match self.plugins.position(plugin_id) {
            Some(at) => {
                let mut plugin = self.plugins.value_at(at).clone();
                plugin.download_count = add_capped(plugin.download_count, 1);
                self.plugins.replace_at(at, plugin);
                assert(self@ =~= old(self)@.insert(plugin_id@, plugin@));
                Ok(())
            },
            None => Err("Plugin not found".to_string()),
        }
    }
}

impl Default for AutomationMarketplace {
    fn default() -> (r: Self)
        ensures
            r@ == Map::<Seq<char>, MarketplacePluginView>::empty(),
            r.offer_ids() == Seq::<Seq<char>>::empty(),
            r.curated() == Seq::<Seq<char>>::empty(),
    {
        AutomationMarketplace::new()
    }
}

} // verus!
