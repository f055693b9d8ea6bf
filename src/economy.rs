use vstd::prelude::*;

use crate::incrementor::{
    lemma_scaled_grows, lemma_ticked_keeps_parameters, sat_add, scale, scaled, Incrementor, UNIT,
};
use crate::shop::{
    count_refs, lemma_count_refs_in_order, lemma_count_refs_push, lemma_count_refs_remove,
    lemma_count_refs_update, lemma_count_refs_zero, next_selection, prev_selection, SelectionError,
    Shop, ShopItem,
};

verus! {

/// Number of incrementors in the registry.
pub const REGISTRY_LEN: usize = 5;

/// Most samples that the currency history keeps.
pub const HISTORY_LEN: usize = 1000;

/// Price of the first upgrade relative to the unlock price, in percent.
pub const UNLOCK_MARKUP: u64 = 200;

/// The registry: a fixed list of incrementors, each known by its index.
pub struct Incrementors {
    pub list: [Incrementor; REGISTRY_LEN],
}

/// The whole state of the simulation. Amounts of clicks are in fixed-point units of `UNIT`.
pub struct Idle {
    /// Spendable currency.
    pub total_clicks: u64,
    /// Everything ever banked, including the starting grant.
    pub all_time_total_clicks: u64,
    /// Last display width reported for the per-tick totals.
    pub sparkline_max_length: usize,
    /// Whole clicks banked in each recent tick, oldest first.
    pub sparkline_data: Vec<u64>,
    /// Spendable currency after each recent tick, oldest first.
    pub graph_data: Vec<u64>,
    pub incrementors: Incrementors,
    pub shop: Shop,
}

/// The last `n` elements of `s`, or all of it when it is not longer.
pub open spec fn keep_last(s: Seq<u64>, n: nat) -> Seq<u64> {
    if s.len() <= n {
        s
    } else {
        s.subrange(s.len() - n, s.len() as int)
    }
}

/// `x` units rounded to the nearest whole click, halves rounded up.
pub open spec fn whole_clicks(x: u64) -> u64 {
    (x / UNIT + if x % UNIT >= UNIT / 2 {
        1int
    } else {
        0int
    }) as u64
}

/// What every incrementor of `list` banks in one tick, added up (held at `u64::MAX`).
pub open spec fn banked_total(list: Seq<Incrementor>) -> u64
    decreases list.len(),
{
    if list.len() == 0 {
        0
    } else {
        sat_add(banked_total(list.drop_last()), list.last().banked())
    }
}

/// No incrementor's lifetime earnings went down from `a` to `b`.
pub open spec fn earnings_kept(a: Seq<Incrementor>, b: Seq<Incrementor>) -> bool {
    forall|i: int| 0 <= i < a.len() ==> #[trigger] b[i].total_earned >= a[i].total_earned
}

/// A discrete command from the input source.
#[derive(Clone, Copy, Debug, PartialEq, Eq, Structural)]
pub enum Command {
    Quit,
    NavigateUp,
    NavigateDown,
    Activate,
}

/// Lifetime earnings kept from `a` to `b` and from `b` to `c` are kept from `a` to `c`: since
/// every operation keeps them, so does any sequence of operations.
pub proof fn lemma_earnings_kept_chain(a: Seq<Incrementor>, b: Seq<Incrementor>, c: Seq<Incrementor>)
    requires
        a.len() == b.len(),
        earnings_kept(a, b),
        earnings_kept(b, c),
    ensures
        earnings_kept(a, c),
{
    assert forall|i: int| 0 <= i < a.len() implies #[trigger] c[i].total_earned >= a[i].total_earned by {
        assert(b[i].total_earned >= a[i].total_earned);
        assert(c[i].total_earned >= b[i].total_earned);
    }
}

/// Drops the oldest elements of `v` until at most `keep` are left.
fn drop_oldest(v: &mut Vec<u64>, keep: usize)
    ensures
        final(v)@ == keep_last(old(v)@, keep as nat),
{
    if v.len() > keep {
        let start = v.len() - keep;
        let mut out: Vec<u64> = Vec::new();
        let mut k: usize = start;
        while k < v.len()
            invariant
                start <= k <= v@.len(),
                out@ == v@.subrange(start as int, k as int),
            decreases v@.len() - k,
        {
            out.push(v[k]);
            k = k + 1;
        }
        *v = out;
    }
}

/// Rounds `x` units to whole clicks.
fn round_clicks(x: u64) -> (r: u64)
    ensures
        r == whole_clicks(x),
{
    let whole = x / UNIT;
    if x % UNIT >= UNIT / 2 {
        whole + 1
    } else {
        whole
    }
}

/// An incrementor with the given parameters and nothing accumulated yet.
fn starter(
    name: &'static str,
    unlocked: bool,
    increment_by: u64,
    max_clicks: u64,
    price: u64,
    price_mult: u64,
) -> (r: Incrementor)
    ensures
        r == (Incrementor {
            name,
            unlocked,
            increment_by,
            max_clicks,
            price,
            price_mult,
            clicks: 0,
            spare: 0,
            total_earned: 0,
        }),
{
    Incrementor {
        name,
        unlocked,
        increment_by,
        max_clicks,
        price,
        price_mult,
        clicks: 0,
        spare: 0,
        total_earned: 0,
    }
}

impl Idle {
    /// Every field but the shop is as in `other`.
    pub open spec fn kept_besides_shop(&self, other: &Idle) -> bool {
        &&& self.total_clicks == other.total_clicks
        &&& self.all_time_total_clicks == other.all_time_total_clicks
        &&& self.sparkline_max_length == other.sparkline_max_length
        &&& self.sparkline_data == other.sparkline_data
        &&& self.graph_data == other.graph_data
        &&& self.incrementors == other.incrementors
    }

    /// The position of the selected shop item.
    pub open spec fn selected_pos(&self) -> int {
        self.shop.selection()->Some_0 as int
    }

    /// The selected shop item.
    pub open spec fn selected_item(&self) -> ShopItem {
        self.shop.items@[self.selected_pos()]
    }

    /// An item is selected and the spendable currency covers its price.
    pub open spec fn can_afford(&self) -> bool {
        &&& self.shop.selection() is Some
        &&& self.total_clicks >= self.selected_item().cost()
    }

    /// The starting state: one click to spend, the first incrementor running, and one offer
    /// for every incrementor, in registry order, the first one selected. The running
    /// incrementor is offered as an upgrade at twice its price, the others as purchases at
    /// their price.
    pub fn new() -> (r: Idle)
        ensures
            r.wf(),
            r.total_clicks == UNIT,
            r.all_time_total_clicks == UNIT,
            r.sparkline_max_length == 0,
            r.sparkline_data@.len() == 0,
            r.graph_data@.len() == 0,
            r.shop.selected == Some(0usize),
            r.incrementors.list@.map_values(|inc: Incrementor| inc.name@) == seq![
                "Incrementor"@,
                "Better Incrementor"@,
                "Improved Incrementor"@,
                "Super Incrementor"@,
                "God Mode."@,
            ],
            r.incrementors.list@.map_values(
                |inc: Incrementor| (inc.increment_by, inc.max_clicks, inc.price, inc.price_mult),
            ) == seq![
                (2_000u64, 1_000_000u64, 1_000_000u64, 140u64),
                (8_000u64, 5_000_000u64, 10_000_000u64, 140u64),
                (100_000u64, 20_000_000u64, 100_000_000u64, 140u64),
                (100_000u64, 50_000_000u64, 250_000_000u64, 130u64),
                (1_000_000u64, 100_000_000u64, 1_000_000_000u64, 200u64),
            ],
            r.shop.items@.len() == REGISTRY_LEN,
            forall|k: int|
                0 <= k < REGISTRY_LEN ==> {
                    let item = #[trigger] r.shop.items@[k];
                    let inc = r.incrementors.list@[k];
                    &&& item.target() == k
                    &&& (item is IncrementorPurchase <==> !inc.unlocked)
                    &&& !inc.unlocked ==> item.cost() == inc.price && item.label()@ == inc.name@
                    &&& inc.unlocked ==> item.cost() == scaled(inc.price, UNLOCK_MARKUP)
                        && item.label()@ == "Upgrade "@ + inc.name@
                },
            forall|k: int|
                0 <= k < REGISTRY_LEN ==> {
                    let inc = #[trigger] r.incrementors.list@[k];
                    &&& inc.unlocked == (k == 0)
                    &&& inc.clicks == 0
                    &&& inc.spare == 0
                    &&& inc.total_earned == 0
                },
    {
        let list = [
            starter("Incrementor", true, 2_000, UNIT, UNIT, 140),
            starter("Better Incrementor", false, 8_000, 5 * UNIT, 10 * UNIT, 140),
            starter("Improved Incrementor", false, 100_000, 20 * UNIT, 100 * UNIT, 140),
            starter("Super Incrementor", false, 100_000, 50 * UNIT, 250 * UNIT, 130),
            starter("God Mode.", false, UNIT, 100 * UNIT, 1000 * UNIT, 200),
        ];
        let mut items: Vec<ShopItem> = Vec::new();
        let mut k: usize = 0;
        while k < REGISTRY_LEN
            invariant
                0 <= k <= REGISTRY_LEN,
                items@.len() == k,
                forall|j: int|
                    0 <= j < k ==> {
                        let item = #[trigger] items@[j];
                        let inc = list@[j];
                        &&& item.target() == j
                        &&& (item is IncrementorPurchase <==> !inc.unlocked)
                        &&& !inc.unlocked ==> item.cost() == inc.price && item.label()@
                            == inc.name@
                        &&& inc.unlocked ==> item.cost() == scaled(inc.price, UNLOCK_MARKUP)
                            && item.label()@ == "Upgrade "@ + inc.name@
                    },
            decreases REGISTRY_LEN - k,
        {
            let inc = list[k];
            let item = if inc.unlocked {
                ShopItem::IncrementorUpgrade {
                    text: String::from_str("Upgrade ").concat(inc.name),
                    price: scale(inc.price, UNLOCK_MARKUP),
                    incrementor_index: k,
                }
            } else {
                ShopItem::IncrementorPurchase {
                    text: String::from_str(inc.name),
                    price: inc.price,
                    incrementor_index: k,
                }
            };
            items.push(item);
            k = k + 1;
        }
        proof {
            assert(list@.map_values(|inc: Incrementor| inc.name@) =~= seq![
                "Incrementor"@,
                "Better Incrementor"@,
                "Improved Incrementor"@,
                "Super Incrementor"@,
                "God Mode."@,
            ]);
            assert(list@.map_values(
                |inc: Incrementor| (inc.increment_by, inc.max_clicks, inc.price, inc.price_mult),
            ) =~= seq![
                (2_000u64, 1_000_000u64, 1_000_000u64, 140u64),
                (8_000u64, 5_000_000u64, 10_000_000u64, 140u64),
                (100_000u64, 20_000_000u64, 100_000_000u64, 140u64),
                (100_000u64, 50_000_000u64, 250_000_000u64, 130u64),
                (1_000_000u64, 100_000_000u64, 1_000_000_000u64, 200u64),
            ]);
            assert forall|i: int| 0 <= i < REGISTRY_LEN implies #[trigger] count_refs(items@, i)
                == 1 by {
                lemma_count_refs_in_order(items@, i);
            }
        }
        Idle {
            total_clicks: UNIT,
            all_time_total_clicks: UNIT,
            sparkline_max_length: 0,
            sparkline_data: Vec::new(),
            graph_data: Vec::new(),
            incrementors: Incrementors { list },
            shop: Shop { items, selected: Some(0) },
        }
    }

    /// Records the display width of the per-tick totals and drops the oldest totals
    /// that no longer fit.
    pub fn set_sparkline_max_length(&mut self, width: usize)
        requires
            old(self).wf(),
        ensures
            final(self).wf(),
            final(self).sparkline_max_length == width,
            final(self).sparkline_data@ == keep_last(old(self).sparkline_data@, width as nat),
            final(self).total_clicks == old(self).total_clicks,
            final(self).all_time_total_clicks == old(self).all_time_total_clicks,
            final(self).graph_data == old(self).graph_data,
            final(self).incrementors == old(self).incrementors,
            final(self).shop == old(self).shop,
    {
        self.sparkline_max_length = width;
        drop_oldest(&mut self.sparkline_data, width);
    }

    /// The state's invariant: each registry index has exactly one shop item, a purchase
    /// offer while its incrementor is locked and an upgrade offer once it is unlocked, and
    /// the buffers keep within their bounds.
    pub open spec fn wf(&self) -> bool {
        &&& forall|i: int| 0 <= i < REGISTRY_LEN ==> (#[trigger] self.incrementors.list@[i]).wf()
        &&& forall|k: int|
            0 <= k < self.shop.items@.len() ==> (#[trigger] self.shop.items@[k]).target()
                < REGISTRY_LEN
        &&& forall|k: int|
            0 <= k < self.shop.items@.len() ==> (#[trigger] self.shop.items@[k]).cost() > 0
        &&& forall|i: int| 0 <= i < REGISTRY_LEN ==> #[trigger] count_refs(self.shop.items@, i) == 1
        &&& forall|k: int|
            0 <= k < self.shop.items@.len() && (#[trigger] self.shop.items@[k]) is IncrementorUpgrade
                ==> self.incrementors.list@[self.shop.items@[k].target() as int].unlocked
        &&& forall|k: int|
            0 <= k < self.shop.items@.len() && (#[trigger] self.shop.items@[k]) is IncrementorPurchase
                ==> !self.incrementors.list@[self.shop.items@[k].target() as int].unlocked
        &&& self.graph_data@.len() <= HISTORY_LEN
        &&& self.sparkline_data@.len() <= self.sparkline_max_length
    }

    /// Advances every unlocked incrementor by one tick, banks what they produce into the
    /// currency, and records the tick in both histories.
    pub fn on_tick(&mut self)
        requires
            old(self).wf(),
        ensures
            final(self).wf(),
            final(self).incrementors.list@ == old(self).incrementors.list@.map_values(
                |inc: Incrementor| inc.ticked(),
            ),
            final(self).total_clicks == sat_add(
                old(self).total_clicks,
                banked_total(old(self).incrementors.list@),
            ),
            final(self).all_time_total_clicks == sat_add(
                old(self).all_time_total_clicks,
                banked_total(old(self).incrementors.list@),
            ),
            final(self).sparkline_data@ == keep_last(
                old(self).sparkline_data@.push(
                    whole_clicks(banked_total(old(self).incrementors.list@)),
                ),
                old(self).sparkline_max_length as nat,
            ),
            final(self).graph_data@ == keep_last(
                old(self).graph_data@.push(final(self).total_clicks),
                HISTORY_LEN as nat,
            ),
            final(self).sparkline_max_length == old(self).sparkline_max_length,
            final(self).shop == old(self).shop,
            earnings_kept(old(self).incrementors.list@, final(self).incrementors.list@),
            final(self).graph_data@.len() <= HISTORY_LEN,
            final(self).sparkline_data@.len() <= final(self).sparkline_max_length,
    {
        let ghost start = self.incrementors.list@;
        let mut list = self.incrementors.list;
        let mut total: u64 = 0;
        let mut i: usize = 0;
        while i < REGISTRY_LEN
            invariant
                0 <= i <= REGISTRY_LEN,
                start.len() == REGISTRY_LEN,
                list@.len() == REGISTRY_LEN,
                forall|j: int| 0 <= j < i ==> list@[j] == #[trigger] start[j].ticked(),
                forall|j: int| i <= j < REGISTRY_LEN ==> list@[j] == start[j],
                total == banked_total(start.subrange(0, i as int)),
            decreases REGISTRY_LEN - i,
        {
            let mut inc = list[i];
            assert(start.subrange(0, i + 1).drop_last() =~= start.subrange(0, i as int));
            if inc.unlocked {
                let banked = inc.tick();
                total = total.saturating_add(banked);
                list[i] = inc;
            }
            i = i + 1;
        }
        self.incrementors.list = list;
        assert(start.subrange(0, REGISTRY_LEN as int) =~= start);
        assert(self.incrementors.list@ =~= start.map_values(|inc: Incrementor| inc.ticked()));
        assert(total == banked_total(start));
        assert forall|j: int| 0 <= j < REGISTRY_LEN implies {
            &&& (#[trigger] self.incrementors.list@[j]).wf() == start[j].wf()
            &&& self.incrementors.list@[j].unlocked == start[j].unlocked
        } by {
            lemma_ticked_keeps_parameters(start[j]);
        }
        self.total_clicks = self.total_clicks.saturating_add(total);
        self.all_time_total_clicks = self.all_time_total_clicks.saturating_add(total);
        self.sparkline_data.push(round_clicks(total));
        drop_oldest(&mut self.sparkline_data, self.sparkline_max_length);
        self.graph_data.push(self.total_clicks);
        drop_oldest(&mut self.graph_data, HISTORY_LEN);
    }

    /// `self` is what activating the selected item of `before` leaves: nothing changes
    /// without a valid selection or when the currency falls short; a purchase pays, unlocks,
    /// and trades its offer for an upgrade offer at the end of the list; an upgrade pays,
    /// upgrades, and raises its offer's price in place.
    pub open spec fn activated(&self, before: &Idle) -> bool {
        &&& before.shop.selection() is None ==> *self == *before
        &&& before.shop.selection() is Some && !before.can_afford() ==> *self == *before
        &&& before.can_afford() ==> {
            &&& self.total_clicks == before.total_clicks - before.selected_item().cost()
            &&& self.total_clicks < before.total_clicks
            &&& self.all_time_total_clicks == before.all_time_total_clicks
            &&& self.sparkline_max_length == before.sparkline_max_length
            &&& self.sparkline_data == before.sparkline_data
            &&& self.graph_data == before.graph_data
            &&& self.shop.selected == before.shop.selected
        }
        &&& before.can_afford() && before.selected_item() is IncrementorPurchase ==> {
            let idx = before.selected_item().target() as int;
            let inc = before.incrementors.list@[idx];
            let added = self.shop.items@.last();
            &&& self.incrementors.list@ == before.incrementors.list@.update(
                idx,
                Incrementor { unlocked: true, ..inc },
            )
            &&& self.shop.items@.len() == before.shop.items@.len()
            &&& self.shop.items@.drop_last() == before.shop.items@.remove(
                before.selected_pos(),
            )
            &&& added is IncrementorUpgrade
            &&& added.target() == idx
            &&& added.cost() == scaled(before.selected_item().cost(), UNLOCK_MARKUP)
            &&& added.label()@ == "Upgrade "@ + inc.name@
            &&& forall|k: int|
                #![trigger self.shop.items@[k]]
                0 <= k < self.shop.items@.len() && self.shop.items@[k].target()
                    == idx ==> self.shop.items@[k] is IncrementorUpgrade
        }
        &&& before.can_afford() && before.selected_item() is IncrementorUpgrade ==> {
            let pos = before.selected_pos();
            let idx = before.selected_item().target() as int;
            let inc = before.incrementors.list@[idx];
            let changed = self.shop.items@[pos];
            &&& self.incrementors.list@ == before.incrementors.list@.update(
                idx,
                inc.upgraded(),
            )
            &&& self.shop.items@ == before.shop.items@.update(pos, changed)
            &&& changed is IncrementorUpgrade
            &&& changed.target() == idx
            &&& changed.cost() == scaled(before.selected_item().cost(), inc.price_mult)
            &&& changed.label() == before.selected_item().label()
        }
    }

    /// Resolves the selected shop item against the spendable currency.
    ///
    /// Without a valid selection it fails with `SelectionError::NotFound`. When the currency
    /// does not cover the price nothing changes. A purchase pays the price, unlocks its
    /// incrementor, removes the purchase offer and appends an upgrade offer for the same
    /// incrementor at twice the price. An upgrade pays the price, upgrades its incrementor
    /// and raises its own price by the incrementor's `price_mult`, in place. The cursor
    /// keeps its position: after a purchase it points at whatever item now stands there.
    pub fn activate(&mut self) -> (r: Result<(), SelectionError>)
        requires
            old(self).wf(),
        ensures
            final(self).wf(),
            earnings_kept(old(self).incrementors.list@, final(self).incrementors.list@),
            old(self).shop.selection() is None ==> r == Err::<(), SelectionError>(
                SelectionError::NotFound,
            ),
            old(self).shop.selection() is Some ==> r == Ok::<(), SelectionError>(()),
            final(self).activated(old(self)),
    {
        let (pos, idx, price, is_purchase) = match self.shop.get_selected() {
            Ok(item) => (
                self.shop.selected.unwrap(),
                item.incrementor_index(),
                item.price(),
                item.is_purchase(),
            ),
            Err(e) => {
                return Err(e);
            },
        };
        if self.total_clicks < price {
            return Ok(());
        }
        let ghost before = *self;
        self.total_clicks = self.total_clicks - price;
        let mut inc = self.incrementors.list[idx];
        if is_purchase {
            inc.unlock();
            self.incrementors.list[idx] = inc;
            let text = String::from_str("Upgrade ").concat(inc.name);
            self.shop.items.remove(pos);
            self.shop.items.push(
                ShopItem::IncrementorUpgrade {
                    text,
                    price: scale(price, UNLOCK_MARKUP),
                    incrementor_index: idx,
                },
            );
            proof {
                let old_items = before.shop.items@;
                let new_item = self.shop.items@.last();
                assert(self.shop.items@ =~= old_items.remove(pos as int).push(new_item));
                assert(self.shop.items@.drop_last() =~= old_items.remove(pos as int));
                assert forall|i: int| 0 <= i < REGISTRY_LEN implies #[trigger] count_refs(
                    self.shop.items@,
                    i,
                ) == 1 by {
                    lemma_count_refs_remove(old_items, pos as int, i);
                    lemma_count_refs_push(old_items.remove(pos as int), new_item, i);
                }
                lemma_scaled_grows(price, UNLOCK_MARKUP);
                assert forall|k: int| 0 <= k < self.shop.items@.len() implies (
                #[trigger] self.shop.items@[k]).cost() > 0 by {
                    if k < self.shop.items@.len() - 1 {
                        assert(self.shop.items@[k] == old_items.remove(pos as int)[k]);
                    }
                }
                lemma_count_refs_push(old_items.remove(pos as int), new_item, idx as int);
                lemma_count_refs_remove(old_items, pos as int, idx as int);
                lemma_count_refs_zero(old_items.remove(pos as int), idx as int);
                assert forall|k: int|
                    0 <= k < self.shop.items@.len() && (#[trigger] self.shop.items@[k]).target()
                        == idx implies self.shop.items@[k] is IncrementorUpgrade by {
                    if k < self.shop.items@.len() - 1 {
                        assert(self.shop.items@[k] == old_items.remove(pos as int)[k]);
                    }
                }
                assert forall|k: int|
                    0 <= k < self.shop.items@.len() && (#[trigger] self.shop.items@[k]) is IncrementorUpgrade
                        implies self.incrementors.list@[self.shop.items@[k].target() as int].unlocked by {
                    if k < self.shop.items@.len() - 1 {
                        if k < pos as int {
                            assert(self.shop.items@[k] == old_items[k]);
                        } else {
                            assert(self.shop.items@[k] == old_items[k + 1]);
                        }
                    }
                }
            }
        } else {
            inc.upgrade();
            self.incrementors.list[idx] = inc;
            let new_price = scale(price, inc.price_mult);
            match self.shop.get_mut_selected_with_index() {
                Ok((_, item)) => {
                    match item {
                        ShopItem::IncrementorUpgrade { price, .. } => {
                            *price = new_price;
                        },
                        ShopItem::IncrementorPurchase { .. } => {},
                    }
                },
                Err(_) => {},
            }
            proof {
                let old_items = before.shop.items@;
                lemma_scaled_grows(price, inc.price_mult);
                assert forall|i: int| 0 <= i < REGISTRY_LEN implies #[trigger] count_refs(
                    self.shop.items@,
                    i,
                ) == 1 by {
                    lemma_count_refs_update(old_items, pos as int, self.shop.items@[pos as int], i);
                }
            }
        }
        Ok(())
    }

    /// Applies one command: `Quit` changes nothing and returns `Ok(false)`; the navigation
    /// commands move the shop cursor; `Activate` resolves the selected item as `activate`
    /// does. Every other outcome is `Ok(true)`, but for an `Activate` without a valid
    /// selection, which fails. No command locks an incrementor again, and only an affordable
    /// purchase unlocks one.
    pub fn handle_command(&mut self, command: Command) -> (r: Result<bool, SelectionError>)
        requires
            old(self).wf(),
        ensures
            final(self).wf(),
            earnings_kept(old(self).incrementors.list@, final(self).incrementors.list@),
            command == Command::Quit ==> r == Ok::<bool, SelectionError>(false) && *final(self)
                == *old(self),
            command == Command::NavigateUp ==> {
                &&& r == Ok::<bool, SelectionError>(true)
                &&& final(self).shop.selected == prev_selection(old(self).shop.selected)
                &&& final(self).shop.items == old(self).shop.items
                &&& final(self).kept_besides_shop(old(self))
            },
            command == Command::NavigateDown ==> {
                &&& r == Ok::<bool, SelectionError>(true)
                &&& final(self).shop.selected == next_selection(
                    old(self).shop.selected,
                    old(self).shop.items@.len(),
                )
                &&& final(self).shop.items == old(self).shop.items
                &&& final(self).kept_besides_shop(old(self))
            },
            command == Command::Activate ==> {
                &&& final(self).activated(old(self))
                &&& old(self).shop.selection() is Some ==> r == Ok::<bool, SelectionError>(true)
                &&& old(self).shop.selection() is None ==> r == Err::<bool, SelectionError>(
                    SelectionError::NotFound,
                )
            },
            forall|i: int|
                0 <= i < REGISTRY_LEN && old(self).incrementors.list@[i].unlocked
                    ==> #[trigger] final(self).incrementors.list@[i].unlocked,
            forall|i: int|
                0 <= i < REGISTRY_LEN && !old(self).incrementors.list@[i].unlocked
                    && #[trigger] final(self).incrementors.list@[i].unlocked ==> {
                    &&& command == Command::Activate
                    &&& old(self).can_afford()
                    &&& old(self).selected_item() is IncrementorPurchase
                    &&& old(self).selected_item().target() == i
                },
    {
        match command {
            Command::Quit => Ok(false),
            Command::NavigateUp => {
                self.shop.prev();
                Ok(true)
            },
            Command::NavigateDown => {
                self.shop.next();
                Ok(true)
            },
            Command::Activate => {
                self.activate()?;
                Ok(true)
            },
        }
    }
}

} // verus!
