use vstd::prelude::*;

verus! {

/// The shop has no valid current selection.
#[derive(Clone, Copy, Debug, PartialEq, Eq, Structural)]
pub enum SelectionError {
    NotFound,
}

/// An offer of the shop, for the incrementor at `incrementor_index` of the registry.
#[derive(Debug)]
pub enum ShopItem {
    /// Unlocks the incrementor.
    IncrementorPurchase { text: String, price: u64, incrementor_index: usize },
    /// Upgrades the (unlocked) incrementor.
    IncrementorUpgrade { text: String, price: u64, incrementor_index: usize },
}

impl ShopItem {
    /// The registry index that the item refers to.
    pub open spec fn target(&self) -> usize {
        match self {
            ShopItem::IncrementorPurchase { incrementor_index, .. } => *incrementor_index,
            ShopItem::IncrementorUpgrade { incrementor_index, .. } => *incrementor_index,
        }
    }

    /// The item's price.
    pub open spec fn cost(&self) -> u64 {
        match self {
            ShopItem::IncrementorPurchase { price, .. } => *price,
            ShopItem::IncrementorUpgrade { price, .. } => *price,
        }
    }

    /// The item's label.
    pub open spec fn label(&self) -> String {
        match self {
            ShopItem::IncrementorPurchase { text, .. } => *text,
            ShopItem::IncrementorUpgrade { text, .. } => *text,
        }
    }

    pub fn incrementor_index(&self) -> (r: usize)
        ensures
            r == self.target(),
    {
        match self {
            ShopItem::IncrementorPurchase { incrementor_index, .. } => *incrementor_index,
            ShopItem::IncrementorUpgrade { incrementor_index, .. } => *incrementor_index,
        }
    }

    pub fn is_purchase(&self) -> (r: bool)
        ensures
            r == self is IncrementorPurchase,
    {
        matches!(self, ShopItem::IncrementorPurchase { .. })
    }

    pub fn price(&self) -> (r: u64)
        ensures
            r == self.cost(),
    {
        match self {
            ShopItem::IncrementorPurchase { price, .. } => *price,
            ShopItem::IncrementorUpgrade { price, .. } => *price,
        }
    }
}

/// How many items of `items` refer to registry index `i`.
pub open spec fn count_refs(items: Seq<ShopItem>, i: int) -> nat
    decreases items.len(),
{
    if items.len() == 0 {
        0
    } else {
        count_refs(items.drop_last(), i) + if items.last().target() == i {
            1nat
        } else {
            0nat
        }
    }
}

/// No item refers to an index whose count is zero.
pub proof fn lemma_count_refs_zero(items: Seq<ShopItem>, i: int)
    requires
        count_refs(items, i) == 0,
    ensures
        forall|k: int| 0 <= k < items.len() ==> (#[trigger] items[k]).target() != i,
    decreases items.len(),
{
    if items.len() > 0 {
        lemma_count_refs_zero(items.drop_last(), i);
        assert forall|k: int| 0 <= k < items.len() implies (#[trigger] items[k]).target() != i by {
            if k < items.len() - 1 {
                assert(items[k] == items.drop_last()[k]);
            }
        }
    }
}

/// Appending an item adds one reference to its own index.
pub proof fn lemma_count_refs_push(items: Seq<ShopItem>, x: ShopItem, i: int)
    ensures
        count_refs(items.push(x), i) == count_refs(items, i) + if x.target() == i {
            1nat
        } else {
            0nat
        },
{
    assert(items.push(x).drop_last() =~= items);
}

/// Removing an item takes one reference from its own index.
pub proof fn lemma_count_refs_remove(items: Seq<ShopItem>, j: int, i: int)
    requires
        0 <= j < items.len(),
    ensures
        count_refs(items.remove(j), i) + (if items[j].target() == i {
            1nat
        } else {
            0nat
        }) == count_refs(items, i),
    decreases items.len(),
{
    if j == items.len() - 1 {
        assert(items.remove(j) =~= items.drop_last());
    } else {
        lemma_count_refs_remove(items.drop_last(), j, i);
        assert(items.remove(j).drop_last() =~= items.drop_last().remove(j));
    }
}

/// Replacing an item by one for the same index keeps every count.
pub proof fn lemma_count_refs_update(items: Seq<ShopItem>, j: int, y: ShopItem, i: int)
    requires
        0 <= j < items.len(),
        y.target() == items[j].target(),
    ensures
        count_refs(items.update(j, y), i) == count_refs(items, i),
    decreases items.len(),
{
    if j == items.len() - 1 {
        assert(items.update(j, y).drop_last() =~= items.drop_last());
    } else {
        lemma_count_refs_update(items.drop_last(), j, y, i);
        assert(items.update(j, y).drop_last() =~= items.drop_last().update(j, y));
    }
}

/// Where item `k` refers to index `k`, each index below the length is referred to once.
pub proof fn lemma_count_refs_in_order(items: Seq<ShopItem>, i: int)
    requires
        forall|k: int| 0 <= k < items.len() ==> #[trigger] items[k].target() == k,
    ensures
        count_refs(items, i) == if 0 <= i < items.len() {
            1nat
        } else {
            0nat
        },
    decreases items.len(),
{
    if items.len() > 0 {
        let d = items.drop_last();
        assert forall|k: int| 0 <= k < d.len() implies #[trigger] d[k].target() == k by {
            assert(d[k] == items[k]);
        }
        lemma_count_refs_in_order(d, i);
        assert(items.last() == items[items.len() - 1]);
    }
}

/// The ordered list of offers with its selection cursor.
pub struct Shop {
    pub items: Vec<ShopItem>,
    /// Position of the selected item; it may point past the end of `items`.
    pub selected: Option<usize>,
}

/// The cursor after a move down a list of `len` items: one further, unless at the end.
pub open spec fn next_selection(selected: Option<usize>, len: nat) -> Option<usize> {
    match selected {
        Some(c) => if c + 1 < len {
            Some((c + 1) as usize)
        } else {
            selected
        },
        None => selected,
    }
}

/// The cursor after a move up: one back, unless at the start.
pub open spec fn prev_selection(selected: Option<usize>) -> Option<usize> {
    match selected {
        Some(c) => if c > 0 {
            Some((c - 1) as usize)
        } else {
            selected
        },
        None => selected,
    }
}

impl Shop {
    /// The selected position, when it points at an item.
    pub open spec fn selection(&self) -> Option<usize> {
        match self.selected {
            Some(i) => if i < self.items@.len() {
                Some(i)
            } else {
                None
            },
            None => None,
        }
    }

    /// Moves the cursor one item down; no move at the last item or without a cursor.
    pub fn next(&mut self)
        ensures
            final(self).items == old(self).items,
            final(self).selected == next_selection(old(self).selected, old(self).items@.len()),
    {
        if let Some(current_select) = self.selected {
            if current_select < self.items.len() && current_select + 1 < self.items.len() {
                self.selected = Some(current_select + 1);
            }
        }
    }

    /// Moves the cursor one item up; no move at the first item or without a cursor.
    pub fn prev(&mut self)
        ensures
            final(self).items == old(self).items,
            final(self).selected == prev_selection(old(self).selected),
    {
        if let Some(current_select) = self.selected {
            if current_select > 0 {
                self.selected = Some(current_select - 1);
            }
        }
    }

    /// The selected item.
    pub fn get_selected(&self) -> (r: Result<&ShopItem, SelectionError>)
        ensures
            match self.selection() {
                Some(i) => r == Ok::<&ShopItem, SelectionError>(&self.items@[i as int]),
                None => r == Err::<&ShopItem, SelectionError>(SelectionError::NotFound),
            },
    {
        if let Some(selected_i) = self.selected {
            if selected_i < self.items.len() {
                return Ok(&self.items[selected_i]);
            }
        }
        Err(SelectionError::NotFound)
    }

    /// The selected position with a mutable reference to the item there.
    pub fn get_mut_selected_with_index(&mut self) -> (r: Result<(usize, &mut ShopItem), SelectionError>)
        ensures
            match old(self).selection() {
                Some(i) => r is Ok && r->Ok_0.0 == i && *r->Ok_0.1 == old(self).items@[i as int]
                    && final(self).items@ == old(self).items@.update(i as int, *final(r->Ok_0.1))
                    && final(self).selected == old(self).selected,
                None => r == Err::<(usize, &mut ShopItem), SelectionError>(SelectionError::NotFound)
                    && *final(self) == *old(self),
            },
    {
        if let Some(selected_i) = self.selected {
            if selected_i < self.items.len() {
                return Ok((selected_i, &mut self.items[selected_i]));
            }
        }
        Err(SelectionError::NotFound)
    }
}

impl Default for Shop {
    /// An empty shop without a cursor.
    fn default() -> (r: Shop)
        ensures
            r.items@.len() == 0,
            r.selected is None,
    {
        Shop { items: Vec::new(), selected: None }
    }
}

} // verus!
