//! Selections in lists: toggled states, single choices, picked assets and edited lists.

use vstd::prelude::*;
use crate::models::asset_item::AssetItem;
use crate::models::consumer_provider::{side_name, ConsumerProvider};
use crate::text::{join_strings, seq_join, str_eq, views};

verus! {

/// The list with the state of entry `index` flipped.
pub fn toggle_item(items: Vec<(String, bool)>, index: usize) -> (res: Vec<(String, bool)>)
    requires
        index < items.len(),
    ensures
        res@ == items@.update(index as int, (items@[index as int].0, !items@[index as int].1)),
{
    let mut items = items;
    let label = items[index].0.clone();
    let flag = items[index].1;
    items.set(index, (label, !flag));
    items
}

/// The labels of the selected entries, in order.
pub open spec fn selected_labels(items: Seq<(String, bool)>) -> Seq<Seq<char>>
    decreases items.len(),
{
    if items.len() == 0 {
        Seq::empty()
    } else {
        selected_labels(items.drop_last()) + if items.last().1 {
            seq![items.last().0@]
        } else {
            Seq::empty()
        }
    }
}

/// Every entry is selected, or none is.
pub open spec fn uniform_selection(items: Seq<(String, bool)>) -> bool {
    (forall|i: int| 0 <= i < items.len() ==> (#[trigger] items[i]).1)
        || (forall|i: int| 0 <= i < items.len() ==> !(#[trigger] items[i]).1)
}

/// The text of a multiple-choice selector: "All" when every entry or no entry is selected,
/// else the selected labels separated by commas.
pub open spec fn multi_state_text(items: Seq<(String, bool)>) -> Seq<char> {
    if uniform_selection(items) {
        "All"@
    } else {
        seq_join(selected_labels(items), ", "@)
    }
}

/// The text of a multiple-choice selector over `items`.
pub fn multi_state_label(items: &Vec<(String, bool)>) -> (res: String)
    ensures
        res@ == multi_state_text(items@),
{
    let mut all_selected = true;
    let mut none_selected = true;
    let mut labels: Vec<String> = Vec::new();
    let mut i: usize = 0;
    while i < items.len()
        invariant
            i <= items.len(),
            all_selected == forall|k: int| 0 <= k < i ==> (#[trigger] items@[k]).1,
            none_selected == forall|k: int| 0 <= k < i ==> !(#[trigger] items@[k]).1,
            views(labels@) == selected_labels(items@.take(i as int)),
        decreases items.len() - i,
    {
        let ghost before = labels@;
        assert(items@.take(i + 1).drop_last() =~= items@.take(i as int));
        assert(items@.take(i + 1).last() == items@[i as int]);
        if items[i].1 {
            none_selected = false;
            labels.push(items[i].0.clone());
            assert(views(labels@) =~= views(before).push(items@[i as int].0@));
        } else {
            all_selected = false;
            assert(views(labels@) =~= views(before) + Seq::<Seq<char>>::empty());
        }
        i += 1;
    }
    assert(items@.take(items.len() as int) =~= items@);
    if all_selected || none_selected {
        "All".to_string()
    } else {
        join_strings(&labels, ", ")
    }
}

/// The entry at `index` of a single-choice selector.
pub fn pick(items: &Vec<String>, index: usize) -> (res: String)
    requires
        index < items.len(),
    ensures
        res@ == items@[index as int]@,
{
    items[index].clone()
}

/// The text of a single-choice selector: the chosen entry, or a prompt when there is none.
pub open spec fn one_state_text(selected: Option<String>) -> Seq<char> {
    match selected {
        Some(v) => if v@.len() > 0 { v@ } else { "Select an option"@ },
        None => "Select an option"@,
    }
}

/// The text of a single-choice selector whose choice is `selected`.
pub fn one_state_label(selected: &Option<String>) -> (res: String)
    ensures
        res@ == one_state_text(*selected),
{
    match selected {
        Some(v) => if !v.as_str().is_empty() {
            v.clone()
        } else {
            "Select an option".to_string()
        },
        None => "Select an option".to_string(),
    }
}

/// Whether the entry `label` is the choice `selected` of a single-choice selector.
pub fn is_chosen(label: &String, selected: &Option<String>) -> (res: bool)
    requires
        selected is Some,
    ensures
        res == (label@ == selected->0@),
{
    match selected {
        Some(v) => *label == *v,
        None => false,
    }
}

/// Which sides of negotiations a list shows; none chosen means both.
#[derive(Debug, Clone, Copy, PartialEq, Eq)]
pub struct ConsumerProviderSelection {
    pub consumer: bool,
    pub provider: bool,
}

/// The side is among the chosen ones.
pub open spec fn chosen(s: ConsumerProviderSelection, side: ConsumerProvider) -> bool {
    match side {
        ConsumerProvider::Consumer => s.consumer,
        ConsumerProvider::Provider => s.provider,
    }
}

/// The names of the sides a selection shows (both when none is chosen), consumer first,
/// separated by commas.
pub open spec fn selection_text(s: ConsumerProviderSelection) -> Seq<char> {
    if !s.consumer && !s.provider || s.consumer && s.provider {
        side_name(ConsumerProvider::Consumer) + ", "@ + side_name(ConsumerProvider::Provider)
    } else if s.consumer {
        side_name(ConsumerProvider::Consumer)
    } else {
        side_name(ConsumerProvider::Provider)
    }
}

/// The selection with `side` chosen when it was not, and no longer chosen when it was.
pub open spec fn toggled(s: ConsumerProviderSelection, side: ConsumerProvider) -> ConsumerProviderSelection {
    match side {
        ConsumerProvider::Consumer => ConsumerProviderSelection { consumer: !s.consumer, provider: s.provider },
        ConsumerProvider::Provider => ConsumerProviderSelection { consumer: s.consumer, provider: !s.provider },
    }
}

impl ConsumerProviderSelection {
    /// No side chosen.
    pub fn new() -> (res: Self)
        ensures
            !res.consumer && !res.provider,
    {
        ConsumerProviderSelection { consumer: false, provider: false }
    }

    /// Whether `side` is chosen.
    pub fn contains(&self, side: ConsumerProvider) -> (res: bool)
        ensures
            res == chosen(*self, side),
    {
        match side {
            ConsumerProvider::Consumer => self.consumer,
            ConsumerProvider::Provider => self.provider,
        }
    }

    /// No side is chosen.
    pub fn is_empty(&self) -> (res: bool)
        ensures
            res == (!self.consumer && !self.provider),
    {
        !self.consumer && !self.provider
    }

    /// The selection with `side` chosen when it was not, and no longer chosen when it was.
    pub fn toggle(&self, side: ConsumerProvider) -> (res: Self)
        ensures
            res == toggled(*self, side),
            chosen(res, side) == !chosen(*self, side),
            forall|other: ConsumerProvider| other != side ==> chosen(res, other) == chosen(*self, other),
    {
        match side {
            ConsumerProvider::Consumer => ConsumerProviderSelection { consumer: !self.consumer, provider: self.provider },
            ConsumerProvider::Provider => ConsumerProviderSelection { consumer: self.consumer, provider: !self.provider },
        }
    }

    /// Whether the entry for `side` shows as selected: when nothing is chosen, or it is.
    pub fn shows(&self, side: ConsumerProvider) -> (res: bool)
        ensures
            res == ((!self.consumer && !self.provider) || chosen(*self, side)),
    {
        self.is_empty() || self.contains(side)
    }

    /// The names of the sides the selection shows.
    pub fn label(&self) -> (res: String)
        ensures
            res@ == selection_text(*self),
    {
        if !self.consumer && !self.provider || self.consumer && self.provider {
            let mut text = ConsumerProvider::Consumer.name();
            text.append(", ");
            text.append(ConsumerProvider::Provider.name().as_str());
            text
        } else if self.consumer {
            ConsumerProvider::Consumer.name()
        } else {
            ConsumerProvider::Provider.name()
        }
    }
}

/// The state of a checkbox.
#[derive(Debug, Clone, Copy, PartialEq, Eq)]
pub enum CheckboxState {
    Checked,
    Unchecked,
    Indeterminate,
}

/// Whether an asset has an id other than `id`.
pub open spec fn other_id(id: Seq<char>) -> spec_fn(AssetItem) -> bool {
    |a: AssetItem| a.id@ != id
}

/// The assets of `selected` whose id is not `id`, in order.
pub open spec fn without_id(selected: Seq<AssetItem>, id: Seq<char>) -> Seq<AssetItem> {
    selected.filter(other_id(id))
}

/// The selected assets after the checkbox of `asset` went to `state`: a checked asset is
/// added at the end, an unchecked one is removed with every asset of the same id.
pub fn select_asset(selected: Vec<AssetItem>, asset: AssetItem, state: CheckboxState) -> (res: Vec<AssetItem>)
    ensures
        state == CheckboxState::Checked ==> res@ == selected@.push(asset),
        state == CheckboxState::Unchecked ==> res@ == without_id(selected@, asset.id@),
        state == CheckboxState::Indeterminate ==> res@ == selected@,
{
    match state {
        CheckboxState::Checked => {
            let mut selected = selected;
            selected.push(asset);
            selected
        },
        CheckboxState::Unchecked => {
            let ghost all = selected@;
            let mut out: Vec<AssetItem> = Vec::new();
            for item in it: selected
                invariant
                    it.seq() == all,
                    out@ == without_id(all.take(it.index() as int), asset.id@),
            {
                let ghost k = it.index() as int;
                proof {
                    reveal(Seq::filter);
                    assert(all.take(k + 1).drop_last() =~= all.take(k));
                    assert(all.take(k + 1).last() == item);
                }
                if !str_eq(item.id.as_str(), asset.id.as_str()) {
                    out.push(item);
                }
            }
            proof {
                assert(all.take(all.len() as int) =~= all);
            }
            out
        },
        CheckboxState::Indeterminate => selected,
    }
}

/// The list with entry `index` replaced by `value`.
pub fn replace_at<T>(items: Vec<T>, index: usize, value: T) -> (res: Vec<T>)
    requires
        index < items.len(),
    ensures
        res@ == items@.update(index as int, value),
{
    let mut items = items;
    items.set(index, value);
    items
}

/// The list without entry `index`.
pub fn remove_at<T>(items: Vec<T>, index: usize) -> (res: Vec<T>)
    requires
        index < items.len(),
    ensures
        res@ == items@.remove(index as int),
{
    let mut items = items;
    items.remove(index);
    items
}

/// The list with an empty entry added at the end.
pub fn add_empty(values: Vec<String>) -> (res: Vec<String>)
    ensures
        res@.len() == values@.len() + 1,
        res@.take(values@.len() as int) == values@,
        res@[values@.len() as int]@ == Seq::<char>::empty(),
{
    let mut values = values;
    values.push(String::new());
    assert(values@.take(values@.len() - 1) =~= values@.drop_last());
    values
}

} // verus!
