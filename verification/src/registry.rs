//! The datasets that are loaded, by the path of their root, in the order in
//! which they were loaded.

use indexmap::IndexMap;
use std::collections::hash_map::RandomState;
use vstd::prelude::*;
use crate::error::{HistoryError, HistoryErrorView};
use crate::loader::{DataLoader, LoadedDataset, MyselfChooser};
use crate::request::{is_outcome_of, outcome_of, status_message_of, Status, StatusCode};

verus! {

/// `indexmap::IndexMap`, a map that keeps its keys in the order in which
/// they were inserted. Nothing is known of a value of it but what the
/// functions below say.
#[verifier::external_type_specification]
#[verifier::external_body]
#[verifier::reject_recursive_types(K)]
#[verifier::reject_recursive_types(V)]
#[verifier::reject_recursive_types(S)]
pub struct ExIndexMap<K, V, S>(IndexMap<K, V, S>);

/// What the map holds: its keys with their datasets, in the order of the
/// map.
pub uninterp spec fn slots_of(map: IndexMap<String, LoadedDataset, RandomState>) -> Seq<
    (Seq<char>, LoadedDataset),
>;

/// Whether `slots` holds `key` at `index`.
pub open spec fn holds_at(slots: Seq<(Seq<char>, LoadedDataset)>, key: Seq<char>, index: int) -> bool {
    0 <= index < slots.len() && slots[index].0 == key
}

/// Whether `slots` holds `key`.
pub open spec fn holds(slots: Seq<(Seq<char>, LoadedDataset)>, key: Seq<char>) -> bool {
    exists|index: int| holds_at(slots, key, index)
}

/// Whether no key occurs twice in `slots`.
pub open spec fn distinct_keys(slots: Seq<(Seq<char>, LoadedDataset)>) -> bool {
    forall|i: int, j: int|
        0 <= i < slots.len() && 0 <= j < slots.len() && i != j ==> (#[trigger] slots[i]).0 != (
        #[trigger] slots[j]).0
}

/// `IndexMap::new`: a map that holds nothing.
#[verifier::external_body]
fn map_new() -> (map: IndexMap<String, LoadedDataset, RandomState>)
    ensures
        slots_of(map) == Seq::<(Seq<char>, LoadedDataset)>::empty(),
{
    IndexMap::new()
}

/// `IndexMap::len`: the number of keys.
#[verifier::external_body]
fn map_len(map: &IndexMap<String, LoadedDataset, RandomState>) -> (len: usize)
    ensures
        len == slots_of(*map).len(),
{
    map.len()
}

/// `IndexMap::get_index`, the key only: the key at `index` in the order of
/// the map, if the map has that many.
#[verifier::external_body]
fn map_key_at(map: &IndexMap<String, LoadedDataset, RandomState>, index: usize) -> (key: Option<
    &String,
>)
    ensures
        match key {
            Some(k) => index < slots_of(*map).len() && k@ == slots_of(*map)[index as int].0,
            None => index >= slots_of(*map).len(),
        },
{
    map.get_index(index).map(|slot| slot.0)
}

/// `IndexMap::get`: the dataset under `key`, if the map holds the key.
#[verifier::external_body]
fn map_get<'a>(map: &'a IndexMap<String, LoadedDataset, RandomState>, key: &str) -> (found: Option<
    &'a LoadedDataset,
>)
    ensures
        match found {
            Some(dataset) => exists|index: int|
                holds_at(slots_of(*map), key@, index) && *dataset == slots_of(*map)[index].1,
            None => !holds(slots_of(*map), key@),
        },
{
    map.get(key)
}

/// `IndexMap::get_mut`: the dataset under `key`, to be changed in its
/// place; nothing else in the map changes.
#[verifier::external_body]
fn map_get_mut<'a>(map: &'a mut IndexMap<String, LoadedDataset, RandomState>, key: &str) -> (found:
    Option<&'a mut LoadedDataset>)
    ensures
        match found {
            Some(dataset) => exists|index: int|
                holds_at(slots_of(*old(map)), key@, index) && *dataset == slots_of(
                    *old(map),
                )[index].1 && slots_of(*final(map)) == slots_of(*old(map)).update(
                    index,
                    (key@, *final(dataset)),
                ),
            None => !holds(slots_of(*old(map)), key@) && slots_of(*final(map)) == slots_of(
                *old(map),
            ),
        },
{
    map.get_mut(key)
}

/// `IndexMap::insert`: under a key that the map holds, the dataset is
/// replaced in its place and the former one comes back; a new key goes
/// last with its dataset, and nothing comes back.
#[verifier::external_body]
fn map_insert(
    map: &mut IndexMap<String, LoadedDataset, RandomState>,
    key: String,
    dataset: LoadedDataset,
) -> (former: Option<LoadedDataset>)
    ensures
        match former {
            Some(previous) => exists|index: int|
                holds_at(slots_of(*old(map)), key@, index) && previous == slots_of(
                    *old(map),
                )[index].1 && slots_of(*final(map)) == slots_of(*old(map)).update(
                    index,
                    (key@, dataset),
                ),
            None => !holds(slots_of(*old(map)), key@) && slots_of(*final(map)) == slots_of(
                *old(map),
            ).push((key@, dataset)),
        },
{
    map.insert(key, dataset)
}

/// `IndexMap::shift_remove`: the key leaves the map with its dataset, which
/// comes back, and those behind it move up in their order; nothing happens
/// if the map does not hold the key.
#[verifier::external_body]
fn map_shift_remove(map: &mut IndexMap<String, LoadedDataset, RandomState>, key: &str) -> (removed:
    Option<LoadedDataset>)
    ensures
        match removed {
            Some(dataset) => exists|index: int|
                holds_at(slots_of(*old(map)), key@, index) && dataset == slots_of(
                    *old(map),
                )[index].1 && slots_of(*final(map)) == slots_of(*old(map)).remove(index),
            None => !holds(slots_of(*old(map)), key@) && slots_of(*final(map)) == slots_of(
                *old(map),
            ),
        },
{
    map.shift_remove(key)
}

/// The position of `key` in `slots`, if `slots` holds it.
pub open spec fn position_of(slots: Seq<(Seq<char>, LoadedDataset)>, key: Seq<char>) -> Option<int> {
    if holds(slots, key) {
        Some(choose|index: int| holds_at(slots, key, index))
    } else {
        None
    }
}

/// The dataset under `key` in `slots`, if `slots` holds the key.
pub open spec fn dataset_of(slots: Seq<(Seq<char>, LoadedDataset)>, key: Seq<char>) -> Option<
    LoadedDataset,
> {
    match position_of(slots, key) {
        Some(index) => Some(slots[index].1),
        None => None,
    }
}

/// `slots` without `key` and its dataset.
pub open spec fn without(slots: Seq<(Seq<char>, LoadedDataset)>, key: Seq<char>) -> Seq<
    (Seq<char>, LoadedDataset),
> {
    match position_of(slots, key) {
        Some(index) => slots.remove(index),
        None => slots,
    }
}

/// `slots` with `dataset` under `key`: in the place that the key has, or
/// last under a new key.
pub open spec fn with_dataset(
    slots: Seq<(Seq<char>, LoadedDataset)>,
    key: Seq<char>,
    dataset: LoadedDataset,
) -> Seq<(Seq<char>, LoadedDataset)> {
    match position_of(slots, key) {
        Some(index) => slots.update(index, (key, dataset)),
        None => slots.push((key, dataset)),
    }
}

/// Where no key occurs twice, a key is held at one position only.
pub proof fn lemma_position_unique(slots: Seq<(Seq<char>, LoadedDataset)>, key: Seq<char>, index: int)
    requires
        distinct_keys(slots),
        holds_at(slots, key, index),
    ensures
        position_of(slots, key) == Some(index),
        dataset_of(slots, key) == Some(slots[index].1),
{
}

/// After a dataset has been unloaded, its key is not held any more.
pub proof fn lemma_unloaded_is_absent(slots: Seq<(Seq<char>, LoadedDataset)>, key: Seq<char>)
    requires
        distinct_keys(slots),
    ensures
        !holds(without(slots, key), key),
        distinct_keys(without(slots, key)),
{
}

/// Once a dataset is loaded under a key, it is found there, whether it was
/// loaded just now or before.
pub proof fn lemma_loaded_is_found(
    slots: Seq<(Seq<char>, LoadedDataset)>,
    key: Seq<char>,
    dataset: LoadedDataset,
)
    requires
        distinct_keys(slots),
    ensures
        distinct_keys(with_dataset(slots, key, dataset)),
        dataset_of(with_dataset(slots, key, dataset), key) == Some(dataset),
{
    let after = with_dataset(slots, key, dataset);
    match position_of(slots, key) {
        Some(index) => {
            lemma_position_unique(after, key, index);
        },
        None => {
            let last = slots.len() as int;
            assert forall|i: int, j: int|
                0 <= i < after.len() && 0 <= j < after.len() && i != j implies (
            #[trigger] after[i]).0 != (#[trigger] after[j]).0 by {
                if i < last {
                    assert(!holds_at(slots, key, i));
                }
                if j < last {
                    assert(!holds_at(slots, key, j));
                }
            }
            lemma_position_unique(after, key, last);
        },
    }
}

/// The loaded datasets, each under the path of its root, in the order in
/// which they were loaded. No path occurs twice.
pub struct Registry {
    loaded: IndexMap<String, LoadedDataset, RandomState>,
}

impl View for Registry {
    type V = Seq<(Seq<char>, LoadedDataset)>;

    /// The keys with their datasets, in the order in which they were loaded.
    closed spec fn view(&self) -> Seq<(Seq<char>, LoadedDataset)> {
        slots_of(self.loaded)
    }
}

impl Registry {
    /// Whether the registry is as its own functions leave it: no key occurs
    /// twice.
    pub open spec fn wf(&self) -> bool {
        distinct_keys(self@)
    }

    /// A registry with no dataset.
    pub fn new() -> (registry: Registry)
        ensures
            registry.wf(),
            registry@ == Seq::<(Seq<char>, LoadedDataset)>::empty(),
    {
        Registry { loaded: map_new() }
    }

    /// The number of datasets that are loaded.
    pub fn len(&self) -> (len: usize)
        ensures
            len == self@.len(),
    {
        map_len(&self.loaded)
    }

    /// The keys of the loaded datasets, in the order in which they were
    /// loaded.
    pub fn keys(&self) -> (keys: Vec<String>)
        ensures
            keys@.len() == self@.len(),
            forall|i: int| 0 <= i < keys@.len() ==> (#[trigger] keys@[i])@ == self@[i].0,
    {
        let mut keys: Vec<String> = Vec::new();
        let len = map_len(&self.loaded);
        let mut i: usize = 0;
        while i < len
            invariant
                i <= len == self@.len(),
                keys@.len() == i,
                forall|j: int| 0 <= j < i ==> (#[trigger] keys@[j])@ == self@[j].0,
            decreases len - i,
        {
            if let Some(key) = map_key_at(&self.loaded, i) {
                keys.push(key.clone());
            }
            i += 1;
        }
        keys
    }

    /// Whether a dataset is loaded under `key`.
    pub fn is_loaded(&self, key: &str) -> (loaded: bool)
        ensures
            loaded == holds(self@, key@),
    {
        map_get(&self.loaded, key).is_some()
    }

    /// The dataset that is loaded under `key`. It is an error for none to be
    /// loaded there.
    pub fn get(&self, key: &str) -> (found: Result<&LoadedDataset, HistoryError>)
        requires
            self.wf(),
        ensures
            match found {
                Ok(dataset) => dataset_of(self@, key@) == Some(*dataset),
                Err(error) => !holds(self@, key@) && error@ == HistoryErrorView::NotLoaded(key@),
            },
    {
        match map_get(&self.loaded, key) {
            Some(dataset) => {
                proof {
                    let index = choose|index: int|
                        holds_at(self@, key@, index) && *dataset == self@[index].1;
                    lemma_position_unique(self@, key@, index);
                }
                Ok(dataset)
            },
            None => Err(HistoryError::NotLoaded(key.to_owned())),
        }
    }

    /// Takes what a loader made of the source at `key` into the registry. A
    /// dataset is kept under `key`: behind those that are loaded, or, where
    /// one is loaded under `key` already, in the place of that one. A
    /// failure of the loader is handed on with the registry as it was.
    pub fn take_in(&mut self, key: &str, loaded: Result<LoadedDataset, HistoryError>) -> (taken:
        Result<(), HistoryError>)
        requires
            old(self).wf(),
        ensures
            final(self).wf(),
            match loaded {
                Ok(dataset) => taken is Ok && final(self)@ == with_dataset(
                    old(self)@,
                    key@,
                    dataset,
                ) && dataset_of(final(self)@, key@) == Some(dataset),
                Err(error) => taken == Err::<(), HistoryError>(error) && final(self)@ == old(self)@,
            },
    {
        match loaded {
            Ok(dataset) => {
                let ghost before = self@;
                let former = map_insert(&mut self.loaded, key.to_owned(), dataset);
                proof {
                    lemma_loaded_is_found(before, key@, dataset);
                    if former is Some {
                        let index = choose|index: int|
                            holds_at(before, key@, index) && self@ == before.update(
                                index,
                                (key@, dataset),
                            );
                        lemma_position_unique(before, key@, index);
                    }
                }
                Ok(())
            },
            Err(error) => Err(error),
        }
    }

    /// The dataset under `key`: the one that is loaded there, or else the
    /// one that `loader` makes of the source at `key`, which is then kept
    /// under `key`, behind those that are loaded. The loader is asked only
    /// where nothing is loaded under `key`. Its failure is handed on, and
    /// the registry is then as it was.
    pub fn resolve_or_load<L: DataLoader + ?Sized>(
        &mut self,
        key: &str,
        loader: &L,
        myself_chooser: &dyn MyselfChooser,
    ) -> (resolved: Result<&LoadedDataset, HistoryError>)
        requires
            old(self).wf(),
        ensures
            final(self).wf(),
            holds(old(self)@, key@) ==> final(self)@ == old(self)@ && resolved is Ok
                && dataset_of(old(self)@, key@) == Some(*resolved->Ok_0),
            !holds(old(self)@, key@) ==> exists|loaded: Result<LoadedDataset, HistoryError>|
                {
                    &&& #[trigger] call_ensures(L::load, (loader, key, myself_chooser), loaded)
                    &&& match loaded {
                        Ok(dataset) => resolved is Ok && *resolved->Ok_0 == dataset
                            && final(self)@ == old(self)@.push((key@, dataset)),
                        Err(error) => resolved is Err && resolved->Err_0 == error
                            && final(self)@ == old(self)@,
                    }
                },
            resolved matches Ok(dataset) ==> dataset_of(final(self)@, key@) == Some(*dataset),
    {
        if !self.is_loaded(key) {
            let loaded = loader.load(key, myself_chooser);
            let ghost outcome = loaded;
            if let Err(error) = self.take_in(key, loaded) {
                return Err(error);
            }
            proof {
                lemma_loaded_is_found(old(self)@, key@, outcome->Ok_0);
            }
        }
        self.get(key)
    }

    /// Unloads the dataset under `key` and hands it out; those that were
    /// loaded after it keep their order. It is an error for none to be
    /// loaded there.
    pub fn unload(&mut self, key: &str) -> (unloaded: Result<LoadedDataset, HistoryError>)
        requires
            old(self).wf(),
        ensures
            final(self).wf(),
            final(self)@ == without(old(self)@, key@),
            !holds(final(self)@, key@),
            match unloaded {
                Ok(dataset) => dataset_of(old(self)@, key@) == Some(dataset),
                Err(error) => !holds(old(self)@, key@) && error@ == HistoryErrorView::NotLoaded(
                    key@,
                ),
            },
    {
        proof {
            lemma_unloaded_is_absent(self@, key@);
        }
        let ghost before = self@;
        match map_shift_remove(&mut self.loaded, key) {
            Some(dataset) => {
                proof {
                    let index = choose|index: int|
                        holds_at(before, key@, index) && dataset == before[index].1 && slots_of(
                            self.loaded,
                        ) == before.remove(index);
                    lemma_position_unique(before, key@, index);
                }
                Ok(dataset)
            },
            None => Err(HistoryError::NotLoaded(key.to_owned())),
        }
    }

    /// Serves a request on the dataset under `key`: runs `logic` on the
    /// request and that dataset, which it may change in its place, and gives
    /// the caller the response, or the failure as a status. Where no dataset
    /// is loaded under `key`, `logic` is not run, nothing changes, and the
    /// caller is told that a precondition failed.
    pub fn process_request_with_dao<Q, P, L: FnOnce(&Q, &mut LoadedDataset) -> Result<P, HistoryError>>(
        &mut self,
        req: &Q,
        key: &str,
        logic: L,
    ) -> (outcome: Result<P, Status>)
        requires
            old(self).wf(),
            forall|dataset: &mut LoadedDataset| logic.requires((req, dataset)),
        ensures
            final(self).wf(),
            !holds(old(self)@, key@) ==> final(self)@ == old(self)@ && outcome is Err
                && outcome->Err_0.code == StatusCode::FailedPrecondition
                && outcome->Err_0.message@ == status_message_of(HistoryErrorView::NotLoaded(key@)),
            holds(old(self)@, key@) ==> exists|
                dataset: &mut LoadedDataset,
                result: Result<P, HistoryError>,
            |
                {
                    &&& dataset_of(old(self)@, key@) == Some(*dataset)
                    &&& logic.ensures((req, dataset), result)
                    &&& final(self)@ == with_dataset(old(self)@, key@, *final(dataset))
                    &&& is_outcome_of(result, outcome)
                },
    {
        match map_get_mut(&mut self.loaded, key) {
            Some(dataset) => {
                let ghost served = dataset;
                let result = logic(req, dataset);
                proof {
                    let index = choose|index: int|
                        holds_at(old(self)@, key@, index) && *served == old(self)@[index].1
                            && slots_of(self.loaded) == old(self)@.update(
                            index,
                            (key@, *final(served)),
                        );
                    lemma_position_unique(old(self)@, key@, index);
                }
                outcome_of(result)
            },
            None => outcome_of(Err(HistoryError::NotLoaded(key.to_owned()))),
        }
    }
}

} // verus!
