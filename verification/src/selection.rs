//! The set of entities that the user chose to show in the menu.
//!
//! The set is keyed by entity identifier: no identifier occurs twice. It
//! keeps its entries in the order in which their identifiers first came in.

use vstd::prelude::*;
use vstd::string::*;
use crate::entity::{models, BooleanEntity, EntityModel};
use crate::text::same_text;

verus! {

/// Some entry of `s` has the identifier `id`.
pub open spec fn has_id(s: Seq<EntityModel>, id: Seq<char>) -> bool {
    exists|i: int| 0 <= i < s.len() && (#[trigger] s[i]).id == id
}

/// The place of an entry of `s` with the identifier `id`.
pub open spec fn index_of(s: Seq<EntityModel>, id: Seq<char>) -> int {
    choose|i: int| 0 <= i < s.len() && (#[trigger] s[i]).id == id
}

/// No identifier occurs twice in `s`.
pub open spec fn distinct_ids(s: Seq<EntityModel>) -> bool {
    forall|i: int, j: int|
        0 <= i < j < s.len() ==> (#[trigger] s[i]).id != (#[trigger] s[j]).id
}

/// `s` after `entity` was selected: it takes the place of the entry with its
/// identifier, or comes last where there is none.
pub open spec fn with_selected(s: Seq<EntityModel>, entity: EntityModel) -> Seq<EntityModel> {
    if has_id(s, entity.id) {
        s.update(index_of(s, entity.id), entity)
    } else {
        s.push(entity)
    }
}

/// `s` after the entity with the identifier `id` was deselected.
pub open spec fn without(s: Seq<EntityModel>, id: Seq<char>) -> Seq<EntityModel> {
    if has_id(s, id) {
        s.remove(index_of(s, id))
    } else {
        s
    }
}

/// `s` after each of `entities` was selected in turn.
pub open spec fn with_all_selected(s: Seq<EntityModel>, entities: Seq<EntityModel>) -> Seq<
    EntityModel,
>
    decreases entities.len(),
{
    if entities.len() == 0 {
        s
    } else {
        with_selected(with_all_selected(s, entities.drop_last()), entities.last())
    }
}

/// `entity` is in `s`, and no other entry of `s` has its identifier.
pub open spec fn occurs_once(s: Seq<EntityModel>, entity: EntityModel) -> bool {
    exists|i: int|
        0 <= i < s.len() && #[trigger] s[i] == entity && forall|j: int|
            0 <= j < s.len() && (#[trigger] s[j]).id == entity.id ==> j == i
}

/// The set as a mapping from identifier to entity.
pub open spec fn as_map(s: Seq<EntityModel>) -> Map<Seq<char>, EntityModel> {
    Map::new(|id: Seq<char>| has_id(s, id), |id: Seq<char>| s[index_of(s, id)])
}

/// In a set without repeated identifiers, the only place of an identifier is
/// the one that `index_of` gives.
pub proof fn lemma_index_of(s: Seq<EntityModel>, i: int)
    requires
        distinct_ids(s),
        0 <= i < s.len(),
    ensures
        has_id(s, s[i].id),
        index_of(s, s[i].id) == i,
{
    let id = s[i].id;
    assert(has_id(s, id));
    let k = index_of(s, id);
    assert(0 <= k < s.len() && s[k].id == id);
    if k < i {
        assert(s[k].id != s[i].id);
    } else if i < k {
        assert(s[i].id != s[k].id);
    }
}

/// Selecting keeps the identifiers distinct, and the selected entity is then
/// in the set exactly once.
pub proof fn law_select_lists_once(s: Seq<EntityModel>, entity: EntityModel)
    requires
        distinct_ids(s),
    ensures
        distinct_ids(with_selected(s, entity)),
        occurs_once(with_selected(s, entity), entity),
        has_id(with_selected(s, entity), entity.id),
{
    let r = with_selected(s, entity);
    if has_id(s, entity.id) {
        let k = index_of(s, entity.id);
        assert(0 <= k < s.len() && s[k].id == entity.id);
        assert forall|i: int, j: int| 0 <= i < j < r.len() implies (#[trigger] r[i]).id != (
        #[trigger] r[j]).id by {
            assert(r[i].id == s[i].id);
            assert(r[j].id == s[j].id);
        }
        assert(r[k] == entity);
        assert forall|j: int| 0 <= j < r.len() && (#[trigger] r[j]).id == entity.id implies j
            == k by {
            assert(r[j].id == s[j].id);
            lemma_index_of(s, j);
        }
    } else {
        let k = s.len() as int;
        assert forall|i: int, j: int| 0 <= i < j < r.len() implies (#[trigger] r[i]).id != (
        #[trigger] r[j]).id by {
            assert(r[i] == s[i]);
            if j < k {
                assert(r[j] == s[j]);
            }
        }
        assert(r[k] == entity);
        assert forall|j: int| 0 <= j < r.len() && (#[trigger] r[j]).id == entity.id implies j
            == k by {
            if j < k {
                assert(r[j] == s[j]);
            }
        }
    }
}

/// Deselecting keeps the identifiers distinct, and no entry with the
/// identifier is left.
pub proof fn law_deselect_removes(s: Seq<EntityModel>, id: Seq<char>)
    requires
        distinct_ids(s),
    ensures
        distinct_ids(without(s, id)),
        !has_id(without(s, id), id),
{
    let r = without(s, id);
    if has_id(s, id) {
        let k = index_of(s, id);
        assert(0 <= k < s.len() && s[k].id == id);
        assert forall|i: int, j: int| 0 <= i < j < r.len() implies (#[trigger] r[i]).id != (
        #[trigger] r[j]).id by {
            let si = if i < k { i } else { i + 1 };
            let sj = if j < k { j } else { j + 1 };
            assert(r[i] == s[si]);
            assert(r[j] == s[sj]);
        }
        assert forall|i: int| 0 <= i < r.len() implies (#[trigger] r[i]).id != id by {
            let si = if i < k { i } else { i + 1 };
            assert(r[i] == s[si]);
            if s[si].id == id {
                lemma_index_of(s, si);
            }
        }
    }
}

/// Deselecting an entity that is not selected changes nothing, so a second
/// deselection of the same entity is without effect.
pub proof fn law_deselect_idempotent(s: Seq<EntityModel>, id: Seq<char>)
    requires
        distinct_ids(s),
    ensures
        without(without(s, id), id) == without(s, id),
{
    law_deselect_removes(s, id);
}

/// An entity that was selected and then deselected is no longer in the set.
pub proof fn law_select_then_deselect(s: Seq<EntityModel>, entity: EntityModel)
    requires
        distinct_ids(s),
    ensures
        !has_id(without(with_selected(s, entity), entity.id), entity.id),
        !has_id(s, entity.id) ==> without(with_selected(s, entity), entity.id) == s,
{
    let r = with_selected(s, entity);
    law_select_lists_once(s, entity);
    law_deselect_removes(r, entity.id);
    if !has_id(s, entity.id) {
        let k = s.len() as int;
        assert(r[k] == entity);
        lemma_index_of(r, k);
        assert(r.remove(k) =~= s);
    }
}

/// Selecting entities in turn keeps the identifiers distinct.
pub proof fn law_all_selected_distinct(s: Seq<EntityModel>, entities: Seq<EntityModel>)
    requires
        distinct_ids(s),
    ensures
        distinct_ids(with_all_selected(s, entities)),
    decreases entities.len(),
{
    if entities.len() > 0 {
        law_all_selected_distinct(s, entities.drop_last());
        law_select_lists_once(with_all_selected(s, entities.drop_last()), entities.last());
    }
}

/// A set that is stored entry by entry and restored is the same set.
pub proof fn law_restore_round_trip(s: Seq<EntityModel>)
    requires
        distinct_ids(s),
    ensures
        with_all_selected(Seq::empty(), s) == s,
    decreases s.len(),
{
    if s.len() == 0 {
        assert(s =~= Seq::empty());
    } else {
        let front = s.drop_last();
        assert forall|i: int, j: int| 0 <= i < j < front.len() implies (#[trigger] front[i]).id
            != (#[trigger] front[j]).id by {
            assert(front[i] == s[i]);
            assert(front[j] == s[j]);
        }
        law_restore_round_trip(front);
        assert forall|i: int| 0 <= i < front.len() implies (#[trigger] front[i]).id
            != s.last().id by {
            assert(front[i] == s[i]);
            assert(s[i].id != s[s.len() - 1].id);
        }
        assert(!has_id(front, s.last().id));
        assert(front.push(s.last()) =~= s);
    }
}

/// Selecting an entity is an insertion under its identifier: the mapping
/// gets the entity at that key and is otherwise as before.
pub proof fn law_select_is_insert(s: Seq<EntityModel>, entity: EntityModel)
    requires
        distinct_ids(s),
    ensures
        as_map(with_selected(s, entity)) == as_map(s).insert(entity.id, entity),
{
    let r = with_selected(s, entity);
    law_select_lists_once(s, entity);
    let k = choose|i: int|
        0 <= i < r.len() && #[trigger] r[i] == entity && forall|j: int|
            0 <= j < r.len() && (#[trigger] r[j]).id == entity.id ==> j == i;
    lemma_index_of(r, k);
    assert forall|id: Seq<char>| id != entity.id && has_id(s, id) implies has_id(r, id)
        && r[index_of(r, id)] == s[index_of(s, id)] by {
        let i = index_of(s, id);
        assert(0 <= i < s.len() && s[i].id == id);
        lemma_index_of(s, i);
        assert(r[i] == s[i]);
        lemma_index_of(r, i);
    }
    assert forall|id: Seq<char>| id != entity.id && has_id(r, id) implies has_id(s, id) by {
        let i = index_of(r, id);
        assert(0 <= i < r.len() && r[i].id == id);
        assert(i < s.len() && r[i] == s[i]);
    }
    assert(as_map(r) =~= as_map(s).insert(entity.id, entity));
}

/// Deselecting is a removal of the identifier: the mapping loses that key
/// and is otherwise as before.
pub proof fn law_deselect_is_remove(s: Seq<EntityModel>, id: Seq<char>)
    requires
        distinct_ids(s),
    ensures
        as_map(without(s, id)) == as_map(s).remove(id),
{
    let r = without(s, id);
    law_deselect_removes(s, id);
    if has_id(s, id) {
        let k = index_of(s, id);
        assert(0 <= k < s.len() && s[k].id == id);
        assert forall|other: Seq<char>| other != id && has_id(s, other) implies has_id(r, other)
            && r[index_of(r, other)] == s[index_of(s, other)] by {
            let i = index_of(s, other);
            assert(0 <= i < s.len() && s[i].id == other);
            lemma_index_of(s, i);
            let ri = if i < k { i } else { i - 1 };
            assert(r[ri] == s[i]);
            lemma_index_of(r, ri);
        }
        assert forall|other: Seq<char>| has_id(r, other) implies has_id(s, other) by {
            let i = index_of(r, other);
            assert(0 <= i < r.len() && r[i].id == other);
            let si = if i < k { i } else { i + 1 };
            assert(r[i] == s[si]);
        }
        assert(as_map(r) =~= as_map(s).remove(id));
    } else {
        assert(as_map(r) =~= as_map(s).remove(id));
    }
}

/// Every entry of the mapping is filed under its own identifier.
pub proof fn law_keys_are_ids(s: Seq<EntityModel>, id: Seq<char>)
    requires
        as_map(s).dom().contains(id),
    ensures
        as_map(s)[id].id == id,
{
    assert(has_id(s, id));
    let k = index_of(s, id);
    assert(0 <= k < s.len() && s[k].id == id);
}

/// What the durable store holds under the key of the selection.
#[derive(Debug)]
pub enum StoredSelection {
    /// Nothing was stored yet.
    Absent,
    /// Something is stored that does not read as a selection.
    Corrupt,
    /// The stored entities.
    Present(Vec<BooleanEntity>),
}

/// The selection that the store holds: empty where nothing is stored or what
/// is stored cannot be read, else the stored entities, a later one taking the
/// place of an earlier one with its identifier.
pub open spec fn restored(stored: StoredSelection) -> Seq<EntityModel> {
    match stored {
        StoredSelection::Present(entities) => with_all_selected(Seq::empty(), models(entities@)),
        _ => Seq::empty(),
    }
}

/// Whatever the store holds, no identifier occurs twice in what is restored
/// from it.
pub proof fn law_restored_distinct(stored: StoredSelection)
    ensures
        distinct_ids(restored(stored)),
{
    match stored {
        StoredSelection::Present(entities) => {
            law_all_selected_distinct(Seq::empty(), models(entities@));
        },
        _ => {},
    }
}

/// The selected entities, keyed by identifier.
#[derive(Debug)]
pub struct SelectedEntitySet {
    entries: Vec<BooleanEntity>,
}

impl View for SelectedEntitySet {
    type V = Seq<EntityModel>;

    closed spec fn view(&self) -> Seq<EntityModel> {
        models(self.entries@)
    }
}

impl SelectedEntitySet {
    /// No identifier occurs twice.
    pub open spec fn wf(&self) -> bool {
        distinct_ids(self@)
    }

    /// The empty set.
    pub fn new() -> (res: Self)
        ensures
            res.wf(),
            res@ == Seq::<EntityModel>::empty(),
    {
        let res = SelectedEntitySet { entries: Vec::new() };
        assert(res@ =~= Seq::<EntityModel>::empty());
        res
    }

    /// The set that the store holds.
    pub fn restore(stored: StoredSelection) -> (res: Self)
        ensures
            res.wf(),
            res@ == restored(stored),
    {
        let mut set = SelectedEntitySet::new();
        match stored {
            StoredSelection::Present(entities) => {
                let mut i: usize = 0;
                while i < entities.len()
                    invariant
                        i <= entities.len(),
                        set.wf(),
                        set@ == with_all_selected(Seq::empty(), models(entities@).take(i as int)),
                    decreases entities.len() - i,
                {
                    proof {
                        let next = models(entities@).take(i + 1);
                        assert(next.drop_last() =~= models(entities@).take(i as int));
                        assert(next.last() == entities@[i as int]@);
                    }
                    set.set_selected(entities[i].clone(), true);
                    i += 1;
                }
                assert(models(entities@).take(entities@.len() as int) =~= models(entities@));
            },
            _ => {},
        }
        set
    }

    /// The number of selected entities.
    pub fn len(&self) -> (res: usize)
        ensures
            res == self@.len(),
    {
        self.entries.len()
    }

    /// The place of the entity with the identifier `id`, if it is selected.
    pub fn position(&self, id: &str) -> (res: Option<usize>)
        ensures
            match res {
                Some(i) => i < self@.len() && self@[i as int].id == id@,
                None => !has_id(self@, id@),
            },
            res matches Some(i) ==> forall|j: int| 0 <= j < i ==> (#[trigger] self@[j]).id != id@,
            self.wf() && res.is_some() ==> res.unwrap() == index_of(self@, id@),
            res.is_some() == has_id(self@, id@),
    {
        let mut i: usize = 0;
        while i < self.entries.len()
            invariant
                i <= self.entries.len(),
                forall|j: int| 0 <= j < i ==> (#[trigger] self@[j]).id != id@,
            decreases self.entries.len() - i,
        {
            if same_text(self.entries[i].id.as_str(), id) {
                proof {
                    assert(self@[i as int].id == id@);
                    if self.wf() {
                        lemma_index_of(self@, i as int);
                    }
                }
                return Some(i);
            }
            i += 1;
        }
        None
    }

    /// Whether the entity with the identifier `id` is selected.
    pub fn contains(&self, id: &str) -> (res: bool)
        ensures
            res == has_id(self@, id@),
    {
        self.position(id).is_some()
    }

    /// Selects `entity`, or deselects the entity with its identifier.
    /// Selecting puts `entity` in the place of the entry with its identifier,
    /// or last where there is none; deselecting an entity that is not selected
    /// changes nothing.
    pub fn set_selected(&mut self, entity: BooleanEntity, selected: bool)
        requires
            old(self).wf(),
        ensures
            final(self).wf(),
            final(self)@ == if selected {
                with_selected(old(self)@, entity@)
            } else {
                without(old(self)@, entity@.id)
            },
            selected ==> occurs_once(final(self)@, entity@),
            !selected ==> !has_id(final(self)@, entity@.id),
            !selected && !has_id(old(self)@, entity@.id) ==> final(self)@ == old(self)@,
    {
        let found = self.position(entity.id.as_str());
        proof {
            if selected {
                law_select_lists_once(self@, entity@);
            } else {
                law_deselect_removes(self@, entity@.id);
            }
        }
        let ghost before = self.entries@;
        match found {
            Some(i) => {
                if selected {
                    self.entries.set(i, entity);
                    assert(models(self.entries@) =~= models(before).update(i as int, entity@));
                } else {
                    let _ = self.entries.remove(i);
                    assert(models(self.entries@) =~= models(before).remove(i as int));
                }
            },
            None => {
                if selected {
                    self.entries.push(entity);
                    assert(models(self.entries@) =~= models(before).push(entity@));
                }
            },
        }
    }

    /// The selected entities, each under the key by which it is stored: its
    /// own identifier.
    pub fn keyed(&self) -> (res: Vec<(String, BooleanEntity)>)
        ensures
            res@.len() == self@.len(),
            forall|i: int|
                0 <= i < res@.len() ==> (#[trigger] res@[i]).0@ == self@[i].id && res@[i].1@
                    == self@[i],
    {
        let mut out: Vec<(String, BooleanEntity)> = Vec::new();
        let mut i: usize = 0;
        while i < self.entries.len()
            invariant
                i <= self.entries.len(),
                out@.len() == i,
                forall|j: int|
                    0 <= j < i ==> (#[trigger] out@[j]).0@ == self.entries@[j]@.id && out@[j].1@
                        == self.entries@[j]@,
            decreases self.entries.len() - i,
        {
            out.push((self.entries[i].id.clone(), self.entries[i].clone()));
            i += 1;
        }
        out
    }

    /// The selected entities, in the order of the set.
    pub fn list(&self) -> (res: Vec<BooleanEntity>)
        ensures
            models(res@) == self@,
    {
        let mut out: Vec<BooleanEntity> = Vec::new();
        let mut i: usize = 0;
        while i < self.entries.len()
            invariant
                i <= self.entries.len(),
                models(out@) =~= models(self.entries@).take(i as int),
            decreases self.entries.len() - i,
        {
            let entity = self.entries[i].clone();
            let ghost before = out@;
            out.push(entity);
            proof {
                assert(models(out@) =~= models(before).push(entity@));
                assert(models(self.entries@).take(i + 1) =~= models(self.entries@).take(
                    i as int,
                ).push(self.entries@[i as int]@));
            }
            i += 1;
        }
        assert(models(self.entries@).take(self.entries@.len() as int) =~= models(self.entries@));
        out
    }
}

} // verus!
