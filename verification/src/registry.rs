//! The registry: the collection of the active lots and the archive, each
//! keyed by the identifier of the lot.
//!
//! Both collections keep their lots in the order in which they came. No
//! identifier occurs twice in a collection, and none occurs in both.

use crate::prelude::{ServiceError, ServiceResult};
use crate::text::{lemma_views_push, lemma_views_remove, lemma_views_update, views};
use crate::upl::{Upl, UplView};
use vstd::prelude::*;

verus! {

/// Whether a lot of the collection has the identifier `id`.
pub open spec fn holds_id(lots: Seq<UplView>, id: Seq<char>) -> bool {
    exists|i: int| 0 <= i < lots.len() && (#[trigger] lots[i]).id == id
}

/// The position of a lot with the identifier `id` in the collection.
pub open spec fn index_of(lots: Seq<UplView>, id: Seq<char>) -> int
    recommends
        holds_id(lots, id),
{
    choose|i: int| 0 <= i < lots.len() && (#[trigger] lots[i]).id == id
}

/// The lot of the collection with the identifier `id`.
pub open spec fn lot_of(lots: Seq<UplView>, id: Seq<char>) -> UplView
    recommends
        holds_id(lots, id),
{
    lots[index_of(lots, id)]
}

/// Whether no identifier occurs twice in the collection.
pub open spec fn distinct_ids(lots: Seq<UplView>) -> bool {
    forall|i: int, j: int|
        0 <= i < j < lots.len() ==> (#[trigger] lots[i]).id != (#[trigger] lots[j]).id
}

/// Whether no identifier occurs in both collections.
pub open spec fn disjoint_ids(active: Seq<UplView>, archive: Seq<UplView>) -> bool {
    forall|i: int, j: int|
        0 <= i < active.len() && 0 <= j < archive.len() ==> (#[trigger] active[i]).id != (
        #[trigger] archive[j]).id
}

/// The collection with `lot` in the place of the lot that has its identifier.
pub open spec fn with_lot(lots: Seq<UplView>, lot: UplView) -> Seq<UplView> {
    Seq::new(
        lots.len(),
        |i: int|
            if lots[i].id == lot.id {
                lot
            } else {
                lots[i]
            },
    )
}

/// The collection without the lot that has the identifier `id`.
pub open spec fn without_lot(lots: Seq<UplView>, id: Seq<char>) -> Seq<UplView>
    recommends
        holds_id(lots, id),
{
    lots.remove(index_of(lots, id))
}

/// Where identifiers are distinct, a lot is found at the one position that
/// has its identifier.
pub proof fn lemma_index_unique(lots: Seq<UplView>, id: Seq<char>, i: int)
    requires
        distinct_ids(lots),
        0 <= i < lots.len(),
        lots[i].id == id,
    ensures
        holds_id(lots, id),
        index_of(lots, id) == i,
        lot_of(lots, id) == lots[i],
{
    let j = index_of(lots, id);
    if j < i {
        assert(lots[j].id != lots[i].id);
    } else if i < j {
        assert(lots[i].id != lots[j].id);
    }
}

/// Where identifiers are distinct, putting a lot in the place of the lot with
/// its identifier changes that one position.
pub proof fn lemma_with_lot_is_update(lots: Seq<UplView>, lot: UplView, i: int)
    requires
        distinct_ids(lots),
        0 <= i < lots.len(),
        lots[i].id == lot.id,
    ensures
        with_lot(lots, lot) == lots.update(i, lot),
        distinct_ids(with_lot(lots, lot)),
{
    assert forall|j: int| 0 <= j < lots.len() implies with_lot(lots, lot)[j] == lots.update(
        i,
        lot,
    )[j] by {
        if j < i {
            assert(lots[j].id != lots[i].id);
        } else if i < j {
            assert(lots[i].id != lots[j].id);
        }
    }
    assert(with_lot(lots, lot) =~= lots.update(i, lot));
    let after = lots.update(i, lot);
    assert forall|a: int, b: int| 0 <= a < b < after.len() implies (#[trigger] after[a]).id != (
    #[trigger] after[b]).id by {
        assert(lots[a].id != lots[b].id);
    }
}

/// Putting a lot in the place of a lot with the same identifier keeps the
/// identifiers of the collection.
pub proof fn lemma_update_keeps_ids(lots: Seq<UplView>, i: int, lot: UplView, id: Seq<char>)
    requires
        0 <= i < lots.len(),
        lots[i].id == lot.id,
    ensures
        holds_id(lots.update(i, lot), id) <==> holds_id(lots, id),
{
    let after = lots.update(i, lot);
    if holds_id(lots, id) {
        let j = choose|j: int| 0 <= j < lots.len() && (#[trigger] lots[j]).id == id;
        assert(after[j].id == id);
    }
    if holds_id(after, id) {
        let j = choose|j: int| 0 <= j < after.len() && (#[trigger] after[j]).id == id;
        assert(lots[j].id == id);
    }
}

/// The two collections of the registry as sequences of views.
pub struct RegistryView {
    /// The lots in inventory.
    pub active: Seq<UplView>,
    /// The lots that left inventory.
    pub archive: Seq<UplView>,
}

impl RegistryView {
    /// Whether the registry is well formed: no identifier occurs twice in a
    /// collection, and the two collections share no identifier.
    pub open spec fn wf(self) -> bool {
        &&& distinct_ids(self.active)
        &&& distinct_ids(self.archive)
        &&& disjoint_ids(self.active, self.archive)
    }

    /// Whether a lot with the identifier `id` is stored, in either collection.
    pub open spec fn holds(self, id: Seq<char>) -> bool {
        holds_id(self.active, id) || holds_id(self.archive, id)
    }

    /// The registry with `lot` in the place of the active lot that has its
    /// identifier.
    pub open spec fn with_active(self, lot: UplView) -> RegistryView {
        RegistryView { active: with_lot(self.active, lot), archive: self.archive }
    }

    /// The registry with `lot` as a further active lot.
    pub open spec fn inserted(self, lot: UplView) -> RegistryView {
        RegistryView { active: self.active.push(lot), archive: self.archive }
    }

    /// The registry without the active lot that has the identifier `id`.
    pub open spec fn removed(self, id: Seq<char>) -> RegistryView {
        RegistryView { active: without_lot(self.active, id), archive: self.archive }
    }
}

/// The registry of lots.
pub struct UplService {
    upls: Vec<Upl>,
    archive: Vec<Upl>,
}

impl View for UplService {
    type V = RegistryView;

    closed spec fn view(&self) -> RegistryView {
        RegistryView { active: views(self.upls@), archive: views(self.archive@) }
    }
}

/// The position of the lot with the identifier `id`, if there is one.
pub(crate) fn position(lots: &Vec<Upl>, id: &String) -> (r: Option<usize>)
    ensures
        r is Some <==> holds_id(views(lots@), id@),
        r matches Some(i) ==> i < lots.len() && lots[i as int]@.id == id@,
{
    let mut k: usize = 0;
    while k < lots.len()
        invariant
            k <= lots.len(),
            forall|i: int| 0 <= i < k ==> (#[trigger] views(lots@)[i]).id != id@,
        decreases lots.len() - k,
    {
        if lots[k].id == *id {
            assert(views(lots@)[k as int].id == id@);
            return Some(k);
        }
        k += 1;
    }
    None
}

/// Whether no identifier occurs twice among the lots.
fn has_distinct_ids(lots: &Vec<Upl>) -> (distinct: bool)
    ensures
        distinct == distinct_ids(views(lots@)),
{
    let mut j: usize = 0;
    while j < lots.len()
        invariant
            j <= lots.len(),
            distinct_ids(views(lots@).take(j as int)),
        decreases lots.len() - j,
    {
        let mut i: usize = 0;
        while i < j
            invariant
                i <= j < lots.len(),
                forall|a: int| 0 <= a < i ==> (#[trigger] views(lots@)[a]).id != views(lots@)[j as int].id,
            decreases j - i,
        {
            if lots[i].id == lots[j].id {
                assert(views(lots@)[i as int].id == views(lots@)[j as int].id);
                return false;
            }
            i += 1;
        }
        proof {
            let before = views(lots@).take(j as int);
            let after = views(lots@).take(j + 1);
            assert forall|a: int, b: int| 0 <= a < b < after.len() implies (#[trigger] after[a]).id
                != (#[trigger] after[b]).id by {
                if b < j {
                    assert(before[a].id != before[b].id);
                } else {
                    assert(views(lots@)[a].id != views(lots@)[j as int].id);
                }
            }
        }
        j += 1;
    }
    assert(views(lots@).take(j as int) =~= views(lots@));
    true
}

/// Whether no identifier occurs in both lists of lots.
fn has_disjoint_ids(active: &Vec<Upl>, archive: &Vec<Upl>) -> (disjoint: bool)
    ensures
        disjoint == disjoint_ids(views(active@), views(archive@)),
{
    let mut k: usize = 0;
    while k < active.len()
        invariant
            k <= active.len(),
            forall|i: int, j: int|
                0 <= i < k && 0 <= j < archive.len() ==> (#[trigger] views(active@)[i]).id != (
                #[trigger] views(archive@)[j]).id,
        decreases active.len() - k,
    {
        match position(archive, &active[k].id) {
            Some(j) => {
                assert(views(active@)[k as int].id == views(archive@)[j as int].id);
                return false;
            },
            None => {
                assert forall|j: int| 0 <= j < archive.len() implies views(active@)[k as int].id != (
                #[trigger] views(archive@)[j]).id by {
                    if views(archive@)[j].id == views(active@)[k as int].id {
                        assert(holds_id(views(archive@), active[k as int]@.id));
                    }
                }
            },
        }
        k += 1;
    }
    true
}

impl UplService {
    /// Whether the registry is well formed.
    pub open spec fn wf(&self) -> bool {
        self@.wf()
    }

    /// An empty registry.
    pub fn new() -> (registry: Self)
        ensures
            registry.wf(),
            registry@.active.len() == 0,
            registry@.archive.len() == 0,
    {
        UplService { upls: Vec::new(), archive: Vec::new() }
    }

    /// The registry that holds the lots of the two collections as they were
    /// loaded. It is refused where an identifier occurs twice.
    pub fn init(upls: Vec<Upl>, archive: Vec<Upl>) -> (r: ServiceResult<Self>)
        ensures
            r is Ok <==> (RegistryView { active: views(upls@), archive: views(archive@) }).wf(),
            r matches Ok(registry) ==> registry.wf() && registry@ == (RegistryView {
                active: views(upls@),
                archive: views(archive@),
            }),
            r matches Err(e) ==> e is InternalError,
    {
        if has_distinct_ids(&upls) && has_distinct_ids(&archive) && has_disjoint_ids(&upls, &archive) {
            Ok(UplService { upls, archive })
        } else {
            Err(ServiceError::internal_error("An identifier occurs twice in the stored lots"))
        }
    }

    /// The active lots, in the order in which they came.
    pub fn upls(&self) -> (lots: &Vec<Upl>)
        ensures
            views(lots@) == self@.active,
            lots@.len() == self@.active.len(),
    {
        &self.upls
    }

    /// The archived lots, in the order in which they came.
    pub fn archive(&self) -> (lots: &Vec<Upl>)
        ensures
            views(lots@) == self@.archive,
            lots@.len() == self@.archive.len(),
    {
        &self.archive
    }

    /// Whether a lot with the identifier `id` is stored, in either collection.
    pub fn contains(&self, id: &str) -> (held: bool)
        ensures
            held == self@.holds(id@),
    {
        let key = id.to_owned();
        position(&self.upls, &key).is_some() || position(&self.archive, &key).is_some()
    }

    /// The active lot with the identifier `id`.
    pub fn get(&self, id: &str) -> (r: ServiceResult<Upl>)
        requires
            self.wf(),
        ensures
            r is Ok <==> holds_id(self@.active, id@),
            r matches Ok(lot) ==> lot@ == lot_of(self@.active, id@),
            r matches Err(e) ==> e is NotFound,
    {
        let key = id.to_owned();
        match position(&self.upls, &key) {
            Some(i) => {
                proof {
                    lemma_index_unique(self@.active, id@, i as int);
                }
                Ok(self.upls[i].clone())
            },
            None => Err(ServiceError::not_found("A keresett UPL nem található!")),
        }
    }

    /// The archived lot with the identifier `id`.
    pub fn get_archived(&self, id: &str) -> (r: ServiceResult<Upl>)
        requires
            self.wf(),
        ensures
            r is Ok <==> holds_id(self@.archive, id@),
            r matches Ok(lot) ==> lot@ == lot_of(self@.archive, id@),
            r matches Err(e) ==> e is NotFound,
    {
        let key = id.to_owned();
        match position(&self.archive, &key) {
            Some(i) => {
                proof {
                    lemma_index_unique(self@.archive, id@, i as int);
                }
                Ok(self.archive[i].clone())
            },
            None => Err(ServiceError::not_found("A keresett UPL nem található az archívumban!")),
        }
    }

    /// Stores `lot` as a further active lot, unless its identifier is stored
    /// already, in either collection.
    pub fn insert(&mut self, lot: Upl) -> (r: ServiceResult<()>)
        requires
            old(self).wf(),
        ensures
            final(self).wf(),
            r is Ok <==> !old(self)@.holds(lot@.id),
            r is Ok ==> final(self)@ == old(self)@.inserted(lot@),
            r matches Err(e) ==> e is AlreadyExists && final(self)@ == old(self)@,
    {
        if position(&self.upls, &lot.id).is_some() || position(&self.archive, &lot.id).is_some() {
            return Err(ServiceError::already_exist("A megadott UPL ID már létezik!"));
        }
        self.push_active(lot);
        Ok(())
    }

    /// Puts `lot` in the place of the active lot that has its identifier.
    pub fn update(&mut self, lot: Upl) -> (r: ServiceResult<()>)
        requires
            old(self).wf(),
        ensures
            final(self).wf(),
            r is Ok <==> holds_id(old(self)@.active, lot@.id),
            r is Ok ==> final(self)@ == old(self)@.with_active(lot@),
            r matches Err(e) ==> e is NotFound && final(self)@ == old(self)@,
    {
        match position(&self.upls, &lot.id) {
            Some(i) => {
                self.replace_active(i, lot);
                Ok(())
            },
            None => Err(ServiceError::not_found("A keresett UPL nem található!")),
        }
    }

    /// Takes the active lot with the identifier `id` out of the registry and
    /// returns it.
    pub fn remove(&mut self, id: &str) -> (r: ServiceResult<Upl>)
        requires
            old(self).wf(),
        ensures
            final(self).wf(),
            r is Ok <==> holds_id(old(self)@.active, id@),
            r matches Ok(lot) ==> lot@ == lot_of(old(self)@.active, id@) && final(self)@ == old(
                self,
            )@.removed(id@),
            r matches Err(e) ==> e is NotFound && final(self)@ == old(self)@,
    {
        let key = id.to_owned();
        match position(&self.upls, &key) {
            Some(i) => {
                proof {
                    lemma_index_unique(self@.active, id@, i as int);
                }
                Ok(self.remove_active(i))
            },
            None => Err(ServiceError::not_found("A keresett UPL nem található!")),
        }
    }

    /// Appends `lot` to the active lots.
    pub(crate) fn push_active(&mut self, lot: Upl)
        requires
            old(self).wf(),
            !old(self)@.holds(lot@.id),
        ensures
            final(self).wf(),
            final(self)@ == old(self)@.inserted(lot@),
    {
        proof {
            lemma_views_push(self.upls@, lot);
            let before = self@;
            let after = before.active.push(lot@);
            assert forall|i: int, j: int| 0 <= i < j < after.len() implies (#[trigger] after[i]).id
                != (#[trigger] after[j]).id by {
                if j < before.active.len() {
                    assert(before.active[i].id != before.active[j].id);
                } else {
                    assert(before.active[i].id != lot@.id);
                }
            }
            assert forall|i: int, j: int|
                0 <= i < after.len() && 0 <= j < before.archive.len() implies (#[trigger] after[i]).id
                != (#[trigger] before.archive[j]).id by {
                if i < before.active.len() {
                    assert(before.active[i].id != before.archive[j].id);
                } else {
                    assert(before.archive[j].id != lot@.id);
                }
            }
        }
        self.upls.push(lot);
    }

    /// Appends `lot` to the archive.
    pub(crate) fn push_archive(&mut self, lot: Upl)
        requires
            old(self).wf(),
            !old(self)@.holds(lot@.id),
        ensures
            final(self).wf(),
            final(self)@ == (RegistryView {
                active: old(self)@.active,
                archive: old(self)@.archive.push(lot@),
            }),
    {
        proof {
            lemma_views_push(self.archive@, lot);
            let before = self@;
            let after = before.archive.push(lot@);
            assert forall|i: int, j: int| 0 <= i < j < after.len() implies (#[trigger] after[i]).id
                != (#[trigger] after[j]).id by {
                if j < before.archive.len() {
                    assert(before.archive[i].id != before.archive[j].id);
                } else {
                    assert(before.archive[i].id != lot@.id);
                }
            }
            assert forall|i: int, j: int|
                0 <= i < before.active.len() && 0 <= j < after.len() implies (
            #[trigger] before.active[i]).id != (#[trigger] after[j]).id by {
                if j < before.archive.len() {
                    assert(before.active[i].id != before.archive[j].id);
                } else {
                    assert(before.active[i].id != lot@.id);
                }
            }
        }
        self.archive.push(lot);
    }

    /// Takes the active lot at position `i` out of the registry.
    pub(crate) fn remove_active(&mut self, i: usize) -> (lot: Upl)
        requires
            old(self).wf(),
            i < old(self)@.active.len(),
        ensures
            final(self).wf(),
            lot@ == old(self)@.active[i as int],
            final(self)@ == (RegistryView {
                active: old(self)@.active.remove(i as int),
                archive: old(self)@.archive,
            }),
            !final(self)@.holds(lot@.id),
    {
        proof {
            lemma_views_remove(self.upls@, i as int);
            let before = self@;
            let after = before.active.remove(i as int);
            assert forall|a: int, b: int| 0 <= a < b < after.len() implies (#[trigger] after[a]).id
                != (#[trigger] after[b]).id by {
                let a0 = if a < i { a } else { a + 1 };
                let b0 = if b < i { b } else { b + 1 };
                assert(before.active[a0].id != before.active[b0].id);
            }
            assert forall|a: int, j: int|
                0 <= a < after.len() && 0 <= j < before.archive.len() implies (#[trigger] after[a]).id
                != (#[trigger] before.archive[j]).id by {
                let a0 = if a < i { a } else { a + 1 };
                assert(before.active[a0].id != before.archive[j].id);
            }
            assert forall|a: int| 0 <= a < after.len() implies (#[trigger] after[a]).id
                != before.active[i as int].id by {
                let a0 = if a < i { a } else { a + 1 };
                if a0 < i {
                    assert(before.active[a0].id != before.active[i as int].id);
                } else {
                    assert(before.active[i as int].id != before.active[a0].id);
                }
            }
            assert forall|j: int| 0 <= j < before.archive.len() implies (
            #[trigger] before.archive[j]).id != before.active[i as int].id by {
                assert(before.active[i as int].id != before.archive[j].id);
            }
        }
        self.upls.remove(i)
    }

    /// Takes the archived lot at position `i` out of the registry.
    pub(crate) fn remove_archived(&mut self, i: usize) -> (lot: Upl)
        requires
            old(self).wf(),
            i < old(self)@.archive.len(),
        ensures
            final(self).wf(),
            lot@ == old(self)@.archive[i as int],
            final(self)@ == (RegistryView {
                active: old(self)@.active,
                archive: old(self)@.archive.remove(i as int),
            }),
            !final(self)@.holds(lot@.id),
    {
        proof {
            lemma_views_remove(self.archive@, i as int);
            let before = self@;
            let after = before.archive.remove(i as int);
            assert forall|a: int, b: int| 0 <= a < b < after.len() implies (#[trigger] after[a]).id
                != (#[trigger] after[b]).id by {
                let a0 = if a < i { a } else { a + 1 };
                let b0 = if b < i { b } else { b + 1 };
                assert(before.archive[a0].id != before.archive[b0].id);
            }
            assert forall|a: int, j: int|
                0 <= a < before.active.len() && 0 <= j < after.len() implies (
            #[trigger] before.active[a]).id != (#[trigger] after[j]).id by {
                let j0 = if j < i { j } else { j + 1 };
                assert(before.active[a].id != before.archive[j0].id);
            }
            assert forall|j: int| 0 <= j < after.len() implies (#[trigger] after[j]).id
                != before.archive[i as int].id by {
                let j0 = if j < i { j } else { j + 1 };
                if j0 < i {
                    assert(before.archive[j0].id != before.archive[i as int].id);
                } else {
                    assert(before.archive[i as int].id != before.archive[j0].id);
                }
            }
            assert forall|a: int| 0 <= a < before.active.len() implies (
            #[trigger] before.active[a]).id != before.archive[i as int].id by {
                assert(before.active[a].id != before.archive[i as int].id);
            }
        }
        self.archive.remove(i)
    }

    /// Puts `lot` in the place of the active lot at position `i`, which has
    /// the same identifier.
    pub(crate) fn replace_active(&mut self, i: usize, lot: Upl)
        requires
            old(self).wf(),
            i < old(self)@.active.len(),
            lot@.id == old(self)@.active[i as int].id,
        ensures
            final(self).wf(),
            final(self)@ == old(self)@.with_active(lot@),
            final(self)@.active == old(self)@.active.update(i as int, lot@),
    {
        proof {
            lemma_views_update(self.upls@, i as int, lot);
            lemma_with_lot_is_update(self@.active, lot@, i as int);
            let before = self@;
            let after = before.active.update(i as int, lot@);
            assert forall|a: int, j: int|
                0 <= a < after.len() && 0 <= j < before.archive.len() implies (#[trigger] after[a]).id
                != (#[trigger] before.archive[j]).id by {
                assert(before.active[a].id != before.archive[j].id);
            }
        }
        self.upls.set(i, lot);
    }
}

} // verus!
