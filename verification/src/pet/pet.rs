use vstd::prelude::*;

use crate::common::{copy_bytes, ContractError};

verus! {

/// A pet: its id, its unique name, when it was last fed (seconds) and the
/// canonical address of its owner.
#[derive(Debug, PartialEq, Eq)]
pub struct Pet {
    pub id: u64,
    pub name: String,
    pub last_feeding: u64,
    pub owner: Vec<u8>,
}

/// What a pet is: (id, name, last feeding time, owner).
pub type PetView = (u64, Seq<char>, u64, Seq<u8>);

impl View for Pet {
    type V = PetView;

    open spec fn view(&self) -> PetView {
        (self.id, self.name@, self.last_feeding, self.owner@)
    }
}

/// The pets of a store, each by what it is.
pub open spec fn pets_view(pets: Seq<Pet>) -> Seq<PetView> {
    pets.map_values(|p: Pet| p@)
}

/// The pets of a store that may not exist yet.
pub open spec fn store_view(store: Option<Vec<Pet>>) -> Seq<PetView> {
    match store {
        Some(v) => pets_view(v@),
        None => Seq::empty(),
    }
}

/// `new` is the store `old`, created empty where it did not exist.
pub open spec fn store_created(old: Option<Vec<Pet>>, new: Option<Vec<Pet>>) -> bool {
    &&& new is Some
    &&& store_view(new) == store_view(old)
    &&& old is Some ==> new == old
}

/// Index of the first pet named `name`, if any.
pub open spec fn position_of(pets: Seq<PetView>, name: Seq<char>) -> Option<int>
    decreases pets.len(),
{
    if pets.len() == 0 {
        None
    } else {
        match position_of(pets.drop_last(), name) {
            Some(i) => Some(i),
            None => if pets.last().1 == name {
                Some(pets.len() - 1)
            } else {
                None
            },
        }
    }
}

/// No two pets share a name.
pub open spec fn names_unique(pets: Seq<PetView>) -> bool {
    forall|i: int, j: int| 0 <= i < pets.len() && 0 <= j < pets.len() && i != j ==> pets[i].1 != pets[j].1
}

/// The pets owned by `owner`, in store order.
pub open spec fn owned_by(pets: Seq<PetView>, owner: Seq<u8>) -> Seq<PetView>
    decreases pets.len(),
{
    if pets.len() == 0 {
        Seq::empty()
    } else if pets.last().3 == owner {
        owned_by(pets.drop_last(), owner).push(pets.last())
    } else {
        owned_by(pets.drop_last(), owner)
    }
}

/// The items of `s` that a page of `size` items starting at item `start` shows.
pub open spec fn page_of<A>(s: Seq<A>, start: int, size: int) -> Seq<A> {
    let lo = if start < s.len() { start } else { s.len() as int };
    let hi = if start + size < s.len() { start + size } else { s.len() as int };
    s.subrange(lo, hi)
}

/// `position_of` finds exactly the first pet with the name.
pub proof fn lemma_position_of(pets: Seq<PetView>, name: Seq<char>)
    ensures
        match position_of(pets, name) {
            Some(i) => 0 <= i < pets.len() && pets[i].1 == name && forall|j: int| 0 <= j < i ==> pets[j].1 != name,
            None => forall|j: int| 0 <= j < pets.len() ==> pets[j].1 != name,
        },
    decreases pets.len(),
{
    if pets.len() > 0 {
        let d = pets.drop_last();
        lemma_position_of(d, name);
        assert forall|j: int| 0 <= j < d.len() implies d[j] == pets[j] by {}
    }
}

/// The first pet that has the name is the one `position_of` finds.
pub proof fn lemma_position_of_first(pets: Seq<PetView>, name: Seq<char>, i: int)
    requires
        0 <= i < pets.len(),
        pets[i].1 == name,
        forall|j: int| 0 <= j < i ==> pets[j].1 != name,
    ensures
        position_of(pets, name) == Some(i),
{
    lemma_position_of(pets, name);
}

/// In a store without duplicate names, the pet found by name is the only one with it.
pub proof fn lemma_position_of_unique(pets: Seq<PetView>, i: int)
    requires
        names_unique(pets),
        0 <= i < pets.len(),
    ensures
        position_of(pets, pets[i].1) == Some(i),
{
    lemma_position_of_first(pets, pets[i].1, i);
}

/// Replacing a pet by one of the same name keeps the positions of all names.
pub proof fn lemma_position_of_update(pets: Seq<PetView>, i: int, p: PetView, name: Seq<char>)
    requires
        0 <= i < pets.len(),
        p.1 == pets[i].1,
    ensures
        position_of(pets.update(i, p), name) == position_of(pets, name),
{
    let u = pets.update(i, p);
    assert forall|j: int| 0 <= j < pets.len() implies u[j].1 == pets[j].1 by {}
    lemma_position_of(pets, name);
    lemma_position_of(u, name);
    match position_of(pets, name) {
        Some(k) => lemma_position_of_first(u, name, k),
        None => {
            if let Some(k) = position_of(u, name) {
                assert(pets[k].1 == name);
            }
        },
    }
}

/// A pet whose name is new is found, after it is appended, at the end.
pub proof fn lemma_position_of_push(pets: Seq<PetView>, p: PetView, name: Seq<char>)
    ensures
        position_of(pets.push(p), name) == match position_of(pets, name) {
            Some(k) => Some(k),
            None => if p.1 == name {
                Some(pets.len() as int)
            } else {
                None
            },
        },
{
    assert(pets.push(p).drop_last() =~= pets);
}

impl Pet {
    /// A pet with the given fields.
    pub fn new(id: u64, name: String, last_feeding: u64, owner: Vec<u8>) -> (pet: Pet)
        ensures
            pet.id == id,
            pet.name == name,
            pet.last_feeding == last_feeding,
            pet.owner == owner,
    {
        Pet { id, name, last_feeding, owner }
    }

    /// A copy of this pet.
    pub fn copy(&self) -> (pet: Pet)
        ensures
            pet@ == self@,
    {
        Pet { id: self.id, name: self.name.clone(), last_feeding: self.last_feeding, owner: copy_bytes(&self.owner) }
    }

    /// Advances the id counter and returns the new id.
    pub fn next_id(total: &mut u64) -> (id: u64)
        requires
            *old(total) < u64::MAX,
        ensures
            id == *old(total) + 1,
            *final(total) == id,
    {
        *total = *total + 1;
        *total
    }

    /// Appends `pet` to the store, creating the store if there is none.
    pub fn create(store: &mut Option<Vec<Pet>>, pet: &Pet)
        requires
            store_view(*old(store)).len() < u32::MAX,
        ensures
            *final(store) is Some,
            store_view(*final(store)) == store_view(*old(store)).push(pet@),
    {
        let mut pets = match store.take() {
            Some(v) => v,
            None => {
                let v: Vec<Pet> = Vec::new();
                assert(pets_view(v@) =~= Seq::<PetView>::empty());
                v
            },
        };
        let ghost before = pets@;
        pets.push(pet.copy());
        assert(pets_view(pets@) =~= pets_view(before).push(pet@));
        *store = Some(pets);
    }

    /// Index of the first pet named `pet_name` in `pets`.
    fn position(pets: &Vec<Pet>, pet_name: &str) -> (pos: Option<usize>)
        ensures
            match position_of(pets_view(pets@), pet_name@) {
                Some(i) => 0 <= i < pets.len() && pos == Some(i as usize),
                None => pos is None,
            },
    {
        let ghost all = pets_view(pets@);
        let target = pet_name.to_owned();
        let mut i: usize = 0;
        while i < pets.len()
            invariant
                i <= pets.len(),
                all == pets_view(pets@),
                target@ == pet_name@,
                forall|j: int| 0 <= j < i ==> all[j].1 != pet_name@,
            decreases pets.len() - i,
        {
            assert(all[i as int] == pets@[i as int]@);
            if pets[i].name == target {
                proof {
                    lemma_position_of_first(all, pet_name@, i as int);
                }
                return Some(i);
            }
            i = i + 1;
        }
        proof {
            lemma_position_of(all, pet_name@);
        }
        None
    }

    /// Whether some stored pet is named `pet_name`.
    /// Creates the store if there is none.
    pub fn name_already_exists(store: &mut Option<Vec<Pet>>, pet_name: &str) -> (exists: bool)
        ensures
            exists == (position_of(store_view(*old(store)), pet_name@) is Some),
            store_created(*old(store), *final(store)),
    {
        let pets = match store.take() {
            Some(v) => v,
            None => {
                let v: Vec<Pet> = Vec::new();
                assert(pets_view(v@) =~= Seq::<PetView>::empty());
                v
            },
        };
        let exists = Self::position(&pets, pet_name).is_some();
        *store = Some(pets);
        exists
    }

    /// Whether some stored pet is named `pet_name`, without creating the store.
    pub fn has_name(store: &Option<Vec<Pet>>, pet_name: &str) -> (exists: bool)
        ensures
            exists == (position_of(store_view(*store), pet_name@) is Some),
    {
        match store {
            Some(pets) => Self::position(pets, pet_name).is_some(),
            None => false,
        }
    }

    /// The first pet named `pet_name`.
    pub fn get_pet<E>(store: &Option<Vec<Pet>>, pet_name: &str) -> (res: Result<Pet, ContractError<E>>)
        ensures
            get_pet_post(store_view(*store), *store is Some, pet_name@, res),
    {
        match store {
            None => Err(ContractError::PetsNotCreated),
            Some(pets) => match Self::position(pets, pet_name) {
                None => Err(ContractError::PetNotFound),
                Some(i) => Ok(pets[i].copy()),
            },
        }
    }

    /// Replaces the first pet named like `pet` by `pet`, creating the store
    /// if there is none.
    pub fn update<E>(store: &mut Option<Vec<Pet>>, pet: &Pet) -> (res: Result<(), ContractError<E>>)
        ensures
            match position_of(store_view(*old(store)), pet.name@) {
                Some(i) => res is Ok && *final(store) is Some
                    && store_view(*final(store)) == store_view(*old(store)).update(i, pet@),
                None => res == Err::<(), ContractError<E>>(ContractError::PetNotFound)
                    && store_created(*old(store), *final(store)),
            },
    {
        let mut pets = match store.take() {
            Some(v) => v,
            None => {
                let v: Vec<Pet> = Vec::new();
                assert(pets_view(v@) =~= Seq::<PetView>::empty());
                v
            },
        };
        let ghost before = pets@;
        match Self::position(&pets, pet.name.as_str()) {
            None => {
                *store = Some(pets);
                Err(ContractError::PetNotFound)
            },
            Some(i) => {
                pets.set(i, pet.copy());
                assert(pets_view(pets@) =~= pets_view(before).update(i as int, pet@));
                *store = Some(pets);
                Ok(())
            },
        }
    }

    /// One page of the pets owned by `owner`: pages hold `page_size` pets and
    /// are numbered from 1.
    pub fn get_pets<E>(store: &Option<Vec<Pet>>, page_num: usize, page_size: usize, owner: &Vec<u8>) -> (res: Result<
        Vec<Pet>,
        ContractError<E>,
    >)
        requires
            *store is Some ==> page_num >= 1 && page_size * (page_num - 1) <= usize::MAX,
        ensures
            match *store {
                None => res == Err::<Vec<Pet>, ContractError<E>>(ContractError::PetsNotCreated),
                Some(v) => res is Ok && pets_view(res->Ok_0@) == page_of(
                    owned_by(pets_view(v@), owner@),
                    page_size * (page_num - 1),
                    page_size as int,
                ),
            },
    {
        let pets = match store {
            None => return Err(ContractError::PetsNotCreated),
            Some(v) => v,
        };
        let skip = page_size * (page_num - 1);
        let ghost all = pets_view(pets@);
        let mut res: Vec<Pet> = Vec::new();
        let mut seen: usize = 0;
        let mut i: usize = 0;
        while i < pets.len()
            invariant
                i <= pets.len(),
                all == pets_view(pets@),
                skip == page_size * (page_num - 1),
                seen == owned_by(all.take(i as int), owner@).len(),
                seen <= i,
                pets_view(res@) == page_of(owned_by(all.take(i as int), owner@), skip as int, page_size as int),
            decreases pets.len() - i,
        {
            proof {
                assert(all.take(i + 1).drop_last() =~= all.take(i as int));
                assert(all.take(i + 1).last() == pets@[i as int]@);
            }
            if crate::common::bytes_eq(&pets[i].owner, owner) {
                let ghost prev = owned_by(all.take(i as int), owner@);
                let ghost next = prev.push(pets@[i as int]@);
                assert(owned_by(all.take(i + 1), owner@) == next);
                if seen >= skip && res.len() < page_size {
                    let ghost before = res@;
                    res.push(pets[i].copy());
                    assert(pets_view(res@) =~= pets_view(before).push(pets@[i as int]@));
                    assert(page_of(next, skip as int, page_size as int) =~= page_of(prev, skip as int, page_size as int).push(pets@[i as int]@));
                } else {
                    assert(page_of(next, skip as int, page_size as int) =~= page_of(prev, skip as int, page_size as int));
                }
                seen = seen + 1;
            } else {
                assert(owned_by(all.take(i + 1), owner@) == owned_by(all.take(i as int), owner@));
            }
            i = i + 1;
        }
        assert(all.take(pets.len() as int) =~= all);
        Ok(res)
    }
}

/// The outcome of looking a pet up by name.
pub open spec fn get_pet_post<E>(pets: Seq<PetView>, created: bool, name: Seq<char>, res: Result<Pet, ContractError<E>>) -> bool {
    if !created {
        res == Err::<Pet, ContractError<E>>(ContractError::PetsNotCreated)
    } else {
        match position_of(pets, name) {
            Some(i) => res is Ok && res->Ok_0@ == pets[i],
            None => res == Err::<Pet, ContractError<E>>(ContractError::PetNotFound),
        }
    }
}

/// One write to the pet store.
#[derive(Debug, PartialEq, Eq)]
pub enum PetWrite {
    /// Overwrite the pet at `index`.
    SetAt { index: usize, pet: Pet },
    /// Append `pet`.
    Push { pet: Pet },
}

/// The store's pets after one write.
pub open spec fn apply_write(pets: Seq<PetView>, w: PetWrite) -> Seq<PetView> {
    match w {
        PetWrite::SetAt { index, pet } => if index < pets.len() {
            pets.update(index as int, pet@)
        } else {
            pets
        },
        PetWrite::Push { pet } => pets.push(pet@),
    }
}

/// The store's pets after a sequence of writes, in order.
pub open spec fn apply_writes(pets: Seq<PetView>, writes: Seq<PetWrite>) -> Seq<PetView>
    decreases writes.len(),
{
    if writes.len() == 0 {
        pets
    } else {
        apply_write(apply_writes(pets, writes.drop_last()), writes.last())
    }
}

/// Whether two pets are the same in every field.
fn same_pet(a: &Pet, b: &Pet) -> (same: bool)
    ensures
        same == (a@ == b@),
{
    a.id == b.id && a.name == b.name && a.last_feeding == b.last_feeding && crate::common::bytes_eq(&a.owner, &b.owner)
}

/// The writes that turn the stored pets `before` into `after`, where `after`
/// keeps at least as many pets: each changed pet is overwritten in place and
/// each new one appended, and nothing else is written.
pub fn store_writes(before: &Option<Vec<Pet>>, after: &Option<Vec<Pet>>) -> (writes: Vec<PetWrite>)
    ensures
        store_view(*before).len() <= store_view(*after).len()
            ==> apply_writes(store_view(*before), writes@) == store_view(*after),
        forall|k: int| 0 <= k < writes@.len() ==> match #[trigger] writes@[k] {
            PetWrite::SetAt { index, pet } => index < store_view(*before).len() && pet@ != store_view(*before)[index as int],
            PetWrite::Push { .. } => true,
        },
        *after is None ==> writes@.len() == 0,
{
    let ghost sb = store_view(*before);
    let ghost sa = store_view(*after);
    let mut writes: Vec<PetWrite> = Vec::new();
    let after = match after {
        None => return writes,
        Some(v) => v,
    };
    let empty: Vec<Pet> = Vec::new();
    let before = match before {
        None => &empty,
        Some(v) => v,
    };
    let ghost bv = pets_view(before@);
    let ghost av = pets_view(after@);
    assert(bv =~= sb);
    assert(av == sa);
    let mut i: usize = 0;
    while i < after.len()
        invariant
            i <= after.len(),
            bv == pets_view(before@),
            av == pets_view(after@),
            bv.len() <= av.len() ==> apply_writes(bv, writes@) == av.take(i as int) + bv.subrange(
                if i < bv.len() { i as int } else { bv.len() as int },
                bv.len() as int,
            ),
            forall|k: int| 0 <= k < writes@.len() ==> match #[trigger] writes@[k] {
                PetWrite::SetAt { index, pet } => index < bv.len() && pet@ != bv[index as int],
                PetWrite::Push { .. } => true,
            },
        decreases after.len() - i,
    {
        let ghost old_writes = writes@;
        assert(av[i as int] == after@[i as int]@);
        if i < before.len() {
            assert(bv[i as int] == before@[i as int]@);
            if !same_pet(&after[i], &before[i]) {
                writes.push(PetWrite::SetAt { index: i, pet: after[i].copy() });
                assert(writes@.drop_last() =~= old_writes);
            }
            proof {
                if bv.len() <= av.len() {
                    assert(apply_writes(bv, writes@) =~= av.take(i + 1) + bv.subrange(i + 1, bv.len() as int));
                }
            }
        } else {
            writes.push(PetWrite::Push { pet: after[i].copy() });
            assert(writes@.drop_last() =~= old_writes);
            proof {
                if bv.len() <= av.len() {
                    assert(apply_writes(bv, writes@) =~= av.take(i + 1) + bv.subrange(bv.len() as int, bv.len() as int));
                }
            }
        }
        i = i + 1;
    }
    assert(av.take(after.len() as int) =~= av);
    proof {
        if bv.len() <= av.len() {
            assert(apply_writes(bv, writes@) =~= av);
        }
    }
    writes
}

} // verus!
