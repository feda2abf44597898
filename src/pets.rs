use std::collections::HashMap;
use vstd::prelude::*;

verus! {

broadcast use vstd::std_specs::hash::group_hash_axioms;

/// Kind of animal.
#[derive(Clone, Copy, Debug, PartialEq, Eq, Structural)]
pub enum PetType {
    Cat,
    Dog,
    Lizard,
    Horse,
}

/// The numbering of pet kinds that records and forms use.
pub open spec fn types_spec() -> Map<u32, PetType> {
    map![1u32 => PetType::Cat, 2u32 => PetType::Dog, 3u32 => PetType::Lizard, 4u32 => PetType::Horse]
}

/// The pet kinds, keyed by their number.
pub fn types() -> (r: HashMap<u32, PetType>)
    ensures
        r@ == types_spec(),
{
    let mut m: HashMap<u32, PetType> = HashMap::new();
    m.insert(1, PetType::Cat);
    m.insert(2, PetType::Dog);
    m.insert(3, PetType::Lizard);
    m.insert(4, PetType::Horse);
    proof {
        assert(m@ =~= types_spec());
    }
    m
}

/// A pet record. `created_at` is in seconds since the Unix epoch (UTC);
/// `vet_id` is absent when no vet is assigned.
#[derive(Debug)]
pub struct Pet {
    pub id: u32,
    pub name: String,
    pub owner_name: String,
    pub owner_phone: String,
    pub age: u32,
    pub pet_type: u32,
    pub vet_id: Option<u32>,
    pub created_at: i64,
    pub created_by: u32,
}

impl Default for Pet {
    /// The blank record that the edit form starts from.
    fn default() -> (r: Pet)
        ensures
            r.id == 0 && r.name@.len() == 0 && r.owner_name@.len() == 0 && r.owner_phone@.len() == 0,
            r.age == 0 && r.pet_type == 0 && r.vet_id is None && r.created_at == 0 && r.created_by == 0,
    {
        Pet {
            id: 0,
            name: String::new(),
            owner_name: String::new(),
            owner_phone: String::new(),
            age: 0,
            pet_type: 0,
            vet_id: None,
            created_at: 0,
            created_by: 0,
        }
    }
}

/// The submitted pet form; `current_vet` 0 means no vet.
#[derive(Debug)]
pub struct PetForm {
    pub id: u32,
    pub name: String,
    pub owner_name: String,
    pub owner_phone: String,
    pub age: u32,
    pub current_vet: u32,
    pub pet_type: u32,
}

/// The vet reference that a form's `current_vet` stands for.
pub open spec fn vet_of(current_vet: u32) -> Option<u32> {
    if current_vet == 0 { None } else { Some(current_vet) }
}

/// The editable fields of `p` are those of `form`.
pub open spec fn takes_form(p: Pet, form: PetForm) -> bool {
    &&& p.name@ == form.name@
    &&& p.owner_name@ == form.owner_name@
    &&& p.owner_phone@ == form.owner_phone@
    &&& p.age == form.age
    &&& p.pet_type == form.pet_type
    &&& p.vet_id == vet_of(form.current_vet)
}

impl Pet {
    /// A new record from a form, created at second `created_at` by nobody yet.
    pub fn from_form(form: &PetForm, created_at: i64) -> (r: Pet)
        ensures
            r.id == form.id,
            takes_form(r, *form),
            r.created_at == created_at,
            r.created_by == 0,
    {
        Pet {
            id: form.id,
            name: form.name.clone(),
            owner_name: form.owner_name.clone(),
            owner_phone: form.owner_phone.clone(),
            age: form.age,
            vet_id: if form.current_vet == 0 { None } else { Some(form.current_vet) },
            pet_type: form.pet_type,
            created_by: 0,
            created_at,
        }
    }

    /// Overwrites the editable fields with the form's; the id and the
    /// creation data stay.
    pub fn apply_form(&mut self, form: &PetForm)
        ensures
            takes_form(*final(self), *form),
            final(self).id == old(self).id,
            final(self).created_at == old(self).created_at,
            final(self).created_by == old(self).created_by,
    {
        self.name = form.name.clone();
        self.owner_name = form.owner_name.clone();
        self.owner_phone = form.owner_phone.clone();
        self.age = form.age;
        self.pet_type = form.pet_type;
        if form.current_vet > 0 {
            self.vet_id = Some(form.current_vet);
        } else {
            self.vet_id = None;
        }
    }
}

/// The record to write for a submitted form: a form with id 0 creates a
/// record owned by `user_id`; otherwise the stored record `existing` takes the
/// form's fields, and nothing is written when it is absent.
pub fn pet_to_save(form: &PetForm, existing: Option<Pet>, user_id: u32, now: i64) -> (r: Option<Pet>)
    ensures
        form.id == 0 ==> (r matches Some(p) && p.id == 0 && takes_form(p, *form)
            && p.created_by == user_id && p.created_at == now),
        form.id != 0 ==> (r is Some == existing is Some),
        form.id != 0 ==> (r matches Some(p) ==> takes_form(p, *form) && (existing matches Some(e)
            && p.id == e.id && p.created_at == e.created_at && p.created_by == e.created_by)),
{
    if form.id == 0 {
        let mut pet = Pet::from_form(form, now);
        pet.created_by = user_id;
        Some(pet)
    } else {
        match existing {
            Some(mut c) => {
                c.apply_form(form);
                Some(c)
            },
            None => None,
        }
    }
}

/// The record the edit page shows: a blank one for id 0, else the stored one.
pub fn pet_to_edit(id: u32, found: Option<Pet>) -> (r: Option<Pet>)
    ensures
        id == 0 ==> (r matches Some(p) && p.id == 0 && p.name@.len() == 0 && p.vet_id is None),
        id != 0 ==> r == found,
{
    if id == 0 {
        Some(Pet::default())
    } else {
        found
    }
}

} // verus!
