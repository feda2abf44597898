use vstd::prelude::*;

verus! {

/// A vet record.
#[derive(Debug)]
pub struct Vet {
    pub id: u32,
    pub name: String,
}

impl Default for Vet {
    fn default() -> (r: Vet)
        ensures
            r.id == 0,
            r.name@.len() == 0,
    {
        Vet { id: 0, name: String::new() }
    }
}

/// The submitted vet form.
#[derive(Debug)]
pub struct VetForm {
    pub id: u32,
    pub name: String,
}

/// The record to write for a submitted form: the stored record renamed when
/// there is one, else a new record (id 0) with the form's name.
pub fn vet_to_save(form: &VetForm, existing: Option<Vet>) -> (r: Vet)
    ensures
        r.name@ == form.name@,
        r.id == (match existing {
            Some(e) => e.id,
            None => 0,
        }),
{
    match existing {
        Some(mut v) => {
            v.name = form.name.clone();
            v
        },
        None => Vet { id: 0, name: form.name.clone() },
    }
}

/// The record the edit page shows: a blank one for id 0, else the stored one.
pub fn vet_to_edit(id: u32, found: Option<Vet>) -> (r: Option<Vet>)
    ensures
        id == 0 ==> (r matches Some(v) && v.id == 0 && v.name@.len() == 0),
        id != 0 ==> r == found,
{
    if id == 0 {
        Some(Vet::default())
    } else {
        found
    }
}

} // verus!
