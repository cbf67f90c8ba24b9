//! The record that the service keeps.

use vstd::prelude::*;

verus! {

/// A degree programme: a name and a key, and the id that the store gave it.
/// A record that was read from a request has no id yet.
#[derive(Debug, PartialEq, Eq)]
pub struct Carrera {
    pub id: Option<i32>,
    pub name: String,
    pub key: String,
}

/// A `Carrera` as contracts see it.
pub struct CarreraView {
    pub id: Option<int>,
    pub name: Seq<char>,
    pub key: Seq<char>,
}

impl View for Carrera {
    type V = CarreraView;

    open spec fn view(&self) -> CarreraView {
        CarreraView {
            id: match self.id {
                Some(n) => Some(n as int),
                None => None,
            },
            name: self.name@,
            key: self.key@,
        }
    }
}

/// The views of a run of records, in order.
pub open spec fn views(rows: Seq<Carrera>) -> Seq<CarreraView> {
    Seq::new(rows.len(), |i: int| rows[i]@)
}

impl Clone for Carrera {
    fn clone(&self) -> (r: Self)
        ensures
            r@ == self@,
    {
        Carrera { id: self.id, name: self.name.clone(), key: self.key.clone() }
    }
}

} // verus!
