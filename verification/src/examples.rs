//! Illustrative merge implementations.
//!
//! These types demonstrate the common merge policies on concrete field
//! sets: a cross-shape merge that copies only the fields both shapes share,
//! a full overwrite where the source is authoritative for every field, and
//! a partial update where only the present fields of an optional-field
//! patch overwrite the target.

use vstd::prelude::*;

use crate::PullFrom;

verus! {

/// A two-component integer vector.
#[derive(Clone, Copy, Debug, PartialEq, Eq, Structural)]
pub struct Vec2 {
    pub x: i32,
    pub y: i32,
}

/// A three-component integer vector.
#[derive(Clone, Copy, Debug, PartialEq, Eq, Structural)]
pub struct Vec3 {
    pub x: i32,
    pub y: i32,
    pub z: i32,
}

/// Cross-shape merge: copy the fields the source shape has, leave the rest
/// of the target untouched.
impl PullFrom<Vec2> for Vec3 {
    open spec fn pulled(pre: Vec3, source: Vec2) -> Vec3 {
        Vec3 { x: source.x, y: source.y, z: pre.z }
    }

    fn pull_from(&mut self, source: &Vec2)
        ensures
            *final(self) == (Vec3 { x: source.x, y: source.y, z: old(self).z }),
    {
        self.x = source.x;
        self.y = source.y;
    }
}

/// Full overwrite: merging a same-typed value treats the source as
/// authoritative for every field.
impl PullFrom<Vec2> for Vec2 {
    open spec fn pulled(pre: Vec2, source: Vec2) -> Vec2 {
        source
    }

    fn pull_from(&mut self, source: &Vec2)
        ensures
            *final(self) == *source,
    {
        self.x = source.x;
        self.y = source.y;
    }
}

/// A record with every field always present.
#[derive(Clone, Debug, PartialEq, Eq)]
pub struct Person {
    pub first_name: String,
    pub last_name: String,
    pub age: u32,
}

/// A patch for [`Person`]: each field is optional, and only the present
/// fields overwrite the target.
#[derive(Clone, Debug, PartialEq, Eq)]
pub struct PersonPatch {
    pub first_name: Option<String>,
    pub last_name: Option<String>,
    pub age: Option<u32>,
}

/// Partial update: for each field of the patch, a present value overwrites
/// the target's field and an absent one leaves it untouched.
impl PullFrom<PersonPatch> for Person {
    open spec fn pulled(pre: Person, source: PersonPatch) -> Person {
        Person {
            first_name: match source.first_name {
                Some(first_name) => first_name,
                None => pre.first_name,
            },
            last_name: match source.last_name {
                Some(last_name) => last_name,
                None => pre.last_name,
            },
            age: match source.age {
                Some(age) => age,
                None => pre.age,
            },
        }
    }

    fn pull_from(&mut self, source: &PersonPatch) {
        if let Some(first_name) = &source.first_name {
            self.first_name = first_name.clone();
        }
        if let Some(last_name) = &source.last_name {
            self.last_name = last_name.clone();
        }
        if let Some(age) = &source.age {
            self.age = *age;
        }
    }
}

/// Idempotence of the partial update: pulling the same unchanged patch a
/// second time leaves the target exactly as pulling it once did.
pub proof fn lemma_patch_pull_idempotent(pre: Person, patch: PersonPatch)
    ensures
        Person::pulled(Person::pulled(pre, patch), patch) == Person::pulled(pre, patch),
{
}

/// The full-overwrite merge leaves the target identical to the source for
/// every field, whatever the target held before.
pub proof fn lemma_full_overwrite_yields_source(pre: Vec2, source: Vec2)
    ensures
        <Vec2 as PullFrom<Vec2>>::pulled(pre, source) == source,
{
}

} // verus!
