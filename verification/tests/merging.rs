use push_pull::examples::{Person, PersonPatch, Vec2, Vec3};
use push_pull::{PullFrom, PushInto};

#[test]
fn cross_shape_merge_copies_shared_fields_only() {
    let vec_2 = Vec2 { x: -23, y: 48 };
    let mut vec_3 = Vec3 { x: 43, y: -64, z: 104 };

    vec_3.pull_from(&vec_2);

    assert_eq!(vec_3, Vec3 { x: -23, y: 48, z: 104 });
}

#[test]
fn push_into_matches_pull_from() {
    let vec_2 = Vec2 { x: 0, y: 0 };
    let start = Vec3 { x: 43, y: -64, z: 104 };

    let mut pulled = start;
    pulled.pull_from(&vec_2);

    let mut pushed = start;
    vec_2.push_into(&mut pushed);

    assert_eq!(pulled, pushed);
    assert_eq!(pushed, Vec3 { x: 0, y: 0, z: 104 });
}

#[test]
fn selective_overwrite_keeps_unset_fields() {
    let mut person = Person {
        first_name: String::from("Sean"),
        last_name: String::from("Archer"),
        age: 43,
    };
    let patch = PersonPatch {
        first_name: Some(String::from("Castor")),
        last_name: Some(String::from("Troy")),
        age: None,
    };

    person.pull_from(&patch);

    assert_eq!(
        person,
        Person {
            first_name: String::from("Castor"),
            last_name: String::from("Troy"),
            age: 43,
        }
    );
}

#[test]
fn empty_patch_leaves_person_untouched() {
    let mut person = Person {
        first_name: String::from("Sean"),
        last_name: String::from("Archer"),
        age: 43,
    };
    let patch = PersonPatch {
        first_name: None,
        last_name: None,
        age: None,
    };

    person.pull_from(&patch);

    assert_eq!(
        person,
        Person {
            first_name: String::from("Sean"),
            last_name: String::from("Archer"),
            age: 43,
        }
    );
}

#[test]
fn repeated_identical_patch_is_idempotent() {
    let patch = PersonPatch {
        first_name: Some(String::from("Castor")),
        last_name: None,
        age: Some(30),
    };
    let start = Person {
        first_name: String::from("Sean"),
        last_name: String::from("Archer"),
        age: 43,
    };

    let mut once = start.clone();
    once.pull_from(&patch);

    let mut twice = start;
    twice.pull_from(&patch);
    twice.pull_from(&patch);

    assert_eq!(once, twice);
}

#[test]
fn full_overwrite_yields_source() {
    let source = Vec2 { x: 7, y: -9 };
    let mut target = Vec2 { x: 1, y: 2 };

    target.pull_from(&source);

    assert_eq!(target, source);
}

#[test]
fn push_into_person_matches_pull_from() {
    let patch = PersonPatch {
        first_name: None,
        last_name: Some(String::from("Troy")),
        age: Some(30),
    };
    let start = Person {
        first_name: String::from("Sean"),
        last_name: String::from("Archer"),
        age: 43,
    };

    let mut pulled = start.clone();
    pulled.pull_from(&patch);

    let mut pushed = start;
    patch.push_into(&mut pushed);

    assert_eq!(pulled, pushed);
    assert_eq!(
        pushed,
        Person {
            first_name: String::from("Sean"),
            last_name: String::from("Troy"),
            age: 30,
        }
    );
}
