use tgl_rust::PrimitivePerson;

#[test]
fn primitive_default_is_something_of_no_age_or_height() {
    let person = PrimitivePerson::default();
    assert_eq!(
        format!("{:?}", person),
        "PrimitivePerson { name: \"Something\", age: 0, height: 0 }"
    );
}

#[test]
fn primitive_copy_is_equal_to_its_source() {
    let person = PrimitivePerson::default();
    let person2 = person;
    assert_eq!(person, person2);
}

#[test]
fn primitive_source_stays_usable_after_copies() {
    let person = PrimitivePerson::default();
    let first = person;
    let second = person;
    assert_eq!(first, second);
    assert_eq!(person, first);
    assert!(!(person != second));
}

#[test]
fn primitive_clone_is_equal_to_its_source() {
    let person = PrimitivePerson::default();
    let copy = person.clone();
    assert_eq!(person, copy);
}

#[test]
fn primitive_defaults_are_equal_to_each_other() {
    assert_eq!(PrimitivePerson::default(), PrimitivePerson::default());
}
