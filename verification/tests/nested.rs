// The lens types below are what `#[derive(Lenses)]` generates for these structs,
// written out; the compositions are what `lens!` expands to.

use lens::{compose, vec_lens, Lens, LensPath, RefLens, ValueLens};

#[derive(Clone, Debug, PartialEq)]
struct Address {
    street: String,
    city: String,
    postcode: String,
}

#[derive(Clone, Debug, PartialEq)]
pub(crate) struct Person {
    name: String,
    age: u8,
    address: Address,
}

#[derive(Clone, Debug, PartialEq)]
struct Team {
    members: Vec<Person>,
}

struct AddressStreetLens;

impl Lens for AddressStreetLens {
    type Source = Address;
    type Target = String;

    fn path(&self) -> LensPath {
        LensPath::new(0)
    }

    fn mutate(&self, source: &mut Address, target: String) {
        source.street = target
    }
}

impl RefLens for AddressStreetLens {
    fn get_ref<'a>(&self, source: &'a Address) -> &'a String {
        &source.street
    }

    fn get_mut_ref<'a>(&self, source: &'a mut Address) -> &'a mut String {
        &mut source.street
    }
}

impl ValueLens for AddressStreetLens {
    fn get(&self, source: &Address) -> String {
        source.street.clone()
    }
}

struct PersonNameLens;

impl Lens for PersonNameLens {
    type Source = Person;
    type Target = String;

    fn path(&self) -> LensPath {
        LensPath::new(0)
    }

    fn mutate(&self, source: &mut Person, target: String) {
        source.name = target
    }
}

impl RefLens for PersonNameLens {
    fn get_ref<'a>(&self, source: &'a Person) -> &'a String {
        &source.name
    }

    fn get_mut_ref<'a>(&self, source: &'a mut Person) -> &'a mut String {
        &mut source.name
    }
}

impl ValueLens for PersonNameLens {
    fn get(&self, source: &Person) -> String {
        source.name.clone()
    }
}

struct PersonAgeLens;

impl Lens for PersonAgeLens {
    type Source = Person;
    type Target = u8;

    fn path(&self) -> LensPath {
        LensPath::new(1)
    }

    fn mutate(&self, source: &mut Person, target: u8) {
        source.age = target
    }
}

impl RefLens for PersonAgeLens {
    fn get_ref<'a>(&self, source: &'a Person) -> &'a u8 {
        &source.age
    }

    fn get_mut_ref<'a>(&self, source: &'a mut Person) -> &'a mut u8 {
        &mut source.age
    }
}

impl ValueLens for PersonAgeLens {
    fn get(&self, source: &Person) -> u8 {
        source.age
    }
}

struct PersonAddressLens;

impl Lens for PersonAddressLens {
    type Source = Person;
    type Target = Address;

    fn path(&self) -> LensPath {
        LensPath::new(2)
    }

    fn mutate(&self, source: &mut Person, target: Address) {
        source.address = target
    }
}

impl RefLens for PersonAddressLens {
    fn get_ref<'a>(&self, source: &'a Person) -> &'a Address {
        &source.address
    }

    fn get_mut_ref<'a>(&self, source: &'a mut Person) -> &'a mut Address {
        &mut source.address
    }
}

struct TeamMembersLens;

impl Lens for TeamMembersLens {
    type Source = Team;
    type Target = Vec<Person>;

    fn path(&self) -> LensPath {
        LensPath::new(0)
    }

    fn mutate(&self, source: &mut Team, target: Vec<Person>) {
        source.members = target
    }
}

impl RefLens for TeamMembersLens {
    fn get_ref<'a>(&self, source: &'a Team) -> &'a Vec<Person> {
        &source.members
    }

    fn get_mut_ref<'a>(&self, source: &'a mut Team) -> &'a mut Vec<Person> {
        &mut source.members
    }
}

fn pop_zeus() -> Person {
    Person {
        name: "Pop Zeus".to_string(),
        age: 58,
        address: Address {
            street: "123 Needmore Rd".to_string(),
            city: "Dayton".to_string(),
            postcode: "99999".to_string(),
        },
    }
}

#[test]
fn a_simple_nested_data_structure_should_be_lensable() {
    let p0 = pop_zeus();

    // lens!(Person.name) and lens!(Person.address.street)
    let name_lens = PersonNameLens;
    let street_lens = compose(PersonAddressLens, AddressStreetLens);
    assert_eq!(name_lens.get_ref(&p0), "Pop Zeus");
    assert_eq!(street_lens.get_ref(&p0), "123 Needmore Rd");
    assert!(name_lens.path() == LensPath::new(0));

    let p1 = street_lens.set(p0, "666 Titus Ave".to_string());
    assert_eq!(PersonNameLens.get_ref(&p1), "Pop Zeus");
    assert_eq!(street_lens.get_ref(&p1), "666 Titus Ave");
}

#[test]
fn value_lenses_work_for_scalars_and_strings() {
    let person = pop_zeus();

    assert_eq!(PersonNameLens.get(&person), "Pop Zeus".to_string());
    assert_eq!(PersonAgeLens.get(&person), 58);
}

#[test]
fn vec_indexing_is_supported_in_macro_paths() {
    let team = Team {
        members: vec![
            pop_zeus(),
            Person {
                name: "Melisande".to_string(),
                age: 42,
                address: Address {
                    street: "1 Rustacean Way".to_string(),
                    city: "Berlin".to_string(),
                    postcode: "10115".to_string(),
                },
            },
        ],
    };

    // lens!(Team.members[1].address.street)
    let street_lens = compose(
        TeamMembersLens,
        compose(
            vec_lens::<Person>(1),
            compose(PersonAddressLens, AddressStreetLens),
        ),
    );
    assert!(street_lens.path() == LensPath::from_vec(vec![0, 1, 2, 0]));
    assert_eq!(street_lens.get_ref(&team), "1 Rustacean Way");

    let updated = street_lens.set(team, "2 Immutable Ave".to_string());
    assert_eq!(updated.members[1].address.street, "2 Immutable Ave");
}

#[test]
fn vec_lens_supports_primitives() {
    let scores = vec![3_u32, 5, 8];
    let second = vec_lens::<u32>(1);
    assert_eq!(*second.get_ref(&scores), 5);
    assert_eq!(second.set(scores, 13), vec![3, 13, 8]);
}

#[test]
fn setting_a_nested_field_leaves_the_others() {
    let p0 = pop_zeus();
    let street_lens = compose(PersonAddressLens, AddressStreetLens);
    let p1 = street_lens.set(p0.clone(), "1 Other St".to_string());
    assert_eq!(p1.name, p0.name);
    assert_eq!(p1.age, p0.age);
    assert_eq!(p1.address.city, p0.address.city);
    assert_eq!(p1.address.postcode, p0.address.postcode);
    assert_eq!(street_lens.get(&p1), "1 Other St".to_string());
}
