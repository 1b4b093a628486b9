use chemfiles::{Atom, Double, Element, ElementTable};

fn d(x: f64) -> Double {
    Double::from_bits(x.to_bits())
}

fn f(x: Double) -> f64 {
    f64::from_bits(x.to_bits())
}

/// A table with the two elements that the tests ask for.
fn table() -> ElementTable {
    let mut table = ElementTable::new();
    table.push(Element::new("He", "Helium", 2, d(4.002602), d(1.4), d(0.32)));
    table.push(Element::new("Zn", "Zinc", 30, d(65.409), d(1.39), d(1.31)));
    table
}

#[test]
fn mass() {
    let table = table();
    let mut at = Atom::new("He", &table).unwrap();
    assert!((f(at.mass().unwrap()) - 4.002602).abs() < 1e-6);

    assert!(at.set_mass(d(15.0)).is_ok());
    assert_eq!(at.mass(), Ok(d(15.0)));
}

#[test]
fn charge() {
    let table = table();
    let mut at = Atom::new("He", &table).unwrap();
    assert_eq!(at.charge(), Ok(d(0.0)));

    assert!(at.set_charge(d(-1.5)).is_ok());
    assert_eq!(at.charge(), Ok(d(-1.5)));
}

#[test]
fn name() {
    let table = table();
    let mut at = Atom::new("He", &table).unwrap();
    assert_eq!(at.name(), Ok(String::from("He")));

    assert!(at.set_name("Zn-12").is_ok());
    assert_eq!(at.name(), Ok(String::from("Zn-12")));
}

#[test]
fn atom_type() {
    let table = table();
    let mut at = Atom::new("He", &table).unwrap();
    assert_eq!(at.atom_type(), Ok(String::from("He")));
    assert_eq!(at.full_name(&table), Ok(String::from("Helium")));

    assert!(at.set_atom_type("Zn").is_ok());
    assert_eq!(at.atom_type(), Ok(String::from("Zn")));
    assert_eq!(at.full_name(&table), Ok(String::from("Zinc")));
}

#[test]
fn radii() {
    let table = table();
    let at = Atom::new("He", &table).unwrap();
    assert!((f(at.vdw_radius(&table).unwrap()) - 1.4).abs() < 1e-2);
    assert!((f(at.covalent_radius(&table).unwrap()) - 0.32).abs() < 1e-3);
}

#[test]
fn atomic_number() {
    let table = table();
    let at = Atom::new("He", &table).unwrap();
    assert_eq!(at.atomic_number(&table), Ok(2));
}

#[test]
fn unknown_type_gets_the_sentinels() {
    let table = table();
    let at = Atom::new("Xx", &table).unwrap();
    assert_eq!(at.full_name(&table), Ok(String::new()));
    assert_eq!(at.vdw_radius(&table), Ok(d(-1.0)));
    assert_eq!(at.covalent_radius(&table), Ok(d(-1.0)));
    assert_eq!(at.atomic_number(&table), Ok(-1));
    assert_eq!(at.mass(), Ok(d(0.0)));
    assert_eq!(at.charge(), Ok(d(0.0)));
    assert_eq!(at.name(), Ok(String::from("Xx")));
    assert_eq!(at.atom_type(), Ok(String::from("Xx")));
}

#[test]
fn empty_table_knows_nothing() {
    let table = ElementTable::new();
    assert_eq!(table.len(), 0);
    assert!(table.lookup("He").is_none());
    let at = Atom::new("He", &table).unwrap();
    assert_eq!(at.mass(), Ok(d(0.0)));
    assert_eq!(at.full_name(&table), Ok(String::new()));
    assert_eq!(at.atomic_number(&table), Ok(-1));
}

#[test]
fn name_and_type_are_independent() {
    let table = table();
    let mut at = Atom::new("He", &table).unwrap();
    assert!(at.set_name("H1").is_ok());
    assert_eq!(at.atom_type(), Ok(String::from("He")));
    assert_eq!(at.full_name(&table), Ok(String::from("Helium")));
    assert!(at.set_atom_type("Zn").is_ok());
    assert_eq!(at.name(), Ok(String::from("H1")));
    assert!(at.set_name("").is_ok());
    assert_eq!(at.name(), Ok(String::new()));
    assert_eq!(at.atom_type(), Ok(String::from("Zn")));
}

#[test]
fn a_new_type_leaves_mass_and_charge() {
    let table = table();
    let mut at = Atom::new("He", &table).unwrap();
    assert!(at.set_charge(d(2.0)).is_ok());
    assert!(at.set_atom_type("Zn").is_ok());
    assert_eq!(at.mass(), Ok(d(4.002602)));
    assert_eq!(at.charge(), Ok(d(2.0)));
    assert_eq!(at.atomic_number(&table), Ok(30));
    assert!(at.set_atom_type("Xx").is_ok());
    assert_eq!(at.mass(), Ok(d(4.002602)));
    assert_eq!(at.vdw_radius(&table), Ok(d(-1.0)));
}

#[test]
fn the_first_entry_of_a_symbol_is_found() {
    let mut table = table();
    assert_eq!(table.len(), 2);
    table.push(Element::new("He", "Helium-3", 2, d(3.016), d(1.4), d(0.32)));
    assert_eq!(table.len(), 3);
    let found = table.lookup("He").unwrap();
    assert_eq!(found.full_name, "Helium");
    assert_eq!(found.mass, d(4.002602));
    let found = table.lookup("Zn").unwrap();
    assert_eq!(found.symbol, "Zn");
    assert_eq!(found.atomic_number, 30);
    assert_eq!(found.covalent_radius, d(1.31));
    assert!(table.lookup("he").is_none());
    assert!(table.lookup("").is_none());
}

#[test]
fn atoms_are_values() {
    let table = table();
    let mut at = Atom::new("He", &table).unwrap();
    let copy = at.clone();
    assert!(at.set_mass(d(1.0)).is_ok());
    assert!(at.set_name("other").is_ok());
    assert_eq!(copy.mass(), Ok(d(4.002602)));
    assert_eq!(copy.name(), Ok(String::from("He")));
    assert_ne!(copy, at);
}
