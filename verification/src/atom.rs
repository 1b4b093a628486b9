//! Atoms, and the table of elements in which their type is looked up.
//!
//! An atom owns its name, its type, its mass and its charge. Everything else
//! that can be asked of it (the full name of its element, the radii, the
//! atomic number) is looked up on demand, by its current type, in a table
//! that the caller provides. A type that the table does not hold is no
//! error: each lookup then answers with a fixed value that means "unknown".

use crate::double::{of_bits, Double, MINUS_ONE_BITS, ZERO_BITS};
use crate::errors::Error;
use vstd::prelude::*;
use vstd::string::*;

verus! {

/// What a table of elements knows of one type of atom.
#[derive(Clone, Debug, PartialEq)]
pub struct Element {
    /// The symbol under which the element is found, such as `He`.
    pub symbol: String,
    /// The full name of the element, such as `Helium`.
    pub full_name: String,
    /// The atomic number.
    pub atomic_number: i64,
    /// The mass, in atomic mass units.
    pub mass: Double,
    /// The Van der Waals radius, in Angstroms.
    pub vdw_radius: Double,
    /// The covalent radius, in Angstroms.
    pub covalent_radius: Double,
}

/// An [`Element`], with its texts as sequences of characters.
pub struct ElementModel {
    pub symbol: Seq<char>,
    pub full_name: Seq<char>,
    pub atomic_number: int,
    pub mass: Double,
    pub vdw_radius: Double,
    pub covalent_radius: Double,
}

impl View for Element {
    type V = ElementModel;

    open spec fn view(&self) -> ElementModel {
        ElementModel {
            symbol: self.symbol@,
            full_name: self.full_name@,
            atomic_number: self.atomic_number as int,
            mass: self.mass,
            vdw_radius: self.vdw_radius,
            covalent_radius: self.covalent_radius,
        }
    }
}

/// The first entry with the given symbol, if there is one.
pub open spec fn find(entries: Seq<ElementModel>, symbol: Seq<char>) -> Option<ElementModel>
    decreases entries.len(),
{
    if entries.len() == 0 {
        None
    } else if entries[0].symbol == symbol {
        Some(entries[0])
    } else {
        find(entries.drop_first(), symbol)
    }
}

/// The full name that is reported for a type: that of its element, or the
/// empty text for a type that the table does not hold.
pub open spec fn full_name_in(entries: Seq<ElementModel>, symbol: Seq<char>) -> Seq<char> {
    match find(entries, symbol) {
        Some(element) => element.full_name,
        None => Seq::empty(),
    }
}

/// The atomic number that is reported for a type: that of its element, or
/// `-1` for a type that the table does not hold.
pub open spec fn atomic_number_in(entries: Seq<ElementModel>, symbol: Seq<char>) -> int {
    match find(entries, symbol) {
        Some(element) => element.atomic_number,
        None => -1,
    }
}

/// The mass that a new atom of a type gets: that of its element, or `0` for
/// a type that the table does not hold.
pub open spec fn mass_in(entries: Seq<ElementModel>, symbol: Seq<char>) -> Double {
    match find(entries, symbol) {
        Some(element) => element.mass,
        None => of_bits(ZERO_BITS),
    }
}

/// The Van der Waals radius that is reported for a type: that of its
/// element, or `-1` for a type that the table does not hold.
pub open spec fn vdw_radius_in(entries: Seq<ElementModel>, symbol: Seq<char>) -> Double {
    match find(entries, symbol) {
        Some(element) => element.vdw_radius,
        None => of_bits(MINUS_ONE_BITS),
    }
}

/// The covalent radius that is reported for a type: that of its element, or
/// `-1` for a type that the table does not hold.
pub open spec fn covalent_radius_in(entries: Seq<ElementModel>, symbol: Seq<char>) -> Double {
    match find(entries, symbol) {
        Some(element) => element.covalent_radius,
        None => of_bits(MINUS_ONE_BITS),
    }
}

/// A table of elements, searched by symbol. Where two entries share a
/// symbol, the one that was added first is the one that is found.
#[derive(Clone, Debug)]
pub struct ElementTable {
    entries: Vec<Element>,
}

impl View for ElementTable {
    type V = Seq<ElementModel>;

    closed spec fn view(&self) -> Seq<ElementModel> {
        Seq::new(self.entries@.len(), |i: int| self.entries@[i]@)
    }
}

impl Element {
    /// An entry for a table of elements.
    pub fn new(
        symbol: &str,
        full_name: &str,
        atomic_number: i64,
        mass: Double,
        vdw_radius: Double,
        covalent_radius: Double,
    ) -> (r: Element)
        ensures
            r@ == (ElementModel {
                symbol: symbol@,
                full_name: full_name@,
                atomic_number: atomic_number as int,
                mass,
                vdw_radius,
                covalent_radius,
            }),
    {
        Element {
            symbol: String::from_str(symbol),
            full_name: String::from_str(full_name),
            atomic_number,
            mass,
            vdw_radius,
            covalent_radius,
        }
    }
}

impl ElementTable {
    /// A table without entries.
    pub fn new() -> (r: ElementTable)
        ensures
            r@ == Seq::<ElementModel>::empty(),
    {
        let r = ElementTable { entries: Vec::new() };
        assert(r@ =~= Seq::<ElementModel>::empty());
        r
    }

    /// Adds an entry at the end of the table.
    pub fn push(&mut self, element: Element)
        ensures
            final(self)@ == old(self)@.push(element@),
    {
        self.entries.push(element);
        assert(self@ =~= old(self)@.push(element@));
    }

    /// The number of entries.
    pub fn len(&self) -> (r: usize)
        ensures
            r == self@.len(),
    {
        self.entries.len()
    }

    /// The first entry with the given symbol, if there is one.
    pub fn lookup(&self, symbol: &str) -> (r: Option<&Element>)
        ensures
            match r {
                Some(element) => find(self@, symbol@) == Some(element@),
                None => find(self@, symbol@) is None,
            },
    {
        let key = String::from_str(symbol);
        let mut i: usize = 0;
        assert(self@.subrange(0, self@.len() as int) =~= self@);
        while i < self.entries.len()
            invariant
                i <= self.entries.len(),
                key@ == symbol@,
                find(self@, symbol@) == find(self@.subrange(i as int, self@.len() as int), symbol@),
            decreases self.entries.len() - i,
        {
            let ghost rest = self@.subrange(i as int, self@.len() as int);
            assert(rest[0] == self.entries@[i as int]@);
            assert(rest.drop_first() =~= self@.subrange(i + 1, self@.len() as int));
            if self.entries[i].symbol == key {
                return Some(&self.entries[i]);
            }
            i += 1;
        }
        assert(self@.subrange(i as int, self@.len() as int).len() == 0);
        None
    }
}

/// What an atom is, mathematically: its two texts and its two numbers.
pub struct AtomModel {
    pub name: Seq<char>,
    pub atom_type: Seq<char>,
    pub mass: Double,
    pub charge: Double,
}

impl AtomModel {
    /// The atom that is made from a name: the name is also its type, its
    /// mass is the one that the table gives for that type, its charge is zero.
    pub open spec fn new(name: Seq<char>, table: Seq<ElementModel>) -> AtomModel {
        AtomModel { name, atom_type: name, mass: mass_in(table, name), charge: of_bits(ZERO_BITS) }
    }
}

/// An Atom is a particle in the current Frame. It can be used to store and
/// retrieve informations about a particle, such as mass, name, atomic number,
/// *etc.*
#[derive(Clone, Debug, PartialEq)]
pub struct Atom {
    name: String,
    atom_type: String,
    mass: Double,
    charge: Double,
}

impl View for Atom {
    type V = AtomModel;

    closed spec fn view(&self) -> AtomModel {
        AtomModel {
            name: self.name@,
            atom_type: self.atom_type@,
            mass: self.mass,
            charge: self.charge,
        }
    }
}

impl Atom {
    /// Create a new `Atom` from a `name`, which is also its first type. The
    /// mass is looked up in `table`.
    pub fn new(name: &str, table: &ElementTable) -> (r: Result<Atom, Error>)
        ensures
            r matches Ok(atom) && atom@ == AtomModel::new(name@, table@),
    {
        let mass = match table.lookup(name) {
            Some(element) => element.mass,
            None => Double::zero(),
        };
        Ok(
            Atom {
                name: String::from_str(name),
                atom_type: String::from_str(name),
                mass,
                charge: Double::zero(),
            },
        )
    }

    /// Get the `Atom` mass, in atomic mass units
    pub fn mass(&self) -> (r: Result<Double, Error>)
        ensures
            r == Ok::<Double, Error>(self@.mass),
    {
        Ok(self.mass)
    }

    /// Set the `Atom` mass, in atomic mass units
    pub fn set_mass(&mut self, mass: Double) -> (r: Result<(), Error>)
        ensures
            r is Ok,
            final(self)@ == (AtomModel { mass, ..old(self)@ }),
    {
        self.mass = mass;
        Ok(())
    }

    /// Get the `Atom` charge, in number of the electron charge *e*
    pub fn charge(&self) -> (r: Result<Double, Error>)
        ensures
            r == Ok::<Double, Error>(self@.charge),
    {
        Ok(self.charge)
    }

    /// Set the `Atom` charge, in number of the electron charge *e*
    pub fn set_charge(&mut self, charge: Double) -> (r: Result<(), Error>)
        ensures
            r is Ok,
            final(self)@ == (AtomModel { charge, ..old(self)@ }),
    {
        self.charge = charge;
        Ok(())
    }

    /// Get the `Atom` name
    pub fn name(&self) -> (r: Result<String, Error>)
        ensures
            r matches Ok(name) && name@ == self@.name,
    {
        Ok(self.name.clone())
    }

    /// Set the `Atom` type. Mass and charge stay as they are.
    pub fn set_atom_type(&mut self, name: &str) -> (r: Result<(), Error>)
        ensures
            r is Ok,
            final(self)@ == (AtomModel { atom_type: name@, ..old(self)@ }),
    {
        self.atom_type = String::from_str(name);
        Ok(())
    }

    /// Get the `Atom` type
    pub fn atom_type(&self) -> (r: Result<String, Error>)
        ensures
            r matches Ok(name) && name@ == self@.atom_type,
    {
        Ok(self.atom_type.clone())
    }

    /// Set the `Atom` name
    pub fn set_name(&mut self, name: &str) -> (r: Result<(), Error>)
        ensures
            r is Ok,
            final(self)@ == (AtomModel { name: name@, ..old(self)@ }),
    {
        self.name = String::from_str(name);
        Ok(())
    }

    /// Try to get the full name of the `Atom`. The full name of "He" is
    /// "Helium", and so on. If the name can not be found, returns the empty
    /// string.
    pub fn full_name(&self, table: &ElementTable) -> (r: Result<String, Error>)
        ensures
            r matches Ok(name) && name@ == full_name_in(table@, self@.atom_type),
    {
        match table.lookup(self.atom_type.as_str()) {
            Some(element) => Ok(element.full_name.clone()),
            None => Ok(String::new()),
        }
    }

    /// Try to get the Van der Waals radius of the `Atom`. If the radius can not
    /// be found, returns -1.
    pub fn vdw_radius(&self, table: &ElementTable) -> (r: Result<Double, Error>)
        ensures
            r == Ok::<Double, Error>(vdw_radius_in(table@, self@.atom_type)),
    {
        match table.lookup(self.atom_type.as_str()) {
            Some(element) => Ok(element.vdw_radius),
            None => Ok(Double::minus_one()),
        }
    }

    /// Try to get the covalent radius of the `Atom`. If the radius can not be
    /// found, returns -1.
    pub fn covalent_radius(&self, table: &ElementTable) -> (r: Result<Double, Error>)
        ensures
            r == Ok::<Double, Error>(covalent_radius_in(table@, self@.atom_type)),
    {
        match table.lookup(self.atom_type.as_str()) {
            Some(element) => Ok(element.covalent_radius),
            None => Ok(Double::minus_one()),
        }
    }

    /// Try to get the atomic number of the `Atom`. If the number can not be
    /// found, returns -1.
    pub fn atomic_number(&self, table: &ElementTable) -> (r: Result<i64, Error>)
        ensures
            r matches Ok(number) && number == atomic_number_in(table@, self@.atom_type),
    {
        match table.lookup(self.atom_type.as_str()) {
            Some(element) => Ok(element.atomic_number),
            None => Ok(-1),
        }
    }
}

/// What `find` finds is the first entry with the symbol: it has the symbol,
/// it stands in the table, and no entry before it has the symbol. It finds
/// nothing only where no entry has the symbol.
pub proof fn law_find_first(entries: Seq<ElementModel>, symbol: Seq<char>)
    ensures
        match find(entries, symbol) {
            Some(element) => exists|i: int|
                0 <= i < entries.len() && entries[i] == element && element.symbol == symbol
                    && forall|j: int| 0 <= j < i ==> (#[trigger] entries[j]).symbol != symbol,
            None => forall|i: int| 0 <= i < entries.len() ==> (#[trigger] entries[i]).symbol
                != symbol,
        },
    decreases entries.len(),
{
    if entries.len() > 0 && entries[0].symbol != symbol {
        let rest = entries.drop_first();
        law_find_first(rest, symbol);
        match find(rest, symbol) {
            Some(element) => {
                let i = choose|i: int|
                    0 <= i < rest.len() && rest[i] == element && element.symbol == symbol
                        && forall|j: int| 0 <= j < i ==> (#[trigger] rest[j]).symbol != symbol;
                assert forall|j: int| 0 <= j < i + 1 implies (#[trigger] entries[j]).symbol
                    != symbol by {
                    if j > 0 {
                        assert(entries[j] == rest[j - 1]);
                    }
                }
                assert(entries[i + 1] == rest[i]);
            },
            None => {
                assert forall|i: int| 0 <= i < entries.len() implies (#[trigger] entries[i]).symbol
                    != symbol by {
                    if i > 0 {
                        assert(entries[i] == rest[i - 1]);
                    }
                }
            },
        }
    }
}

/// A type that the table does not hold gets the values that mean "unknown":
/// an empty full name, radii of `-1` and the atomic number `-1`; and a new
/// atom of such a type has the mass `0`.
pub proof fn law_unknown_type(entries: Seq<ElementModel>, symbol: Seq<char>)
    requires
        forall|i: int| 0 <= i < entries.len() ==> (#[trigger] entries[i]).symbol != symbol,
    ensures
        find(entries, symbol) is None,
        full_name_in(entries, symbol) == Seq::<char>::empty(),
        vdw_radius_in(entries, symbol) == of_bits(MINUS_ONE_BITS),
        covalent_radius_in(entries, symbol) == of_bits(MINUS_ONE_BITS),
        atomic_number_in(entries, symbol) == -1,
        mass_in(entries, symbol) == of_bits(ZERO_BITS),
{
    law_find_first(entries, symbol);
}

} // verus!
