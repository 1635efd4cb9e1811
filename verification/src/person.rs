//! The person entity: a named individual with an age and a flying force.

use vstd::prelude::*;
use vstd::string::StringExecFns;
use crate::numfmt::dec_digits;
use crate::numfmt::u32_to_string;

verus! {

/// A named individual. No field is validated: any name, age and force are
/// accepted. The flying force is a purely illustrative magnitude, stored in
/// hundredths of a unit so that it stays an exact integer.
#[derive(Debug, Clone)]
pub struct Person {
    pub name: String,
    pub age: u32,
    pub flying_force_centi: u64,
}

impl Person {
    /// Creates a person from explicit values; always succeeds.
    pub fn new(name: &str, age: u32, flying_force_centi: u64) -> (p: Person)
        ensures
            p.name@ == name@,
            p.age == age,
            p.flying_force_centi == flying_force_centi,
    {
        Person { name: String::from_str(name), age, flying_force_centi }
    }

    /// The default factory: Alice, thirty years old, with a flying force of
    /// 9999.99 units (999999 hundredths).
    pub fn create_default() -> (p: Person)
        ensures
            p.name@ == "Alice"@,
            p.age == 30,
            p.flying_force_centi == 999999,
    {
        Person::new("Alice", 30, 999999)
    }

    /// The greeting line: a fixed prefix followed by exactly the stored name
    /// and nothing else.
    pub fn greet(&self) -> (r: String)
        ensures
            r@ == "Hello, my name is "@ + self.name@,
    {
        let prefix = String::from_str("Hello, my name is ");
        prefix.concat(self.name.as_str())
    }

    /// The sentence combining the name and the age, discarding the flying
    /// force: `<name> is <age> years old`.
    pub fn describe(&self) -> (r: String)
        ensures
            r@ == self.name@ + " is "@ + dec_digits(self.age as nat) + " years old"@,
    {
        let start = String::from_str(self.name.as_str());
        let with_is = start.concat(" is ");
        let with_age = with_is.concat(u32_to_string(self.age).as_str());
        with_age.concat(" years old")
    }
}

} // verus!
