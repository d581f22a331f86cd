use vstd::prelude::*;
use vstd::string::*;
use crate::errors::DomainError;
use crate::strutil::str_eq;

verus! {

/// The closed set of coffee types the shop serves.
#[derive(Clone, Copy, PartialEq, Eq, Structural, Debug)]
pub enum CoffeeType {
    Cappuccino,
    Americano,
    Espresso,
    Macchiato,
    Mocha,
    Latte,
}

/// The canonical display string of a coffee type: exactly the variant's name.
pub open spec fn coffee_type_name(t: CoffeeType) -> Seq<char> {
    match t {
        CoffeeType::Cappuccino => "Cappuccino"@,
        CoffeeType::Americano => "Americano"@,
        CoffeeType::Espresso => "Espresso"@,
        CoffeeType::Macchiato => "Macchiato"@,
        CoffeeType::Mocha => "Mocha"@,
        CoffeeType::Latte => "Latte"@,
    }
}

/// Exact, case-sensitive parse: `Some(t)` iff `s` is the canonical name of `t`.
pub open spec fn parse_coffee_type(s: Seq<char>) -> Option<CoffeeType> {
    if s == coffee_type_name(CoffeeType::Cappuccino) {
        Some(CoffeeType::Cappuccino)
    } else if s == coffee_type_name(CoffeeType::Americano) {
        Some(CoffeeType::Americano)
    } else if s == coffee_type_name(CoffeeType::Espresso) {
        Some(CoffeeType::Espresso)
    } else if s == coffee_type_name(CoffeeType::Macchiato) {
        Some(CoffeeType::Macchiato)
    } else if s == coffee_type_name(CoffeeType::Mocha) {
        Some(CoffeeType::Mocha)
    } else if s == coffee_type_name(CoffeeType::Latte) {
        Some(CoffeeType::Latte)
    } else {
        None
    }
}

/// Parsing the canonical name of any coffee type gives back that type.
pub proof fn lemma_parse_canonical_name(t: CoffeeType)
    ensures
        parse_coffee_type(coffee_type_name(t)) == Some(t),
{
    reveal_strlit("Cappuccino");
    reveal_strlit("Americano");
    reveal_strlit("Espresso");
    reveal_strlit("Macchiato");
    reveal_strlit("Mocha");
    reveal_strlit("Latte");
    // The parse chain settles only once every pair of names is told apart,
    // by length or by first character.
    assert("Cappuccino"@.len() == 10);
    assert("Americano"@.len() == 9);
    assert("Espresso"@.len() == 8);
    assert("Macchiato"@.len() == 9);
    assert("Mocha"@.len() == 5);
    assert("Latte"@.len() == 5);
    assert("Americano"@[0] == 'A' && "Macchiato"@[0] == 'M');
    assert("Mocha"@[0] == 'M' && "Latte"@[0] == 'L');
    assert("Americano"@ != "Cappuccino"@);
    assert("Espresso"@ != "Cappuccino"@);
    assert("Espresso"@ != "Americano"@);
    assert("Macchiato"@ != "Cappuccino"@);
    assert("Macchiato"@ != "Americano"@);
    assert("Macchiato"@ != "Espresso"@);
    assert("Mocha"@ != "Cappuccino"@);
    assert("Mocha"@ != "Americano"@);
    assert("Mocha"@ != "Espresso"@);
    assert("Mocha"@ != "Macchiato"@);
    assert("Latte"@ != "Cappuccino"@);
    assert("Latte"@ != "Americano"@);
    assert("Latte"@ != "Espresso"@);
    assert("Latte"@ != "Macchiato"@);
    assert("Latte"@ != "Mocha"@);
}

impl CoffeeType {
    /// The canonical display string of this coffee type.
    pub fn canonical_name(&self) -> (r: String)
        ensures
            r@ == coffee_type_name(*self),
    {
        match self {
            CoffeeType::Cappuccino => String::from_str("Cappuccino"),
            CoffeeType::Americano => String::from_str("Americano"),
            CoffeeType::Espresso => String::from_str("Espresso"),
            CoffeeType::Macchiato => String::from_str("Macchiato"),
            CoffeeType::Mocha => String::from_str("Mocha"),
            CoffeeType::Latte => String::from_str("Latte"),
        }
    }

    /// Parses a coffee type from its canonical name, case- and
    /// spelling-exact; any other input is rejected with a validation error
    /// carrying the offending string.
    pub fn parse(s: &str) -> (r: Result<CoffeeType, DomainError>)
        ensures
            match parse_coffee_type(s@) {
                Some(t) => r == Ok::<CoffeeType, DomainError>(t),
                None => r matches Err(DomainError::Validation { value }) && value@ == s@,
            },
    {
        if str_eq(s, "Cappuccino") {
            Ok(CoffeeType::Cappuccino)
        } else if str_eq(s, "Americano") {
            Ok(CoffeeType::Americano)
        } else if str_eq(s, "Espresso") {
            Ok(CoffeeType::Espresso)
        } else if str_eq(s, "Macchiato") {
            Ok(CoffeeType::Macchiato)
        } else if str_eq(s, "Mocha") {
            Ok(CoffeeType::Mocha)
        } else if str_eq(s, "Latte") {
            Ok(CoffeeType::Latte)
        } else {
            Err(DomainError::Validation { value: s.to_owned() })
        }
    }
}

} // verus!
