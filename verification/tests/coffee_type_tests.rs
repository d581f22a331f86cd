use coffee_shop::coffee_type::CoffeeType;
use coffee_shop::errors::DomainError;

#[test]
fn parse_exact_names_succeed() {
    assert_eq!(CoffeeType::parse("Cappuccino").unwrap(), CoffeeType::Cappuccino);
    assert_eq!(CoffeeType::parse("Americano").unwrap(), CoffeeType::Americano);
    assert_eq!(CoffeeType::parse("Espresso").unwrap(), CoffeeType::Espresso);
    assert_eq!(CoffeeType::parse("Macchiato").unwrap(), CoffeeType::Macchiato);
    assert_eq!(CoffeeType::parse("Mocha").unwrap(), CoffeeType::Mocha);
    assert_eq!(CoffeeType::parse("Latte").unwrap(), CoffeeType::Latte);
}

#[test]
fn parse_wrong_case_fails() {
    let r = CoffeeType::parse("cappuccino");
    assert_eq!(r.unwrap_err(), DomainError::Validation { value: String::from("cappuccino") });
}

#[test]
fn parse_misspelling_fails() {
    let r = CoffeeType::parse("Cappucino");
    assert_eq!(r.unwrap_err(), DomainError::Validation { value: String::from("Cappucino") });
}

#[test]
fn parse_empty_fails() {
    let r = CoffeeType::parse("");
    assert_eq!(r.unwrap_err(), DomainError::Validation { value: String::new() });
}

#[test]
fn canonical_names() {
    assert_eq!(CoffeeType::Cappuccino.canonical_name(), "Cappuccino");
    assert_eq!(CoffeeType::Americano.canonical_name(), "Americano");
    assert_eq!(CoffeeType::Espresso.canonical_name(), "Espresso");
    assert_eq!(CoffeeType::Macchiato.canonical_name(), "Macchiato");
    assert_eq!(CoffeeType::Mocha.canonical_name(), "Mocha");
    assert_eq!(CoffeeType::Latte.canonical_name(), "Latte");
}

#[test]
fn canonical_name_parses_back() {
    for t in [
        CoffeeType::Cappuccino,
        CoffeeType::Americano,
        CoffeeType::Espresso,
        CoffeeType::Macchiato,
        CoffeeType::Mocha,
        CoffeeType::Latte,
    ] {
        assert_eq!(CoffeeType::parse(t.canonical_name().as_str()).unwrap(), t);
    }
}
