use shara::patterns::Patterns;

#[test]
fn both_patterns_compile() {
    assert!(Patterns::new().is_some());
}

#[test]
fn full_names() {
    let p = Patterns::new().unwrap();
    assert!(p.is_full_name("Шевченко Тарас Григорович"));
    assert!(p.is_full_name("Д'Артаньян Іван Петрович"));
    assert!(!p.is_full_name("Шевченко Тарас"));
    assert!(!p.is_full_name("Шевченко  Тарас Григорович"));
    assert!(!p.is_full_name("Ivan Petrov Ivanovich"));
    assert!(!p.is_full_name("Шевченко Тарас Григорович Кобзар"));
}

#[test]
fn groups() {
    let p = Patterns::new().unwrap();
    assert!(p.is_group("ФБ-96"));
    assert!(p.is_group("ФІ-11мп"));
    assert!(p.is_group("ФФ-02мн"));
    assert!(p.is_group("група ФЕ-01"));
    assert!(!p.is_group("ФЖ-11"));
    assert!(!p.is_group("ФБ-9"));
    assert!(!p.is_group("ФБ-96x"));
}
