use rouge_left::renderables::{load_renderables, Models, Renderables, Template};

#[test]
fn load_renderables_registers_every_category() {
    let m = load_renderables(Models::default());
    assert_eq!(m.data_from_t(&Renderables::Wall), Some((Template::Scene, 0)));
    assert_eq!(m.data_from_t(&Renderables::Floor), Some((Template::Scene, 1)));
    assert_eq!(m.data_from_t(&Renderables::Player), Some((Template::Scene, 2)));
    // Enemy is unused by current logic but must stay a valid category.
    assert_eq!(m.data_from_t(&Renderables::Enemy), Some((Template::Scene, 3)));
}

#[test]
fn unregistered_category_does_not_resolve() {
    let mut m = Models::default();
    m.insert(Renderables::Wall, Template::Scene);
    assert_eq!(m.data_from_t(&Renderables::Enemy), None);
}

#[test]
fn data_from_t_returns_first_registration() {
    let mut m = Models::default();
    m.insert(Renderables::Wall, Template::Scene);
    m.insert(Renderables::Wall, Template::Scene);
    assert_eq!(m.data_from_t(&Renderables::Wall), Some((Template::Scene, 0)));
}

#[test]
fn load_renderables_keeps_earlier_entries() {
    let mut m = Models::default();
    m.insert(Renderables::Enemy, Template::Scene);
    let m = load_renderables(m);
    assert_eq!(m.data_from_t(&Renderables::Enemy), Some((Template::Scene, 0)));
    assert_eq!(m.data_from_t(&Renderables::Wall), Some((Template::Scene, 1)));
}
