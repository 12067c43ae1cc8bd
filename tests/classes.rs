use detcore::classes::{Ingredient, Product, Supplier};

#[test]
fn product_keeps_its_fields() {
    let ingredients = vec![Ingredient::new("flour"), Ingredient::new("salt")];
    let p = Product::new(Supplier::Edeka, "4006381333931", "bread", ingredients);
    assert_eq!(p.supplier(), Supplier::Edeka);
    assert_eq!(p.gtin(), "4006381333931");
    assert_eq!(p.description(), "bread");
    assert_eq!(p.ingredients().len(), 2);
    assert_eq!(p.ingredients()[0].name(), "flour");
    assert_eq!(p.ingredients()[1].name(), "salt");
}

#[test]
fn products_get_random_version_four_ids() {
    let a = Product::new(Supplier::GS1, "1", "a", Vec::new());
    let b = Product::new(Supplier::SystemU, "1", "a", Vec::new());
    assert_ne!(a.id(), b.id());
    assert_eq!(a.id().get_version_num(), 4);
}
