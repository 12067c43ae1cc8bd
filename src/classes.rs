use vstd::prelude::*;

verus! {

#[verifier::external_type_specification]
#[verifier::external_body]
pub struct ExUuid(uuid::Uuid);

/// Relies on uuid::Uuid::new_v4: a fresh random identifier, of which nothing
/// further is promised.
pub assume_specification[ uuid::Uuid::new_v4 ]() -> (r: uuid::Uuid);

/// Who delivered a product.
#[derive(PartialEq, Eq, Structural, Clone, Copy, Debug)]
pub enum Supplier {
    Edeka,
    SystemU,
    GS1,
}

/// One ingredient of a product, by name.
#[derive(Clone, Debug)]
pub struct Ingredient {
    name: String,
}

impl Ingredient {
    pub closed spec fn name_view(&self) -> Seq<char> {
        self.name@
    }

    pub fn new(name: &str) -> (r: Ingredient)
        ensures
            r.name_view() == name@,
    {
        Ingredient { name: name.to_string() }
    }

    pub fn name(&self) -> (r: &str)
        ensures
            r@ == self.name_view(),
    {
        self.name.as_str()
    }
}

/// A product record with a random identifier.
pub struct Product {
    id: uuid::Uuid,
    supplier: Supplier,
    gtin: String,
    description: String,
    ingredients: Vec<Ingredient>,
}

impl Product {
    pub closed spec fn supplier_view(&self) -> Supplier {
        self.supplier
    }

    pub closed spec fn gtin_view(&self) -> Seq<char> {
        self.gtin@
    }

    pub closed spec fn description_view(&self) -> Seq<char> {
        self.description@
    }

    pub closed spec fn ingredients_view(&self) -> Seq<Ingredient> {
        self.ingredients@
    }

    pub closed spec fn id_view(&self) -> uuid::Uuid {
        self.id
    }

    /// Builds a product with a freshly drawn identifier; the other fields are
    /// the arguments.
    pub fn new(supplier: Supplier, gtin: &str, description: &str, ingredients: Vec<Ingredient>) -> (r: Product)
        ensures
            r.supplier_view() == supplier,
            r.gtin_view() == gtin@,
            r.description_view() == description@,
            r.ingredients_view() == ingredients@,
    {
        Product {
            id: uuid::Uuid::new_v4(),
            supplier,
            gtin: gtin.to_string(),
            description: description.to_string(),
            ingredients,
        }
    }

    /// Builds a product from an existing identifier and fields.
    pub fn from_parts(
        id: uuid::Uuid,
        supplier: Supplier,
        gtin: &str,
        description: &str,
        ingredients: Vec<Ingredient>,
    ) -> (r: Product)
        ensures
            r.id_view() == id,
            r.supplier_view() == supplier,
            r.gtin_view() == gtin@,
            r.description_view() == description@,
            r.ingredients_view() == ingredients@,
    {
        Product {
            id,
            supplier,
            gtin: gtin.to_string(),
            description: description.to_string(),
            ingredients,
        }
    }

    pub fn id(&self) -> (r: uuid::Uuid)
        ensures
            r == self.id_view(),
    {
        self.id
    }

    pub fn supplier(&self) -> (r: Supplier)
        ensures
            r == self.supplier_view(),
    {
        self.supplier
    }

    pub fn gtin(&self) -> (r: &str)
        ensures
            r@ == self.gtin_view(),
    {
        self.gtin.as_str()
    }

    pub fn description(&self) -> (r: &str)
        ensures
            r@ == self.description_view(),
    {
        self.description.as_str()
    }

    pub fn ingredients(&self) -> (r: &Vec<Ingredient>)
        ensures
            r@ == self.ingredients_view(),
    {
        &self.ingredients
    }
}

} // verus!
