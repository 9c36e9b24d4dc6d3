use statements::statements_of_entity;
use statements::Creatable;
use statements::Deletable;
use statements::Entity;
use statements::Ops;
use statements::Queryable;
use statements::Statement;
use statements::Updatable;

#[derive(Default)]
struct Product {
    title: String,
}

impl Entity for Product {}

// A second persistable type, declaring nothing but the capability: the
// operation traits must come for free through the blanket implementations.
struct Order {
    id: u64,
}

impl Entity for Order {}

#[test]
fn test_create() {
    let session = Product::create(Product::default());
    assert_eq!(session.ops, Ops::Insert);
}

#[test]
fn test_update() {
    let p = Product {
        title: String::from("lamp"),
    };
    let session = Product::update(p);
    assert_eq!(session.ops, Ops::Update);
}

#[test]
fn test_delete() {
    let p = Product {
        title: String::from("lamp"),
    };
    let session = Product::delete(p);
    assert_eq!(session.ops, Ops::Delete);
}

#[test]
fn test_query() {
    let session: Statement<Product> = Product::query();
    assert_eq!(session.ops, Ops::Query);
}

#[test]
fn test_blanket_impls_on_bare_entity() {
    assert_eq!(Order::create(Order { id: 1 }).ops, Ops::Insert);
    assert_eq!(Order::update(Order { id: 2 }).ops, Ops::Update);
    assert_eq!(Order::delete(Order { id: 3 }).ops, Ops::Delete);
    let q: Statement<Order> = Order::query();
    assert_eq!(q.ops, Ops::Query);
}

#[test]
fn test_statements_of_entity() {
    let (i, u, d, q) =
        statements_of_entity(Order { id: 1 }, Order { id: 2 }, Order { id: 3 });
    assert_eq!(i.ops, Ops::Insert);
    assert_eq!(u.ops, Ops::Update);
    assert_eq!(d.ops, Ops::Delete);
    assert_eq!(q.ops, Ops::Query);
}

#[test]
fn test_new_accepts_every_kind() {
    assert_eq!(Statement::<Product>::new(Ops::Insert).ops, Ops::Insert);
    assert_eq!(Statement::<Product>::new(Ops::Update).ops, Ops::Update);
    assert_eq!(Statement::<Product>::new(Ops::Delete).ops, Ops::Delete);
    assert_eq!(Statement::<Product>::new(Ops::Query).ops, Ops::Query);
}

#[test]
fn test_new_twice_same_ops_agree() {
    let s1 = Statement::<Order>::new(Ops::Update);
    let s2 = Statement::<Order>::new(Ops::Update);
    assert_eq!(s1.ops, s2.ops);
}

#[test]
fn test_create_on_default_entity() {
    let session = Product::create(Product::default());
    assert_eq!(session.ops, Ops::Insert);
    let again = Product::create(Product::default());
    assert_eq!(session.ops, again.ops);
}
