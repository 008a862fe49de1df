use chat::commands::greet;
use chat::pgvector::PgVector;

#[test]
fn greet_greets_by_name() {
    assert_eq!(greet("Tauri"), "Hello, Tauri! You've been greeted from Rust!");
    assert_eq!(greet(""), "Hello, ! You've been greeted from Rust!");
}

#[test]
fn store_defaults() {
    let store = PgVector::with_pool("pool", 384);
    assert_eq!(*store.get_pool(), "pool");
    assert_eq!(store.table_name(), "swiftide_rag");
    assert_eq!(store.vector_size(), 384);
    assert_eq!(store.batch_size(), 128);
}
