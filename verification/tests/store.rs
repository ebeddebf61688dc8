use retained_ui::counter::{CounterMutReducer, CounterReducer, Message, ToDecimalText};
use retained_ui::state::{ImmutableStore, MutableStore, Projection, Store};

#[test]
fn immutable_store_folds_messages() {
    let mut store = ImmutableStore::new(0u64, CounterReducer);
    let msgs = vec![Message::Incr, Message::Incr, Message::Incr, Message::Incr];
    let mut expected = 0u64;
    for m in msgs {
        store.update(m);
        expected = expected.wrapping_add(1);
        let sel = store.selector(ToDecimalText);
        assert_eq!(sel.select(&store), format!("{}", expected).chars().collect::<Vec<char>>());
    }
}

#[test]
fn mutable_store_folds_messages() {
    let mut store = MutableStore::new(10u64, CounterMutReducer);
    store.update(Message::Incr);
    store.update(Message::Incr);
    let sel = store.selector(ToDecimalText);
    assert_eq!(sel.select(&store), vec!['1', '2']);
}

#[test]
fn both_store_variants_agree() {
    let mut a = ImmutableStore::new(0u64, CounterReducer);
    let mut b = MutableStore::new(0u64, CounterMutReducer);
    for _ in 0..7 {
        a.update(Message::Incr);
        b.update(Message::Incr);
    }
    let sa = a.selector(ToDecimalText);
    let sb = b.selector(ToDecimalText);
    assert_eq!(sa.select(&a), sb.select(&b));
    assert_eq!(sa.select(&a), vec!['7']);
}

#[test]
fn selector_is_live_not_a_snapshot() {
    let mut store = ImmutableStore::new(0u64, CounterReducer);
    // Built before the update ...
    let sel = store.selector(ToDecimalText);
    assert_eq!(sel.select(&store), vec!['0']);
    store.update(Message::Incr);
    // ... yet it observes the post-update state.
    assert_eq!(sel.select(&store), vec!['1']);
}

#[test]
fn set_replaces_state_without_reducer() {
    let mut store = ImmutableStore::new(5u64, CounterReducer);
    store.set(42);
    let sel = store.selector(ToDecimalText);
    assert_eq!(sel.select(&store), vec!['4', '2']);
    store.update(Message::Incr);
    assert_eq!(sel.select(&store), vec!['4', '3']);
}

#[test]
fn counter_wraps_at_the_top() {
    let mut store = ImmutableStore::new(u64::MAX, CounterReducer);
    store.update(Message::Incr);
    let sel = store.selector(ToDecimalText);
    assert_eq!(sel.select(&store), vec!['0']);
}

#[test]
fn decimal_projection_renders_digits() {
    let p = ToDecimalText;
    assert_eq!(p.project(&0), vec!['0']);
    assert_eq!(p.project(&9), vec!['9']);
    assert_eq!(p.project(&10), vec!['1', '0']);
    assert_eq!(p.project(&1234), vec!['1', '2', '3', '4']);
    assert_eq!(
        p.project(&u64::MAX),
        "18446744073709551615".chars().collect::<Vec<char>>()
    );
}
