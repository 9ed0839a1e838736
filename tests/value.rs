use swiss_slot::value::{SlotIndex, Value, NULL_PAYLOAD_WORD};
use swiss_slot::RefCnt;

/// A handle that is nothing but its word.
#[derive(Clone, Debug, PartialEq)]
struct Tok(usize);

impl RefCnt for Tok {
    fn addr(&self) -> usize {
        self.0
    }

    fn as_ptr(me: &Self) -> usize {
        me.0
    }

    fn into_ptr(me: Self) -> usize {
        me.0
    }

    fn inc(me: &Self) -> usize {
        me.0
    }

    fn from_ptr(addr: usize) -> Self {
        Tok(addr)
    }

    fn dec(_addr: usize) {}
}

type Slot = Value<Tok>;

#[test]
fn test_none() {
    let value = Slot::Empty;
    assert_eq!(0, RefCnt::as_ptr(&value));
    assert_eq!(0, RefCnt::inc(&value));
    <Slot as RefCnt>::dec(0);
    assert_eq!(0, RefCnt::into_ptr(value));
    assert!(matches!(<Slot as RefCnt>::from_ptr(0), Value::Empty));
}

#[test]
fn test_deleted() {
    let value = Slot::Deleted;
    assert_eq!(1, RefCnt::as_ptr(&value));
    assert_eq!(1, RefCnt::inc(&value));
    <Slot as RefCnt>::dec(1);
    assert_eq!(1, RefCnt::into_ptr(value));
    assert!(matches!(<Slot as RefCnt>::from_ptr(1), Value::Deleted));
}

#[test]
fn test_migrated() {
    let value = Slot::Migrated(SlotIndex::new(2).unwrap());
    assert_eq!(2, RefCnt::as_ptr(&value));
    assert_eq!(2, RefCnt::inc(&value));
    <Slot as RefCnt>::dec(2);
    assert_eq!(2, RefCnt::into_ptr(value));
    assert!(matches!(
        <Slot as RefCnt>::from_ptr(2),
        Value::Migrated(ix) if ix.to_raw() == 2
    ));
}

#[test]
fn test_no_arc() {
    let value = Slot::Present(Tok(0));
    assert_eq!(254, RefCnt::as_ptr(&value));
    assert_eq!(254, RefCnt::inc(&value));
    <Slot as RefCnt>::dec(254);
    assert_eq!(254, RefCnt::into_ptr(value));
    assert!(matches!(<Slot as RefCnt>::from_ptr(254), Value::Present(Tok(0))));
}

#[test]
fn test_arc() {
    let addr: usize = 0x7f00_1000;
    let value = Slot::Present(Tok(addr));
    assert_eq!(addr, RefCnt::as_ptr(&value));
    assert_eq!(addr, RefCnt::inc(&value));
    <Slot as RefCnt>::dec(addr);
    assert!(matches!(
        <Slot as RefCnt>::from_ptr(addr),
        Value::Present(Tok(a)) if a == addr
    ));
    assert_eq!(addr, RefCnt::into_ptr(value));
}

fn same(a: &Slot, b: &Slot) -> bool {
    match (a, b) {
        (Value::Empty, Value::Empty) | (Value::Deleted, Value::Deleted) => true,
        (Value::Migrated(x), Value::Migrated(y)) => x.to_raw() == y.to_raw(),
        (Value::Present(x), Value::Present(y)) => x == y,
        _ => false,
    }
}

#[test]
fn round_trip_every_value() {
    let mut values = vec![
        Slot::Empty,
        Slot::Deleted,
        Slot::Present(Tok(0)),
        Slot::Present(Tok(256)),
        Slot::Present(Tok(usize::MAX)),
    ];
    for ix in 2u8..=253 {
        values.push(Slot::Migrated(SlotIndex::new(ix).unwrap()));
    }
    for v in values {
        let word = RefCnt::as_ptr(&v);
        let back = <Slot as RefCnt>::from_ptr(RefCnt::into_ptr(v.clone()));
        assert!(same(&back, &v), "word {}", word);
    }
}

#[test]
fn every_word_decodes_and_encodes_back() {
    for w in 0usize..1024 {
        let v = <Slot as RefCnt>::from_ptr(w);
        assert_eq!(w, RefCnt::into_ptr(v));
    }
}

#[test]
fn word_kinds_at_the_boundaries() {
    assert!(matches!(<Slot as RefCnt>::from_ptr(0), Value::Empty));
    assert!(matches!(<Slot as RefCnt>::from_ptr(1), Value::Deleted));
    assert!(matches!(<Slot as RefCnt>::from_ptr(2), Value::Migrated(_)));
    assert!(matches!(<Slot as RefCnt>::from_ptr(253), Value::Migrated(_)));
    assert!(matches!(<Slot as RefCnt>::from_ptr(NULL_PAYLOAD_WORD), Value::Present(Tok(0))));
    assert!(matches!(<Slot as RefCnt>::from_ptr(4096), Value::Present(Tok(4096))));
}

#[test]
fn nested_values_round_trip() {
    type Outer = Value<Slot>;
    let inner = Slot::Present(Tok(0x5000));
    let outer = Outer::Present(inner);
    let word = RefCnt::into_ptr(outer);
    assert_eq!(0x5000, word);
    match <Outer as RefCnt>::from_ptr(word) {
        Value::Present(Value::Present(Tok(a))) => assert_eq!(0x5000, a),
        _ => panic!("nested handle lost"),
    }
    let outer_empty = Outer::Present(Slot::Empty);
    assert_eq!(NULL_PAYLOAD_WORD, RefCnt::into_ptr(outer_empty));
    assert!(matches!(
        <Outer as RefCnt>::from_ptr(NULL_PAYLOAD_WORD),
        Value::Present(Value::Empty)
    ));
}

#[test]
fn default_value_is_empty() {
    let v: Slot = Default::default();
    assert!(matches!(v, Value::Empty));
}

#[test]
fn forward_index_domain() {
    assert!(SlotIndex::new(0).is_none());
    assert!(SlotIndex::new(1).is_none());
    assert!(SlotIndex::new(255).is_none());
    assert!(SlotIndex::new(254).is_none());
    assert_eq!(2, SlotIndex::new(2).unwrap().to_raw());
    assert_eq!(253, SlotIndex::new(253).unwrap().to_raw());
    for i in 2u8..=253 {
        assert_eq!(i, SlotIndex::new(i).unwrap().to_raw());
        assert_eq!(i as usize, SlotIndex::new(i).unwrap().to_ptr());
    }
    assert_eq!(253, SlotIndex::max());
    assert_eq!(77, SlotIndex::new_unchecked(77).to_raw());
}

#[test]
fn storable_handle_addresses() {
    assert!(swiss_slot::value::is_storable_addr(0));
    assert!(!swiss_slot::value::is_storable_addr(1));
    assert!(!swiss_slot::value::is_storable_addr(254));
    assert!(!swiss_slot::value::is_storable_addr(255));
    assert!(swiss_slot::value::is_storable_addr(256));
    assert!(swiss_slot::value::is_storable_addr(usize::MAX));
}
