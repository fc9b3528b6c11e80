use lazy_static::Lazy;
use std::collections::HashMap;

fn times_two(n: u32) -> u32 {
    n * 2
}

#[test]
fn lazy_alone() {
    let mut x = Lazy::new(0u32);
    x.get(|| 1);
    assert_eq!(*x.get(|| 2), 1);
}

#[test]
fn unboxed() {
    let mut nat = Lazy::new(0u32);
    assert_eq!(*nat.get(|| times_two(3)), 6);
    let mut arrs = Lazy::new([None, None, None]);
    assert_eq!(
        &*arrs.get(|| [Some(Box::new(1u32)), Some(Box::new(2)), Some(Box::new(3))]),
        &[Some(Box::new(1)), Some(Box::new(2)), Some(Box::new(3))]
    );
}

#[test]
fn test_basic() {
    let mut string_cell = Lazy::new(String::new());
    let s = string_cell.get(|| "hello".to_string());
    assert_eq!(&**s, "hello");

    let mut number = Lazy::new(0u32);
    assert_eq!(*number.get(|| times_two(3)), 6);

    let mut hashmap_cell = Lazy::new(HashMap::new());
    let map = hashmap_cell.get(|| {
        let mut m: HashMap<u32, &'static str> = HashMap::new();
        m.insert(0, "abc");
        m.insert(1, "def");
        m.insert(2, "ghi");
        m
    });
    assert!(map.get(&1).is_some());
    assert!(map.get(&3).is_none());

    let mut array_boxes = Lazy::new([Box::new(0u32), Box::new(0), Box::new(0)]);
    assert_eq!(
        &*array_boxes.get(|| [Box::new(1), Box::new(2), Box::new(3)]),
        &[Box::new(1), Box::new(2), Box::new(3)]
    );

    let mut wrapped = Lazy::new(0u32);
    assert_eq!(*wrapped.get(|| (-1i32) as u32), u32::MAX);
}

#[test]
fn test_repeat() {
    let mut number = Lazy::new(0u32);
    assert_eq!(*number.get(|| times_two(3)), 6);
    assert_eq!(*number.get(|| times_two(3)), 6);
    assert_eq!(*number.get(|| times_two(3)), 6);
}

#[test]
fn test_visibility() {
    let mut foo = Lazy::new(Box::new(1u32));
    assert_eq!(*foo.get(|| Box::new(0)), Box::new(0));
}

#[derive(Copy, Clone, Debug, PartialEq)]
struct X;
struct Once(X);
fn once_init() -> Once {
    Once(X)
}
fn data() -> X {
    X
}
fn require_sync() -> X {
    X
}
fn transmute() -> X {
    X
}
fn test(_: Vec<X>) -> X {
    X
}

#[test]
fn item_name_shadowing() {
    let mut item_name_test = Lazy::new(X);
    assert_eq!(
        *item_name_test.get(|| test(vec![
            X,
            Once(X).0,
            once_init().0,
            data(),
            require_sync(),
            transmute()
        ])),
        X
    );
}

#[test]
fn builder_runs_at_most_once() {
    for n in [2u32, 8, 64] {
        let mut count: u32 = 0;
        let mut cell = Lazy::new(0u32);
        for _ in 0..n {
            assert_eq!(*cell.get(|| {
                count += 1;
                7
            }), 7);
        }
        assert_eq!(count, 1);
    }
}

#[test]
fn construction_runs_no_builder() {
    let mut log: Vec<&'static str> = Vec::new();
    let mut cell = Lazy::new(0u32);
    assert!(log.is_empty());
    cell.get(|| {
        log.push("built");
        5
    });
    assert_eq!(log, vec!["built"]);
    assert_eq!(*cell.get(|| {
        log.push("built again");
        6
    }), 5);
    assert_eq!(log, vec!["built"]);
}

#[test]
fn observed_value_is_fully_populated() {
    let mut cell = Lazy::new(HashMap::new());
    let map = cell.get(|| {
        let mut m: HashMap<u32, &'static str> = HashMap::new();
        m.insert(0, "foo");
        m.insert(1, "bar");
        m.insert(2, "baz");
        m
    });
    assert_eq!(map.len(), 3);
    assert_eq!(map.get(&0), Some(&"foo"));
    assert_eq!(map.get(&1), Some(&"bar"));
    assert_eq!(map.get(&2), Some(&"baz"));
}

#[test]
fn repeated_observers_see_one_instance() {
    let mut cell = Lazy::new(String::new());
    let first = cell.get(|| "the one value".to_string()).clone();
    let second = cell.get(|| "another value".to_string()).clone();
    assert_eq!(first, "the one value");
    assert_eq!(first, second);
}
