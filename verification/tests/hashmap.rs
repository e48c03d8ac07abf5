use mwcas::thread_local::hashmap::Uint14HashMap;

#[test]
fn it_works() {
    let m = Uint14HashMap::new();
    for key in 0..10000 {
        assert_eq!(m.insert(key, key), &key);
        assert_eq!(m.get(key), Some(&key));
    }
}

#[test]
fn get_before_insert_is_empty() {
    let m: Uint14HashMap<u64> = Uint14HashMap::new();
    assert_eq!(m.get(0), None);
    assert_eq!(m.get(9), None);
    assert_eq!(m.get(0x3fff), None);
}

#[test]
fn first_insertion_wins() {
    let m = Uint14HashMap::new();
    assert_eq!(m.insert(77, 1u64), &1);
    assert_eq!(m.insert(77, 2u64), &1);
    assert_eq!(m.get(77), Some(&1));
}
