use monkeyvec::Vec;

#[test]
fn it_works() {
}

#[test]
fn new_is_empty_and_owns_no_slots() {
    let v: Vec<u32> = Vec::new();
    assert_eq!(v.len(), 0);
    assert_eq!(v.capacity(), 0);
    assert!(v.is_empty());
    assert_eq!(v.as_slice(), &[] as &[u32]);
}

#[test]
fn pushes_keep_order_and_count() {
    let mut v: Vec<u32> = Vec::new();
    let values = [5u32, 1, 4, 1, 5, 9, 2, 6];
    let mut pushed = 0;
    for x in values {
        assert_eq!(v.push(x), Ok(()));
        pushed += 1;
        assert_eq!(v.len(), pushed);
    }
    assert_eq!(v.as_slice(), &values[..]);
    assert!(!v.is_empty());
}

#[test]
fn push_then_pop_gives_back_the_value() {
    let mut v: Vec<u32> = Vec::new();
    assert_eq!(v.push(10), Ok(()));
    assert_eq!(v.push(20), Ok(()));
    let before = v.len();
    assert_eq!(v.push(7), Ok(()));
    assert_eq!(v.pop(), Some(7));
    assert_eq!(v.len(), before);
    assert_eq!(v.as_slice(), &[10, 20]);
}

#[test]
fn pop_takes_from_the_end() {
    let mut v: Vec<u8> = Vec::from_slice(&[1, 2, 3]).unwrap();
    assert_eq!(v.pop(), Some(3));
    assert_eq!(v.pop(), Some(2));
    assert_eq!(v.as_slice(), &[1]);
    assert_eq!(v.capacity(), 3);
    assert_eq!(v.pop(), Some(1));
    assert_eq!(v.pop(), None);
    assert_eq!(v.pop(), None);
    assert_eq!(v.len(), 0);
    assert_eq!(v.capacity(), 3);
}

#[test]
fn pop_on_empty_is_not_an_error() {
    let mut v: Vec<String> = Vec::new();
    assert_eq!(v.pop(), None);
    assert_eq!(v.len(), 0);
    assert_eq!(v.capacity(), 0);
}

#[test]
fn clear_empties_and_keeps_capacity() {
    let mut v: Vec<String> = Vec::new();
    for word in ["a", "bb", "ccc"] {
        assert_eq!(v.push(word.to_string()), Ok(()));
    }
    v.clear();
    assert_eq!(v.len(), 0);
    assert!(v.is_empty());
    assert_eq!(v.capacity(), 3);
    assert_eq!(v.pop(), None);
}

#[test]
fn clear_on_empty_does_nothing() {
    let mut v: Vec<u8> = Vec::new();
    v.clear();
    assert_eq!(v.len(), 0);
    assert_eq!(v.capacity(), 0);
    assert_eq!(v.pop(), None);
}

#[test]
fn from_slice_reads_back_equal() {
    let data = [3u64, 1, 4, 1, 5];
    let v = Vec::from_slice(&data).unwrap();
    assert_eq!(v.as_slice(), &data[..]);
    assert_eq!(v.len(), 5);
    assert_eq!(v.capacity(), 5);
}

#[test]
fn from_slice_of_nothing_is_empty() {
    let data: [i16; 0] = [];
    let v = Vec::from_slice(&data).unwrap();
    assert_eq!(v.len(), 0);
    assert_eq!(v.capacity(), 0);
    assert_eq!(v.as_slice(), &data[..]);
}

#[test]
fn from_slice_takes_any_copy_type() {
    let pairs = [(1u8, 'a'), (2, 'b')];
    let v = Vec::from_slice(&pairs).unwrap();
    assert_eq!(v.as_slice(), &pairs[..]);
    let flags = [true, false, true];
    let w = Vec::from_slice(&flags).unwrap();
    assert_eq!(w.as_slice(), &flags[..]);
}

#[test]
fn extend_from_slice_adds_at_the_end() {
    let mut v = Vec::from_slice(&[1u8, 2]).unwrap();
    assert_eq!(v.extend_from_slice(&[3, 4, 5]), Ok(()));
    assert_eq!(v.as_slice(), &[1, 2, 3, 4, 5]);
    assert_eq!(v.capacity(), 5);
    assert_eq!(v.extend_from_slice(&[]), Ok(()));
    assert_eq!(v.as_slice(), &[1, 2, 3, 4, 5]);
    assert_eq!(v.capacity(), 5);
}

#[test]
fn extend_from_slice_reserves_beyond_the_capacity() {
    let mut v: Vec<u8> = Vec::new();
    assert_eq!(v.reserve(4), Ok(()));
    assert_eq!(v.extend_from_slice(&[9, 8]), Ok(()));
    assert_eq!(v.as_slice(), &[9, 8]);
    assert_eq!(v.capacity(), 6);
}

#[test]
fn append_moves_everything_over() {
    let mut a = Vec::from_slice(&[1u32, 2, 3]).unwrap();
    let mut b = Vec::from_slice(&[4u32, 5]).unwrap();
    assert_eq!(a.append(&mut b), Ok(()));
    assert_eq!(a.as_slice(), &[1, 2, 3, 4, 5]);
    assert_eq!(a.capacity(), 5);
    assert_eq!(b.len(), 0);
    assert_eq!(b.capacity(), 0);
    assert!(b.is_empty());
}

#[test]
fn append_of_owned_values_keeps_order() {
    let mut a: Vec<String> = Vec::new();
    let mut b: Vec<String> = Vec::new();
    a.push("one".to_string()).unwrap();
    b.push("two".to_string()).unwrap();
    b.push("three".to_string()).unwrap();
    assert_eq!(a.append(&mut b), Ok(()));
    let got: std::vec::Vec<&str> = a.as_slice().iter().map(|s| s.as_str()).collect();
    assert_eq!(got, ["one", "two", "three"]);
    assert!(b.is_empty());
}

#[test]
fn append_of_an_empty_container_changes_nothing() {
    let mut a = Vec::from_slice(&[7u8]).unwrap();
    let mut b: Vec<u8> = Vec::new();
    assert_eq!(a.append(&mut b), Ok(()));
    assert_eq!(a.as_slice(), &[7]);
    assert_eq!(a.capacity(), 1);
    assert!(b.is_empty());
}

#[test]
fn append_onto_an_empty_container() {
    let mut a: Vec<u8> = Vec::new();
    let mut b = Vec::from_slice(&[1u8, 2, 3]).unwrap();
    assert_eq!(a.append(&mut b), Ok(()));
    assert_eq!(a.as_slice(), &[1, 2, 3]);
    assert!(b.is_empty());
    assert_eq!(b.push(4), Ok(()));
    assert_eq!(b.as_slice(), &[4]);
}

#[test]
fn with_len_is_all_zero() {
    let v: Vec<u8> = Vec::with_len(4).unwrap();
    assert_eq!(v.as_slice(), &[0, 0, 0, 0]);
    assert_eq!(v.len(), 4);
    assert_eq!(v.capacity(), 4);
    let w: Vec<i64> = Vec::with_len(2).unwrap();
    assert_eq!(w.as_slice(), &[0, 0]);
    let flags: Vec<bool> = Vec::with_len(3).unwrap();
    assert_eq!(flags.as_slice(), &[false, false, false]);
    let rows: Vec<[u16; 2]> = Vec::with_len(2).unwrap();
    assert_eq!(rows.as_slice(), &[[0, 0], [0, 0]]);
}

#[test]
fn with_len_zero_is_empty_with_no_slots() {
    let v: Vec<u32> = Vec::with_len(0).unwrap();
    assert_eq!(v.len(), 0);
    assert_eq!(v.capacity(), 0);
    assert!(v.is_empty());
}

#[test]
fn dropping_releases_owned_elements_once() {
    let marker = std::rc::Rc::new(());
    {
        let mut v: Vec<std::rc::Rc<()>> = Vec::new();
        for _ in 0..5 {
            v.push(marker.clone()).unwrap();
        }
        assert_eq!(std::rc::Rc::strong_count(&marker), 6);
        assert!(v.pop().is_some());
        assert_eq!(std::rc::Rc::strong_count(&marker), 5);
    }
    assert_eq!(std::rc::Rc::strong_count(&marker), 1);
}
