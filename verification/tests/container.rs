use owning_ref::BoundedPrefix;
use owning_ref::Compose;
use owning_ref::ConstSeg;
use owning_ref::FirstWord;
use owning_ref::MutSeg;
use owning_ref::OwningRef;
use owning_ref::Pair;
use owning_ref::Prefix;
use owning_ref::Skip;
use owning_ref::Total;
use owning_ref::Triple;
use owning_ref::Upper;

#[allow(dead_code)]
fn testy(o: OwningRef<Vec<u8>, MutSeg>) {
    let _ = o.map(Prefix { k: 1 });
}

#[allow(dead_code)]
fn try_testy(o: OwningRef<Vec<u8>, MutSeg>) {
    let _ = o.try_map(BoundedPrefix { k: 1 });
}

#[test]
fn compile_checks() {
    let _ = testy;
    let _ = try_testy;
}

#[test]
fn construct_then_borrow_exclusive() {
    let owner: Vec<u8> = vec![1, 2, 3];
    let c = OwningRef::new(owner.clone());
    assert_eq!(c.borrow(), &owner[..]);
}

#[test]
fn construct_then_borrow_shared() {
    let owner: Vec<u8> = vec![1, 2, 3];
    let c = OwningRef::new_shared(owner.clone());
    assert_eq!(c.borrow(), &owner[..]);
}

#[test]
fn construct_empty_owner() {
    let c = OwningRef::new(Vec::<u8>::new());
    assert_eq!(c.borrow(), &[] as &[u8]);
    assert_eq!(c.into_owner(), Vec::<u8>::new());
}

#[test]
fn pure_map_keeps_owner() {
    let owner: Vec<u8> = b"hello world".to_vec();
    let c = OwningRef::new(owner.clone());
    let c = c.map(Prefix { k: 4 });
    let c = c.map(Skip { k: 2 });
    assert_eq!(c.into_owner(), owner);
}

#[test]
fn map_then_borrow_window() {
    let owner: Vec<u8> = b"hello world".to_vec();
    let c = OwningRef::new(owner).map(Skip { k: 6 }).map(Prefix { k: 3 });
    assert_eq!(c.borrow(), &b"wor"[..]);
}

#[test]
fn map_is_compositional() {
    let owner: Vec<u8> = b"hello world".to_vec();
    let f = Skip { k: 6 };
    let g = Prefix { k: 3 };
    let twice = OwningRef::new(owner.clone()).map(f).map(g);
    let once = OwningRef::new(owner).map(Compose { f, g });
    assert_eq!(twice.borrow(), once.borrow());
    assert_eq!(twice.into_owner(), once.into_owner());
}

#[test]
fn map_is_compositional_with_rewrite() {
    let owner: Vec<u8> = b"hello world".to_vec();
    let f = Prefix { k: 5 };
    let g = Upper;
    let twice = OwningRef::new(owner.clone()).map(f).map(g);
    let once = OwningRef::new(owner).map(Compose { f, g });
    assert_eq!(twice.borrow(), &b"HELLO"[..]);
    assert_eq!(once.borrow(), &b"HELLO"[..]);
    assert_eq!(twice.into_owner(), once.into_owner());
}

#[test]
fn try_map_success_matches_map() {
    let owner: Vec<u8> = b"hello world".to_vec();
    let tried = OwningRef::new(owner.clone())
        .try_map(Total { f: Prefix { k: 5 } })
        .unwrap_or_else(|_| panic!("total transform must succeed"));
    let mapped = OwningRef::new(owner).map(Prefix { k: 5 });
    assert_eq!(tried.borrow(), mapped.borrow());
    assert_eq!(tried.into_owner(), mapped.into_owner());
}

#[test]
fn try_map_bounded_prefix_success() {
    let owner: Vec<u8> = b"hello world".to_vec();
    let c = OwningRef::new(owner).try_map(BoundedPrefix { k: 5 });
    let c = match c {
        Ok(c) => c,
        Err(_) => panic!("five bytes fit in eleven"),
    };
    assert_eq!(c.borrow(), &b"hello"[..]);
}

#[test]
fn try_map_failure_yields_only_the_error() {
    let owner: Vec<u8> = b"hi".to_vec();
    let r = OwningRef::new(owner).try_map(BoundedPrefix { k: 5 });
    match r {
        Ok(_) => panic!("five bytes do not fit in two"),
        Err(e) => assert_eq!(e, 5),
    }
}

#[test]
fn shared_origin_first_word() {
    let owner: Vec<u8> = b"hello world".to_vec();
    let c = OwningRef::new_shared(owner);
    let c = c.map(FirstWord);
    assert_eq!(c.borrow(), &b"hello"[..]);
    assert_eq!(c.into_owner(), b"hello world".to_vec());
}

#[test]
fn exclusive_origin_uppercase_prefix() {
    let owner: Vec<u8> = b"hello world".to_vec();
    let mut c = OwningRef::new(owner).map(Prefix { k: 5 });
    let seg = c.borrow_mut();
    for b in seg.iter_mut() {
        *b = b.to_ascii_uppercase();
    }
    assert_eq!(c.borrow(), &b"HELLO"[..]);
    assert_eq!(c.into_owner(), b"HELLO world".to_vec());
}

#[test]
fn upper_transform_rewrites_selection_only() {
    let owner: Vec<u8> = b"hello world".to_vec();
    let c = OwningRef::new(owner).map(Prefix { k: 5 }).map(Upper);
    assert_eq!(c.borrow(), &b"HELLO"[..]);
    assert_eq!(c.into_owner(), b"HELLO world".to_vec());
}

// `as_owner` exists only on shared-origin containers and `borrow_mut` only on
// exclusive-origin ones; calling either on the other origin does not compile.
#[test]
fn as_owner_on_shared_origin() {
    let owner: Vec<u8> = b"hello world".to_vec();
    let c = OwningRef::new_shared(owner.clone()).map(FirstWord);
    assert_eq!(c.as_owner(), &owner);
    assert_eq!(c.borrow(), &b"hello"[..]);
}

#[test]
fn first_word_of_spaceless_and_of_leading_space() {
    let c = OwningRef::new_shared(b"hello".to_vec()).map(FirstWord);
    assert_eq!(c.borrow(), &b"hello"[..]);
    let c = OwningRef::new_shared(b" hi".to_vec()).map(FirstWord);
    assert_eq!(c.borrow(), &[] as &[u8]);
}

#[test]
fn prefix_and_skip_clamp_to_selection() {
    let c = OwningRef::new(b"abc".to_vec()).map(Prefix { k: 10 });
    assert_eq!(c.borrow(), &b"abc"[..]);
    let c = OwningRef::new(b"abc".to_vec()).map(Skip { k: 10 });
    assert_eq!(c.borrow(), &[] as &[u8]);
}

#[test]
fn new_raw_pair_of_shared_slots() {
    let owner: Vec<u8> = b"hello world".to_vec();
    let slots = Pair {
        first: ConstSeg { lo: 0, hi: 5 },
        second: ConstSeg { lo: 6, hi: 11 },
    };
    let c = OwningRef::new_raw(owner.clone(), slots);
    let (a, b) = c.borrow();
    assert_eq!(a, &b"hello"[..]);
    assert_eq!(b, &b"world"[..]);
    assert_eq!(c.as_owner(), &owner);
    assert_eq!(c.into_owner(), owner);
}

#[test]
fn borrow_mut_writes_land_in_the_owner() {
    let mut c = OwningRef::new(vec![1u8, 2, 3, 4]).map(Skip { k: 1 }).map(Prefix { k: 2 });
    let seg = c.borrow_mut();
    assert_eq!(seg, &mut [2u8, 3][..]);
    seg[0] = 20;
    seg[1] = 30;
    assert_eq!(c.borrow(), &[20u8, 30][..]);
    assert_eq!(c.into_owner(), vec![1u8, 20, 30, 4]);
}

#[test]
fn new_raw_triple_of_shared_slots() {
    let owner: Vec<u8> = b"one two six".to_vec();
    let slots = Triple {
        first: ConstSeg { lo: 0, hi: 3 },
        second: ConstSeg { lo: 4, hi: 7 },
        third: ConstSeg { lo: 8, hi: 11 },
    };
    let c = OwningRef::new_raw(owner.clone(), slots);
    let (a, b, d) = c.borrow();
    assert_eq!(a, &b"one"[..]);
    assert_eq!(b, &b"two"[..]);
    assert_eq!(d, &b"six"[..]);
    assert_eq!(c.as_owner(), &owner);
}

#[test]
fn map_pair_carries_two_views_of_one_owner() {
    let owner: Vec<u8> = b"hello world".to_vec();
    let c = OwningRef::new_shared(owner.clone());
    let c = c.map_pair(FirstWord, Skip { k: 6 });
    let (a, b) = c.borrow();
    assert_eq!(a, &b"hello"[..]);
    assert_eq!(b, &b"world"[..]);
    assert_eq!(c.as_owner(), &owner);
    assert_eq!(c.into_owner(), owner);
}

#[test]
fn map_triple_carries_three_views_of_one_owner() {
    let owner: Vec<u8> = b"one two six".to_vec();
    let c = OwningRef::new_shared(owner.clone());
    let c = c.map_triple(FirstWord, Prefix { k: 7 }, Skip { k: 8 });
    let (a, b, d) = c.borrow();
    assert_eq!(a, &b"one"[..]);
    assert_eq!(b, &b"one two"[..]);
    assert_eq!(d, &b"six"[..]);
    assert_eq!(c.into_owner(), owner);
}
