use backdrop_arc::{Arc, Disposal, LeakStrategy, OffsetArc, TrivialStrategy, UniqueArc};
use std::sync::atomic::{AtomicUsize, Ordering};

#[test]
fn new_has_count_one() {
    let a = Arc::<_, TrivialStrategy>::new(String::from("payload"));
    assert_eq!(Arc::count(&a), 1);
    assert!(a.is_unique());
    assert_eq!(*a, "payload");
}

#[test]
fn count_follows_clones_and_drops() {
    let a = Arc::<_, TrivialStrategy>::new(7u8);
    let clones: Vec<_> = (0..5).map(|_| a.clone()).collect();
    assert_eq!(Arc::count(&a), 6);
    let mut clones = clones;
    clones.truncate(2);
    assert_eq!(Arc::count(&a), 3);
    drop(clones);
    assert_eq!(Arc::count(&a), 1);
}

#[test]
fn try_unique_only_when_count_is_one() {
    let a = Arc::<_, TrivialStrategy>::new(vec![1, 2, 3]);
    let b = a.clone();
    let a = match Arc::try_unique(a) {
        Ok(_) => panic!("two handles exist"),
        Err(a) => a,
    };
    assert!(Arc::ptr_eq(&a, &b));
    drop(b);
    let u = match Arc::try_unique(a) {
        Ok(u) => u,
        Err(_) => panic!("one handle exists"),
    };
    let addr = format!("{:p}", &*u);
    let shared = u.shareable();
    assert_eq!(format!("{:p}", &*shared), addr);
    assert_eq!(*shared, vec![1, 2, 3]);
}

#[test]
fn clone_many_counts_taken_handles() {
    let a = Arc::<_, TrivialStrategy>::new(42u32);
    let taken: Vec<_> = {
        let mut it = Arc::clone_many(&a, 1000);
        assert_eq!(it.size_hint(), (1000, Some(1000)));
        let mut v = Vec::new();
        for _ in 0..100 {
            v.push(it.next().unwrap());
        }
        assert_eq!(it.size_hint(), (900, Some(900)));
        v
    };
    assert_eq!(Arc::count(&a), 101);
    drop(taken);
    let all = Arc::clone_many(&a, 1000).take_all();
    assert_eq!(all.len(), 1000);
    assert_eq!(Arc::count(&a), 1001);
    assert!(all.iter().all(|h| Arc::ptr_eq(h, &a)));
}

#[test]
fn clone_many_of_zero_gives_none() {
    let a = Arc::<_, TrivialStrategy>::new(1u8);
    let mut it = Arc::clone_many(&a, 0);
    assert!(it.next().is_none());
    assert!(it.next().is_none());
    assert_eq!(Arc::count(&a), 1);
}

#[test]
fn make_mut_detaches_shared_handle() {
    let a = Arc::<_, TrivialStrategy>::new(42i32);
    let b = a.clone();
    let c = a.clone();
    let d = a.clone();
    assert_eq!(Arc::count(&a), 4);
    drop(c);
    drop(d);
    assert_eq!(Arc::count(&a), 2);
    assert!(!a.is_unique());

    let mut m = a.clone();
    *Arc::make_mut(&mut m) += 1;
    assert!(!Arc::ptr_eq(&m, &a));
    assert_eq!(*m, 43);
    assert_eq!(*a, 42);
    assert_eq!(*b, 42);
    assert_eq!(Arc::count(&a), 2);
    assert_eq!(Arc::count(&m), 1);
}

#[test]
fn make_mut_in_place_when_unique() {
    let mut a = Arc::<_, TrivialStrategy>::new(String::from("ab"));
    let before = format!("{:p}", &*a);
    Arc::make_mut(&mut a).push('c');
    assert_eq!(format!("{:p}", &*a), before);
    assert_eq!(*a, "abc");
}

#[test]
fn get_mut_only_when_unique() {
    let mut a = Arc::<_, TrivialStrategy>::new(5u16);
    let b = a.clone();
    assert!(Arc::get_mut(&mut a).is_none());
    drop(b);
    *Arc::get_mut(&mut a).unwrap() = 6;
    assert_eq!(*a, 6);
}

#[test]
fn independent_allocations_are_equal_but_distinct() {
    let a = Arc::<_, TrivialStrategy>::new(String::from("same"));
    let b = Arc::<_, TrivialStrategy>::new(String::from("same"));
    assert!(!Arc::ptr_eq(&a, &b));
    assert_eq!(*a, *b);
    assert!(Arc::ptr_eq(&a, &a.clone()));
}

#[test]
fn unwrap_or_clone_takes_or_copies() {
    let a = Arc::<_, TrivialStrategy>::new(vec![9u8]);
    let b = a.clone();
    assert_eq!(Arc::unwrap_or_clone(a), vec![9u8]);
    assert_eq!(Arc::count(&b), 1);
    assert_eq!(Arc::unwrap_or_clone(b), vec![9u8]);
}

#[test]
fn offset_arc_keeps_the_count() {
    let a = Arc::<_, TrivialStrategy>::new(3u64);
    let o: OffsetArc<u64, TrivialStrategy> = Arc::into_raw_offset(a.clone());
    assert_eq!(Arc::count(&a), 2);
    let c = o.clone_arc();
    assert_eq!(Arc::count(&a), 3);
    assert!(Arc::ptr_eq(&c, &a));
    assert_eq!(*o.borrow_arc(), 3);
    let back = Arc::from_raw_offset(o);
    assert_eq!(Arc::count(&a), 3);
    assert!(Arc::ptr_eq(&back, &a));
}

#[test]
fn offset_arc_make_mut_detaches() {
    let a = Arc::<_, TrivialStrategy>::new(10u64);
    let mut o = Arc::into_raw_offset(a.clone());
    *o.make_mut() = 11;
    assert_eq!(*o, 11);
    assert_eq!(*a, 10);
    assert_eq!(Arc::count(&a), 1);
}

#[test]
fn borrow_arc_makes_new_handles() {
    let a = Arc::<_, TrivialStrategy>::new('x');
    let b = a.borrow_arc();
    assert_eq!(*b, 'x');
    let c = b.clone_arc();
    assert_eq!(Arc::count(&a), 2);
    assert!(Arc::ptr_eq(&a, &c));
}

#[test]
fn unique_arc_mutates_before_sharing() {
    let mut u = UniqueArc::<_, TrivialStrategy>::new([1, 2, 3, 4, 5]);
    u[4] = 7;
    let s = u.shareable();
    assert_eq!(*s, [1, 2, 3, 4, 7]);
    assert_eq!(Arc::count(&s), 1);
}

#[test]
fn uninit_write_on_unique_and_shared() {
    let mut u = UniqueArc::<std::mem::MaybeUninit<u32>, TrivialStrategy>::new_uninit();
    assert_eq!(*u.write(999), 999);

    let mut a = Arc::<std::mem::MaybeUninit<String>, TrivialStrategy>::new_uninit();
    assert_eq!(a.write(String::from("x")).map(|s| s.clone()), Some(String::from("x")));
    let _clone = a.clone();
    assert!(a.write(String::from("nonononono")).is_none());
}

#[test]
fn uninit_slice_has_the_length() {
    let mut a = Arc::<Vec<std::mem::MaybeUninit<u8>>, TrivialStrategy>::new_uninit_slice(13);
    assert_eq!(a.len(), 13);
    assert!(a.is_unique());
    assert_eq!(a.as_mut_slice().map(|s| s.len()), Some(13));
    let _clone = a.clone();
    assert!(a.as_mut_slice().is_none());
}

#[test]
fn leak_strategy_handles_work() {
    let a = Arc::<_, LeakStrategy>::new(vec![1u8; 4]);
    let b = a.clone();
    assert_eq!(Arc::count(&b), 2);
    drop(a);
    assert_eq!(Arc::count(&b), 1);
}

static DISPOSED: AtomicUsize = AtomicUsize::new(0);

struct Counting;

impl<X> Disposal<X> for Counting {
    fn dispose(item: X) {
        DISPOSED.fetch_add(1, Ordering::SeqCst);
        drop(item);
    }
}

#[test]
fn disposal_runs_once_after_last_handle() {
    let a = Arc::<_, Counting>::new(String::from("d"));
    let b = a.clone();
    let many: Vec<_> = Arc::clone_many(&a, 3).take_all();
    let start = DISPOSED.load(Ordering::SeqCst);
    drop(a);
    drop(many);
    assert_eq!(DISPOSED.load(Ordering::SeqCst), start);
    drop(b);
    assert_eq!(DISPOSED.load(Ordering::SeqCst), start + 1);

    let u = UniqueArc::<_, Counting>::new(1u8);
    assert_eq!(UniqueArc::into_inner(u), 1);
    assert_eq!(DISPOSED.load(Ordering::SeqCst), start + 1);

    let x = Arc::<_, Counting>::new(2u8);
    assert_eq!(Arc::try_unwrap(x).ok(), Some(2));
    assert_eq!(DISPOSED.load(Ordering::SeqCst), start + 1);

}

#[test]
fn with_arc_sees_the_same_handle() {
    let a = Arc::<_, TrivialStrategy>::new(21u32);
    let o = Arc::into_raw_offset(a.clone());
    let doubled = o.with_arc(|h| {
        assert!(Arc::ptr_eq(h, &a));
        **h * 2
    });
    assert_eq!(doubled, 42);
    assert_eq!(Arc::count(&a), 2);
}

#[test]
fn with_strategy_keeps_the_payload() {
    let u = UniqueArc::<_, TrivialStrategy>::new(String::from("moved"));
    let u = UniqueArc::with_strategy::<LeakStrategy>(u);
    assert_eq!(*u, "moved");
    assert_eq!(UniqueArc::into_inner(u), "moved");
}

#[test]
fn from_default_and_equality() {
    let a: Arc<i64, TrivialStrategy> = Arc::from(5);
    let b = Arc::<i64, TrivialStrategy>::new(5);
    let c: Arc<i64, TrivialStrategy> = Arc::default();
    assert!(a == b);
    assert!(!Arc::ptr_eq(&a, &b));
    assert!(a != c);
    assert_eq!(*c, 0);
    assert!(a == a.clone());
}
