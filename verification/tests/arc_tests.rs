use elysees::{Arc, ArcBorrow, ArcBox, ArcRef, Heap, MemoryOrder, OffsetArc, OffsetArcBorrow};

#[test]
fn try_unwrap() {
    let mut heap = Heap::new();
    let x = Arc::new(100usize, &mut heap);
    let y = x.clone(&mut heap);

    // The count should be two so `try_unwrap()` should fail
    assert_eq!(Arc::count(&x, &heap), 2);
    match Arc::try_unwrap(x, &mut heap) {
        Ok(..) => panic!("x is not unique"),
        Err(x) => Arc::drop(x, &mut heap),
    }

    // Since `x` has now been dropped, the count should be 1
    // and `try_unwrap()` should succeed
    assert_eq!(Arc::count(&y, &heap), 1);
    assert!(matches!(Arc::try_unwrap(y, &mut heap), Ok(100)));
}

#[test]
fn borrow_count() {
    let mut heap = Heap::new();
    let mut borrows = Vec::with_capacity(100);
    let x = Arc::new(76, &mut heap);
    let y = Arc::borrow_arc(&x);
    assert_eq!(Arc::count(&x, &heap), 1);
    assert_eq!(ArcBorrow::count(y, &heap), 1);
    for i in 0..100 {
        borrows.push(x.clone(&mut heap));
        assert_eq!(Arc::count(&x, &heap), i + 2);
        assert_eq!(ArcBorrow::count(y, &heap), i + 2);
    }
}

#[test]
fn maybeuninit() {
    let mut heap = Heap::new();
    let arc: Arc<i32> = Arc::new_uninit(&mut heap);
    Arc::write(&arc, &mut heap, 999);

    let arc = Arc::assume_init(arc, &heap);
    assert_eq!(*Arc::get(&arc, &heap), 999);
}

#[test]
fn unique_into_inner() {
    let mut heap = Heap::new();
    let unique = ArcBox::new(10u64, &mut heap);
    assert_eq!(ArcBox::into_inner(unique, &mut heap), 10);
}

#[test]
fn try_from_arc() {
    let mut heap = Heap::new();
    let x = Arc::new(10_000, &mut heap);
    let y = x.clone(&mut heap);

    match ArcBox::try_from(x, &heap) {
        Ok(..) => panic!("x is not unique"),
        Err(x) => Arc::drop(x, &mut heap),
    }
    let unique = ArcBox::try_from(y, &heap).ok().unwrap();
    assert_eq!(ArcBox::into_inner(unique, &mut heap), 10_000);
}

#[test]
fn offset_round_trip() {
    let mut heap = Heap::new();
    let x = Arc::new(6453, &mut heap);
    let mut o = Arc::into_raw_offset(x.clone(&mut heap));
    {
        let o_val = Arc::with_raw_offset_arc(&x, |ov| *OffsetArc::get(ov, &heap));
        assert_eq!(o_val, *Arc::get(&x, &heap));
    }
    assert_eq!(OffsetArc::load_count(&o, &heap, MemoryOrder::Relaxed), 2);
    assert!(!OffsetArc::is_unique(&o, &heap));
    let ob = OffsetArc::borrow_arc(&o);
    assert_eq!(*Arc::get(&x, &heap), *OffsetArc::get(&o, &heap));
    assert_eq!(*Arc::get(&x, &heap), *OffsetArcBorrow::get(&ob, &heap));
    {
        let cloned = OffsetArcBorrow::clone_arc(ob, &mut heap);
        assert_eq!(Arc::as_ptr(&cloned), Arc::as_ptr(&x));
        Arc::drop(cloned, &mut heap);
    }
    let c = OffsetArc::clone_arc(&o, &mut heap);
    assert_eq!(*Arc::get(&x, &heap), *Arc::get(&c, &heap));
    assert_eq!(Arc::count(&x, &heap), 3);
    {
        let om = OffsetArc::make_mut(&mut o, &mut heap);
        *om = 5;
    }
    assert_eq!(OffsetArc::load_count(&o, &heap, MemoryOrder::Relaxed), 1);
    assert!(OffsetArc::is_unique(&o, &heap));
    assert_eq!(*OffsetArc::get(&o, &heap), 5);
    assert_eq!(Arc::count(&x, &heap), 2);
}

#[test]
fn from_into_raw() {
    let mut heap = Heap::new();
    let x = Arc::new(57634, &mut heap);
    let y = x.clone(&mut heap);
    let p = Arc::into_raw(y);
    assert_eq!(p, Arc::as_ptr(&x));
    let y: Arc<i32> = Arc::from_raw(p);
    let z = ArcRef::from_arc(x.clone(&mut heap));
    let p_ = ArcRef::into_raw(z);
    assert_eq!(p, p_);
    let z: Arc<i32> = Arc::from_raw(p_);
    assert_eq!(Arc::as_ptr(&x), Arc::as_ptr(&y));
    assert_eq!(Arc::as_ptr(&x), Arc::as_ptr(&z));
}

#[test]
fn basic_arc_usage() {
    let mut heap = Heap::new();
    let x = Arc::new(7, &mut heap);
    assert!(Arc::is_unique(&x, &heap));
    assert_eq!(Arc::get_mut(&x, &mut heap), Some(&mut 7));
    assert_eq!(*Arc::get(&x, &heap), 7);
    let y = x.clone(&mut heap);
    assert!(!Arc::is_unique(&x, &heap));
    assert_eq!(Arc::get_mut(&x, &mut heap), None);
    assert!(!Arc::is_unique(&y, &heap));
    assert_eq!(Arc::load_count(&x, &heap, MemoryOrder::Relaxed), 2);
    assert_eq!(Arc::load_count(&y, &heap, MemoryOrder::Relaxed), 2);
    let x = Arc::try_unique(x, &heap).expect_err("x is not unique!");
    assert!(!Arc::is_unique(&x, &heap));
    assert!(!Arc::is_unique(&y, &heap));
    assert_eq!(*Arc::get(&x, &heap), *Arc::get(&y, &heap));
    assert_eq!(*Arc::get(&x, &heap), 7);
    Arc::drop(x, &mut heap);
    assert!(Arc::is_unique(&y, &heap));
    let y = Arc::try_unique(y, &heap).expect("y is unique");
    *ArcBox::get_mut(&y, &mut heap) += 73;
    assert_eq!(*ArcBox::get(&y, &heap), 80);
    let y = y.shareable();
    assert!(Arc::is_unique(&y, &heap));
    assert_eq!(*Arc::get(&y, &heap), 80);

    let yb = Arc::borrow_arc(&y);
    assert_eq!(*yb.get(&heap), 80);
    assert_eq!(ArcBorrow::load_count(yb, &heap, MemoryOrder::Relaxed), 1);
    let yb2 = yb;
    assert_eq!(ArcBorrow::load_count(yb, &heap, MemoryOrder::Relaxed), 1);
    assert_eq!(ArcBorrow::load_count(yb2, &heap, MemoryOrder::Relaxed), 1);

    let z = y.clone(&mut heap);
    assert_eq!(*Arc::get(&z, &heap), 80);
    let yl = Arc::leak(y);
    assert_eq!(ArcBorrow::load_count(yl, &heap, MemoryOrder::Relaxed), 2);
    assert_eq!(Arc::load_count(&z, &heap, MemoryOrder::Relaxed), 2);
    let t = ArcBorrow::clone_arc(yl, &mut heap);
    assert_eq!(Arc::load_count(&t, &heap, MemoryOrder::Relaxed), 3);
    let w = ArcBorrow::clone_arc(yl, &mut heap);
    assert_eq!(Arc::load_count(&t, &heap, MemoryOrder::Relaxed), 4);
    assert_eq!(Arc::load_count(&z, &heap, MemoryOrder::Relaxed), 4);
    assert_eq!(Arc::load_count(&w, &heap, MemoryOrder::Relaxed), 4);
    assert_eq!(ArcBorrow::load_count(yl, &heap, MemoryOrder::Relaxed), 4);

    Arc::drop(w, &mut heap);
    assert_eq!(Arc::load_count(&t, &heap, MemoryOrder::Relaxed), 3);
    assert_eq!(Arc::load_count(&z, &heap, MemoryOrder::Relaxed), 3);
    assert_eq!(ArcBorrow::load_count(yl, &heap, MemoryOrder::Relaxed), 3);

    Arc::drop(t, &mut heap);
    assert_eq!(Arc::load_count(&z, &heap, MemoryOrder::Relaxed), 2);
    assert_eq!(ArcBorrow::load_count(yl, &heap, MemoryOrder::Relaxed), 2);

    Arc::drop(z, &mut heap);
    assert_eq!(ArcBorrow::load_count(yl, &heap, MemoryOrder::Relaxed), 1);

    let make_unique = Arc::unique(ArcBorrow::clone_arc(yl, &mut heap), &mut heap);
    *ArcBox::get_mut(&make_unique, &mut heap) += 23;
    assert_eq!(*ArcBox::get(&make_unique, &heap), 103);
    *ArcBox::get_mut(&make_unique, &mut heap) += 5;
    assert_eq!(*ArcBox::get(&make_unique, &heap), 108);
    *ArcBox::get_mut(&make_unique, &mut heap) += 5;
    assert_eq!(*ArcBox::get(&make_unique, &heap), 113);
    let mut make_unique = make_unique.shareable();
    assert_eq!(*Arc::get(&make_unique, &heap), 113);
    assert!(Arc::is_unique(&make_unique, &heap));
    assert_eq!(*yl.get(&heap), 80);
    {
        let make_mut = Arc::make_mut(&mut make_unique, &mut heap);
        assert_eq!(*make_mut, 113);
        *make_mut += 100;
        assert_eq!(*make_mut, 213);
    }
    assert_eq!(*Arc::get(&make_unique, &heap), 213);
    assert!(*Arc::get(&make_unique, &heap) != *yl.get(&heap));
    assert!(*Arc::get(&make_unique, &heap) > *yl.get(&heap));
    assert!(*yl.get(&heap) < *Arc::get(&make_unique, &heap));

    let remake_unique = Arc::try_unique(make_unique, &heap).expect("Unique!");
    assert_eq!(*ArcBox::get(&remake_unique, &heap), 213);
    let box_unique = ArcBox::new(*ArcBox::get(&remake_unique, &heap), &mut heap);
    *ArcBox::get_mut(&box_unique, &mut heap) += 100;
    assert_eq!(*ArcBox::get(&box_unique, &heap), 313);
    assert_eq!(*ArcBox::get(&remake_unique, &heap), 213);

    let box_unique = box_unique.shareable();
    assert!(Arc::is_unique(&box_unique, &heap));
    let not_unique = box_unique.clone(&mut heap);
    let not_unique = Arc::try_unique(not_unique, &heap).expect_err("Not unique!");
    assert!(!Arc::is_unique(&box_unique, &heap));
    assert_eq!(Arc::as_ptr(&box_unique), Arc::as_ptr(&not_unique));
}

#[test]
fn basic_arc_ref_usage() {
    let mut heap = Heap::new();
    let x = ArcRef::new(7, &mut heap);
    assert!(ArcRef::is_unique(&x, &heap));
    assert_eq!(ArcRef::get_mut(&x, &mut heap), Some(&mut 7));
    assert_eq!(*ArcRef::get(&x, &heap), 7);
    let y = x.clone(&mut heap);
    assert!(!ArcRef::is_unique(&x, &heap));
    assert_eq!(ArcRef::get_mut(&x, &mut heap), None);
    assert!(!ArcRef::is_unique(&y, &heap));
    assert_eq!(ArcRef::load_count(&x, &heap, MemoryOrder::Relaxed), 2);
    assert_eq!(ArcRef::load_count(&y, &heap, MemoryOrder::Relaxed), 2);
    let x = ArcRef::try_unique(x, &heap).expect_err("x is not unique!");
    assert!(!ArcRef::is_unique(&x, &heap));
    assert!(!ArcRef::is_unique(&y, &heap));
    assert_eq!(*ArcRef::get(&x, &heap), *ArcRef::get(&y, &heap));
    assert_eq!(*ArcRef::get(&x, &heap), 7);
    ArcRef::drop(x, &mut heap);
    assert!(ArcRef::is_unique(&y, &heap));
    let y = ArcRef::try_unique(y, &heap).expect("y is unique");
    *ArcBox::get_mut(&y, &mut heap) += 73;
    assert_eq!(*ArcBox::get(&y, &heap), 80);
    let y = y.shareable_ref();
    assert!(ArcRef::is_unique(&y, &heap));
    assert_eq!(*ArcRef::get(&y, &heap), 80);

    let yb = ArcRef::borrow_arc(&y);
    assert_eq!(*yb.get(&heap), 80);
    assert_eq!(ArcBorrow::load_count(yb, &heap, MemoryOrder::Relaxed), 1);
    let yb2 = yb;
    assert_eq!(ArcBorrow::load_count(yb, &heap, MemoryOrder::Relaxed), 1);
    assert_eq!(ArcBorrow::load_count(yb2, &heap, MemoryOrder::Relaxed), 1);
    let ybr = ArcRef::from_borrow(yb2);
    assert_eq!(ArcRef::load_count(&ybr, &heap, MemoryOrder::Relaxed), 1);
    assert!(!ArcRef::is_owned(&ybr));
    assert!(!ArcRef::is_unique(&ybr, &heap));

    let z = y.clone(&mut heap);
    assert!(ArcRef::is_owned(&z));
    assert_eq!(*ArcRef::get(&z, &heap), 80);
    let yl = ArcRef::leak(y, &mut heap);
    assert_eq!(ArcBorrow::load_count(yl, &heap, MemoryOrder::Relaxed), 2);
    assert_eq!(
        ArcRef::load_count(&ArcRef::from_borrow(yl), &heap, MemoryOrder::Relaxed),
        2
    );
    assert_eq!(ArcRef::load_count(&z, &heap, MemoryOrder::Relaxed), 2);
    let t = ArcRef::from_borrow(yl).clone(&mut heap);
    assert!(!ArcRef::is_owned(&t));
    assert_eq!(ArcRef::load_count(&t, &heap, MemoryOrder::Relaxed), 2);
    let w = ArcRef::from_arc(ArcBorrow::clone_arc(yl, &mut heap));
    assert!(ArcRef::is_owned(&w));
    assert_eq!(ArcRef::load_count(&t, &heap, MemoryOrder::Relaxed), 3);
    assert_eq!(ArcRef::load_count(&z, &heap, MemoryOrder::Relaxed), 3);
    assert_eq!(ArcRef::load_count(&w, &heap, MemoryOrder::Relaxed), 3);
    assert_eq!(ArcBorrow::load_count(yl, &heap, MemoryOrder::Relaxed), 3);

    ArcRef::drop(w, &mut heap);
    assert_eq!(ArcRef::load_count(&t, &heap, MemoryOrder::Relaxed), 2);
    assert_eq!(ArcRef::load_count(&z, &heap, MemoryOrder::Relaxed), 2);
    assert_eq!(ArcBorrow::load_count(yl, &heap, MemoryOrder::Relaxed), 2);

    ArcRef::drop(t, &mut heap);
    assert_eq!(ArcRef::load_count(&z, &heap, MemoryOrder::Relaxed), 2);
    assert_eq!(ArcBorrow::load_count(yl, &heap, MemoryOrder::Relaxed), 2);

    ArcRef::drop(z, &mut heap);
    assert_eq!(ArcBorrow::load_count(yl, &heap, MemoryOrder::Relaxed), 1);

    let make_unique = Arc::unique(ArcBorrow::clone_arc(yl, &mut heap), &mut heap);
    *ArcBox::get_mut(&make_unique, &mut heap) += 23;
    assert_eq!(*ArcBox::get(&make_unique, &heap), 103);
    *ArcBox::get_mut(&make_unique, &mut heap) += 5;
    assert_eq!(*ArcBox::get(&make_unique, &heap), 108);
    *ArcBox::get_mut(&make_unique, &mut heap) += 5;
    assert_eq!(*ArcBox::get(&make_unique, &heap), 113);
    let mut make_unique = make_unique.shareable_ref();
    assert_eq!(*ArcRef::get(&make_unique, &heap), 113);
    assert!(ArcRef::is_unique(&make_unique, &heap));
    assert_eq!(*yl.get(&heap), 80);
    {
        let make_mut = ArcRef::make_mut(&mut make_unique, &mut heap);
        assert_eq!(*make_mut, 113);
        *make_mut += 100;
        assert_eq!(*make_mut, 213);
    }
    assert_eq!(*ArcRef::get(&make_unique, &heap), 213);
    assert!(*ArcRef::get(&make_unique, &heap) != *yl.get(&heap));
    assert!(*ArcRef::get(&make_unique, &heap) > *yl.get(&heap));
    assert!(*yl.get(&heap) < *ArcRef::get(&make_unique, &heap));

    let remake_unique = ArcRef::try_unique(make_unique, &heap).expect("Unique!");
    assert_eq!(*ArcBox::get(&remake_unique, &heap), 213);
    let box_unique = ArcBox::new(*ArcBox::get(&remake_unique, &heap), &mut heap);
    *ArcBox::get_mut(&box_unique, &mut heap) += 100;
    assert_eq!(*ArcBox::get(&box_unique, &heap), 313);
    assert_eq!(*ArcBox::get(&remake_unique, &heap), 213);

    let box_unique = box_unique.shareable_ref();
    assert!(ArcRef::is_unique(&box_unique, &heap));
    let not_unique = box_unique.clone(&mut heap);
    let not_unique = ArcRef::try_unique(not_unique, &heap).expect_err("Not unique!");
    assert!(!ArcRef::is_unique(&box_unique, &heap));
    assert_eq!(ArcRef::as_ptr(&box_unique), ArcRef::as_ptr(&not_unique));
}
