use misc_utils::Max;

#[test]
fn test_max_i16_update_max() {
    let mut m1 = Max::<i16>::default();
    let m2 = Max::default();

    m1.update(m2);
    assert_eq!(None, m1.get_max());

    let m2 = Max::with_initial(1000);
    m1.update(m2);
    assert_eq!(Some(1000), m1.get_max());

    let m2 = Max::with_initial(9999);
    m1.update(m2);
    assert_eq!(Some(9999), m1.get_max());

    let m2 = Max::with_initial(-200);
    m1.update(m2);
    assert_eq!(Some(9999), m1.get_max());
}

#[test]
fn test_max_u8_from() {
    assert_eq!(Max::with_initial(99u8), 99.into());
    assert_eq!(Max::with_initial(123u8), Max::from(123));
    assert_eq!(Max::with_initial(3u8), vec![1, 2, 3].into_iter().collect());
    assert_eq!(Max::<u8>::default(), vec![].into_iter().collect());
}

#[test]
fn test_max_usize() {
    let mut m = Max::default();
    assert_eq!(None, m.get_max());
    assert_eq!(usize::MIN, m.get_max_extreme());

    m.update(100);
    assert_eq!(Some(100), m.get_max());
    assert_eq!(100, m.get_max_extreme());
    m.update(1000);
    assert_eq!(Some(1000), m.get_max());
    assert_eq!(1000, m.get_max_extreme());
    m.update(999);
    assert_eq!(Some(1000), m.get_max());
    assert_eq!(1000, m.get_max_extreme());
}

#[test]
fn test_max_isize() {
    let mut m = Max::default();
    assert_eq!(None, m.get_max());
    assert_eq!(isize::MIN, m.get_max_extreme());

    m.update(-5);
    assert_eq!(Some(-5), m.get_max());
    assert_eq!(-5, m.get_max_extreme());
    m.update(100);
    assert_eq!(Some(100), m.get_max());
    assert_eq!(100, m.get_max_extreme());
    m.update(1000);
    assert_eq!(Some(1000), m.get_max());
    assert_eq!(1000, m.get_max_extreme());
    m.update(999);
    assert_eq!(Some(1000), m.get_max());
    assert_eq!(1000, m.get_max_extreme());
}

#[test]
fn max_of_a_vector_is_its_greatest_item() {
    assert_eq!(Max::from_vec(&vec![3u8, 1, 2]), Max::with_initial(3));
    assert_eq!(Max::from_vec(&vec![-3i64]), Max::with_initial(-3));
    assert_eq!(Max::<u8>::from_vec(&vec![]), Max::new());
    assert_eq!(Max::<u8>::new().get_max(), None);
}

#[test]
fn max_is_printed_as_its_value() {
    assert_eq!(Max::with_initial(17u32).to_string(), "17");
    assert_eq!(Max::<u32>::new().to_string(), "<uninitialized>");
}

#[test]
fn every_integer_type_has_its_least_value() {
    assert_eq!(Max::<u8>::new().get_max_extreme(), 0);
    assert_eq!(Max::<i8>::new().get_max_extreme(), -128);
    assert_eq!(Max::<u16>::new().get_max_extreme(), u16::MIN);
    assert_eq!(Max::<i16>::new().get_max_extreme(), i16::MIN);
    assert_eq!(Max::<u32>::new().get_max_extreme(), u32::MIN);
    assert_eq!(Max::<i32>::new().get_max_extreme(), i32::MIN);
    assert_eq!(Max::<u64>::new().get_max_extreme(), u64::MIN);
    assert_eq!(Max::<i64>::new().get_max_extreme(), i64::MIN);
    assert_eq!(Max::<u128>::new().get_max_extreme(), u128::MIN);
    assert_eq!(Max::<i128>::new().get_max_extreme(), i128::MIN);
}
