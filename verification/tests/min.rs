use misc_utils::minmax::Bounded;
use misc_utils::Min;

#[test]
fn test_min_i16_update_min() {
    let mut m1 = Min::<i16>::default();
    let m2 = Min::default();

    m1.update(m2);
    assert_eq!(None, m1.get_min());

    let m2 = Min::with_initial(1000);
    m1.update(m2);
    assert_eq!(Some(1000), m1.get_min());

    let m2 = Min::with_initial(9999);
    m1.update(m2);
    assert_eq!(Some(1000), m1.get_min());

    let m2 = Min::with_initial(-200);
    m1.update(m2);
    assert_eq!(Some(-200), m1.get_min());
}

#[test]
fn test_min_u8_from() {
    assert_eq!(Min::with_initial(99u8), 99.into());
    assert_eq!(Min::with_initial(123u8), Min::from(123));
    assert_eq!(Min::with_initial(1u8), vec![1, 2, 3].into_iter().collect());
    assert_eq!(Min::<u8>::default(), vec![].into_iter().collect());
}

#[test]
fn test_min_usize() {
    let mut m = Min::default();
    assert_eq!(None, m.get_min());
    assert_eq!(usize::max_value(), m.get_min_extreme());

    m.update(999);
    assert_eq!(Some(999), m.get_min());
    assert_eq!(999, m.get_min_extreme());
    m.update(1000);
    assert_eq!(Some(999), m.get_min());
    assert_eq!(999, m.get_min_extreme());
    m.update(100);
    assert_eq!(Some(100), m.get_min());
    assert_eq!(100, m.get_min_extreme());
}

#[test]
fn test_min_isize() {
    let mut m = Min::default();
    assert_eq!(None, m.get_min());
    assert_eq!(isize::max_value(), m.get_min_extreme());

    m.update(999);
    assert_eq!(Some(999), m.get_min());
    assert_eq!(999, m.get_min_extreme());
    m.update(1000);
    assert_eq!(Some(999), m.get_min());
    assert_eq!(999, m.get_min_extreme());
    m.update(100);
    assert_eq!(Some(100), m.get_min());
    assert_eq!(100, m.get_min_extreme());
    m.update(-5);
    assert_eq!(Some(-5), m.get_min());
    assert_eq!(-5, m.get_min_extreme());
}

#[test]
fn min_of_a_vector_is_its_least_item() {
    assert_eq!(Min::from_vec(&vec![3u8, 1, 2]), Min::with_initial(1));
    assert_eq!(Min::from_vec(&vec![-3i64]), Min::with_initial(-3));
    assert_eq!(Min::<u8>::from_vec(&vec![]), Min::new());
    assert_eq!(Min::<u8>::new().get_min(), None);
}

#[test]
fn min_is_printed_as_its_value() {
    assert_eq!(Min::with_initial(17u32).to_string(), "17");
    assert_eq!(Min::<u32>::new().to_string(), "<uninitialized>");
}

#[test]
fn every_integer_type_has_its_extremes() {
    assert_eq!(Min::<u8>::new().get_min_extreme(), 255);
    assert_eq!(Min::<i8>::new().get_min_extreme(), 127);
    assert_eq!(Min::<u16>::new().get_min_extreme(), u16::MAX);
    assert_eq!(Min::<i16>::new().get_min_extreme(), i16::MAX);
    assert_eq!(Min::<u32>::new().get_min_extreme(), u32::MAX);
    assert_eq!(Min::<i32>::new().get_min_extreme(), i32::MAX);
    assert_eq!(Min::<u64>::new().get_min_extreme(), u64::MAX);
    assert_eq!(Min::<i64>::new().get_min_extreme(), i64::MAX);
    assert_eq!(Min::<u128>::new().get_min_extreme(), u128::MAX);
    assert_eq!(Min::<i128>::new().get_min_extreme(), i128::MAX);
    assert_eq!(<u8 as Bounded>::min_value(), 0);
    assert_eq!(<i8 as Bounded>::min_value(), -128);
}
