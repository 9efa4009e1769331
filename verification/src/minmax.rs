//! Trackers for the least and the greatest value seen so far.

use core::cmp::Ordering;
use core::iter::FromIterator;
use vstd::prelude::*;
use vstd::std_specs::cmp::OrdSpec;
use vstd::std_specs::convert::FromSpecImpl;
use vstd::string::to_string_from_display_ensures;

verus! {

/// The conversion of a value into its own type gives the value itself.
pub assume_specification<X>[ <X as From<X>>::from ](value: X) -> (r: X)
    ensures
        r == value,
;

/// Whether the order of `T` follows its specification.
pub open spec fn ordered<T: Ord>() -> bool {
    T::obeys_cmp_spec()
}

/// The lesser of two values, and the first of them if they are equal.
pub open spec fn lesser<T: Ord>(a: T, b: T) -> T {
    if b.cmp_spec(&a) == Ordering::Less {
        b
    } else {
        a
    }
}

/// The greater of two values, and the second of them if they are equal.
pub open spec fn greater<T: Ord>(a: T, b: T) -> T {
    if b.cmp_spec(&a) == Ordering::Less {
        a
    } else {
        b
    }
}

/// The least value of two trackers: nothing if neither holds a value, the
/// value of the one that holds one, and else the lesser of the two.
pub open spec fn least<T: Ord>(a: Option<T>, b: Option<T>) -> Option<T> {
    match (a, b) {
        (None, None) => None,
        (Some(v), None) => Some(v),
        (None, Some(v)) => Some(v),
        (Some(v1), Some(v2)) => Some(lesser(v1, v2)),
    }
}

/// The greatest value of two trackers: nothing if neither holds a value, the
/// value of the one that holds one, and else the greater of the two.
pub open spec fn greatest<T: Ord>(a: Option<T>, b: Option<T>) -> Option<T> {
    match (a, b) {
        (None, None) => None,
        (Some(v), None) => Some(v),
        (None, Some(v)) => Some(v),
        (Some(v1), Some(v2)) => Some(greater(v1, v2)),
    }
}

/// Whether `after` is what a tracker of the least value holds once a tracker
/// that held `before` has taken in `other`. Where both hold a value the
/// lesser is only known for an order that follows its specification.
pub open spec fn took_least<T: Ord>(before: Option<T>, other: Option<T>, after: Option<T>) -> bool {
    if before is Some && other is Some {
        after is Some && (ordered::<T>() ==> after == least(before, other))
    } else {
        after == least(before, other)
    }
}

/// Whether `after` is what a tracker of the greatest value holds once a
/// tracker that held `before` has taken in `other`. Where both hold a value
/// the greater is only known for an order that follows its specification.
pub open spec fn took_greatest<T: Ord>(
    before: Option<T>,
    other: Option<T>,
    after: Option<T>,
) -> bool {
    if before is Some && other is Some {
        after is Some && (ordered::<T>() ==> after == greatest(before, other))
    } else {
        after == greatest(before, other)
    }
}

/// The least value of a sequence of trackers' inputs, from the first on.
pub open spec fn least_of<T: Ord>(items: Seq<T>) -> Option<T>
    decreases items.len(),
{
    if items.len() == 0 {
        None
    } else {
        least(least_of(items.drop_last()), Some(items.last()))
    }
}

/// The greatest value of a sequence of trackers' inputs, from the first on.
pub open spec fn greatest_of<T: Ord>(items: Seq<T>) -> Option<T>
    decreases items.len(),
{
    if items.len() == 0 {
        None
    } else {
        greatest(greatest_of(items.drop_last()), Some(items.last()))
    }
}

/// A type with a least and a greatest value.
pub trait Bounded: Sized {
    /// The least value of the type.
    spec fn least_value() -> Self;

    /// The greatest value of the type.
    spec fn greatest_value() -> Self;

    /// Returns the least value of the type.
    fn min_value() -> (r: Self)
        ensures
            r == Self::least_value(),
    ;

    /// Returns the greatest value of the type.
    fn max_value() -> (r: Self)
        ensures
            r == Self::greatest_value(),
    ;
}

impl Bounded for u8 {
    open spec fn least_value() -> u8 {
        u8::MIN
    }

    open spec fn greatest_value() -> u8 {
        u8::MAX
    }

    fn min_value() -> (r: u8) {
        u8::MIN
    }

    fn max_value() -> (r: u8) {
        u8::MAX
    }
}

impl Bounded for u16 {
    open spec fn least_value() -> u16 {
        u16::MIN
    }

    open spec fn greatest_value() -> u16 {
        u16::MAX
    }

    fn min_value() -> (r: u16) {
        u16::MIN
    }

    fn max_value() -> (r: u16) {
        u16::MAX
    }
}

impl Bounded for u32 {
    open spec fn least_value() -> u32 {
        u32::MIN
    }

    open spec fn greatest_value() -> u32 {
        u32::MAX
    }

    fn min_value() -> (r: u32) {
        u32::MIN
    }

    fn max_value() -> (r: u32) {
        u32::MAX
    }
}

impl Bounded for u64 {
    open spec fn least_value() -> u64 {
        u64::MIN
    }

    open spec fn greatest_value() -> u64 {
        u64::MAX
    }

    fn min_value() -> (r: u64) {
        u64::MIN
    }

    fn max_value() -> (r: u64) {
        u64::MAX
    }
}

impl Bounded for u128 {
    open spec fn least_value() -> u128 {
        u128::MIN
    }

    open spec fn greatest_value() -> u128 {
        u128::MAX
    }

    fn min_value() -> (r: u128) {
        u128::MIN
    }

    fn max_value() -> (r: u128) {
        u128::MAX
    }
}

impl Bounded for usize {
    open spec fn least_value() -> usize {
        usize::MIN
    }

    open spec fn greatest_value() -> usize {
        usize::MAX
    }

    fn min_value() -> (r: usize) {
        usize::MIN
    }

    fn max_value() -> (r: usize) {
        usize::MAX
    }
}

impl Bounded for i8 {
    open spec fn least_value() -> i8 {
        i8::MIN
    }

    open spec fn greatest_value() -> i8 {
        i8::MAX
    }

    fn min_value() -> (r: i8) {
        i8::MIN
    }

    fn max_value() -> (r: i8) {
        i8::MAX
    }
}

impl Bounded for i16 {
    open spec fn least_value() -> i16 {
        i16::MIN
    }

    open spec fn greatest_value() -> i16 {
        i16::MAX
    }

    fn min_value() -> (r: i16) {
        i16::MIN
    }

    fn max_value() -> (r: i16) {
        i16::MAX
    }
}

impl Bounded for i32 {
    open spec fn least_value() -> i32 {
        i32::MIN
    }

    open spec fn greatest_value() -> i32 {
        i32::MAX
    }

    fn min_value() -> (r: i32) {
        i32::MIN
    }

    fn max_value() -> (r: i32) {
        i32::MAX
    }
}

impl Bounded for i64 {
    open spec fn least_value() -> i64 {
        i64::MIN
    }

    open spec fn greatest_value() -> i64 {
        i64::MAX
    }

    fn min_value() -> (r: i64) {
        i64::MIN
    }

    fn max_value() -> (r: i64) {
        i64::MAX
    }
}

impl Bounded for i128 {
    open spec fn least_value() -> i128 {
        i128::MIN
    }

    open spec fn greatest_value() -> i128 {
        i128::MAX
    }

    fn min_value() -> (r: i128) {
        i128::MIN
    }

    fn max_value() -> (r: i128) {
        i128::MAX
    }
}

impl Bounded for isize {
    open spec fn least_value() -> isize {
        isize::MIN
    }

    open spec fn greatest_value() -> isize {
        isize::MAX
    }

    fn min_value() -> (r: isize) {
        isize::MIN
    }

    fn max_value() -> (r: isize) {
        isize::MAX
    }
}

/// Keeps the least value that it was given.
#[derive(Copy, Clone, Eq, PartialEq, Ord, PartialOrd, Hash, Debug)]
pub struct Min<T> {
    /// The least value so far, if there was a value.
    pub value: Option<T>,
}

impl<T> View for Min<T> {
    type V = Option<T>;

    open spec fn view(&self) -> Option<T> {
        self.value
    }
}

impl<T: Copy + Ord> Min<T> {
    /// Creates a tracker without a value.
    pub fn new() -> (r: Self)
        ensures
            r@ is None,
    {
        Min { value: None }
    }

    /// Creates a tracker with a first value.
    pub fn with_initial(initial: T) -> (r: Self)
        ensures
            r@ == Some(initial),
    {
        Min { value: Some(initial) }
    }

    /// Returns the least value so far, and nothing if there was no value.
    pub fn get_min(&self) -> (r: Option<T>)
        ensures
            r == self@,
    {
        self.value
    }

    /// Returns the least value so far, and the greatest value of the type if
    /// there was no value.
    pub fn get_min_extreme(&self) -> (r: T) where T: Bounded
        ensures
            r == match self@ {
                Some(v) => v,
                None => T::greatest_value(),
            },
    {
        match self.value {
            Some(v) => v,
            None => T::max_value(),
        }
    }

    /// Takes in a value, or another tracker, and keeps the lesser.
    pub fn update<V: Into<Self>>(&mut self, value: V)
        ensures
            exists|other: Self| #[trigger]
                call_ensures(V::into, (value,), other) && took_least(
                    old(self)@,
                    other@,
                    final(self)@,
                ),
    {
        let other: Self = value.into();
        match (self.value, other.value) {
            (None, None) => {
                self.value = None;
            },
            (Some(v), None) => {
                self.value = Some(v);
            },
            (None, Some(v)) => {
                self.value = Some(v);
            },
            (Some(v1), Some(v2)) => {
                self.value = Some(v1.min(v2));
            },
        }
    }

    /// The tracker that has taken in the items from the first to the last.
    pub fn from_vec(items: &Vec<T>) -> (r: Self)
        ensures
            items@.len() == 0 ==> r@ is None,
            items@.len() > 0 ==> r@ is Some,
            ordered::<T>() ==> r@ == least_of(items@),
    {
        let mut r = Min { value: None };
        let mut i: usize = 0;
        while i < items.len()
            invariant
                i <= items.len(),
                i == 0 ==> r@ is None,
                i > 0 ==> r@ is Some,
                ordered::<T>() ==> r@ == least_of(items@.take(i as int)),
            decreases items.len() - i,
        {
            assert(items@.take(i + 1).drop_last() =~= items@.take(i as int));
            r.value = match r.value {
                None => Some(items[i]),
                Some(v) => Some(v.min(items[i])),
            };
            i = i + 1;
        }
        assert(items@.take(i as int) =~= items@);
        r
    }
}

impl<T: Copy + Ord + core::fmt::Display> Min<T> {
    /// The value as text, and `<uninitialized>` if there was no value.
    pub fn to_string(&self) -> (r: String)
        ensures
            match self@ {
                Some(v) => to_string_from_display_ensures::<T>(&v, r),
                None => r@ == "<uninitialized>"@,
            },
    {
        match &self.value {
            Some(v) => v.to_string(),
            None => String::from_str("<uninitialized>"),
        }
    }
}

impl<T> Default for Min<T> {
    fn default() -> (r: Self)
        ensures
            r@ is None,
    {
        Min { value: None }
    }
}

impl<T: Copy + Ord> From<T> for Min<T> {
    fn from(value: T) -> (r: Self)
        ensures
            r@ == Some(value),
    {
        Min { value: Some(value) }
    }
}

impl<T: Copy + Ord> FromSpecImpl<T> for Min<T> {
    open spec fn obeys_from_spec() -> bool {
        true
    }

    open spec fn from_spec(value: T) -> Self {
        Min { value: Some(value) }
    }
}

impl<T: Ord> FromIterator<T> for Min<T> {
    /// Calls `Iterator::min` of the standard library on the items. Nothing is
    /// stated of the result here; [`Min::from_vec`] is its proved counterpart.
    #[verifier::external_body]
    fn from_iter<I: IntoIterator<Item = T>>(iter: I) -> Self {
        Min { value: iter.into_iter().min() }
    }
}

/// Keeps the greatest value that it was given.
#[derive(Copy, Clone, Eq, PartialEq, Ord, PartialOrd, Hash, Debug)]
pub struct Max<T> {
    /// The greatest value so far, if there was a value.
    pub value: Option<T>,
}

impl<T> View for Max<T> {
    type V = Option<T>;

    open spec fn view(&self) -> Option<T> {
        self.value
    }
}

impl<T: Copy + Ord> Max<T> {
    /// Creates a tracker without a value.
    pub fn new() -> (r: Self)
        ensures
            r@ is None,
    {
        Max { value: None }
    }

    /// Creates a tracker with a first value.
    pub fn with_initial(initial: T) -> (r: Self)
        ensures
            r@ == Some(initial),
    {
        Max { value: Some(initial) }
    }

    /// Returns the greatest value so far, and nothing if there was no value.
    pub fn get_max(&self) -> (r: Option<T>)
        ensures
            r == self@,
    {
        self.value
    }

    /// Returns the greatest value so far, and the least value of the type if
    /// there was no value.
    pub fn get_max_extreme(&self) -> (r: T) where T: Bounded
        ensures
            r == match self@ {
                Some(v) => v,
                None => T::least_value(),
            },
    {
        match self.value {
            Some(v) => v,
            None => T::min_value(),
        }
    }

    /// Takes in a value, or another tracker, and keeps the greater.
    pub fn update<V: Into<Self>>(&mut self, value: V)
        ensures
            exists|other: Self| #[trigger]
                call_ensures(V::into, (value,), other) && took_greatest(
                    old(self)@,
                    other@,
                    final(self)@,
                ),
    {
        let other: Self = value.into();
        match (self.value, other.value) {
            (None, None) => {
                self.value = None;
            },
            (Some(v), None) => {
                self.value = Some(v);
            },
            (None, Some(v)) => {
                self.value = Some(v);
            },
            (Some(v1), Some(v2)) => {
                self.value = Some(v1.max(v2));
            },
        }
    }

    /// The tracker that has taken in the items from the first to the last.
    pub fn from_vec(items: &Vec<T>) -> (r: Self)
        ensures
            items@.len() == 0 ==> r@ is None,
            items@.len() > 0 ==> r@ is Some,
            ordered::<T>() ==> r@ == greatest_of(items@),
    {
        let mut r = Max { value: None };
        let mut i: usize = 0;
        while i < items.len()
            invariant
                i <= items.len(),
                i == 0 ==> r@ is None,
                i > 0 ==> r@ is Some,
                ordered::<T>() ==> r@ == greatest_of(items@.take(i as int)),
            decreases items.len() - i,
        {
            assert(items@.take(i + 1).drop_last() =~= items@.take(i as int));
            r.value = match r.value {
                None => Some(items[i]),
                Some(v) => Some(v.max(items[i])),
            };
            i = i + 1;
        }
        assert(items@.take(i as int) =~= items@);
        r
    }
}

impl<T: Copy + Ord + core::fmt::Display> Max<T> {
    /// The value as text, and `<uninitialized>` if there was no value.
    pub fn to_string(&self) -> (r: String)
        ensures
            match self@ {
                Some(v) => to_string_from_display_ensures::<T>(&v, r),
                None => r@ == "<uninitialized>"@,
            },
    {
        match &self.value {
            Some(v) => v.to_string(),
            None => String::from_str("<uninitialized>"),
        }
    }
}

impl<T> Default for Max<T> {
    fn default() -> (r: Self)
        ensures
            r@ is None,
    {
        Max { value: None }
    }
}

impl<T: Copy + Ord> From<T> for Max<T> {
    fn from(value: T) -> (r: Self)
        ensures
            r@ == Some(value),
    {
        Max { value: Some(value) }
    }
}

impl<T: Copy + Ord> FromSpecImpl<T> for Max<T> {
    open spec fn obeys_from_spec() -> bool {
        true
    }

    open spec fn from_spec(value: T) -> Self {
        Max { value: Some(value) }
    }
}

impl<T: Ord> FromIterator<T> for Max<T> {
    /// Calls `Iterator::max` of the standard library on the items. Nothing is
    /// stated of the result here; [`Max::from_vec`] is its proved counterpart.
    #[verifier::external_body]
    fn from_iter<I: IntoIterator<Item = T>>(iter: I) -> Self {
        Max { value: iter.into_iter().max() }
    }
}

} // verus!
