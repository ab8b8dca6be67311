use voladdress::Bound;
use voladdress::Safe;
use voladdress::Unsafe;
use voladdress::VolAddress;
use voladdress::VolSeries;
use voladdress::VolSeriesIter;

fn dummy() -> VolSeries<i32, Safe, Safe, 256, 16> {
    VolSeries::new(4)
}

fn four_u16() -> VolSeriesIter<u16, (), (), 0x100> {
    let series: VolSeries<u16, (), (), 4, 0x100> = VolSeries::new(core::mem::align_of::<u16>());
    series.iter()
}

fn raw<T, R, W>(a: Option<VolAddress<T, R, W>>) -> Option<usize> {
    a.map(|a| a.as_usize())
}

#[test]
fn test_volseries_test_iter() {
    let i = dummy().iter();
    let len = dummy().len();
    assert_eq!(i.size_hint(), (len, Some(len)));
    assert_eq!(i.count(), len);
}

#[test]
fn test_volseries_test_indexing_styles() {
    let a0 = dummy().index_unchecked(0);
    let b0 = dummy().index(0);
    assert_eq!(a0, b0);

    let a1 = a0.cast::<u8>().offset(16).cast::<i32>();
    let b1 = dummy().index(1);
    assert_eq!(a1, b1);

    for i in 0..dummy().len() {
        assert_eq!(dummy().get(i).unwrap(), dummy().index(i));
    }
    assert!(dummy().get(dummy().len()).is_none());
}

#[test]
fn test_volseries_iter_range() {
    let series: VolSeries<u8, Unsafe, Unsafe, 10, 1> = VolSeries::new(1);
    //
    let i = series.iter_range(Bound::Unbounded, Bound::Unbounded);
    assert_eq!(raw(i.clone().next()), Some(1));
    assert_eq!(i.count(), 10);
    //
    let i = series.iter_range(Bound::Included(2), Bound::Unbounded);
    assert_eq!(raw(i.clone().next()), Some(1 + 2));
    assert_eq!(i.count(), 10 - 2);
    //
    let i = series.iter_range(Bound::Included(2), Bound::Included(5));
    assert_eq!(raw(i.clone().next()), Some(1 + 2));
    assert_eq!(i.count(), 4);
    //
    let i = series.iter_range(Bound::Unbounded, Bound::Excluded(4));
    assert_eq!(raw(i.clone().next()), Some(1));
    assert_eq!(i.count(), 4);
    //
    let i = series.iter_range(Bound::Unbounded, Bound::Included(4));
    assert_eq!(raw(i.clone().next()), Some(1));
    assert_eq!(i.count(), 5);
}

#[test]
#[allow(non_snake_case)]
fn test_impl_Iterator_for_VolSeriesIter() {
    let i = four_u16();

    let mut i_c = i.clone();
    assert_eq!(raw(i_c.next()), Some(0x002));
    assert_eq!(raw(i_c.next()), Some(0x102));
    assert_eq!(raw(i_c.next()), Some(0x202));
    assert_eq!(raw(i_c.next()), Some(0x302));
    assert_eq!(raw(i_c.next()), None);
    assert_eq!(raw(i_c.next()), None);

    let i_c = i.clone();
    assert_eq!(i_c.size_hint(), (4, Some(4)));

    let i_c = i.clone();
    assert_eq!(i_c.count(), 4);

    let i_c = i.clone();
    assert_eq!(raw(i_c.last()), Some(0x302));

    let mut i_c = i.clone();
    assert_eq!(raw(i_c.nth(0)), Some(0x002));
    assert_eq!(raw(i_c.nth(0)), Some(0x102));
    assert_eq!(raw(i_c.nth(0)), Some(0x202));
    assert_eq!(raw(i_c.nth(0)), Some(0x302));
    assert_eq!(raw(i_c.nth(0)), None);
    assert_eq!(raw(i_c.nth(0)), None);

    let mut i_c = i.clone();
    assert_eq!(raw(i_c.nth(1)), Some(0x102));
    assert_eq!(raw(i_c.nth(1)), Some(0x302));
    assert_eq!(raw(i_c.nth(1)), None);
    assert_eq!(raw(i_c.nth(1)), None);

    let mut i_c = i.clone();
    assert_eq!(raw(i_c.nth(2)), Some(0x202));
    assert_eq!(raw(i_c.nth(2)), None);
    assert_eq!(raw(i_c.nth(2)), None);

    let mut i_c = i.clone();
    assert_eq!(raw(i_c.nth(3)), Some(0x302));
    assert_eq!(raw(i_c.nth(3)), None);
    assert_eq!(raw(i_c.nth(3)), None);

    let mut i_c = i.clone();
    assert_eq!(raw(i_c.nth(4)), None);
    assert_eq!(raw(i_c.nth(4)), None);
}

#[test]
#[allow(non_snake_case)]
fn test_impl_DoubleEndedIterator_for_VolSeriesIter() {
    let i = four_u16();

    let mut i_c = i.clone();
    assert_eq!(raw(i_c.next_back()), Some(0x302));
    assert_eq!(raw(i_c.next_back()), Some(0x202));
    assert_eq!(raw(i_c.next_back()), Some(0x102));
    assert_eq!(raw(i_c.next_back()), Some(0x002));
    assert_eq!(raw(i_c.next_back()), None);
    assert_eq!(raw(i_c.next_back()), None);

    let mut i_c = i.clone();
    assert_eq!(raw(i_c.nth_back(0)), Some(0x302));
    assert_eq!(raw(i_c.nth_back(0)), Some(0x202));
    assert_eq!(raw(i_c.nth_back(0)), Some(0x102));
    assert_eq!(raw(i_c.nth_back(0)), Some(0x002));
    assert_eq!(raw(i_c.nth_back(0)), None);
    assert_eq!(raw(i_c.nth_back(0)), None);

    let mut i_c = i.clone();
    assert_eq!(raw(i_c.nth_back(1)), Some(0x202));
    assert_eq!(raw(i_c.nth_back(1)), Some(0x002));
    assert_eq!(raw(i_c.nth_back(1)), None);
    assert_eq!(raw(i_c.nth_back(1)), None);

    let mut i_c = i.clone();
    assert_eq!(raw(i_c.nth_back(2)), Some(0x102));
    assert_eq!(raw(i_c.nth_back(2)), None);
    assert_eq!(raw(i_c.nth_back(2)), None);

    let mut i_c = i.clone();
    assert_eq!(raw(i_c.nth_back(3)), Some(0x002));
    assert_eq!(raw(i_c.nth_back(3)), None);
    assert_eq!(raw(i_c.nth_back(3)), None);

    let mut i_c = i.clone();
    assert_eq!(raw(i_c.nth_back(4)), None);
    assert_eq!(raw(i_c.nth_back(4)), None);
}

#[test]
fn series_of_three_collects_to_4_20_36() {
    let series: VolSeries<i32, Safe, Safe, 3, 16> = VolSeries::new(4);
    assert_eq!(series.len(), 3);
    assert_eq!(series.stride(), 16);
    let mut i = series.iter();
    let mut seen: Vec<usize> = Vec::new();
    while let Some(a) = i.next() {
        seen.push(a.as_usize());
    }
    assert_eq!(seen, vec![4, 20, 36]);
    assert_eq!(i.next(), None);
}

#[test]
fn series_get_agrees_with_index() {
    let series: VolSeries<u16, Safe, (), 5, 0x40> = VolSeries::new(0x1000);
    for i in 0..5 {
        assert_eq!(series.get(i), Some(series.index(i)));
        assert_eq!(series.index(i).as_usize(), 0x1000 + 0x40 * i);
        assert_eq!(series.index_unchecked(i), series.index(i));
    }
    for i in [5usize, 6, usize::MAX] {
        assert_eq!(series.get(i), None);
    }
}

#[test]
fn stride_is_free_of_the_element_size() {
    let overlapping: VolSeries<u32, Safe, Safe, 4, 1> = VolSeries::new(0x10);
    assert_eq!(overlapping.index(3).as_usize(), 0x13);
    let spread: VolSeries<u8, Safe, Safe, 4, 0x1000> = VolSeries::new(0x10);
    assert_eq!(spread.index(3).as_usize(), 0x3010);
    let still: VolSeries<u8, Safe, Safe, 4, 0> = VolSeries::new(0x10);
    assert_eq!(still.index(3).as_usize(), 0x10);
    let mut i = still.iter();
    assert_eq!(raw(i.next()), Some(0x10));
    assert_eq!(raw(i.next()), Some(0x10));
    assert_eq!(i.size_hint(), (2, Some(2)));
}

#[test]
fn series_nth_past_the_end_empties_the_iterator() {
    let series: VolSeries<i32, Safe, Safe, 3, 16> = VolSeries::new(4);
    let mut i = series.iter();
    assert_eq!(i.nth(3), None);
    assert_eq!(i.size_hint(), (0, Some(0)));
    assert_eq!(i.next(), None);
    let mut i = series.iter();
    assert_eq!(raw(i.next()), Some(4));
    assert_eq!(i.nth_back(2), None);
    assert_eq!(i.size_hint(), (0, Some(0)));
    assert_eq!(i.next_back(), None);
}

#[test]
fn series_last_is_the_final_element() {
    let series: VolSeries<i32, Safe, Safe, 3, 16> = VolSeries::new(4);
    assert_eq!(raw(series.iter().last()), Some(4 + 2 * 16));
    let mut i = series.iter();
    i.next();
    assert_eq!(raw(i.clone().last()), Some(36));
    i.next();
    i.next();
    assert_eq!(i.last(), None);
}

#[test]
fn series_iter_range_with_empty_range() {
    let series: VolSeries<u8, Safe, Safe, 10, 4> = VolSeries::new(0x20);
    let mut i = series.iter_range(Bound::Included(10), Bound::Unbounded);
    assert_eq!(i.next(), None);
    let mut i = series.iter_range(Bound::Included(4), Bound::Excluded(6));
    assert_eq!(raw(i.next()), Some(0x30));
    assert_eq!(raw(i.next()), Some(0x34));
    assert_eq!(i.next(), None);
}

#[test]
fn series_compare_by_where_they_start() {
    let a: VolSeries<u8, Safe, Safe, 10, 4> = VolSeries::new(0x20);
    let b: VolSeries<u8, Safe, Safe, 10, 4> = VolSeries::new(0x24);
    assert!(a == a.clone());
    assert!(a != b);
    assert!(a < b);
    assert_eq!(a.as_usize(), 0x20);
}

#[test]
fn series_max_and_min_are_the_two_ends() {
    let series: VolSeries<i32, Safe, Safe, 3, 16> = VolSeries::new(4);
    assert_eq!(raw(series.iter().min()), Some(4));
    assert_eq!(raw(series.iter().max()), Some(36));
    let mut i = series.iter();
    assert_eq!(i.nth(5), None);
    assert_eq!(i.clone().min(), None);
    assert_eq!(i.max(), None);
}
