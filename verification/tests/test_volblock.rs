use voladdress::Bound;
use voladdress::Safe;
use voladdress::Unsafe;
use voladdress::VolAddress;
use voladdress::VolBlock;
use voladdress::VolBlockIter;
use voladdress::VolRegion;

fn dummy() -> VolBlock<i32, Safe, Safe, 256> {
    VolBlock::new(4)
}

fn four_u16() -> VolBlockIter<u16, (), ()> {
    let block: VolBlock<u16, (), (), 4> = VolBlock::new(core::mem::align_of::<u16>());
    block.iter()
}

fn raw<T, R, W>(a: Option<VolAddress<T, R, W>>) -> Option<usize> {
    a.map(|a| a.as_usize())
}

#[test]
fn test_volblock_test_iter() {
    let i = dummy().iter();
    let len = dummy().len();
    assert_eq!(i.size_hint(), (len, Some(len)));
    assert_eq!(i.count(), len);
}

#[test]
fn test_volblock_test_indexing_styles() {
    let a0 = dummy().index_unchecked(0);
    let b0 = dummy().index(0);
    assert_eq!(a0, b0);

    let a1 = a0.offset(1);
    let b1 = dummy().index(1);
    assert_eq!(a1, b1);

    for i in 0..dummy().len() {
        assert_eq!(dummy().get(i).unwrap(), dummy().index(i));
    }
    assert!(dummy().get(dummy().len()).is_none());
}

#[test]
fn test_volblock_iter_range() {
    let block: VolBlock<u8, Unsafe, Unsafe, 10> = VolBlock::new(1);
    //
    let i = block.iter_range(Bound::Unbounded, Bound::Unbounded);
    assert_eq!(raw(i.clone().next()), Some(1));
    assert_eq!(i.count(), 10);
    //
    let i = block.iter_range(Bound::Included(2), Bound::Unbounded);
    assert_eq!(raw(i.clone().next()), Some(1 + 2));
    assert_eq!(i.count(), 10 - 2);
    //
    let i = block.iter_range(Bound::Included(2), Bound::Included(5));
    assert_eq!(raw(i.clone().next()), Some(1 + 2));
    assert_eq!(i.count(), 4);
    //
    let i = block.iter_range(Bound::Unbounded, Bound::Excluded(4));
    assert_eq!(raw(i.clone().next()), Some(1));
    assert_eq!(i.count(), 4);
    //
    let i = block.iter_range(Bound::Unbounded, Bound::Included(4));
    assert_eq!(raw(i.clone().next()), Some(1));
    assert_eq!(i.count(), 5);
}

#[test]
#[allow(non_snake_case)]
fn test_impl_Iterator_for_VolBlockIter() {
    let i = four_u16();

    let mut i_c = i.clone();
    assert_eq!(raw(i_c.next()), Some(2));
    assert_eq!(raw(i_c.next()), Some(4));
    assert_eq!(raw(i_c.next()), Some(6));
    assert_eq!(raw(i_c.next()), Some(8));
    assert_eq!(raw(i_c.next()), None);
    assert_eq!(raw(i_c.next()), None);

    let i_c = i.clone();
    assert_eq!(i_c.size_hint(), (4, Some(4)));

    let i_c = i.clone();
    assert_eq!(i_c.count(), 4);

    let i_c = i.clone();
    assert_eq!(raw(i_c.last()), Some(8));

    let mut i_c = i.clone();
    assert_eq!(raw(i_c.nth(0)), Some(2));
    assert_eq!(raw(i_c.nth(0)), Some(4));
    assert_eq!(raw(i_c.nth(0)), Some(6));
    assert_eq!(raw(i_c.nth(0)), Some(8));
    assert_eq!(raw(i_c.nth(0)), None);
    assert_eq!(raw(i_c.nth(0)), None);

    let mut i_c = i.clone();
    assert_eq!(raw(i_c.nth(1)), Some(4));
    assert_eq!(raw(i_c.nth(1)), Some(8));
    assert_eq!(raw(i_c.nth(1)), None);
    assert_eq!(raw(i_c.nth(1)), None);

    let mut i_c = i.clone();
    assert_eq!(raw(i_c.nth(2)), Some(6));
    assert_eq!(raw(i_c.nth(2)), None);
    assert_eq!(raw(i_c.nth(2)), None);

    let mut i_c = i.clone();
    assert_eq!(raw(i_c.nth(3)), Some(8));
    assert_eq!(raw(i_c.nth(3)), None);
    assert_eq!(raw(i_c.nth(3)), None);

    let mut i_c = i.clone();
    assert_eq!(raw(i_c.nth(4)), None);
    assert_eq!(raw(i_c.nth(4)), None);
}

#[test]
#[allow(non_snake_case)]
fn test_impl_DoubleEndedIterator_for_VolBlockIter() {
    let i = four_u16();

    let mut i_c = i.clone();
    assert_eq!(raw(i_c.next_back()), Some(8));
    assert_eq!(raw(i_c.next_back()), Some(6));
    assert_eq!(raw(i_c.next_back()), Some(4));
    assert_eq!(raw(i_c.next_back()), Some(2));
    assert_eq!(raw(i_c.next_back()), None);
    assert_eq!(raw(i_c.next_back()), None);

    let mut i_c = i.clone();
    assert_eq!(raw(i_c.nth_back(0)), Some(8));
    assert_eq!(raw(i_c.nth_back(0)), Some(6));
    assert_eq!(raw(i_c.nth_back(0)), Some(4));
    assert_eq!(raw(i_c.nth_back(0)), Some(2));
    assert_eq!(raw(i_c.nth_back(0)), None);
    assert_eq!(raw(i_c.nth_back(0)), None);

    let mut i_c = i.clone();
    assert_eq!(raw(i_c.nth_back(1)), Some(6));
    assert_eq!(raw(i_c.nth_back(1)), Some(2));
    assert_eq!(raw(i_c.nth_back(1)), None);
    assert_eq!(raw(i_c.nth_back(1)), None);

    let mut i_c = i.clone();
    assert_eq!(raw(i_c.nth_back(2)), Some(4));
    assert_eq!(raw(i_c.nth_back(2)), None);
    assert_eq!(raw(i_c.nth_back(2)), None);

    let mut i_c = i.clone();
    assert_eq!(raw(i_c.nth_back(3)), Some(2));
    assert_eq!(raw(i_c.nth_back(3)), None);
    assert_eq!(raw(i_c.nth_back(3)), None);

    let mut i_c = i.clone();
    assert_eq!(raw(i_c.nth_back(4)), None);
    assert_eq!(raw(i_c.nth_back(4)), None);
}

#[test]
fn palette_block_index_lands_on_byte_ten() {
    let block: VolBlock<u16, Safe, Safe, 256> = VolBlock::new(0x500_0000);
    assert_eq!(block.len(), 256);
    assert_eq!(block.as_usize(), 0x500_0000);
    assert_eq!(block.index(5).as_usize(), 0x500_0000 + 10);
    assert_eq!(block.index(0).as_usize(), 0x500_0000);
    assert_eq!(block.index(255).as_usize(), 0x500_0000 + 510);
}

#[test]
fn block_get_agrees_with_index() {
    let block: VolBlock<u32, Safe, (), 7> = VolBlock::new(0x40);
    for i in 0..7 {
        assert_eq!(block.get(i), Some(block.index(i)));
        assert_eq!(block.index(i).as_usize(), 0x40 + 4 * i);
        assert_eq!(block.index_unchecked(i), block.index(i));
    }
    for i in [7usize, 8, 100, usize::MAX] {
        assert_eq!(block.get(i), None);
    }
}

#[test]
fn empty_block_has_nothing() {
    let block: VolBlock<u32, Safe, Safe, 0> = VolBlock::new(0x40);
    assert_eq!(block.len(), 0);
    assert_eq!(block.get(0), None);
    let mut i = block.iter();
    assert_eq!(i.size_hint(), (0, Some(0)));
    assert_eq!(i.next(), None);
    assert_eq!(i.next_back(), None);
    assert_eq!(block.iter().last(), None);
    let r = block.iter_range(Bound::Unbounded, Bound::Unbounded);
    assert_eq!(r.count(), 0);
}

#[test]
fn block_that_ends_at_the_top_of_the_address_space() {
    let block: VolBlock<u8, Safe, Safe, 4> = VolBlock::new(usize::MAX - 4);
    assert_eq!(block.index(3).as_usize(), usize::MAX - 1);
    let mut i = block.iter();
    assert_eq!(raw(i.nth(3)), Some(usize::MAX - 1));
    assert_eq!(i.next(), None);
    assert_eq!(i.size_hint(), (0, Some(0)));
}

#[test]
fn fresh_iterator_yields_each_element_once_in_rising_order() {
    let block: VolBlock<u32, Safe, Safe, 9> = VolBlock::new(0x2000);
    let mut i = block.iter();
    assert_eq!(i.size_hint(), (9, Some(9)));
    let mut seen: Vec<usize> = Vec::new();
    for left in (0..9usize).rev() {
        let a = i.next().unwrap();
        assert_eq!(i.size_hint(), (left, Some(left)));
        if let Some(&before) = seen.last() {
            assert!(before < a.as_usize());
        }
        seen.push(a.as_usize());
    }
    assert_eq!(seen, vec![0x2000, 0x2004, 0x2008, 0x200C, 0x2010, 0x2014, 0x2018, 0x201C, 0x2020]);
    for _ in 0..5 {
        assert_eq!(i.next(), None);
        assert_eq!(i.next_back(), None);
        assert_eq!(i.size_hint(), (0, Some(0)));
    }
}

#[test]
fn nth_past_the_end_empties_the_iterator() {
    let block: VolBlock<u16, Safe, Safe, 5> = VolBlock::new(0x10);
    for n in [5usize, 6, 1000, usize::MAX] {
        let mut i = block.iter();
        assert_eq!(i.nth(n), None);
        assert_eq!(i.size_hint(), (0, Some(0)));
        assert_eq!(i.next(), None);
        assert_eq!(i.next_back(), None);

        let mut i = block.iter();
        assert_eq!(i.nth_back(n), None);
        assert_eq!(i.size_hint(), (0, Some(0)));
        assert_eq!(i.next(), None);
    }
    let mut i = block.iter();
    assert_eq!(raw(i.next()), Some(0x10));
    assert_eq!(raw(i.next()), Some(0x12));
    assert_eq!(i.nth(3), None);
    assert_eq!(i.next(), None);
}

#[test]
fn both_ends_share_what_is_left() {
    let block: VolBlock<u16, Safe, Safe, 5> = VolBlock::new(0x10);
    let mut i = block.iter();
    assert_eq!(raw(i.next()), Some(0x10));
    assert_eq!(raw(i.next_back()), Some(0x18));
    assert_eq!(i.size_hint(), (3, Some(3)));
    assert_eq!(raw(i.nth(1)), Some(0x14));
    assert_eq!(raw(i.nth_back(0)), Some(0x16));
    assert_eq!(i.size_hint(), (0, Some(0)));
    assert_eq!(i.next(), None);
    assert_eq!(i.next_back(), None);
}

#[test]
fn clone_of_an_iterator_goes_its_own_way() {
    let block: VolBlock<u16, Safe, Safe, 3> = VolBlock::new(0x10);
    let mut i = block.iter();
    assert_eq!(raw(i.next()), Some(0x10));
    let mut j = i.clone();
    assert_eq!(raw(i.next()), Some(0x12));
    assert_eq!(raw(i.next()), Some(0x14));
    assert_eq!(i.next(), None);
    assert_eq!(j.size_hint(), (2, Some(2)));
    assert_eq!(raw(j.next()), Some(0x12));
}

#[test]
fn iter_range_with_empty_and_odd_ranges() {
    let block: VolBlock<u16, Safe, Safe, 10> = VolBlock::new(0x100);
    let mut i = block.iter_range(Bound::Included(3), Bound::Excluded(3));
    assert_eq!(i.size_hint(), (0, Some(0)));
    assert_eq!(i.next(), None);

    let i = block.iter_range(Bound::Included(7), Bound::Excluded(2));
    assert_eq!(i.count(), 0);

    let mut i = block.iter_range(Bound::Included(10), Bound::Unbounded);
    assert_eq!(i.size_hint(), (0, Some(0)));
    assert_eq!(i.next(), None);

    let mut i = block.iter_range(Bound::Excluded(3), Bound::Excluded(6));
    assert_eq!(raw(i.next()), Some(0x108));
    assert_eq!(raw(i.next()), Some(0x10A));
    assert_eq!(i.next(), None);

    let mut i = block.iter_range(Bound::Excluded(8), Bound::Included(9));
    assert_eq!(raw(i.next()), Some(0x112));
    assert_eq!(i.next(), None);
}

#[test]
fn block_and_region_describe_the_same_elements() {
    let block: VolBlock<u16, Safe, Safe, 6> = VolBlock::new(0x300);
    let region = block.as_region();
    let other: VolRegion<u16, Safe, Safe> = VolRegion::from(block);
    assert_eq!(region, other);
    assert_eq!(region.len(), 6);
    assert_eq!(region.as_usize(), 0x300);
    for i in 0..6 {
        assert_eq!(region.index(i), block.index(i));
    }
}

#[test]
fn blocks_compare_by_where_they_start() {
    let a: VolBlock<u16, Safe, Safe, 6> = VolBlock::new(0x300);
    let b: VolBlock<u16, Safe, Safe, 6> = VolBlock::new(0x300);
    let c: VolBlock<u16, Safe, Safe, 6> = VolBlock::new(0x302);
    assert!(a == b);
    assert!(a != c);
    assert!(a < c);
    assert!(c > b);
    assert_eq!(a.clone(), a);
}

#[test]
fn max_and_min_are_the_two_ends() {
    let block: VolBlock<u16, Safe, Safe, 5> = VolBlock::new(0x10);
    assert_eq!(raw(block.iter().min()), Some(0x10));
    assert_eq!(raw(block.iter().max()), Some(0x18));
    assert_eq!(raw(block.iter().last()), Some(0x18));
    let mut i = block.iter();
    i.next();
    i.next_back();
    assert_eq!(raw(i.clone().min()), Some(0x12));
    assert_eq!(raw(i.clone().max()), Some(0x16));
    assert_eq!(i.nth(3), None);
    assert_eq!(i.clone().min(), None);
    assert_eq!(i.max(), None);
}
