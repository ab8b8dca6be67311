use voladdress::read_only::ROVolAddress;
use voladdress::read_only::ROVolBlock;
use voladdress::read_only::ROVolIter;
use voladdress::write_only::WOVolAddress;
use voladdress::write_only::WOVolBlock;
use voladdress::write_only::WOVolIter;

#[test]
fn test_voliter_test_size_hint_and_next() {
    let a: ROVolAddress<i32> = ROVolAddress::new(4);

    assert_eq!(a.iter_slots(0).size_hint(), (0, Some(0)));
    assert_eq!(a.iter_slots(1).size_hint(), (1, Some(1)));

    let mut i: ROVolIter<i32> = a.iter_slots(2);
    assert_eq!(i.size_hint(), (2, Some(2)));

    assert_eq!(i.next().unwrap(), ROVolAddress::new(0x4));
    assert_eq!(i.size_hint(), (1, Some(1)));

    assert_eq!(i.next().unwrap(), ROVolAddress::new(0x8));
    assert_eq!(i.size_hint(), (0, Some(0)));

    assert!(i.next().is_none());
    assert_eq!(i.size_hint(), (0, Some(0)));
}

#[test]
fn test_voliter_test_count() {
    let a: ROVolAddress<i32> = ROVolAddress::new(4);
    let i: ROVolIter<i32> = a.iter_slots(2);

    assert_eq!(i.count(), 2);
}

#[test]
fn test_voliter_test_last() {
    let a: ROVolAddress<i32> = ROVolAddress::new(4);
    let i: ROVolIter<i32> = a.iter_slots(2);

    assert_eq!(i.last(), Some(ROVolAddress::new(4 + 4)));

    let mut i: ROVolIter<i32> = a.iter_slots(2);
    i.next();
    i.next();
    assert_eq!(i.last(), None);
}

#[test]
fn test_voliter_test_nth() {
    let a: ROVolAddress<i32> = ROVolAddress::new(4);
    let mut i: ROVolIter<i32> = a.iter_slots(2);
    let mut i2: ROVolIter<i32> = i.clone();

    assert_eq!(i.nth(0), i2.next());
    assert_eq!(i.nth(0), i2.next());
    assert_eq!(i.nth(0), i2.next());

    let mut i: ROVolIter<i32> = a.iter_slots(2);
    assert_eq!(i.nth(0), Some(ROVolAddress::new(4)));

    let mut i: ROVolIter<i32> = a.iter_slots(2);
    assert_eq!(i.nth(1), Some(ROVolAddress::new(8)));

    let mut i: ROVolIter<i32> = a.iter_slots(2);
    assert_eq!(i.nth(2), None);
}

#[test]
fn read_only_address_basics() {
    let a: ROVolAddress<i32> = ROVolAddress::new(12);
    let b: ROVolAddress<i32> = ROVolAddress::new(13);
    assert!(a.is_aligned());
    assert!(!b.is_aligned());
    assert_eq!(a.to_usize(), 12);
    assert_eq!(a.offset(1), ROVolAddress::new(16));
    assert_eq!(a.offset(-2), ROVolAddress::new(4));
    assert_eq!(a.offset(5).offset(-5), a);
    assert_eq!(a.cast::<u8>().to_usize(), 12);
    assert!(a < b);
    assert!(a != b);
    assert_eq!(a.cmp(&b), core::cmp::Ordering::Less);
    assert_eq!(a.clone(), a);
}

#[test]
fn read_only_block_indexing() {
    let block: ROVolBlock<u16, 8> = ROVolBlock::new(0x40);
    assert_eq!(block.len(), 8);
    for i in 0..8usize {
        assert_eq!(block.get(i), Some(block.index(i)));
        assert_eq!(block.index_unchecked(i), block.index(i));
        assert_eq!(block.index(i).to_usize(), 0x40 + 2 * i);
    }
    assert_eq!(block.get(8), None);
    assert!(block == block.clone());
    let i = block.iter();
    assert_eq!(i.size_hint(), (8, Some(8)));
    assert_eq!(i.count(), 8);
}

#[test]
fn read_only_iterator_ends() {
    let block: ROVolBlock<u16, 8> = ROVolBlock::new(0x40);
    assert_eq!(block.iter().min(), Some(ROVolAddress::new(0x40)));
    assert_eq!(block.iter().max(), Some(ROVolAddress::new(0x4E)));
    assert_eq!(block.iter().last(), Some(ROVolAddress::new(0x4E)));
    let mut i = block.iter();
    assert_eq!(i.nth(8), None);
    assert_eq!(i.next(), None);
    assert_eq!(i.clone().min(), None);
    assert_eq!(i.clone().max(), None);
    let mut j = block.iter();
    let k = block.iter();
    assert!(j == k);
    j.next();
    assert!(j != k);
}

#[test]
fn write_only_address_basics() {
    let a: WOVolAddress<i32> = WOVolAddress::new(12);
    let b: WOVolAddress<i32> = WOVolAddress::new(13);
    assert!(a.is_aligned());
    assert!(!b.is_aligned());
    assert_eq!(a.to_usize(), 12);
    assert_eq!(a.offset(1), WOVolAddress::new(16));
    assert_eq!(a.offset(-2), WOVolAddress::new(4));
    assert_eq!(a.cast::<u8>().to_usize(), 12);
    assert!(a < b);
    let mut i: WOVolIter<i32> = a.iter_slots(2);
    assert_eq!(i.size_hint(), (2, Some(2)));
    assert_eq!(i.next(), Some(WOVolAddress::new(12)));
    assert_eq!(i.clone().last(), Some(WOVolAddress::new(16)));
    assert_eq!(i.nth(1), None);
    assert_eq!(i.next(), None);
}

#[test]
fn write_only_block_indexing() {
    let block: WOVolBlock<u32, 4> = WOVolBlock::new(0x80);
    assert_eq!(block.len(), 4);
    for i in 0..4usize {
        assert_eq!(block.get(i), Some(block.index(i)));
        assert_eq!(block.index_unchecked(i).to_usize(), 0x80 + 4 * i);
    }
    assert_eq!(block.get(4), None);
    assert_eq!(block.iter().count(), 4);
    assert_eq!(block.iter().min(), Some(WOVolAddress::new(0x80)));
    assert_eq!(block.iter().max(), Some(WOVolAddress::new(0x8C)));
}
