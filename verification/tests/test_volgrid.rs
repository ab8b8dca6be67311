use voladdress::Safe;
use voladdress::VolBlock;
use voladdress::VolGrid2d;
use voladdress::VolGrid2dStrided;
use voladdress::VolGrid3d;

#[test]
fn test_vol_grid_2d_strided() {
    let small: VolGrid2dStrided<u8, (), (), 10, 10, 6, 0x100> = VolGrid2dStrided::new(0x1000);
    assert_eq!(small.get_frame(0).unwrap().as_usize(), 0x1000);
    assert_eq!(small.get_frame(1).unwrap().as_usize(), 0x1100);
    assert_eq!(small.get_frame(2).unwrap().as_usize(), 0x1200);
    assert_eq!(small.get_frame(3).unwrap().as_usize(), 0x1300);
    assert_eq!(small.get_frame(4).unwrap().as_usize(), 0x1400);
    assert_eq!(small.get_frame(5).unwrap().as_usize(), 0x1500);
    assert!(small.get_frame(6).is_none());
}

#[test]
fn frame_stride_is_free_of_the_frame_size() {
    let overlapping: VolGrid2dStrided<u32, Safe, Safe, 8, 8, 4, 0x10> = VolGrid2dStrided::new(0x4000);
    for z in 0..4usize {
        let frame = overlapping.get_frame(z).unwrap();
        assert_eq!(frame.as_usize(), 0x4000 + z * 0x10);
        assert_ne!(frame.as_usize(), 0x4000 + z * 8 * 8 * 4 + if z == 0 { 1 } else { 0 });
        assert_eq!(frame.index(1, 1).as_usize(), 0x4000 + z * 0x10 + 4 * 9);
    }
    assert!(overlapping.get_frame(4).is_none());

    let apart: VolGrid2dStrided<u16, Safe, Safe, 2, 2, 3, 0x1000> = VolGrid2dStrided::new(0x4000);
    assert_eq!(apart.get_frame(2).unwrap().as_usize(), 0x6000);
    assert_eq!(apart.get_frame(2).unwrap().index(1, 1).as_usize(), 0x6006);
    assert!(apart == apart.clone());
}

#[test]
fn grid_index_is_row_major() {
    let grid: VolGrid2d<u16, Safe, Safe, 4, 3> = VolGrid2d::new(0x100);
    let block: VolBlock<u16, Safe, Safe, 12> = grid.into_block();
    for y in 0..3usize {
        for x in 0..4usize {
            assert_eq!(grid.index(x, y), block.index(x + y * 4));
            assert_eq!(grid.get(x, y), Some(grid.index(x, y)));
            assert_eq!(grid.index(x, y).as_usize(), 0x100 + 2 * (x + y * 4));
        }
    }
    assert_eq!(grid.index(1, 2).as_usize(), 0x100 + 18);
}

#[test]
fn grid_get_outside_gives_nothing() {
    let grid: VolGrid2d<u16, Safe, Safe, 4, 3> = VolGrid2d::new(0x100);
    assert_eq!(grid.get(4, 0), None);
    assert_eq!(grid.get(0, 3), None);
    assert_eq!(grid.get(4, 3), None);
    assert_eq!(grid.get(usize::MAX, 0), None);
    assert_eq!(grid.get(0, usize::MAX), None);
    assert_eq!(grid.get(usize::MAX, usize::MAX), None);
    assert!(grid.get(3, 2).is_some());
}

#[test]
fn grid_rows_are_blocks() {
    let grid: VolGrid2d<u16, Safe, Safe, 4, 3> = VolGrid2d::new(0x100);
    for y in 0..3usize {
        let row = grid.get_row(y).unwrap();
        assert_eq!(row.len(), 4);
        assert_eq!(row.as_usize(), 0x100 + 8 * y);
        for x in 0..4usize {
            assert_eq!(row.index(x), grid.index(x, y));
        }
    }
    assert!(grid.get_row(3).is_none());
    assert!(grid.get_row(usize::MAX).is_none());
}

#[test]
fn grid_and_block_turn_into_each_other() {
    let block: VolBlock<u32, Safe, (), 15> = VolBlock::new(0x2000);
    let grid: VolGrid2d<u32, Safe, (), 5, 3> = VolGrid2d::from_block(block);
    assert_eq!(grid.as_usize(), 0x2000);
    let back: VolBlock<u32, Safe, (), 15> = grid.into_block();
    assert_eq!(back, block);
    assert_eq!(grid.index(4, 2), block.index(14));
    let other: VolGrid2d<u32, Safe, (), 5, 3> = VolGrid2d::new(0x2000);
    assert!(grid == other);
    assert!(!(grid < other));
}

#[test]
fn grid_without_columns_or_rows() {
    let flat: VolGrid2d<u32, Safe, Safe, 0, 3> = VolGrid2d::new(0x2000);
    assert_eq!(flat.get(0, 0), None);
    assert_eq!(flat.get_row(2).unwrap().len(), 0);
    assert_eq!(flat.get_row(2).unwrap().as_usize(), 0x2000);
    let none: VolGrid2d<u32, Safe, Safe, 3, 0> = VolGrid2d::new(0x2000);
    assert_eq!(none.get(0, 0), None);
    assert!(none.get_row(0).is_none());
}

#[test]
fn frames_lie_one_after_the_other() {
    let cube: VolGrid3d<u16, Safe, Safe, 4, 3, 2> = VolGrid3d::new(0x100);
    let first = cube.get_frame(0).unwrap();
    let second = cube.get_frame(1).unwrap();
    assert_eq!(first.as_usize(), 0x100);
    assert_eq!(second.as_usize(), 0x100 + 2 * 12);
    assert!(cube.get_frame(2).is_none());
    for z in 0..2usize {
        let frame = cube.get_frame(z).unwrap();
        for y in 0..3usize {
            for x in 0..4usize {
                assert_eq!(cube.index(x, y, z), frame.index(x, y));
                assert_eq!(cube.get(x, y, z), Some(frame.index(x, y)));
                assert_eq!(cube.index(x, y, z).as_usize(), 0x100 + 2 * (x + y * 4 + z * 12));
            }
        }
    }
    assert_eq!(cube.get(4, 0, 0), None);
    assert_eq!(cube.get(0, 3, 0), None);
    assert_eq!(cube.get(0, 0, 2), None);
}

#[test]
fn frames_and_block_turn_into_each_other() {
    let block: VolBlock<u16, Safe, Safe, 24> = VolBlock::new(0x100);
    let cube: VolGrid3d<u16, Safe, Safe, 4, 3, 2> = VolGrid3d::from_block(block);
    assert_eq!(cube.as_usize(), 0x100);
    let back: VolBlock<u16, Safe, Safe, 24> = cube.into_block();
    assert_eq!(back, block);
    for z in 0..2usize {
        for y in 0..3usize {
            for x in 0..4usize {
                assert_eq!(cube.index(x, y, z), block.index(x + y * 4 + z * 12));
            }
        }
    }
    assert!(cube == cube.clone());
}

#[test]
fn strided_frames_start_at_whole_strides_from_the_base() {
    let grid: VolGrid2dStrided<u16, Safe, Safe, 16, 16, 5, 0x80> = VolGrid2dStrided::new(0x9000);
    assert_eq!(grid.as_usize(), 0x9000);
    for z in 0..5usize {
        assert_eq!(grid.get_frame(z).unwrap().as_usize(), grid.as_usize() + z * 0x80);
    }
    assert_ne!(grid.get_frame(1).unwrap().as_usize(), grid.as_usize() + 16 * 16 * 2);
}
