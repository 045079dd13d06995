use citro3d::math::{FVec4, IVec, Matrix4};

#[test]
fn fvec4_keeps_its_components() {
    let v = FVec4::new(0x3f80_0000, 0x4000_0000, 0, 0xffff_ffff);
    assert_eq!(v.x(), 0x3f80_0000u32);
    assert_eq!(v.y(), 0x4000_0000u32);
    assert_eq!(v.z(), 0u32);
    assert_eq!(v.w(), 0xffff_ffffu32);
    assert_eq!(v, FVec4::new(0x3f80_0000, 0x4000_0000, 0, 0xffff_ffff));
    assert_ne!(v, FVec4::new(0x4000_0000, 0x3f80_0000, 0, 0xffff_ffff));
}

#[test]
fn ivec_packs_x_lowest() {
    let v = IVec::new(0x01, 0x02, 0x03, 0xff);
    assert_eq!(v.raw(), 0xff03_0201u32);
    assert_eq!(v.x(), 1u8);
    assert_eq!(v.y(), 2u8);
    assert_eq!(v.z(), 3u8);
    assert_eq!(v.w(), 255u8);
}

#[test]
fn ivec_round_trips_extremes() {
    let v = IVec::new(255, 0, 255, 0);
    assert_eq!((v.x(), v.y(), v.z(), v.w()), (255u8, 0u8, 255u8, 0u8));
    let z = IVec::new(0, 0, 0, 0);
    assert_eq!(z.raw(), 0u32);
}

#[test]
fn matrix_rows_come_back_in_order() {
    let rows = [
        FVec4::new(1, 2, 3, 4),
        FVec4::new(5, 6, 7, 8),
        FVec4::new(9, 10, 11, 12),
        FVec4::new(13, 14, 15, 16),
    ];
    assert_eq!(Matrix4::from_rows(rows).rows_wzyx(), rows);
}

#[test]
fn matrix_cells_stand_w_first_in_each_row() {
    let cells: [u32; 16] = [10, 11, 12, 13, 20, 21, 22, 23, 30, 31, 32, 33, 40, 41, 42, 43];
    let rows = Matrix4::from_cells_wzyx(cells).rows_wzyx();
    assert_eq!(rows[0], FVec4::new(13, 12, 11, 10));
    assert_eq!(rows[1], FVec4::new(23, 22, 21, 20));
    assert_eq!(rows[2], FVec4::new(33, 32, 31, 30));
    assert_eq!(rows[3], FVec4::new(43, 42, 41, 40));
}
