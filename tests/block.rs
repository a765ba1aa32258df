use gallagher_rfid_core::mifare::classic::{
    Block, FourBlockOffset, FourBlockSector, Sector, SixteenBlockOffset, SixteenBlockSector,
};

#[test]
fn block_from_u8() {
    for i in 0u8..=u8::MAX {
        assert_eq!(i, Block::from(i).to_u8());
    }
}

#[test]
fn block_to_u8() {
    for i in 0u8..=u8::MAX {
        assert_eq!(i, u8::from(Block::from(i)));
    }
}

#[test]
fn block_from_four_block_sector() {
    assert_eq!(
        Block::from(0u8),
        Block::from_four_block_sector(FourBlockSector::S0, FourBlockOffset::B0)
    );
    assert_eq!(
        Block::from(3u8),
        Block::from_four_block_sector(FourBlockSector::S0, FourBlockOffset::B3)
    );

    for i in 0u8..=31 {
        let s = FourBlockSector::try_from(i).unwrap();
        for j in 0u8..=3 {
            let o = FourBlockOffset::try_from(j).unwrap();
            let b = Block::from_four_block_sector(s, o);
            assert_eq!(i * 4 + j, b.to_u8());
        }
    }
}

#[test]
fn block_from_sixteen_block_sector() {
    assert_eq!(
        Block::from(128u8),
        Block::from_sixteen_block_sector(SixteenBlockSector::S32, SixteenBlockOffset::B0)
    );
    assert_eq!(
        Block::from(143u8),
        Block::from_sixteen_block_sector(SixteenBlockSector::S32, SixteenBlockOffset::B15)
    );

    for i in 32u8..=39 {
        let s = SixteenBlockSector::try_from(i).unwrap();
        for j in 0u8..=15 {
            let o = SixteenBlockOffset::try_from(j).unwrap();
            let b = Block::from_sixteen_block_sector(s, o);
            assert_eq!(((i - 32) * 16) + j + 128, b.to_u8());
        }
    }
}

fn convert4(sector: FourBlockSector) -> Block {
    Block::from(Sector::from(sector))
}

fn convert16(sector: SixteenBlockSector) -> Block {
    Block::from(Sector::from(sector))
}

#[test]
fn block_from_sector() {
    assert_eq!(Block::from(0u8), convert4(FourBlockSector::S0));
    assert_eq!(Block::from(128u8), convert16(SixteenBlockSector::S32));

    for i in 0u8..=31 {
        let s = FourBlockSector::try_from(i).unwrap();
        let b = convert4(s);
        assert_eq!(i * 4, b.to_u8());
        assert_eq!(Block::from(i * 4), b);
    }

    for i in 32u8..=39 {
        let s = SixteenBlockSector::try_from(i).unwrap();
        let b = convert16(s);
        assert_eq!(((i - 32) * 16) + 128, b.to_u8());
        assert_eq!(Block::from(((i - 32) * 16) + 128), b);
    }
}

#[test]
fn four_block_offset_try_from_u8() {
    for i in 0u8..=3u8 {
        let block = FourBlockOffset::try_from(i).unwrap();
        assert_eq!(i, block.to_u8());
    }
    for i in 4u8..=u8::MAX {
        let result = FourBlockOffset::try_from(i);
        assert!(result.is_err());
    }
}

#[test]
fn sixteen_block_offset_try_from_u8() {
    for i in 0u8..=15u8 {
        let block = SixteenBlockOffset::try_from(i).unwrap();
        assert_eq!(i, block.to_u8());
    }
    for i in 16u8..=u8::MAX {
        let result = SixteenBlockOffset::try_from(i);
        assert!(result.is_err());
    }
}

#[test]
fn all_four_block_offset() {
    let all = FourBlockOffset::iter();
    for i in 0u8..4u8 {
        assert_eq!(all[i as usize], FourBlockOffset::try_from(i).unwrap());
    }
}

#[test]
fn all_sixteen_block_offset() {
    let all = SixteenBlockOffset::iter();
    for i in 0u8..16u8 {
        assert_eq!(all[i as usize], SixteenBlockOffset::try_from(i).unwrap());
    }
}

#[test]
fn four_block_offset_iter() {
    let mut expected_value = 0u8;
    for variant in FourBlockOffset::iter() {
        assert_eq!(
            variant.to_u8(),
            expected_value,
            "Unexpected variant at index {}",
            expected_value
        );
        expected_value += 1;
    }
    assert_eq!(expected_value, 4, "Expected 4 variants total");
}

#[test]
fn sixteen_block_offset_iter() {
    let mut expected_value = 0u8;
    for variant in SixteenBlockOffset::iter() {
        assert_eq!(
            variant.to_u8(),
            expected_value,
            "Unexpected variant at index {}",
            expected_value
        );
        expected_value += 1;
    }
    assert_eq!(expected_value, 16, "Expected 16 variants total");
}
