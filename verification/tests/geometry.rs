use mainboard::geometry::{
    erase_regions, sector_classes, FLASH_SIZE, N_32K_SECTORS, N_4K_SECTORS, N_64K_SECTORS,
    PAGE_SIZE, SECTOR_32K_SIZE, SECTOR_4K_SIZE, SECTOR_64K_SIZE,
};

#[test]
fn sector_classes_sum_to_the_declared_capacity() {
    let total: u64 = sector_classes()
        .iter()
        .map(|c| c.count as u64 * c.size as u64)
        .sum();
    assert_eq!(total, FLASH_SIZE as u64);
    assert_eq!(total, 8 * 1024 * 1024);
}

#[test]
fn erase_regions_sum_to_the_declared_capacity() {
    let total: u64 = erase_regions()
        .iter()
        .map(|c| c.count as u64 * c.size as u64)
        .sum();
    assert_eq!(total, 8_388_608);
}

#[test]
fn the_region_table_matches_the_advertised_layout() {
    // 8 * 4K, 1 * 32K, then the 64K run split 63 + 64, ascending.
    let regions = erase_regions();
    let pairs: Vec<(u32, u32)> = regions.iter().map(|c| (c.count, c.size)).collect();
    assert_eq!(
        pairs,
        vec![(8, 4096), (1, 32768), (63, 65536), (64, 65536)]
    );
}

#[test]
fn the_class_constants_agree_with_the_tables() {
    let classes = sector_classes();
    assert_eq!(classes.len(), 3);
    assert_eq!(classes[0].count, N_4K_SECTORS as u32);
    assert_eq!(classes[0].size, SECTOR_4K_SIZE);
    assert_eq!(classes[1].count, N_32K_SECTORS as u32);
    assert_eq!(classes[1].size, SECTOR_32K_SIZE);
    assert_eq!(classes[2].count, N_64K_SECTORS as u32);
    assert_eq!(classes[2].size, SECTOR_64K_SIZE);
    assert_eq!(PAGE_SIZE, 256);
}
