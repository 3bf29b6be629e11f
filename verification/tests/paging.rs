use mainboard::paging::program_chunks;

#[test]
fn a_write_inside_one_page_is_one_chunk() {
    assert_eq!(program_chunks(10, 10), vec![(10, 10)]);
    assert_eq!(program_chunks(0, 256), vec![(0, 256)]);
    assert_eq!(program_chunks(0x300, 1), vec![(0x300, 1)]);
}

#[test]
fn an_empty_write_has_no_chunks() {
    assert_eq!(program_chunks(0x1C8, 0), Vec::<(u32, u32)>::new());
}

#[test]
fn a_write_from_a_page_start_splits_into_whole_pages() {
    assert_eq!(program_chunks(0, 300), vec![(0, 256), (256, 44)]);
    assert_eq!(
        program_chunks(512, 600),
        vec![(512, 256), (768, 256), (1024, 88)]
    );
}

#[test]
fn a_write_straddling_a_boundary_cuts_the_first_chunk_short() {
    assert_eq!(program_chunks(250, 10), vec![(250, 6), (256, 4)]);
}

#[test]
fn three_hundred_bytes_at_offset_200_split_56_then_244() {
    // 0x1C8 is 200 bytes into its page, so 56 bytes fit before the
    // boundary at 0x200 and the remaining 244 follow from there.
    let chunks = program_chunks(0x1C8, 300);
    assert_eq!(chunks.len(), 2);
    let lengths: Vec<u32> = chunks.iter().map(|c| c.1).collect();
    let addresses: Vec<u32> = chunks.iter().map(|c| c.0).collect();
    assert_eq!(lengths, vec![56, 244]);
    assert_eq!(addresses, vec![0x1C8, 0x200]);
}

#[test]
fn chunks_cover_the_range_contiguously() {
    for (addr, len) in [(0u32, 1000u32), (123, 777), (255, 2), (4095, 4097)] {
        let chunks = program_chunks(addr, len);
        let mut cursor = addr;
        let mut total = 0u32;
        for &(a, c) in &chunks {
            assert_eq!(a, cursor, "chunks must be contiguous and ascending");
            assert!(c > 0);
            assert!(a % 256 + c <= 256, "no chunk may cross a page boundary");
            cursor += c;
            total += c;
        }
        assert_eq!(total, len);
    }
}
