use fripack::binary::BinaryProcessor;
use fripack::error::{ErrorKind, PatchError};
use fripack::layout::has_rewrite_hazard;
use fripack::sentinel::EmbeddedConfig;

const SHT_GNU_HASH: u32 = 0x6fff_fff6;

fn put(image: &mut [u8], at: usize, value: u64, width: usize, big: bool) {
    for k in 0..width {
        let shift = if big { 8 * (width - 1 - k) } else { 8 * k };
        image[at + k] = (value >> shift) as u8;
    }
}

/// A 64-bit image: the header, `data` from byte 64 on, then the section
/// table, whose entries are (type, offset, size, alignment).
fn image64(big: bool, data: &[u8], entries: &[(u32, u64, u64, u64)], stated_count: u16) -> Vec<u8> {
    let table = 64 + data.len();
    let mut image = vec![0u8; table + 64 * entries.len()];
    image[..4].copy_from_slice(b"\x7fELF");
    image[4] = 2;
    image[5] = if big { 2 } else { 1 };
    image[6] = 1;
    image[64..table].copy_from_slice(data);
    put(&mut image, 40, table as u64, 8, big);
    put(&mut image, 58, 64, 2, big);
    put(&mut image, 60, stated_count as u64, 2, big);
    for (i, (kind, offset, size, align)) in entries.iter().enumerate() {
        let base = table + 64 * i;
        put(&mut image, base + 4, *kind as u64, 4, big);
        put(&mut image, base + 24, *offset, 8, big);
        put(&mut image, base + 32, *size, 8, big);
        put(&mut image, base + 48, *align, 8, big);
    }
    image
}

/// The same in the 32-bit class.
fn image32(big: bool, data: &[u8], entries: &[(u32, u32, u32, u32)], stated_count: u16) -> Vec<u8> {
    let table = 52 + data.len();
    let mut image = vec![0u8; table + 40 * entries.len()];
    image[..4].copy_from_slice(b"\x7fELF");
    image[4] = 1;
    image[5] = if big { 2 } else { 1 };
    image[6] = 1;
    image[52..table].copy_from_slice(data);
    put(&mut image, 32, table as u64, 4, big);
    put(&mut image, 46, 40, 2, big);
    put(&mut image, 48, stated_count as u64, 2, big);
    for (i, (kind, offset, size, align)) in entries.iter().enumerate() {
        let base = table + 40 * i;
        put(&mut image, base + 4, *kind as u64, 4, big);
        put(&mut image, base + 16, *offset as u64, 4, big);
        put(&mut image, base + 20, *size as u64, 4, big);
        put(&mut image, base + 32, *align as u64, 4, big);
    }
    image
}

/// A GNU hash header that states `bloom_count` bloom words.
fn hash_header(bloom_count: u32, big: bool) -> Vec<u8> {
    let mut header = vec![0u8; 16];
    put(&mut header, 0, 3, 4, big);
    put(&mut header, 4, 1, 4, big);
    put(&mut header, 8, bloom_count as u64, 4, big);
    put(&mut header, 12, 6, 4, big);
    header
}

#[test]
fn hash_section_without_bloom_words_is_a_hazard() {
    for big in [false, true] {
        let empty = image64(big, &hash_header(0, big), &[(0, 0, 0, 0), (SHT_GNU_HASH, 64, 100, 8)], 2);
        assert!(has_rewrite_hazard(&empty));
        let filled = image64(big, &hash_header(1, big), &[(0, 0, 0, 0), (SHT_GNU_HASH, 64, 100, 8)], 2);
        assert!(!has_rewrite_hazard(&filled));
        let empty = image32(big, &hash_header(0, big), &[(0, 0, 0, 0), (SHT_GNU_HASH, 52, 100, 4)], 2);
        assert!(has_rewrite_hazard(&empty));
        let filled = image32(big, &hash_header(2, big), &[(0, 0, 0, 0), (SHT_GNU_HASH, 52, 100, 4)], 2);
        assert!(!has_rewrite_hazard(&filled));
    }
}

#[test]
fn hash_section_must_have_room_for_what_it_states() {
    // Three buckets and one bloom word after the header of sixteen bytes.
    let header = hash_header(1, false);
    let at_least = |size: u64| image64(false, &header, &[(SHT_GNU_HASH, 64, size, 8)], 1);
    assert!(!has_rewrite_hazard(&at_least(16 + 8 + 12)));
    assert!(has_rewrite_hazard(&at_least(16 + 8 + 11)));
    let at_least = |size: u32| image32(false, &header, &[(SHT_GNU_HASH, 52, size, 4)], 1);
    assert!(!has_rewrite_hazard(&at_least(16 + 4 + 12)));
    assert!(has_rewrite_hazard(&at_least(16 + 4 + 11)));
    let header = hash_header(u32::MAX, true);
    let room = 16 + 8 * (u32::MAX as u64) + 12;
    assert!(!has_rewrite_hazard(&image64(true, &header, &[(SHT_GNU_HASH, 64, room, 8)], 1)));
    assert!(has_rewrite_hazard(&image64(true, &header, &[(SHT_GNU_HASH, 64, room - 1, 8)], 1)));
}

#[test]
fn bloom_shift_must_be_below_32() {
    let mut header = hash_header(1, false);
    put(&mut header, 12, 31, 4, false);
    assert!(!has_rewrite_hazard(&image64(false, &header, &[(SHT_GNU_HASH, 64, 100, 8)], 1)));
    put(&mut header, 12, 32, 4, false);
    assert!(has_rewrite_hazard(&image64(false, &header, &[(SHT_GNU_HASH, 64, 100, 8)], 1)));
}

#[test]
fn symbol_hash_section_without_buckets_is_a_hazard() {
    for big in [false, true] {
        let mut header = vec![0u8; 8];
        put(&mut header, 4, 9, 4, big);
        assert!(has_rewrite_hazard(&image64(big, &header, &[(5, 64, 100, 8)], 1)));
        assert!(has_rewrite_hazard(&image32(big, &header, &[(5, 52, 100, 4)], 1)));
        put(&mut header, 0, 2, 4, big);
        assert!(!has_rewrite_hazard(&image64(big, &header, &[(5, 64, 16, 8)], 1)));
        assert!(has_rewrite_hazard(&image64(big, &header, &[(5, 64, 15, 8)], 1)));
        assert!(!has_rewrite_hazard(&image32(big, &header, &[(5, 52, 16, 4)], 1)));
    }
}

#[test]
fn other_sections_may_hold_zeros() {
    let image = image64(false, &[0u8; 16], &[(0, 0, 0, 0), (1, 64, 16, 8), (3, 64, 16, 1)], 3);
    assert!(!has_rewrite_hazard(&image));
}

#[test]
fn hash_header_outside_the_image_is_left_to_the_reader() {
    let image = image64(false, &hash_header(0, false), &[(SHT_GNU_HASH, 1 << 40, 100, 8)], 1);
    assert!(!has_rewrite_hazard(&image));
    let len = image64(false, &[], &[(SHT_GNU_HASH, 0, 100, 8)], 1).len() as u64;
    // Sixteen bytes must be there to read the header.
    let image = image64(false, &[], &[(SHT_GNU_HASH, len - 15, 100, 8)], 1);
    assert!(!has_rewrite_hazard(&image));
    let image = image64(false, &[], &[(SHT_GNU_HASH, len - 16, 100, 8)], 1);
    assert!(has_rewrite_hazard(&image));
}

#[test]
fn alignment_beyond_four_gib_is_a_hazard() {
    let image = image64(false, &[], &[(1, 64, 0, 1 << 32)], 1);
    assert!(!has_rewrite_hazard(&image));
    let image = image64(false, &[], &[(1, 64, 0, (1 << 32) + 1)], 1);
    assert!(has_rewrite_hazard(&image));
    let image = image64(true, &[], &[(0, 0, 0, 0), (8, 0, 0, u64::MAX)], 2);
    assert!(has_rewrite_hazard(&image));
    let image = image32(false, &[], &[(1, 52, 0, u32::MAX)], 1);
    assert!(!has_rewrite_hazard(&image));
}

#[test]
fn only_stated_entries_are_read() {
    let entries = [(0, 0, 0, 0), (1, 64, 0, 1), (1, 64, 0, u64::MAX)];
    assert!(has_rewrite_hazard(&image64(false, &[], &entries, 3)));
    assert!(!has_rewrite_hazard(&image64(false, &[], &entries, 2)));
}

#[test]
fn count_may_stand_in_the_first_entry() {
    // With a stated count of zero the size field of the first entry is the count.
    let entries = [(0, 0, 3, 0), (1, 64, 0, 1), (1, 64, 0, u64::MAX)];
    assert!(has_rewrite_hazard(&image64(false, &[], &entries, 0)));
    let entries = [(0, 0, 2, 0), (1, 64, 0, 1), (1, 64, 0, u64::MAX)];
    assert!(!has_rewrite_hazard(&image64(false, &[], &entries, 0)));
    let entries = [(0, 0, 0, 0), (1, 64, 0, u64::MAX)];
    assert!(!has_rewrite_hazard(&image64(false, &[], &entries, 0)));
}

#[test]
fn unreadable_tables_hold_no_hazard() {
    let entries = [(1, 64, 0, u64::MAX)];
    let good = image64(false, &[], &entries, 1);
    assert!(has_rewrite_hazard(&good));
    // The table reaches beyond the image.
    assert!(!has_rewrite_hazard(&good[..good.len() - 1]));
    assert!(!has_rewrite_hazard(&image64(false, &[], &entries, 2)));
    // No table.
    let mut image = good.clone();
    put(&mut image, 40, 0, 8, false);
    assert!(!has_rewrite_hazard(&image));
    // Another entry length than that of the class.
    let mut image = good.clone();
    put(&mut image, 58, 40, 2, false);
    assert!(!has_rewrite_hazard(&image));
    // Unknown class or byte order, or no whole header.
    let mut image = good.clone();
    image[4] = 3;
    assert!(!has_rewrite_hazard(&image));
    let mut image = good.clone();
    image[5] = 0;
    assert!(!has_rewrite_hazard(&image));
    assert!(!has_rewrite_hazard(&good[..63]));
    assert!(!has_rewrite_hazard(&[]));
    assert!(!has_rewrite_hazard(b"\x7fELF\x02"));
}

#[test]
fn objects_of_the_elf_writer_hold_no_hazard() {
    let mut obj = object::write::Object::new(
        object::BinaryFormat::Elf,
        object::Architecture::X86_64,
        object::Endianness::Little,
    );
    let section = obj.add_section(Vec::new(), b".data".to_vec(), object::SectionKind::Data);
    obj.append_section_data(section, &[1, 2, 3, 4], 16);
    assert!(!has_rewrite_hazard(&obj.write().unwrap()));
    let mut obj = object::write::Object::new(
        object::BinaryFormat::Elf,
        object::Architecture::PowerPc,
        object::Endianness::Big,
    );
    let section = obj.add_section(Vec::new(), b".data".to_vec(), object::SectionKind::Data);
    obj.append_section_data(section, &[1, 2, 3, 4], 4);
    assert!(!has_rewrite_hazard(&obj.write().unwrap()));
}

#[test]
fn binary_with_a_hazard_is_refused_unchanged() {
    let mut data = hash_header(0, false);
    data.extend_from_slice(&EmbeddedConfig::default().as_bytes());
    let input = image64(false, &data, &[(0, 0, 0, 0), (SHT_GNU_HASH, 64, 100, 8)], 2);
    let mut processor = BinaryProcessor::new(input.clone()).unwrap();
    assert_eq!(processor.find_embedded_config(), Some(80));
    let err = processor.add_embedded_config_data(b"payload", false).unwrap_err();
    assert_eq!(err, PatchError::UnsupportedLayout);
    assert_eq!(err.kind(), ErrorKind::Rewrite);
    assert_eq!(err.message(), "Unsupported ELF section table");
    assert_eq!(processor.into_data(), input);
}
