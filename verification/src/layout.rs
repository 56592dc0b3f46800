//! The section table of an ELF image, as far as the engine has to read it
//! itself: to tell, before the image is handed to the ELF writer, whether
//! it holds one of the entries that the writer cannot take.
//!
//! Both classes (32 and 64 bit) and both byte orders are read. An image
//! whose header or table cannot be read has no entries here; the ELF crate
//! reports such an image as an error of its own.

use vstd::prelude::*;

verus! {

/// `sh_type` of a symbol hash section.
pub const SHT_HASH: u64 = 5;

/// `sh_type` of a GNU hash section.
pub const SHT_GNU_HASH: u64 = 0x6fff_fff6;

/// The largest section alignment that is handed to the writer.
pub const MAX_SECTION_ALIGN: u64 = 0x1_0000_0000;

/// The 16-bit number at `at`, in the given byte order.
pub open spec fn u16_at(s: Seq<u8>, at: int, big: bool) -> int {
    if big {
        256 * s[at] + s[at + 1]
    } else {
        s[at] + 256 * s[at + 1]
    }
}

/// The 32-bit number at `at`, in the given byte order.
pub open spec fn u32_at(s: Seq<u8>, at: int, big: bool) -> int {
    if big {
        16777216 * s[at] + 65536 * s[at + 1] + 256 * s[at + 2] + s[at + 3]
    } else {
        s[at] + 256 * s[at + 1] + 65536 * s[at + 2] + 16777216 * s[at + 3]
    }
}

/// The 64-bit number at `at`, in the given byte order.
pub open spec fn u64_at(s: Seq<u8>, at: int, big: bool) -> int {
    if big {
        4294967296 * u32_at(s, at, big) + u32_at(s, at + 4, big)
    } else {
        u32_at(s, at, big) + 4294967296 * u32_at(s, at + 4, big)
    }
}

/// The number of the class's word size at `at`: 64 bits wide in the 64-bit
/// class, 32 bits wide in the other.
pub open spec fn word_at(s: Seq<u8>, at: int, wide: bool, big: bool) -> int {
    if wide {
        u64_at(s, at, big)
    } else {
        u32_at(s, at, big)
    }
}

/// Whether the image is of the 64-bit class.
pub open spec fn is_wide(s: Seq<u8>) -> bool {
    s[4] == 2
}

/// Whether the image is in big-endian byte order.
pub open spec fn is_big(s: Seq<u8>) -> bool {
    s[5] == 2
}

/// Length of the file header of the class.
pub open spec fn header_size(wide: bool) -> int {
    if wide {
        64
    } else {
        52
    }
}

/// Length of a section header of the class.
pub open spec fn entry_size(wide: bool) -> int {
    if wide {
        64
    } else {
        40
    }
}

/// Whether class and byte order are known and the file header is all there.
pub open spec fn header_readable(s: Seq<u8>) -> bool {
    s.len() >= 6 && (s[4] == 1 || s[4] == 2) && (s[5] == 1 || s[5] == 2) && s.len()
        >= header_size(is_wide(s))
}

/// `e_shoff`: where the section table starts.
pub open spec fn table_offset(s: Seq<u8>) -> int {
    if is_wide(s) {
        u64_at(s, 40, is_big(s))
    } else {
        u32_at(s, 32, is_big(s))
    }
}

/// `e_shentsize`: the length that the header states for a table entry.
pub open spec fn stated_entry_size(s: Seq<u8>) -> int {
    u16_at(
        s,
        if is_wide(s) {
            58
        } else {
            46
        },
        is_big(s),
    )
}

/// `e_shnum`: the number of entries that the header states.
pub open spec fn stated_count(s: Seq<u8>) -> int {
    u16_at(
        s,
        if is_wide(s) {
            60
        } else {
            48
        },
        is_big(s),
    )
}

/// `sh_type` of the entry that starts at `base`.
pub open spec fn entry_type(s: Seq<u8>, base: int) -> int {
    u32_at(s, base + 4, is_big(s))
}

/// `sh_offset` of the entry that starts at `base`.
pub open spec fn entry_offset(s: Seq<u8>, base: int) -> int {
    word_at(
        s,
        base + if is_wide(s) {
            24int
        } else {
            16int
        },
        is_wide(s),
        is_big(s),
    )
}

/// `sh_size` of the entry that starts at `base`.
pub open spec fn entry_length(s: Seq<u8>, base: int) -> int {
    word_at(
        s,
        base + if is_wide(s) {
            32int
        } else {
            20int
        },
        is_wide(s),
        is_big(s),
    )
}

/// `sh_addralign` of the entry that starts at `base`.
pub open spec fn entry_align(s: Seq<u8>, base: int) -> int {
    word_at(
        s,
        base + if is_wide(s) {
            48int
        } else {
            32int
        },
        is_wide(s),
        is_big(s),
    )
}

/// The number of entries of the section table: none where the header
/// cannot be read, where it names no table, or where it states another
/// entry length than that of its class; else the stated number, or, where
/// that is zero, the number that stands in the size field of the first
/// entry.
pub open spec fn section_count(s: Seq<u8>) -> int {
    if !header_readable(s) || table_offset(s) == 0 || stated_entry_size(s) != entry_size(
        is_wide(s),
    ) {
        0
    } else if stated_count(s) > 0 {
        stated_count(s)
    } else if table_offset(s) + entry_size(is_wide(s)) <= s.len() {
        entry_length(s, table_offset(s))
    } else {
        0
    }
}

/// Whether the whole section table lies inside the image.
pub open spec fn table_fits(s: Seq<u8>) -> bool {
    table_offset(s) + section_count(s) * entry_size(is_wide(s)) <= s.len()
}

/// Where entry `i` of the section table starts.
pub open spec fn entry_base(s: Seq<u8>, i: int) -> int {
    table_offset(s) + i * entry_size(is_wide(s))
}

/// Whether the entry that starts at `base` is a symbol hash section whose
/// header lies inside the image and states no bucket, or more buckets than
/// the section has room for.
pub open spec fn hash_hazard(s: Seq<u8>, base: int) -> bool {
    let at = entry_offset(s, base);
    &&& entry_type(s, base) == SHT_HASH
    &&& at + 8 <= s.len()
    &&& (u32_at(s, at, is_big(s)) == 0 || 8 + 4 * u32_at(s, at, is_big(s)) > entry_length(s, base))
}

/// Whether the entry that starts at `base` is a GNU hash section whose
/// header lies inside the image and states no bloom word, a bloom shift of
/// 32 or more, or more bloom words and buckets than the section has room
/// for.
pub open spec fn gnu_hash_hazard(s: Seq<u8>, base: int) -> bool {
    let at = entry_offset(s, base);
    let word: int = if is_wide(s) {
        8
    } else {
        4
    };
    &&& entry_type(s, base) == SHT_GNU_HASH
    &&& at + 16 <= s.len()
    &&& (u32_at(s, at + 8, is_big(s)) == 0 || u32_at(s, at + 12, is_big(s)) >= 32 || 16 + word
        * u32_at(s, at + 8, is_big(s)) + 4 * u32_at(s, at, is_big(s)) > entry_length(s, base))
}

/// Whether the entry that starts at `base` is one that the ELF writer
/// cannot take: its alignment is beyond [`MAX_SECTION_ALIGN`], or it is a
/// hash section with one of the faults above.
pub open spec fn entry_hazard(s: Seq<u8>, base: int) -> bool {
    ||| entry_align(s, base) > MAX_SECTION_ALIGN
    ||| hash_hazard(s, base)
    ||| gnu_hash_hazard(s, base)
}

/// Whether one of the first `n` entries of the section table is a hazard.
pub open spec fn hazard_among(s: Seq<u8>, n: int) -> bool {
    exists|i: int| 0 <= i < n && entry_hazard(s, #[trigger] entry_base(s, i))
}

/// Whether the section table of the image lies inside it and holds an
/// entry that the ELF writer cannot take.
pub open spec fn rewrite_hazard(s: Seq<u8>) -> bool {
    table_fits(s) && hazard_among(s, section_count(s))
}

fn read_u16(data: &[u8], at: usize, big: bool) -> (value: u64)
    requires
        at + 2 <= data.len(),
    ensures
        value == u16_at(data@, at as int, big),
        value < 0x1_0000,
{
    if big {
        256 * (data[at] as u64) + data[at + 1] as u64
    } else {
        data[at] as u64 + 256 * (data[at + 1] as u64)
    }
}

fn read_u32(data: &[u8], at: usize, big: bool) -> (value: u64)
    requires
        at + 4 <= data.len(),
    ensures
        value == u32_at(data@, at as int, big),
        value < 0x1_0000_0000,
{
    if big {
        16777216 * (data[at] as u64) + 65536 * (data[at + 1] as u64) + 256 * (data[at + 2] as u64)
            + data[at + 3] as u64
    } else {
        data[at] as u64 + 256 * (data[at + 1] as u64) + 65536 * (data[at + 2] as u64) + 16777216
            * (data[at + 3] as u64)
    }
}

fn read_word(data: &[u8], at: usize, wide: bool, big: bool) -> (value: u64)
    requires
        wide ==> at + 8 <= data.len(),
        !wide ==> at + 4 <= data.len(),
    ensures
        value == word_at(data@, at as int, wide, big),
{
    if wide {
        let first = read_u32(data, at, big);
        let second = read_u32(data, at + 4, big);
        if big {
            4294967296 * first + second
        } else {
            first + 4294967296 * second
        }
    } else {
        read_u32(data, at, big)
    }
}

/// Tells whether the entry that starts at `base` is a hazard.
fn is_entry_hazard(data: &[u8], base: usize, wide: bool, big: bool) -> (hazard: bool)
    requires
        data.len() >= 6,
        wide == is_wide(data@),
        big == is_big(data@),
        base + entry_size(wide) <= data.len(),
    ensures
        hazard == entry_hazard(data@, base as int),
{
    let align = read_word(data, base + if wide { 48 } else { 32 }, wide, big);
    if align > MAX_SECTION_ALIGN {
        return true;
    }
    let sh_type = read_u32(data, base + 4, big);
    if sh_type != SHT_HASH && sh_type != SHT_GNU_HASH {
        return false;
    }
    let offset = read_word(data, base + if wide { 24 } else { 16 }, wide, big);
    let size = read_word(data, base + if wide { 32 } else { 20 }, wide, big);
    let len = data.len();
    if offset > len as u64 {
        return false;
    }
    let at = offset as usize;
    if sh_type == SHT_HASH {
        if len - at < 8 {
            return false;
        }
        let buckets = read_u32(data, at, big);
        buckets == 0 || 8 + 4 * buckets > size
    } else {
        if len - at < 16 {
            return false;
        }
        let buckets = read_u32(data, at, big);
        let bloom = read_u32(data, at + 8, big);
        let shift = read_u32(data, at + 12, big);
        let word: u64 = if wide { 8 } else { 4 };
        bloom == 0 || shift >= 32 || 16 + word * bloom + 4 * buckets > size
    }
}

/// Tells whether the section table of the image lies inside it and holds
/// an entry that the ELF writer cannot take.
pub fn has_rewrite_hazard(data: &[u8]) -> (hazard: bool)
    ensures
        hazard == rewrite_hazard(data@),
{
    let len = data.len();
    if len < 6 || !(data[4] == 1 || data[4] == 2) || !(data[5] == 1 || data[5] == 2) {
        return false;
    }
    let wide = data[4] == 2;
    let big = data[5] == 2;
    let header: usize = if wide { 64 } else { 52 };
    let entry: usize = if wide { 64 } else { 40 };
    if len < header {
        return false;
    }
    let table = read_word(data, if wide { 40 } else { 32 }, wide, big);
    if table == 0 || read_u16(data, if wide { 58 } else { 46 }, big) != entry as u64 {
        return false;
    }
    let stated = read_u16(data, if wide { 60 } else { 48 }, big);
    let count: u64 = if stated > 0 {
        stated
    } else if table <= len as u64 && len as u64 - table >= entry as u64 {
        read_word(data, table as usize + if wide { 32 } else { 20 }, wide, big)
    } else {
        0
    };
    assert(count == section_count(data@));
    if table > len as u64 {
        return false;
    }
    let room: u64 = len as u64 - table;
    let fits = if wide {
        count <= room / 64
    } else {
        count <= room / 40
    };
    assert(fits == table_fits(data@));
    if !fits {
        return false;
    }
    assert(table_fits(data@));
    let start = table as usize;
    let mut i: u64 = 0;
    while i < count
        invariant
            len == data@.len(),
            len >= 6,
            wide == is_wide(data@),
            big == is_big(data@),
            entry == entry_size(wide),
            start == table_offset(data@),
            count == section_count(data@),
            start + count * entry <= len,
            i <= count,
            !hazard_among(data@, i as int),
        decreases count - i,
    {
        assert(start + i * entry + entry <= len) by (nonlinear_arith)
            requires
                start + count * entry <= len,
                i < count,
                entry > 0,
        ;
        assert(i * entry <= len) by (nonlinear_arith)
            requires
                start + i * entry + entry <= len,
                start >= 0,
                entry > 0,
                i >= 0,
        ;
        let base: usize = start + (i as usize) * entry;
        assert(base == entry_base(data@, i as int));
        if is_entry_hazard(data, base, wide, big) {
            assert(hazard_among(data@, count as int));
            return true;
        }
        assert forall|j: int| 0 <= j < i + 1 implies !entry_hazard(
            data@,
            #[trigger] entry_base(data@, j),
        ) by {
            if j < i {
                assert(!hazard_among(data@, i as int));
            }
        }
        i += 1;
    }
    false
}

} // verus!
