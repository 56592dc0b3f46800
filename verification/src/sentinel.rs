//! The sentinel structure: its byte layout and how it is found in a buffer.
//!
//! The structure is 21 bytes long: five little-endian 32-bit signed integers
//! followed by one flag byte, with no padding between or after them.

use vstd::prelude::*;
use crate::bytes::{from_le_bytes32, le_bytes32, push_le_i32, read_le_i32, region_equals};

verus! {

/// Size in bytes of the encoded sentinel structure.
pub const SENTINEL_SIZE: usize = 21;

/// First marker of the sentinel structure.
pub const SENTINEL_MAGIC1: i32 = 0x0d000721;

/// Second marker of the sentinel structure.
pub const SENTINEL_MAGIC2: i32 = 0x1f8a4e2b;

/// Schema version that this library writes.
pub const SENTINEL_VERSION: i32 = 1;

/// The sentinel structure of a prebuilt binary.
#[derive(Debug, Clone, Copy)]
pub struct EmbeddedConfig {
    pub magic1: i32,
    pub magic2: i32,
    pub version: i32,
    /// Length in bytes of the payload as it lies in the file.
    pub data_size: i32,
    /// Where the payload starts, counted from the first byte of this structure.
    pub data_offset: i32,
    /// Whether the payload is xz-compressed.
    pub data_xz: bool,
}

/// The byte that stands for a flag.
pub open spec fn flag_byte(flag: bool) -> u8 {
    if flag {
        1
    } else {
        0
    }
}

impl EmbeddedConfig {
    /// The structure with the fixed markers and version and the given payload fields.
    pub open spec fn spec_new(data_size: i32, data_offset: i32, data_xz: bool) -> EmbeddedConfig {
        EmbeddedConfig {
            magic1: SENTINEL_MAGIC1,
            magic2: SENTINEL_MAGIC2,
            version: SENTINEL_VERSION,
            data_size,
            data_offset,
            data_xz,
        }
    }

    /// The 21 bytes that encode this structure.
    pub open spec fn spec_bytes(self) -> Seq<u8> {
        le_bytes32(self.magic1) + le_bytes32(self.magic2) + le_bytes32(self.version) + le_bytes32(
            self.data_size,
        ) + le_bytes32(self.data_offset) + seq![flag_byte(self.data_xz)]
    }

    /// The structure that the first 21 bytes of `s` encode. A flag byte other
    /// than zero reads as `true`.
    pub open spec fn spec_from_bytes(s: Seq<u8>) -> EmbeddedConfig
        recommends
            s.len() >= SENTINEL_SIZE,
    {
        EmbeddedConfig {
            magic1: from_le_bytes32(s.subrange(0, 4)),
            magic2: from_le_bytes32(s.subrange(4, 8)),
            version: from_le_bytes32(s.subrange(8, 12)),
            data_size: from_le_bytes32(s.subrange(12, 16)),
            data_offset: from_le_bytes32(s.subrange(16, 20)),
            data_xz: s[20] != 0,
        }
    }

    pub fn new(data_size: i32, data_offset: i32, data_xz: bool) -> (config: Self)
        ensures
            config == Self::spec_new(data_size, data_offset, data_xz),
    {
        Self {
            magic1: SENTINEL_MAGIC1,
            magic2: SENTINEL_MAGIC2,
            version: SENTINEL_VERSION,
            data_size,
            data_offset,
            data_xz,
        }
    }

    /// Encodes the structure field by field.
    pub fn as_bytes(&self) -> (bytes: Vec<u8>)
        ensures
            bytes@ == self.spec_bytes(),
            bytes@.len() == SENTINEL_SIZE,
    {
        let mut bytes: Vec<u8> = Vec::new();
        push_le_i32(&mut bytes, self.magic1);
        push_le_i32(&mut bytes, self.magic2);
        push_le_i32(&mut bytes, self.version);
        push_le_i32(&mut bytes, self.data_size);
        push_le_i32(&mut bytes, self.data_offset);
        bytes.push(if self.data_xz { 1 } else { 0 });
        assert(bytes@ =~= self.spec_bytes());
        bytes
    }

    /// Decodes the structure that lies at `at` in `data`, if 21 bytes are there.
    pub fn read_at(data: &[u8], at: usize) -> (config: Option<Self>)
        ensures
            config is Some <==> at + SENTINEL_SIZE <= data@.len(),
            config matches Some(c) ==> c == Self::spec_from_bytes(
                data@.subrange(at as int, at + SENTINEL_SIZE),
            ),
    {
        if data.len() < SENTINEL_SIZE || at > data.len() - SENTINEL_SIZE {
            return None;
        }
        let ghost s = data@.subrange(at as int, at + SENTINEL_SIZE);
        proof {
            assert(s.subrange(0, 4) =~= data@.subrange(at as int, at + 4));
            assert(s.subrange(4, 8) =~= data@.subrange(at + 4, at + 8));
            assert(s.subrange(8, 12) =~= data@.subrange(at + 8, at + 12));
            assert(s.subrange(12, 16) =~= data@.subrange(at + 12, at + 16));
            assert(s.subrange(16, 20) =~= data@.subrange(at + 16, at + 20));
        }
        Some(
            Self {
                magic1: read_le_i32(data, at),
                magic2: read_le_i32(data, at + 4),
                version: read_le_i32(data, at + 8),
                data_size: read_le_i32(data, at + 12),
                data_offset: read_le_i32(data, at + 16),
                data_xz: data[at + 20] != 0,
            },
        )
    }
}

impl Default for EmbeddedConfig {
    fn default() -> (config: Self)
        ensures
            config == EmbeddedConfig::spec_new(0, 0, false),
    {
        EmbeddedConfig::new(0, 0, false)
    }
}

/// Decoding an encoded structure gives the structure back.
pub proof fn lemma_sentinel_roundtrip(c: EmbeddedConfig)
    ensures
        c.spec_bytes().len() == SENTINEL_SIZE,
        EmbeddedConfig::spec_from_bytes(c.spec_bytes()) == c,
{
    let s = c.spec_bytes();
    assert(s.subrange(0, 4) =~= le_bytes32(c.magic1));
    assert(s.subrange(4, 8) =~= le_bytes32(c.magic2));
    assert(s.subrange(8, 12) =~= le_bytes32(c.version));
    assert(s.subrange(12, 16) =~= le_bytes32(c.data_size));
    assert(s.subrange(16, 20) =~= le_bytes32(c.data_offset));
    crate::bytes::lemma_le_bytes32_roundtrip(c.magic1);
    crate::bytes::lemma_le_bytes32_roundtrip(c.magic2);
    crate::bytes::lemma_le_bytes32_roundtrip(c.version);
    crate::bytes::lemma_le_bytes32_roundtrip(c.data_size);
    crate::bytes::lemma_le_bytes32_roundtrip(c.data_offset);
}

/// The eight bytes by which a sentinel is recognized: both markers, little-endian.
pub open spec fn tag_bytes() -> Seq<u8> {
    le_bytes32(SENTINEL_MAGIC1) + le_bytes32(SENTINEL_MAGIC2)
}

/// Whether the eight marker bytes stand at `i` in `s`.
pub open spec fn tags_at(s: Seq<u8>, i: int) -> bool {
    0 <= i && i + 8 <= s.len() && s.subrange(i, i + 8) == tag_bytes()
}

/// Whether `i` is an offset at which a whole sentinel fits and the markers stand.
pub open spec fn sentinel_at(s: Seq<u8>, i: int) -> bool {
    0 <= i && i + SENTINEL_SIZE <= s.len() && tags_at(s, i)
}

/// The first offset from `i` on at which a sentinel stands.
pub open spec fn scan_from(s: Seq<u8>, i: int) -> Option<int>
    decreases s.len() - i,
{
    if i < 0 || i + SENTINEL_SIZE > s.len() {
        None
    } else if tags_at(s, i) {
        Some(i)
    } else {
        scan_from(s, i + 1)
    }
}

/// The offset of the sentinel of `s`: the first one at which the markers
/// stand and a whole structure fits.
pub open spec fn sentinel_offset(s: Seq<u8>) -> Option<int> {
    scan_from(s, 0)
}

/// What `scan_from` finds is the first match at or after `i`.
pub proof fn lemma_scan_from(s: Seq<u8>, i: int)
    requires
        0 <= i,
    ensures
        match scan_from(s, i) {
            Some(k) => i <= k && sentinel_at(s, k) && forall|j: int|
                i <= j < k ==> !sentinel_at(s, j),
            None => forall|j: int| i <= j ==> !sentinel_at(s, j),
        },
    decreases s.len() - i,
{
    if i + SENTINEL_SIZE > s.len() {
    } else if tags_at(s, i) {
    } else {
        lemma_scan_from(s, i + 1);
    }
}

/// The sentinel offset is the first match: `Some(k)` exactly when a sentinel
/// stands at `k` and at no smaller offset, `None` exactly when none stands anywhere.
pub proof fn lemma_sentinel_offset_is_first_match(s: Seq<u8>)
    ensures
        forall|k: int|
            sentinel_offset(s) == Some(k) <==> (sentinel_at(s, k) && forall|j: int|
                0 <= j < k ==> !sentinel_at(s, j)),
        sentinel_offset(s) is None <==> forall|j: int| !sentinel_at(s, j),
        s.len() < SENTINEL_SIZE ==> sentinel_offset(s) is None,
{
    lemma_scan_from(s, 0);
    assert forall|k: int|
        (sentinel_at(s, k) && forall|j: int| 0 <= j < k ==> !sentinel_at(s, j)) implies sentinel_offset(
        s,
    ) == Some(k) by {
        match sentinel_offset(s) {
            Some(m) => {
                if m < k {
                    assert(!sentinel_at(s, m));
                } else if k < m {
                    assert(!sentinel_at(s, k));
                }
            },
            None => {
                assert(!sentinel_at(s, k));
            },
        }
    }
}

/// Finds the sentinel: the first offset at which both markers stand and a
/// whole structure fits in `data`.
pub fn find_sentinel(data: &[u8]) -> (found: Option<usize>)
    ensures
        match found {
            Some(k) => sentinel_offset(data@) == Some(k as int) && sentinel_at(data@, k as int),
            None => sentinel_offset(data@) is None,
        },
{
    proof {
        lemma_sentinel_offset_is_first_match(data@);
    }
    let mut tags: Vec<u8> = Vec::new();
    push_le_i32(&mut tags, SENTINEL_MAGIC1);
    push_le_i32(&mut tags, SENTINEL_MAGIC2);
    assert(tags@ =~= tag_bytes());
    if data.len() < SENTINEL_SIZE {
        return None;
    }
    let last: usize = data.len() - SENTINEL_SIZE;
    let mut i: usize = 0;
    while i <= last
        invariant
            tags@ == tag_bytes(),
            tags@.len() == 8,
            last + SENTINEL_SIZE == data.len(),
            i <= last + 1,
            scan_from(data@, 0) == scan_from(data@, i as int),
        decreases last + 1 - i,
    {
        if region_equals(data, i, tags.as_slice()) {
            return Some(i);
        }
        i += 1;
    }
    None
}

} // verus!
