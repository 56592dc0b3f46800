//! The patching engine: validate, scan, inject the payload section, patch the sentinel.

use vstd::prelude::*;
use vstd::slice::slice_to_vec;
use crate::bytes::{le_bytes32, lemma_from_le_bytes32_roundtrip, region_equals};
use crate::elf::{
    build_error_text, elf_reader_accepts, elf_rewrite_accepts, elf_section_range,
    elf_with_section, read_error_text, rewrite_with_section, section_file_range, SHF_ALLOC,
    SHF_EXECINSTR, SHT_PROGBITS,
};
use crate::layout::{has_rewrite_hazard, rewrite_hazard};
use crate::error::PatchError;
use crate::sentinel::{
    find_sentinel, lemma_sentinel_offset_is_first_match, lemma_sentinel_roundtrip, sentinel_at,
    sentinel_offset, tag_bytes, EmbeddedConfig, SENTINEL_MAGIC1, SENTINEL_MAGIC2, SENTINEL_SIZE,
};
use crate::xz::{io_error_text, xz_compressed, xz_encode};

verus! {

/// Name of the section that carries the payload.
pub const PAYLOAD_SECTION_NAME: &'static str = ".fripack_config";

/// Flags of the payload section: allocated and executable.
pub const PAYLOAD_SECTION_FLAGS: u64 = SHF_ALLOC | SHF_EXECINSTR;

/// The xz preset with which a payload is compressed.
pub const XZ_PRESET: u32 = 6;

/// The four bytes with which every ELF file starts.
pub open spec fn elf_magic() -> Seq<u8> {
    seq![0x7fu8, 0x45u8, 0x4cu8, 0x46u8]
}

/// A buffer that the engine accepts: long enough for a sentinel, and
/// starting with the ELF magic.
pub open spec fn valid_container(s: Seq<u8>) -> bool {
    s.len() >= SENTINEL_SIZE && s.subrange(0, 4) == elf_magic()
}

/// Whether `payload` lies in `image` at `offset`.
pub open spec fn payload_lies_at(image: Seq<u8>, offset: int, payload: Seq<u8>) -> bool {
    0 <= offset && offset + payload.len() <= image.len() && image.subrange(
        offset,
        offset + payload.len(),
    ) == payload
}

/// Whether `len` bytes at `offset` share no byte with the sentinel at `o`.
pub open spec fn clear_of_sentinel(o: int, offset: int, len: int) -> bool {
    o + SENTINEL_SIZE <= offset || offset + len <= o
}

/// `image` with the 21 bytes at `o` replaced by the encoding of `c`.
pub open spec fn with_sentinel(image: Seq<u8>, o: int, c: EmbeddedConfig) -> Seq<u8> {
    image.subrange(0, o) + c.spec_bytes() + image.subrange(o + SENTINEL_SIZE, image.len() as int)
}

/// The version field of the sentinel that stands at `o` in `image`.
pub open spec fn version_at(image: Seq<u8>, o: int) -> i32 {
    EmbeddedConfig::spec_from_bytes(image.subrange(o, o + SENTINEL_SIZE)).version
}

/// Markers and version of the sentinel of `image`: its first twelve bytes.
pub open spec fn sentinel_head(image: Seq<u8>) -> Seq<u8> {
    match sentinel_offset(image) {
        Some(o) => image.subrange(o, o + 12),
        None => Seq::empty(),
    }
}

/// The structure that a patch writes: the fixed markers, the version that
/// was there, and the payload's size, offset and flag.
pub open spec fn patched_config(version: i32, data_size: i32, data_offset: i32, data_xz: bool) -> EmbeddedConfig {
    EmbeddedConfig {
        magic1: SENTINEL_MAGIC1,
        magic2: SENTINEL_MAGIC2,
        version,
        data_size,
        data_offset,
        data_xz,
    }
}

/// What patching makes of a rewritten image.
///
/// `previous` is where the sentinel stood before the rewrite and `version`
/// what its version field held; `lookup` is what the ELF reader says of the
/// payload section: `None` if there is none, `Some(None)` if it has no
/// bytes in the file, else its offset and size.
/// The checks come in this order: the image is a container; it has a
/// sentinel; the sentinel has the version it had; the section exists and
/// has a file range; the range has the payload's length, holds the payload
/// and is clear of the sentinel; length and relative offset fit in 32 bits.
/// The patch leaves markers and version as they are.
pub open spec fn patch_outcome(
    image: Seq<u8>,
    previous: usize,
    version: i32,
    lookup: Option<Option<(u64, u64)>>,
    payload: Seq<u8>,
    xz: bool,
) -> Result<Seq<u8>, PatchError> {
    if !valid_container(image) {
        Err(PatchError::InvalidElf)
    } else {
        match sentinel_offset(image) {
            None => Err(PatchError::SentinelLost { previous }),
            Some(o) => {
                if version_at(image, o) != version {
                    Err(PatchError::VersionChanged { before: version, after: version_at(image, o) })
                } else {
                    match lookup {
                        None => Err(PatchError::SectionNotFound),
                        Some(None) => Err(PatchError::SectionWithoutData),
                        Some(Some((offset, size))) => {
                            if size != payload.len() || !payload_lies_at(
                                image,
                                offset as int,
                                payload,
                            ) || !clear_of_sentinel(o, offset as int, payload.len() as int) {
                                Err(PatchError::SectionMismatch { offset, size })
                            } else if payload.len() > i32::MAX || offset - o > i32::MAX || offset
                                - o < i32::MIN {
                                Err(PatchError::FieldOverflow)
                            } else {
                                Ok(
                                    with_sentinel(
                                        image,
                                        o,
                                        patched_config(
                                            version,
                                            payload.len() as i32,
                                            (offset - o) as i32,
                                            xz,
                                        ),
                                    ),
                                )
                            }
                        },
                    }
                }
            },
        }
    }
}

/// What a patched binary promises: the scanner finds a sentinel in `image`
/// whose markers are the fixed ones, whose size is the length of `payload`,
/// whose flag is `xz`, and whose offset, counted from the sentinel, leads
/// to a copy of `payload` inside `image`.
pub open spec fn payload_installed(image: Seq<u8>, payload: Seq<u8>, xz: bool) -> bool {
    &&& valid_container(image)
    &&& payload.len() <= i32::MAX
    &&& sentinel_offset(image) matches Some(o)
    &&& {
        let c = EmbeddedConfig::spec_from_bytes(image.subrange(o, o + SENTINEL_SIZE));
        &&& c.magic1 == SENTINEL_MAGIC1
        &&& c.magic2 == SENTINEL_MAGIC2
        &&& c.data_size == payload.len()
        &&& c.data_xz == xz
        &&& payload_lies_at(image, o + c.data_offset, payload)
    }
}

/// The bytes that are stored for a payload: the payload itself, or its xz
/// stream where `use_xz` is set.
pub open spec fn stored_bytes(payload: Seq<u8>, use_xz: bool) -> Seq<u8> {
    if use_xz {
        xz_compressed(payload, XZ_PRESET)
    } else {
        payload
    }
}

/// `image` rewritten with one more section, which holds `stored`: named
/// [`PAYLOAD_SECTION_NAME`], of type `SHT_PROGBITS`, with
/// [`PAYLOAD_SECTION_FLAGS`], asking for the offset one past the end of `image`.
pub open spec fn with_payload_section(image: Seq<u8>, stored: Seq<u8>) -> Seq<u8> {
    elf_with_section(
        image,
        PAYLOAD_SECTION_NAME@,
        SHT_PROGBITS,
        PAYLOAD_SECTION_FLAGS,
        (image.len() + 1) as u64,
        stored,
    )
}

/// What embedding makes of a binary once the ELF crate has written the new
/// image: the patch of that image, with the payload section where the crate
/// reports it. A binary without a sentinel, or with a section table that
/// the writer cannot take, is refused before.
pub open spec fn embed_outcome(image: Seq<u8>, stored: Seq<u8>, xz: bool) -> Result<
    Seq<u8>,
    PatchError,
> {
    match sentinel_offset(image) {
        None => Err(PatchError::SentinelNotFound),
        Some(previous) => {
            if rewrite_hazard(image) {
                Err(PatchError::UnsupportedLayout)
            } else {
                let rewritten = with_payload_section(image, stored);
                patch_outcome(
                    rewritten,
                    previous as usize,
                    version_at(image, previous),
                    elf_section_range(rewritten, PAYLOAD_SECTION_NAME@),
                    stored,
                    xz,
                )
            }
        },
    }
}

/// When embedding succeeds: the image leaves room for one more section, the
/// ELF crate writes the new image and reads it again, and the patch of the
/// new image succeeds.
pub open spec fn embed_succeeds(image: Seq<u8>, stored: Seq<u8>, xz: bool) -> bool {
    &&& image.len() + 1 <= u64::MAX
    &&& elf_rewrite_accepts(
        image,
        PAYLOAD_SECTION_NAME@,
        SHT_PROGBITS,
        PAYLOAD_SECTION_FLAGS,
        (image.len() + 1) as u64,
        stored,
    )
    &&& elf_reader_accepts(with_payload_section(image, stored))
    &&& embed_outcome(image, stored, xz) is Ok
}

/// The name of the payload section holds no zero character.
pub proof fn lemma_section_name_has_no_zero()
    ensures
        forall|i: int|
            0 <= i < PAYLOAD_SECTION_NAME@.len() ==> PAYLOAD_SECTION_NAME@[i] != '\0',
{
    reveal_strlit(".fripack_config");
    assert(PAYLOAD_SECTION_NAME@ == ".fripack_config"@);
}

/// Writing a structure with the fixed markers over the sentinel leaves the
/// sentinel where the scanner finds it, and changes no byte outside it.
pub proof fn lemma_patch_keeps_sentinel(image: Seq<u8>, o: int, c: EmbeddedConfig)
    requires
        sentinel_offset(image) == Some(o),
        c.magic1 == SENTINEL_MAGIC1,
        c.magic2 == SENTINEL_MAGIC2,
    ensures
        with_sentinel(image, o, c).len() == image.len(),
        sentinel_offset(with_sentinel(image, o, c)) == Some(o),
        with_sentinel(image, o, c).subrange(o, o + SENTINEL_SIZE) == c.spec_bytes(),
        forall|j: int|
            0 <= j < image.len() && !(o <= j < o + SENTINEL_SIZE) ==> with_sentinel(image, o, c)[j]
                == image[j],
        forall|j: int| 0 <= j < o + 8 ==> with_sentinel(image, o, c)[j] == image[j],
{
    lemma_sentinel_offset_is_first_match(image);
    lemma_sentinel_roundtrip(c);
    let p = with_sentinel(image, o, c);
    assert(sentinel_at(image, o));
    assert(p.subrange(o, o + SENTINEL_SIZE) =~= c.spec_bytes());
    assert(c.spec_bytes().subrange(0, 8) =~= tag_bytes());
    assert forall|j: int| 0 <= j < o + 8 implies p[j] == image[j] by {
        if j >= o {
            assert(p[j] == c.spec_bytes()[j - o]);
            assert(c.spec_bytes()[j - o] == c.spec_bytes().subrange(0, 8)[j - o]);
            assert(image.subrange(o, o + 8)[j - o] == image[j]);
        }
    }
    assert(p.subrange(o, o + 8) =~= image.subrange(o, o + 8));
    assert(sentinel_at(p, o));
    assert forall|j: int| 0 <= j < o implies !sentinel_at(p, j) by {
        assert(!sentinel_at(image, j));
        if j + SENTINEL_SIZE <= image.len() {
            assert(p.subrange(j, j + 8) =~= image.subrange(j, j + 8));
        }
    }
    lemma_sentinel_offset_is_first_match(p);
}

/// The head of a sentinel is the two markers and then its version.
pub proof fn lemma_sentinel_head(image: Seq<u8>)
    requires
        sentinel_offset(image) is Some,
    ensures
        sentinel_head(image) == tag_bytes() + le_bytes32(
            version_at(image, sentinel_offset(image)->Some_0),
        ),
{
    let o = sentinel_offset(image)->Some_0;
    lemma_sentinel_offset_is_first_match(image);
    assert(sentinel_at(image, o));
    let whole = image.subrange(o, o + SENTINEL_SIZE);
    let version_bytes = image.subrange(o + 8, o + 12);
    assert(whole.subrange(8, 12) =~= version_bytes);
    lemma_from_le_bytes32_roundtrip(version_bytes);
    assert(image.subrange(o, o + 12) =~= image.subrange(o, o + 8) + version_bytes);
}

/// A successful patch installs the payload and keeps the head of the
/// sentinel: the scanner finds the patched sentinel, markers and version
/// are those of the image, size and flag are those asked for, and the bytes
/// that the sentinel points at are the payload.
pub proof fn lemma_patch_installs_payload(
    image: Seq<u8>,
    previous: usize,
    version: i32,
    lookup: Option<Option<(u64, u64)>>,
    payload: Seq<u8>,
    xz: bool,
)
    requires
        patch_outcome(image, previous, version, lookup, payload, xz) is Ok,
    ensures
        payload_installed(
            patch_outcome(image, previous, version, lookup, payload, xz)->Ok_0,
            payload,
            xz,
        ),
        patch_outcome(image, previous, version, lookup, payload, xz)->Ok_0.len() == image.len(),
        sentinel_head(patch_outcome(image, previous, version, lookup, payload, xz)->Ok_0)
            == sentinel_head(image),
        sentinel_head(image) == tag_bytes() + le_bytes32(version),
{
    let o = sentinel_offset(image)->Some_0;
    let (offset, size) = lookup->Some_0->Some_0;
    let c = patched_config(version, payload.len() as i32, (offset - o) as i32, xz);
    let p = with_sentinel(image, o, c);
    lemma_patch_keeps_sentinel(image, o, c);
    lemma_sentinel_roundtrip(c);
    lemma_sentinel_head(image);
    lemma_sentinel_head(p);
    assert(p.subrange(0, 4) =~= image.subrange(0, 4));
    assert(p.subrange(offset as int, offset + payload.len()) =~= image.subrange(
        offset as int,
        offset + payload.len(),
    ));
}

/// Tells whether the engine accepts `data` as a container.
pub fn is_valid_container(data: &[u8]) -> (valid: bool)
    ensures
        valid == valid_container(data@),
{
    if data.len() < SENTINEL_SIZE {
        return false;
    }
    let valid = data[0] == 0x7f && data[1] == 0x45 && data[2] == 0x4c && data[3] == 0x46;
    proof {
        let head = data@.subrange(0, 4);
        if valid {
            assert(head =~= elf_magic());
        } else {
            assert(head[0] == data@[0] && head[1] == data@[1] && head[2] == data@[2] && head[3]
                == data@[3]);
        }
    }
    valid
}

/// Writes `bytes` over `image` from `at` on.
fn overwrite(image: &mut Vec<u8>, at: usize, bytes: &Vec<u8>)
    requires
        at + bytes@.len() <= old(image)@.len(),
    ensures
        final(image)@ == old(image)@.subrange(0, at as int) + bytes@ + old(image)@.subrange(
            at + bytes@.len(),
            old(image)@.len() as int,
        ),
{
    let n = bytes.len();
    let mut k: usize = 0;
    while k < n
        invariant
            n == bytes.len(),
            at + n <= image.len(),
            k <= n,
            image@.len() == old(image)@.len(),
            forall|j: int| 0 <= j < image@.len() && !(at <= j < at + k) ==> image@[j] == old(image)@[j],
            forall|j: int| 0 <= j < k ==> image@[at + j] == bytes@[j],
        decreases n - k,
    {
        image.set(at + k, bytes[k]);
        k += 1;
    }
    assert(image@ =~= old(image)@.subrange(0, at as int) + bytes@ + old(image)@.subrange(
        at + bytes@.len(),
        old(image)@.len() as int,
    ));
}

/// Patches the sentinel of a rewritten image so that it describes `payload`.
///
/// The image and the section lookup come from the ELF crate; this function
/// decides what they are worth. It scans the image again, holds the
/// sentinel's version against the one it had and the section's range
/// against the payload, computes the payload's offset relative to the
/// sentinel and overwrites size, offset and flag of the sentinel, and
/// nothing else.
pub fn patch_sentinel(
    image: Vec<u8>,
    previous: usize,
    version: i32,
    lookup: Option<Option<(u64, u64)>>,
    payload: &[u8],
    xz: bool,
) -> (patched: Result<Vec<u8>, PatchError>)
    ensures
        match patch_outcome(image@, previous, version, lookup, payload@, xz) {
            Ok(bytes) => patched matches Ok(v) && v@ == bytes,
            Err(e) => patched == Err::<Vec<u8>, PatchError>(e),
        },
{
    let mut image = image;
    if !is_valid_container(image.as_slice()) {
        return Err(PatchError::InvalidElf);
    }
    let o = match find_sentinel(image.as_slice()) {
        None => {
            return Err(PatchError::SentinelLost { previous });
        },
        Some(o) => o,
    };
    let found = match EmbeddedConfig::read_at(image.as_slice(), o) {
        Some(found) => found,
        None => {
            return Err(PatchError::SentinelLost { previous });
        },
    };
    if found.version != version {
        return Err(PatchError::VersionChanged { before: version, after: found.version });
    }
    let (offset, size) = match lookup {
        None => {
            return Err(PatchError::SectionNotFound);
        },
        Some(None) => {
            return Err(PatchError::SectionWithoutData);
        },
        Some(Some(range)) => range,
    };
    let len = payload.len();
    let total = image.len();
    if size != len as u64 || offset > total as u64 || total as u64 - offset < len as u64 {
        return Err(PatchError::SectionMismatch { offset, size });
    }
    let start = offset as usize;
    if !region_equals(image.as_slice(), start, payload) {
        return Err(PatchError::SectionMismatch { offset, size });
    }
    if !(o + SENTINEL_SIZE <= start || start + len <= o) {
        return Err(PatchError::SectionMismatch { offset, size });
    }
    let delta: i128 = offset as i128 - o as i128;
    if len > 0x7fff_ffff || delta > 0x7fff_ffff || delta < -0x8000_0000 {
        return Err(PatchError::FieldOverflow);
    }
    let config = EmbeddedConfig {
        magic1: SENTINEL_MAGIC1,
        magic2: SENTINEL_MAGIC2,
        version,
        data_size: len as i32,
        data_offset: delta as i32,
        data_xz: xz,
    };
    let encoded = config.as_bytes();
    overwrite(&mut image, o, &encoded);
    Ok(image)
}

/// Makes the bytes that are stored for a payload. A failure of the
/// compressor is an error; the payload is never stored uncompressed in its
/// place.
pub fn final_payload(config_data: &[u8], use_xz: bool) -> (stored: Result<Vec<u8>, PatchError>)
    ensures
        stored matches Ok(v) ==> v@ == stored_bytes(config_data@, use_xz),
        !use_xz ==> stored is Ok,
        stored matches Err(e) ==> use_xz && e is Compression,
{
    if use_xz {
        match xz_encode(config_data, XZ_PRESET) {
            Ok(stream) => Ok(stream),
            Err(e) => Err(PatchError::Compression(io_error_text(&e))),
        }
    } else {
        Ok(slice_to_vec(config_data))
    }
}

/// A container binary that passed validation.
pub struct BinaryProcessor {
    data: Vec<u8>,
}

impl View for BinaryProcessor {
    type V = Seq<u8>;

    closed spec fn view(&self) -> Seq<u8> {
        self.data@
    }
}

impl BinaryProcessor {
    #[verifier::type_invariant]
    spec fn accepted(self) -> bool {
        valid_container(self.data@)
    }

    /// Accepts `data` if it is at least as long as a sentinel and starts
    /// with the ELF magic, and rejects it otherwise.
    pub fn new(data: Vec<u8>) -> (processor: Result<Self, PatchError>)
        ensures
            valid_container(data@) ==> (processor matches Ok(p) && p@ == data@),
            !valid_container(data@) ==> (processor matches Err(e) && e == PatchError::InvalidElf),
    {
        if !is_valid_container(data.as_slice()) {
            return Err(PatchError::InvalidElf);
        }
        Ok(Self { data })
    }

    /// The offset of the sentinel, if the binary has one.
    pub fn find_embedded_config(&self) -> (found: Option<usize>)
        ensures
            valid_container(self@),
            match found {
                Some(k) => sentinel_offset(self@) == Some(k as int) && sentinel_at(self@, k as int),
                None => sentinel_offset(self@) is None,
            },
    {
        proof {
            use_type_invariant(self);
        }
        find_sentinel(self.data.as_slice())
    }

    /// Rewrites the binary with one more section, which holds `final_data`,
    /// and returns the new image. `self` is left as it is.
    fn add_embedded_config_data_section(&self, final_data: &[u8]) -> (rewritten: Result<
        Vec<u8>,
        PatchError,
    >)
        ensures
            rewritten matches Ok(image) ==> image@ == with_payload_section(self@, final_data@),
            rewritten is Ok <==> self@.len() + 1 <= u64::MAX && !rewrite_hazard(self@)
                && elf_rewrite_accepts(
                self@,
                PAYLOAD_SECTION_NAME@,
                SHT_PROGBITS,
                PAYLOAD_SECTION_FLAGS,
                (self@.len() + 1) as u64,
                final_data@,
            ),
            rewritten matches Err(e) ==> e is Parse || e is Write || e is FieldOverflow || (
            e is UnsupportedLayout && rewrite_hazard(self@)),
    {
        let sh_offset: u64 = match (self.data.len() as u64).checked_add(1) {
            None => {
                return Err(PatchError::FieldOverflow);
            },
            Some(at) => at,
        };
        if has_rewrite_hazard(self.data.as_slice()) {
            return Err(PatchError::UnsupportedLayout);
        }
        proof {
            lemma_section_name_has_no_zero();
        }
        match rewrite_with_section(
            self.data.as_slice(),
            PAYLOAD_SECTION_NAME,
            SHT_PROGBITS,
            PAYLOAD_SECTION_FLAGS,
            sh_offset,
            final_data,
        ) {
            Ok(Ok(image)) => Ok(image),
            Ok(Err(e)) => Err(PatchError::Write(build_error_text(&e))),
            Err(e) => Err(PatchError::Parse(build_error_text(&e))),
        }
    }

    /// Stores `final_data` in a new section and points the sentinel at it.
    /// `final_data` is what [`final_payload`] made of the payload, and
    /// `use_xz` says whether it is compressed.
    ///
    /// The binary is scanned first: without a sentinel nothing is rewritten.
    /// Then the ELF crate writes the new image and is asked where the
    /// payload section lies in it, and the image is patched. An error comes
    /// from the ELF crate (`Parse`, `Write`), from an image too long to add
    /// to (`FieldOverflow`), from its section table (`UnsupportedLayout`),
    /// or from the patch. On any error the binary stays as it was.
    pub fn embed_payload(&mut self, final_data: &[u8], use_xz: bool) -> (done: Result<
        (),
        PatchError,
    >)
        ensures
            valid_container(old(self)@),
            valid_container(final(self)@),
            sentinel_offset(old(self)@) is None ==> done == Err::<(), PatchError>(
                PatchError::SentinelNotFound,
            ),
            done is Err ==> final(self)@ == old(self)@,
            done is Ok <==> embed_succeeds(old(self)@, final_data@, use_xz),
            done is Ok ==> embed_outcome(old(self)@, final_data@, use_xz) == Ok::<
                Seq<u8>,
                PatchError,
            >(final(self)@),
            done is Ok ==> payload_installed(final(self)@, final_data@, use_xz),
            done is Ok ==> sentinel_head(final(self)@) == sentinel_head(old(self)@),
            done matches Err(e) ==> e is Parse || e is Write || e is FieldOverflow || embed_outcome(
                old(self)@,
                final_data@,
                use_xz,
            ) == Err::<Seq<u8>, PatchError>(e),
    {
        proof {
            use_type_invariant(&*self);
        }
        let previous = match self.find_embedded_config() {
            None => {
                return Err(PatchError::SentinelNotFound);
            },
            Some(o) => o,
        };
        let version = match EmbeddedConfig::read_at(self.data.as_slice(), previous) {
            Some(found) => found.version,
            None => {
                return Err(PatchError::SentinelNotFound);
            },
        };
        let rewritten = match self.add_embedded_config_data_section(final_data) {
            Ok(image) => image,
            Err(e) => {
                return Err(e);
            },
        };
        let lookup = match section_file_range(rewritten.as_slice(), PAYLOAD_SECTION_NAME) {
            Ok(lookup) => lookup,
            Err(e) => {
                return Err(PatchError::Parse(read_error_text(&e)));
            },
        };
        proof {
            if patch_outcome(rewritten@, previous, version, lookup, final_data@, use_xz) is Ok {
                lemma_patch_installs_payload(
                    rewritten@,
                    previous,
                    version,
                    lookup,
                    final_data@,
                    use_xz,
                );
                lemma_sentinel_head(self@);
            }
        }
        match patch_sentinel(rewritten, previous, version, lookup, final_data, use_xz) {
            Ok(patched) => {
                self.data = patched;
                Ok(())
            },
            Err(e) => Err(e),
        }
    }

    /// Embeds `config_data`, compressed with xz where `use_xz` is set.
    ///
    /// A binary without a sentinel is refused before anything else is done.
    /// On success the scanner finds the sentinel in the new binary, and the
    /// sentinel describes the stored bytes: their length, whether they are
    /// compressed, and where they lie. On any error the binary stays as it
    /// was.
    pub fn add_embedded_config_data(&mut self, config_data: &[u8], use_xz: bool) -> (done: Result<
        (),
        PatchError,
    >)
        ensures
            valid_container(old(self)@),
            valid_container(final(self)@),
            sentinel_offset(old(self)@) is None ==> done == Err::<(), PatchError>(
                PatchError::SentinelNotFound,
            ),
            done is Err ==> final(self)@ == old(self)@,
            done is Ok ==> embed_succeeds(old(self)@, stored_bytes(config_data@, use_xz), use_xz),
            !use_xz && embed_succeeds(old(self)@, config_data@, false) ==> done is Ok,
            done is Ok ==> embed_outcome(
                old(self)@,
                stored_bytes(config_data@, use_xz),
                use_xz,
            ) == Ok::<Seq<u8>, PatchError>(final(self)@),
            done is Ok ==> payload_installed(
                final(self)@,
                stored_bytes(config_data@, use_xz),
                use_xz,
            ),
            done is Ok ==> sentinel_head(final(self)@) == sentinel_head(old(self)@),
            done matches Err(e) ==> e is Parse || e is Write || e is FieldOverflow || (use_xz
                && e is Compression) || embed_outcome(
                old(self)@,
                stored_bytes(config_data@, use_xz),
                use_xz,
            ) == Err::<Seq<u8>, PatchError>(e),
    {
        proof {
            use_type_invariant(&*self);
        }
        if self.find_embedded_config().is_none() {
            return Err(PatchError::SentinelNotFound);
        }
        let stored = match final_payload(config_data, use_xz) {
            Ok(stored) => stored,
            Err(e) => {
                return Err(e);
            },
        };
        self.embed_payload(stored.as_slice(), use_xz)
    }

    /// Gives the binary back.
    pub fn into_data(self) -> (data: Vec<u8>)
        ensures
            data@ == self@,
            valid_container(data@),
    {
        proof {
            use_type_invariant(&self);
        }
        self.data
    }
}

} // verus!
