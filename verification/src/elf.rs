//! The calls into the `object` crate, which parses and writes ELF files.
//!
//! Nothing in this file is proved: each item states what Verus is asked to
//! believe of the outside code. What the crate makes of a file takes the ELF
//! format to describe, so it is given a name and nothing more is said of it.

use vstd::prelude::*;
use object::{Object, ObjectSection};
use crate::layout::rewrite_hazard;

verus! {

/// `sh_type` of a section whose content the program defines.
pub const SHT_PROGBITS: u32 = 1;

/// `sh_flags` bit of a section that occupies memory at run time.
pub const SHF_ALLOC: u64 = 0x2;

/// `sh_flags` bit of a section that holds executable instructions.
pub const SHF_EXECINSTR: u64 = 0x4;

/// `object::build::Error`: why reading into or writing from a builder failed.
#[verifier::external_type_specification]
#[verifier::external_body]
pub struct ExBuildError(object::build::Error);

/// `object::read::Error`: why parsing a file failed.
#[verifier::external_type_specification]
#[verifier::external_body]
pub struct ExReadError(object::read::Error);

/// The file that `object::build::elf::Builder` writes after it has read
/// `image` and one section was added at the end of its section table, with
/// the given name, type, flags, requested file offset and raw content.
pub uninterp spec fn elf_with_section(
    image: Seq<u8>,
    name: Seq<char>,
    sh_type: u32,
    sh_flags: u64,
    sh_offset: u64,
    content: Seq<u8>,
) -> Seq<u8>;

/// Whether `object::build::elf::Builder` reads `image` and, with the section
/// added, writes the file: what it refuses, it refuses by its reading of the
/// bytes alone.
pub uninterp spec fn elf_rewrite_accepts(
    image: Seq<u8>,
    name: Seq<char>,
    sh_type: u32,
    sh_flags: u64,
    sh_offset: u64,
    content: Seq<u8>,
) -> bool;

/// Whether `object::File::parse` reads `image`.
pub uninterp spec fn elf_reader_accepts(image: Seq<u8>) -> bool;

/// What `object::File` reports as the file range of the first section of
/// `image` that is called `name`: `None` if there is no such section,
/// `Some(None)` if it has no bytes in the file, else offset and size as its
/// header states them.
pub uninterp spec fn elf_section_range(image: Seq<u8>, name: Seq<char>) -> Option<
    Option<(u64, u64)>,
>;

/// Reads `image` with `object::build::elf::Builder::read`, adds a section
/// with `Sections::add`, fills in its name, type, flags, offset and content,
/// and writes the file with `Builder::write` into a fresh buffer.
///
/// `Err`: the crate could not read `image`. `Ok(Err(..))`: it could not write
/// the changed file. `Ok(Ok(..))`: the file it wrote. No symbol or
/// relocation is made for the section.
///
/// The writer panics where a name holds a zero byte, where a symbol hash
/// section states no bucket or a GNU hash section no bloom word, and, built
/// with overflow checks, where a GNU hash section states a bloom shift of 32
/// or more or a section alignment added to a file offset passes the range
/// of `usize`. It allocates what a hash header states, whatever the section
/// has room for. The two conditions leave these inputs out; other panics
/// of the crate are not known.
#[verifier::external_body]
pub(crate) fn rewrite_with_section(
    image: &[u8],
    name: &str,
    sh_type: u32,
    sh_flags: u64,
    sh_offset: u64,
    content: &[u8],
) -> (rewritten: Result<Result<Vec<u8>, object::build::Error>, object::build::Error>)
    requires
        forall|i: int| 0 <= i < name@.len() ==> name@[i] != '\0',
        !rewrite_hazard(image@),
    ensures
        (rewritten matches Ok(Ok(_))) == elf_rewrite_accepts(
            image@,
            name@,
            sh_type,
            sh_flags,
            sh_offset,
            content@,
        ),
        rewritten matches Ok(Ok(bytes)) ==> bytes@ == elf_with_section(
            image@,
            name@,
            sh_type,
            sh_flags,
            sh_offset,
            content@,
        ),
{
    let mut builder = object::build::elf::Builder::read(image)?;
    let section = builder.sections.add();
    section.name = name.as_bytes().to_vec().into();
    section.sh_type = sh_type;
    section.sh_flags = sh_flags;
    section.sh_offset = sh_offset;
    section.data = object::build::elf::SectionData::Data(content.to_vec().into());
    let mut out: Vec<u8> = Vec::new();
    Ok(builder.write(&mut out).map(|_| out))
}

/// Parses `image` with `object::File::parse`, looks the section up with
/// `Object::section_by_name` and asks it for `ObjectSection::file_range`.
/// The crate does not hold the range against the length of `image`.
#[verifier::external_body]
pub(crate) fn section_file_range(image: &[u8], name: &str) -> (range: Result<
    Option<Option<(u64, u64)>>,
    object::read::Error,
>)
    ensures
        range is Ok == elf_reader_accepts(image@),
        range matches Ok(r) ==> r == elf_section_range(image@, name@),
{
    let file = object::File::parse(image)?;
    Ok(file.section_by_name(name).map(|section| section.file_range()))
}

/// The text of a builder error, by its `Display`.
#[verifier::external_body]
pub(crate) fn build_error_text(error: &object::build::Error) -> (text: String) {
    error.to_string()
}

/// The text of a read error, by its `Display`.
#[verifier::external_body]
pub(crate) fn read_error_text(error: &object::read::Error) -> (text: String) {
    error.to_string()
}

} // verus!
