//! The data side of the multiboot boot information: the ELF-section records
//! the boot loader hands over, and the arithmetic of walking its tag list.
//!
//! The records live in boot-loader memory; reading them out is unverifiable
//! pointer work that stays in the surrounding glue. The glue hands the read
//! fields in as plain values, and everything interpreted about them — the
//! section-type code, the tag alignment walk, the end-tag test — is decided
//! here.

use vstd::prelude::*;

verus! {

/// Tag type code of the memory-map tag.
pub const MEMORY_MAP_TAG_TYPE: u32 = 6;

/// Tag type code of the ELF-sections tag.
pub const ELF_SECTIONS_TAG_TYPE: u32 = 9;

/// The raw section types with an architectural meaning.
#[derive(PartialEq, Eq, Debug, Copy, Clone, Structural)]
pub enum ElfSectionType {
    /// An inactive header with no associated section.
    Unused,
    /// Program-defined contents.
    ProgramSection,
    /// A linker symbol table.
    LinkerSymbolTable,
    /// A string table.
    StringTable,
    /// Relocation entries with explicit addends.
    RelaRelocation,
    /// A symbol hash table.
    SymbolHashTable,
    /// Dynamic linking tables.
    DynamicLinkingTable,
    /// A file marker note.
    Note,
    /// Uninitialized space that occupies no file bytes.
    Uninitialized,
    /// Relocation entries without explicit addends.
    RelRelocation,
    /// Reserved with unspecified semantics.
    Reserved,
    /// A dynamic loader symbol table.
    DynamicLoaderSymbolTable,
    /// Reserved for environment-specific semantics.
    EnvironmentSpecific,
    /// Reserved for processor-specific semantics.
    ProcessorSpecific,
}

/// The section type a raw type code names, if any: the twelve architectural
/// codes and the two reserved ranges.
pub open spec fn section_type_of(typ: u32) -> Option<ElfSectionType> {
    if typ == 0 {
        Some(ElfSectionType::Unused)
    } else if typ == 1 {
        Some(ElfSectionType::ProgramSection)
    } else if typ == 2 {
        Some(ElfSectionType::LinkerSymbolTable)
    } else if typ == 3 {
        Some(ElfSectionType::StringTable)
    } else if typ == 4 {
        Some(ElfSectionType::RelaRelocation)
    } else if typ == 5 {
        Some(ElfSectionType::SymbolHashTable)
    } else if typ == 6 {
        Some(ElfSectionType::DynamicLinkingTable)
    } else if typ == 7 {
        Some(ElfSectionType::Note)
    } else if typ == 8 {
        Some(ElfSectionType::Uninitialized)
    } else if typ == 9 {
        Some(ElfSectionType::RelRelocation)
    } else if typ == 10 {
        Some(ElfSectionType::Reserved)
    } else if typ == 11 {
        Some(ElfSectionType::DynamicLoaderSymbolTable)
    } else if 0x6000_0000 <= typ <= 0x6FFF_FFFF {
        Some(ElfSectionType::EnvironmentSpecific)
    } else if 0x7000_0000 <= typ <= 0x7FFF_FFFF {
        Some(ElfSectionType::ProcessorSpecific)
    } else {
        None
    }
}

/// One ELF section record, with the fields this layer reads, as plain
/// values. The 32-bit and 64-bit header layouts both narrow to this.
#[derive(PartialEq, Eq, Debug, Copy, Clone, Structural)]
pub struct ElfSection {
    /// The raw section type code.
    pub typ: u32,
    /// The section's flag bits.
    pub flags: u64,
    /// The section's physical start address.
    pub addr: u64,
    /// The section's size in bytes.
    pub size: u64,
}

impl ElfSection {
    /// The section type as an [`ElfSectionType`]. An unknown code is a
    /// malformed section header and is refused by precondition, as reading
    /// it would be a boot-data corruption bug, not a runtime condition.
    pub fn section_type(&self) -> (r: ElfSectionType)
        requires
            section_type_of(self.typ) is Some,
        ensures
            Some(r) == section_type_of(self.typ),
    {
        if self.typ == 0 {
            ElfSectionType::Unused
        } else if self.typ == 1 {
            ElfSectionType::ProgramSection
        } else if self.typ == 2 {
            ElfSectionType::LinkerSymbolTable
        } else if self.typ == 3 {
            ElfSectionType::StringTable
        } else if self.typ == 4 {
            ElfSectionType::RelaRelocation
        } else if self.typ == 5 {
            ElfSectionType::SymbolHashTable
        } else if self.typ == 6 {
            ElfSectionType::DynamicLinkingTable
        } else if self.typ == 7 {
            ElfSectionType::Note
        } else if self.typ == 8 {
            ElfSectionType::Uninitialized
        } else if self.typ == 9 {
            ElfSectionType::RelRelocation
        } else if self.typ == 10 {
            ElfSectionType::Reserved
        } else if self.typ == 11 {
            ElfSectionType::DynamicLoaderSymbolTable
        } else if 0x6000_0000 <= self.typ && self.typ <= 0x6FFF_FFFF {
            ElfSectionType::EnvironmentSpecific
        } else {
            ElfSectionType::ProcessorSpecific
        }
    }

    /// The physical start address.
    pub fn start_address(&self) -> (r: u64)
        ensures
            r == self.addr,
    {
        self.addr
    }

    /// The size in bytes.
    pub fn size(&self) -> (r: u64)
        ensures
            r == self.size,
    {
        self.size
    }

    /// The flag bits.
    pub fn flags(&self) -> (r: u64)
        ensures
            r == self.flags,
    {
        self.flags
    }
}

/// One tag header of the boot-information list.
#[derive(PartialEq, Eq, Debug, Copy, Clone, Structural)]
pub struct Tag {
    /// The tag's type code; 0 marks the end of the list.
    pub typ: u32,
    /// The tag's size in bytes, header included.
    pub size: u32,
}

impl Tag {
    /// Whether this is the closing tag of the list.
    pub fn is_end_tag(&self) -> (r: bool)
        ensures
            r == (self.typ == 0 && self.size == 8),
    {
        self.typ == 0 && self.size == 8
    }
}

/// The address of the tag after the tag of the given size at `current`: the
/// next 8-byte boundary at or past its end.
pub fn next_tag_address(current: usize, size: u32) -> (r: usize)
    requires
        1 <= current + size,
        current + size + 8 <= usize::MAX,
    ensures
        r % 8 == 0,
        current + size <= r < current + size + 8,
{
    let end: usize = current + size as usize;
    proof {
        let e = end;
        assert(1 <= e ==> ((((e - 1) as usize & !7usize) + 8) % 8 == 0 && ((e - 1) as usize
            & !7usize) <= (e - 1) as usize && e <= ((e - 1) as usize & !7usize) + 8))
            by (bit_vector);
    }
    ((end - 1) & !7) + 8
}

} // verus!
