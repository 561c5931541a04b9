use vstd::prelude::*;

verus! {

/// Relocation type indicators for x64 and compatible processors.
#[derive(Clone, Copy, Debug, PartialEq, Eq, Structural)]
pub enum X86RelocationType {
    /// The relocation is ignored.
    Absolute,
    /// The 64-bit VA of the relocation target.
    Addr64,
    /// The 32-bit VA of the relocation target.
    Addr32,
    /// The 32-bit address without an image base (RVA).
    Addr32Nb,
    /// The 32-bit relative address from the byte following the relocation.
    Rel32,
    /// The 32-bit address relative to byte distance 1 from the relocation.
    Rel321,
    /// The 32-bit address relative to byte distance 2 from the relocation.
    Rel322,
    /// The 32-bit address relative to byte distance 3 from the relocation.
    Rel323,
    /// The 32-bit address relative to byte distance 4 from the relocation.
    Rel324,
    /// The 32-bit address relative to byte distance 5 from the relocation.
    Rel325,
    /// The 16-bit section index of the section that contains the target.
    /// This is used to support debugging information.
    Section,
    /// The 32-bit offset of the target from the beginning of its section.
    /// This is used to support debugging information and static thread local storage.
    SecRel,
    /// A 7-bit unsigned offset from the base of the section that contains the target.
    SecRel7,
    /// CLR tokens.
    Token,
    /// A 32-bit signed span-dependent value emitted into the object.
    SRel32,
    /// A pair that must immediately follow every span-dependent value.
    Pair,
    /// A 32-bit signed span-dependent value that is applied at link time.
    SSpan32,
}

impl X86RelocationType {
    /// The relocation type that the numeric code `v` stands for, if any.
    pub open spec fn spec_from_u16(v: u16) -> Option<X86RelocationType> {
        if v == 0x0000 {
            Some(X86RelocationType::Absolute)
        } else if v == 0x0001 {
            Some(X86RelocationType::Addr64)
        } else if v == 0x0002 {
            Some(X86RelocationType::Addr32)
        } else if v == 0x0003 {
            Some(X86RelocationType::Addr32Nb)
        } else if v == 0x0004 {
            Some(X86RelocationType::Rel32)
        } else if v == 0x0005 {
            Some(X86RelocationType::Rel321)
        } else if v == 0x0006 {
            Some(X86RelocationType::Rel322)
        } else if v == 0x0007 {
            Some(X86RelocationType::Rel323)
        } else if v == 0x0008 {
            Some(X86RelocationType::Rel324)
        } else if v == 0x0009 {
            Some(X86RelocationType::Rel325)
        } else if v == 0x000a {
            Some(X86RelocationType::Section)
        } else if v == 0x000b {
            Some(X86RelocationType::SecRel)
        } else if v == 0x000c {
            Some(X86RelocationType::SecRel7)
        } else if v == 0x000d {
            Some(X86RelocationType::Token)
        } else if v == 0x000e {
            Some(X86RelocationType::SRel32)
        } else if v == 0x000f {
            Some(X86RelocationType::Pair)
        } else if v == 0x0010 {
            Some(X86RelocationType::SSpan32)
        } else {
            None
        }
    }

    /// Map a numeric relocation code to its type indicator, or `None`
    /// for a code that is not among the documented ones.
    pub fn from_u16(v: u16) -> (r: Option<X86RelocationType>)
        ensures
            r == X86RelocationType::spec_from_u16(v),
    {
        match v {
            0x0000 => Some(X86RelocationType::Absolute),
            0x0001 => Some(X86RelocationType::Addr64),
            0x0002 => Some(X86RelocationType::Addr32),
            0x0003 => Some(X86RelocationType::Addr32Nb),
            0x0004 => Some(X86RelocationType::Rel32),
            0x0005 => Some(X86RelocationType::Rel321),
            0x0006 => Some(X86RelocationType::Rel322),
            0x0007 => Some(X86RelocationType::Rel323),
            0x0008 => Some(X86RelocationType::Rel324),
            0x0009 => Some(X86RelocationType::Rel325),
            0x000a => Some(X86RelocationType::Section),
            0x000b => Some(X86RelocationType::SecRel),
            0x000c => Some(X86RelocationType::SecRel7),
            0x000d => Some(X86RelocationType::Token),
            0x000e => Some(X86RelocationType::SRel32),
            0x000f => Some(X86RelocationType::Pair),
            0x0010 => Some(X86RelocationType::SSpan32),
            _ => None,
        }
    }
}

/// Relocation type indicators for ARM processors.
#[derive(Clone, Copy, Debug, PartialEq, Eq, Structural)]
pub enum ARMRelocationType {
    /// The relocation is ignored.
    Absolute,
    /// The 32-bit VA of the target.
    Addr32,
    /// The 32-bit RVA of the target.
    Addr32Nb,
    /// The 24-bit relative displacement to the target.
    Branch24,
    /// The reference to a subroutine call.
    /// The reference consists of two 16-bit instructions with 11-bit offsets.
    Branch11,
    /// The 32-bit relative address from the byte following the relocation.
    Rel32,
    /// The 16-bit section index of the section that contains the target.
    /// This is used to support debugging information.
    Section,
    /// The 32-bit offset of the target from the beginning of its section.
    /// This is used to support debugging information and static thread local storage.
    SecRel,
    /// The 32-bit VA of the target.
    /// This relocation is applied using a MOVW instruction for the low 16 bits followed by a MOVT for the high 16 bits.
    Mov32,
    /// The 32-bit VA of the target.
    /// This relocation is applied using a MOVW instruction for the low 16 bits followed by a MOVT for the high 16 bits.
    ImageRelThumbMOV32,
    /// The instruction is fixed up with the 21-bit relative displacement to the 2-byte aligned target.
    /// The least significant bit of the displacement is always zero and is not stored.
    /// This relocation corresponds to a Thumb-2 32-bit conditional B instruction.
    ImageRelThumbBranch20,
    /// Unused relocation type.
    Unused,
    /// The instruction is fixed up with the 25-bit relative displacement to the 2-byte aligned target.
    /// The least significant bit of the displacement is zero and is not stored.
    /// This relocation corresponds to a Thumb-2 B instruction.
    ImageRelThumbBranch24,
    /// The instruction is fixed up with the 25-bit relative displacement to the 4-byte aligned target.
    /// The low 2 bits of the displacement are zero and are not stored.
    /// This relocation corresponds to a Thumb-2 BLX instruction.
    ImageRelThumbBLX23,
    /// The relocation is valid only when it immediately follows a ARM_REFHI or THUMB_REFHI.
    /// Its SymbolTableIndex contains a displacement and not an index into the symbol table.
    Pair,
}

impl ARMRelocationType {
    /// The relocation type that the numeric code `v` stands for, if any.
    pub open spec fn spec_from_u16(v: u16) -> Option<ARMRelocationType> {
        if v == 0x0000 {
            Some(ARMRelocationType::Absolute)
        } else if v == 0x0001 {
            Some(ARMRelocationType::Addr32)
        } else if v == 0x0002 {
            Some(ARMRelocationType::Addr32Nb)
        } else if v == 0x0003 {
            Some(ARMRelocationType::Branch24)
        } else if v == 0x0004 {
            Some(ARMRelocationType::Branch11)
        } else if v == 0x000a {
            Some(ARMRelocationType::Rel32)
        } else if v == 0x000e {
            Some(ARMRelocationType::Section)
        } else if v == 0x000f {
            Some(ARMRelocationType::SecRel)
        } else if v == 0x0010 {
            Some(ARMRelocationType::Mov32)
        } else if v == 0x0011 {
            Some(ARMRelocationType::ImageRelThumbMOV32)
        } else if v == 0x0012 {
            Some(ARMRelocationType::ImageRelThumbBranch20)
        } else if v == 0x0013 {
            Some(ARMRelocationType::Unused)
        } else if v == 0x0014 {
            Some(ARMRelocationType::ImageRelThumbBranch24)
        } else if v == 0x0015 {
            Some(ARMRelocationType::ImageRelThumbBLX23)
        } else if v == 0x0016 {
            Some(ARMRelocationType::Pair)
        } else {
            None
        }
    }

    /// Map a numeric relocation code to its type indicator, or `None`
    /// for a code that is not among the documented ones.
    pub fn from_u16(v: u16) -> (r: Option<ARMRelocationType>)
        ensures
            r == ARMRelocationType::spec_from_u16(v),
    {
        match v {
            0x0000 => Some(ARMRelocationType::Absolute),
            0x0001 => Some(ARMRelocationType::Addr32),
            0x0002 => Some(ARMRelocationType::Addr32Nb),
            0x0003 => Some(ARMRelocationType::Branch24),
            0x0004 => Some(ARMRelocationType::Branch11),
            0x000a => Some(ARMRelocationType::Rel32),
            0x000e => Some(ARMRelocationType::Section),
            0x000f => Some(ARMRelocationType::SecRel),
            0x0010 => Some(ARMRelocationType::Mov32),
            0x0011 => Some(ARMRelocationType::ImageRelThumbMOV32),
            0x0012 => Some(ARMRelocationType::ImageRelThumbBranch20),
            0x0013 => Some(ARMRelocationType::Unused),
            0x0014 => Some(ARMRelocationType::ImageRelThumbBranch24),
            0x0015 => Some(ARMRelocationType::ImageRelThumbBLX23),
            0x0016 => Some(ARMRelocationType::Pair),
            _ => None,
        }
    }
}

/// Relocation type indicators for ARM64 processors.
#[derive(Clone, Copy, Debug, PartialEq, Eq, Structural)]
pub enum ARM64RelocationType {
    /// The relocation is ignored.
    Absolute,
    /// The 32-bit VA of the target.
    Addr32,
    /// The 32-bit RVA of the target.
    Addr32Nb,
    /// The 26-bit relative displacement to the target, for B and BL instructions.
    Branch26,
    /// The page base of the target, for ADRP instruction.
    PageBaseRel21,
    /// The 12-bit relative displacement to the target, for instruction ADR.
    Rel21,
    /// The 12-bit page offset of the target, for instructions ADD/ADDS (immediate) with zero shift.
    PageOffset12A,
    /// The 12-bit page offset of the target, for instruction LDR (indexed, unsigned immediate).
    PageOffset12L,
    /// The 32-bit offset of the target from the beginning of its section.
    /// This is used to support debugging information and static thread local storage.
    SecRel,
    /// Bit 0:11 of section offset of the target, for instructions ADD/ADDS (immediate) with zero shift.
    SecRelLow12A,
    /// Bit 12:23 of section offset of the target, for instructions ADD/ADDS (immediate) with zero shift.
    SecRelHigh12A,
    /// Bit 0:11 of section offset of the target, for instruction LDR (indexed, unsigned immediate).
    SecRelLow12L,
    /// CLR token.
    Token,
    /// The 16-bit section index of the section that contains the target.
    /// This is used to support debugging information.
    Section,
    /// The 64-bit VA of the relocation target.
    Addr64,
    /// The 19-bit offset to the relocation target, for conditional B instruction.
    Branch19,
    /// The 14-bit offset to the relocation target, for instructions TBZ and TBNZ.
    Branch14,
    /// The 32-bit relative address from the byte following the relocation.
    Rel32,
}

impl ARM64RelocationType {
    /// The relocation type that the numeric code `v` stands for, if any.
    pub open spec fn spec_from_u16(v: u16) -> Option<ARM64RelocationType> {
        if v == 0x0000 {
            Some(ARM64RelocationType::Absolute)
        } else if v == 0x0001 {
            Some(ARM64RelocationType::Addr32)
        } else if v == 0x0002 {
            Some(ARM64RelocationType::Addr32Nb)
        } else if v == 0x0003 {
            Some(ARM64RelocationType::Branch26)
        } else if v == 0x0004 {
            Some(ARM64RelocationType::PageBaseRel21)
        } else if v == 0x0005 {
            Some(ARM64RelocationType::Rel21)
        } else if v == 0x0006 {
            Some(ARM64RelocationType::PageOffset12A)
        } else if v == 0x0007 {
            Some(ARM64RelocationType::PageOffset12L)
        } else if v == 0x0008 {
            Some(ARM64RelocationType::SecRel)
        } else if v == 0x0009 {
            Some(ARM64RelocationType::SecRelLow12A)
        } else if v == 0x000a {
            Some(ARM64RelocationType::SecRelHigh12A)
        } else if v == 0x000b {
            Some(ARM64RelocationType::SecRelLow12L)
        } else if v == 0x000c {
            Some(ARM64RelocationType::Token)
        } else if v == 0x000d {
            Some(ARM64RelocationType::Section)
        } else if v == 0x000e {
            Some(ARM64RelocationType::Addr64)
        } else if v == 0x000f {
            Some(ARM64RelocationType::Branch19)
        } else if v == 0x0010 {
            Some(ARM64RelocationType::Branch14)
        } else if v == 0x0011 {
            Some(ARM64RelocationType::Rel32)
        } else {
            None
        }
    }

    /// Map a numeric relocation code to its type indicator, or `None`
    /// for a code that is not among the documented ones.
    pub fn from_u16(v: u16) -> (r: Option<ARM64RelocationType>)
        ensures
            r == ARM64RelocationType::spec_from_u16(v),
    {
        match v {
            0x0000 => Some(ARM64RelocationType::Absolute),
            0x0001 => Some(ARM64RelocationType::Addr32),
            0x0002 => Some(ARM64RelocationType::Addr32Nb),
            0x0003 => Some(ARM64RelocationType::Branch26),
            0x0004 => Some(ARM64RelocationType::PageBaseRel21),
            0x0005 => Some(ARM64RelocationType::Rel21),
            0x0006 => Some(ARM64RelocationType::PageOffset12A),
            0x0007 => Some(ARM64RelocationType::PageOffset12L),
            0x0008 => Some(ARM64RelocationType::SecRel),
            0x0009 => Some(ARM64RelocationType::SecRelLow12A),
            0x000a => Some(ARM64RelocationType::SecRelHigh12A),
            0x000b => Some(ARM64RelocationType::SecRelLow12L),
            0x000c => Some(ARM64RelocationType::Token),
            0x000d => Some(ARM64RelocationType::Section),
            0x000e => Some(ARM64RelocationType::Addr64),
            0x000f => Some(ARM64RelocationType::Branch19),
            0x0010 => Some(ARM64RelocationType::Branch14),
            0x0011 => Some(ARM64RelocationType::Rel32),
            _ => None,
        }
    }
}

/// Relocation type indicators for SH3 and SH4 processors.
/// SH5-specific relocations are noted as SHM (SH Media).
#[derive(Clone, Copy, Debug, PartialEq, Eq, Structural)]
pub enum SuperHRelocationType {
    /// The relocation is ignored.
    Absolute,
    /// A reference to the 16-bit location that contains the VA of the target symbol.
    Direct16,
    /// The 32-bit VA of the target symbol.
    Direct32,
    /// A reference to the 8-bit location that contains the VA of the target symbol.
    Direct8,
    /// A reference to the 8-bit instruction that contains the effective 16-bit VA of the target symbol.
    Direct8Word,
    /// A reference to the 8-bit instruction that contains the effective 32-bit VA of the target symbol.
    Direct8Long,
    /// A reference to the 8-bit location whose low 4 bits contain the VA of the target symbol.
    Direct4,
    /// A reference to the 8-bit instruction whose low 4 bits contain the effective 16-bit VA of the target symbol.
    Direct4Word,
    /// A reference to the 8-bit instruction whose low 4 bits contain the effective 32-bit VA of the target symbol.
    Direct4Long,
    /// A reference to the 8-bit instruction that contains the effective 16-bit relative offset of the target symbol.
    PCRel8Word,
    /// A reference to the 8-bit instruction that contains the effective 32-bit relative offset of the target symbol.
    PCRel8Long,
    /// A reference to the 16-bit instruction whose low 12 bits contain the effective 16-bit relative offset of the target symbol.
    PCRel12Word,
    /// A reference to a 32-bit location that is the VA of the section that contains the target symbol.
    StartOfSection,
    /// A reference to the 32-bit location that is the size of the section that contains the target symbol.
    SizeOfSection,
    /// The 16-bit section index of the section that contains the target. This is used to support debugging information.
    Section,
    /// The 32-bit offset of the target from the beginning of its section.
    /// This is used to support debugging information and static thread local storage.
    SecRel,
    /// The 32-bit RVA of the target symbol.
    Direct32Nb,
    /// GP relative.
    GPRel4Long,
    /// CLR token.
    Token,
    /// The offset from the current instruction in longwords.
    /// If the NOMODE bit is not set, insert the inverse of the low bit at bit 32 to select PTA or PTB.
    SHMPCRelPT,
    /// The low 16 bits of the 32-bit address.
    SHMRefLo,
    /// The high 16 bits of the 32-bit address.
    SHMRefHalf,
    /// The low 16 bits of the relative address.
    SHMRelLo,
    /// The high 16 bits of the relative address.
    SHMRelHalf,
    /// The relocation is valid only when it immediately follows a REFHALF, RELHALF, or RELLO relocation.
    /// The SymbolTableIndex field of the relocation contains a displacement and not an index into the symbol table.
    SHMPair,
    /// The relocation ignores section mode.
    SHMNoMode,
}

impl SuperHRelocationType {
    /// The relocation type that the numeric code `v` stands for, if any.
    pub open spec fn spec_from_u16(v: u16) -> Option<SuperHRelocationType> {
        if v == 0x0000 {
            Some(SuperHRelocationType::Absolute)
        } else if v == 0x0001 {
            Some(SuperHRelocationType::Direct16)
        } else if v == 0x0002 {
            Some(SuperHRelocationType::Direct32)
        } else if v == 0x0003 {
            Some(SuperHRelocationType::Direct8)
        } else if v == 0x0004 {
            Some(SuperHRelocationType::Direct8Word)
        } else if v == 0x0005 {
            Some(SuperHRelocationType::Direct8Long)
        } else if v == 0x0006 {
            Some(SuperHRelocationType::Direct4)
        } else if v == 0x0007 {
            Some(SuperHRelocationType::Direct4Word)
        } else if v == 0x0008 {
            Some(SuperHRelocationType::Direct4Long)
        } else if v == 0x0009 {
            Some(SuperHRelocationType::PCRel8Word)
        } else if v == 0x000a {
            Some(SuperHRelocationType::PCRel8Long)
        } else if v == 0x000b {
            Some(SuperHRelocationType::PCRel12Word)
        } else if v == 0x000c {
            Some(SuperHRelocationType::StartOfSection)
        } else if v == 0x000d {
            Some(SuperHRelocationType::SizeOfSection)
        } else if v == 0x000e {
            Some(SuperHRelocationType::Section)
        } else if v == 0x000f {
            Some(SuperHRelocationType::SecRel)
        } else if v == 0x0010 {
            Some(SuperHRelocationType::Direct32Nb)
        } else if v == 0x0011 {
            Some(SuperHRelocationType::GPRel4Long)
        } else if v == 0x0012 {
            Some(SuperHRelocationType::Token)
        } else if v == 0x0013 {
            Some(SuperHRelocationType::SHMPCRelPT)
        } else if v == 0x0014 {
            Some(SuperHRelocationType::SHMRefLo)
        } else if v == 0x0015 {
            Some(SuperHRelocationType::SHMRefHalf)
        } else if v == 0x0016 {
            Some(SuperHRelocationType::SHMRelLo)
        } else if v == 0x0017 {
            Some(SuperHRelocationType::SHMRelHalf)
        } else if v == 0x0018 {
            Some(SuperHRelocationType::SHMPair)
        } else if v == 0x8000 {
            Some(SuperHRelocationType::SHMNoMode)
        } else {
            None
        }
    }

    /// Map a numeric relocation code to its type indicator, or `None`
    /// for a code that is not among the documented ones.
    pub fn from_u16(v: u16) -> (r: Option<SuperHRelocationType>)
        ensures
            r == SuperHRelocationType::spec_from_u16(v),
    {
        match v {
            0x0000 => Some(SuperHRelocationType::Absolute),
            0x0001 => Some(SuperHRelocationType::Direct16),
            0x0002 => Some(SuperHRelocationType::Direct32),
            0x0003 => Some(SuperHRelocationType::Direct8),
            0x0004 => Some(SuperHRelocationType::Direct8Word),
            0x0005 => Some(SuperHRelocationType::Direct8Long),
            0x0006 => Some(SuperHRelocationType::Direct4),
            0x0007 => Some(SuperHRelocationType::Direct4Word),
            0x0008 => Some(SuperHRelocationType::Direct4Long),
            0x0009 => Some(SuperHRelocationType::PCRel8Word),
            0x000a => Some(SuperHRelocationType::PCRel8Long),
            0x000b => Some(SuperHRelocationType::PCRel12Word),
            0x000c => Some(SuperHRelocationType::StartOfSection),
            0x000d => Some(SuperHRelocationType::SizeOfSection),
            0x000e => Some(SuperHRelocationType::Section),
            0x000f => Some(SuperHRelocationType::SecRel),
            0x0010 => Some(SuperHRelocationType::Direct32Nb),
            0x0011 => Some(SuperHRelocationType::GPRel4Long),
            0x0012 => Some(SuperHRelocationType::Token),
            0x0013 => Some(SuperHRelocationType::SHMPCRelPT),
            0x0014 => Some(SuperHRelocationType::SHMRefLo),
            0x0015 => Some(SuperHRelocationType::SHMRefHalf),
            0x0016 => Some(SuperHRelocationType::SHMRelLo),
            0x0017 => Some(SuperHRelocationType::SHMRelHalf),
            0x0018 => Some(SuperHRelocationType::SHMPair),
            0x8000 => Some(SuperHRelocationType::SHMNoMode),
            _ => None,
        }
    }
}

/// Relocation type indicators for PowerPC processors.
#[derive(Clone, Copy, Debug, PartialEq, Eq, Structural)]
pub enum PowerPCRelocationType {
    /// The relocation is ignored.
    Absolute,
    /// The 64-bit VA of the target.
    Addr64,
    /// The 32-bit VA of the target.
    Addr32,
    /// The low 24 bits of the VA of the target.
    /// This is valid only when the target symbol is absolute and can be sign-extended to its original value.
    Addr24,
    /// The low 16 bits of the target's VA.
    Addr16,
    /// The low 14 bits of the target's VA.
    /// This is valid only when the target symbol is absolute and can be sign-extended to its original value.
    Addr14,
    /// A 24-bit PC-relative offset to the symbol's location.
    Rel24,
    /// A 14-bit PC-relative offset to the symbol's location.
    Rel14,
    /// The 32-bit RVA of the target.
    Addr32Nb,
    /// The 32-bit offset of the target from the beginning of its section.
    /// This is used to support debugging information and static thread local storage.
    SecRel,
    /// The 16-bit section index of the section that contains the target.
    /// This is used to support debugging information.
    Section,
    /// The 16-bit offset of the target from the beginning of its section.
    /// This is used to support debugging information and static thread local storage.
    SecRel16,
    /// The high 16 bits of the target's 32-bit VA.
    /// This is used for the first instruction in a two-instruction sequence that loads a full address.
    /// This relocation must be immediately followed by a PAIR relocation whose SymbolTableIndex contains a signed
    /// 16-bit displacement that is added to the upper 16 bits that was taken from the location that is being relocated.
    RefHi,
    /// The low 16 bits of the target's VA.
    RefLo,
    /// A relocation that is valid only when it immediately follows a REFHI or SECRELHI relocation.
    /// Its SymbolTableIndex contains a displacement and not an index into the symbol table.
    Pair,
    /// The low 16 bits of the 32-bit offset of the target from the beginning of its section.
    SecRelLo,
    /// The 16-bit signed displacement of the target relative to the GP register.
    GPRel,
    /// The CLR token.
    Token,
}

impl PowerPCRelocationType {
    /// The relocation type that the numeric code `v` stands for, if any.
    pub open spec fn spec_from_u16(v: u16) -> Option<PowerPCRelocationType> {
        if v == 0x0000 {
            Some(PowerPCRelocationType::Absolute)
        } else if v == 0x0001 {
            Some(PowerPCRelocationType::Addr64)
        } else if v == 0x0002 {
            Some(PowerPCRelocationType::Addr32)
        } else if v == 0x0003 {
            Some(PowerPCRelocationType::Addr24)
        } else if v == 0x0004 {
            Some(PowerPCRelocationType::Addr16)
        } else if v == 0x0005 {
            Some(PowerPCRelocationType::Addr14)
        } else if v == 0x0006 {
            Some(PowerPCRelocationType::Rel24)
        } else if v == 0x0007 {
            Some(PowerPCRelocationType::Rel14)
        } else if v == 0x000a {
            Some(PowerPCRelocationType::Addr32Nb)
        } else if v == 0x000b {
            Some(PowerPCRelocationType::SecRel)
        } else if v == 0x000c {
            Some(PowerPCRelocationType::Section)
        } else if v == 0x000f {
            Some(PowerPCRelocationType::SecRel16)
        } else if v == 0x0010 {
            Some(PowerPCRelocationType::RefHi)
        } else if v == 0x0011 {
            Some(PowerPCRelocationType::RefLo)
        } else if v == 0x0012 {
            Some(PowerPCRelocationType::Pair)
        } else if v == 0x0013 {
            Some(PowerPCRelocationType::SecRelLo)
        } else if v == 0x0015 {
            Some(PowerPCRelocationType::GPRel)
        } else if v == 0x0016 {
            Some(PowerPCRelocationType::Token)
        } else {
            None
        }
    }

    /// Map a numeric relocation code to its type indicator, or `None`
    /// for a code that is not among the documented ones.
    pub fn from_u16(v: u16) -> (r: Option<PowerPCRelocationType>)
        ensures
            r == PowerPCRelocationType::spec_from_u16(v),
    {
        match v {
            0x0000 => Some(PowerPCRelocationType::Absolute),
            0x0001 => Some(PowerPCRelocationType::Addr64),
            0x0002 => Some(PowerPCRelocationType::Addr32),
            0x0003 => Some(PowerPCRelocationType::Addr24),
            0x0004 => Some(PowerPCRelocationType::Addr16),
            0x0005 => Some(PowerPCRelocationType::Addr14),
            0x0006 => Some(PowerPCRelocationType::Rel24),
            0x0007 => Some(PowerPCRelocationType::Rel14),
            0x000a => Some(PowerPCRelocationType::Addr32Nb),
            0x000b => Some(PowerPCRelocationType::SecRel),
            0x000c => Some(PowerPCRelocationType::Section),
            0x000f => Some(PowerPCRelocationType::SecRel16),
            0x0010 => Some(PowerPCRelocationType::RefHi),
            0x0011 => Some(PowerPCRelocationType::RefLo),
            0x0012 => Some(PowerPCRelocationType::Pair),
            0x0013 => Some(PowerPCRelocationType::SecRelLo),
            0x0015 => Some(PowerPCRelocationType::GPRel),
            0x0016 => Some(PowerPCRelocationType::Token),
            _ => None,
        }
    }
}

/// Relocation type indicators for Intel 386 processors.
#[derive(Clone, Copy, Debug, PartialEq, Eq, Structural)]
pub enum I386RelocationType {
    /// The relocation is ignored.
    Absolute,
    /// Not supported.
    Dir16,
    /// Not supported.
    Rel16,
    /// The target's 32-bit VA.
    Dir32,
    /// The target's 32-bit RVA.
    Dir32Nb,
    /// Not supported.
    Seg12,
    /// The 16-bit section index of the section that contains the target.
    /// This is used to support debugging information.
    Section,
    /// The 32-bit offset of the target from the beginning of its section.
    /// This is used to support debugging information and static thread local storage.
    SecRel,
    /// The CLR token.
    Token,
    /// A 7-bit offset from the base of the section that contains the target.
    SecRel7,
    /// The 32-bit relative displacement to the target.
    /// This supports the x86 relative branch and call instructions.
    Rel32,
}

impl I386RelocationType {
    /// The relocation type that the numeric code `v` stands for, if any.
    pub open spec fn spec_from_u16(v: u16) -> Option<I386RelocationType> {
        if v == 0x0000 {
            Some(I386RelocationType::Absolute)
        } else if v == 0x0001 {
            Some(I386RelocationType::Dir16)
        } else if v == 0x0002 {
            Some(I386RelocationType::Rel16)
        } else if v == 0x0006 {
            Some(I386RelocationType::Dir32)
        } else if v == 0x0007 {
            Some(I386RelocationType::Dir32Nb)
        } else if v == 0x0009 {
            Some(I386RelocationType::Seg12)
        } else if v == 0x000a {
            Some(I386RelocationType::Section)
        } else if v == 0x000b {
            Some(I386RelocationType::SecRel)
        } else if v == 0x000c {
            Some(I386RelocationType::Token)
        } else if v == 0x000d {
            Some(I386RelocationType::SecRel7)
        } else if v == 0x0014 {
            Some(I386RelocationType::Rel32)
        } else {
            None
        }
    }

    /// Map a numeric relocation code to its type indicator, or `None`
    /// for a code that is not among the documented ones.
    pub fn from_u16(v: u16) -> (r: Option<I386RelocationType>)
        ensures
            r == I386RelocationType::spec_from_u16(v),
    {
        match v {
            0x0000 => Some(I386RelocationType::Absolute),
            0x0001 => Some(I386RelocationType::Dir16),
            0x0002 => Some(I386RelocationType::Rel16),
            0x0006 => Some(I386RelocationType::Dir32),
            0x0007 => Some(I386RelocationType::Dir32Nb),
            0x0009 => Some(I386RelocationType::Seg12),
            0x000a => Some(I386RelocationType::Section),
            0x000b => Some(I386RelocationType::SecRel),
            0x000c => Some(I386RelocationType::Token),
            0x000d => Some(I386RelocationType::SecRel7),
            0x0014 => Some(I386RelocationType::Rel32),
            _ => None,
        }
    }
}

/// Relocation type indicators for the Intel Itanium processor family and compatible processors.
/// Note that relocations on instructions use the bundle's offset and slot number for the relocation offset.
#[derive(Clone, Copy, Debug, PartialEq, Eq, Structural)]
pub enum IA64RelocationType {
    /// The relocation is ignored.
    Absolute,
    /// The instruction relocation can be followed by an ADDEND relocation whose value is added
    /// to the target address before it is inserted into the specified slot in the IMM14 bundle.
    /// The relocation target must be absolute or the image must be fixed.
    IMM14,
    /// The instruction relocation can be followed by an ADDEND relocation whose value is added
    /// to the target address before it is inserted into the specified slot in the IMM22 bundle.
    /// The relocation target must be absolute or the image must be fixed.
    IMM32,
    /// The slot number of this relocation must be one (1).
    /// The relocation can be followed by an ADDEND relocation whose value is added
    /// to the target address before it is stored in all three slots of the IMM64 bundle.
    IMM64,
    /// The target's 32-bit VA.
    /// This is supported only for /LARGEADDRESSAWARE:NO images.
    Dir32,
    /// The target's 64-bit VA.
    Dir64,
    /// The instruction is fixed up with the 25-bit relative displacement to the 16-bit aligned target.
    /// The low 4 bits of the displacement are zero and are not stored.
    PCRel21B,
    /// The instruction is fixed up with the 25-bit relative displacement to the 16-bit aligned target.
    /// The low 4 bits of the displacement, which are zero, are not stored.
    PCRel21M,
    /// The LSBs of this relocation's offset must contain the slot number whereas the rest is the bundle address. The bundle is fixed up with the 25-bit relative displacement to the 16-bit aligned target.
    /// The low 4 bits of the displacement are zero and are not stored.
    PCRel21F,
    /// The instruction relocation can be followed by an ADDEND relocation whose value is added
    /// to the target address and then a 22-bit GP-relative offset that is calculated and applied to the GPREL22 bundle.
    GPRel22,
    /// The instruction is fixed up with the 22-bit GP-relative offset to the target symbol's literal table entry.
    /// The linker creates this literal table entry based on this relocation and the ADDEND relocation that might follow.
    LTOff22,
    /// The 16-bit section index of the section contains the target.
    /// This is used to support debugging information.
    Section,
    /// The instruction is fixed up with the 22-bit offset of the target from the beginning of its section.
    /// This relocation can be followed immediately by an ADDEND relocation, whose Value field contains the 32-bit unsigned offset of the target from the beginning of the section.
    SecRel22,
    /// The slot number for this relocation must be one (1). The instruction is fixed up with the 64-bit offset of the target from the beginning of its section.
    /// This relocation can be followed immediately by an ADDEND relocation whose Value field contains the 32-bit unsigned offset of the target from the beginning of the section.
    SecRel64I,
    /// The address of data to be fixed up with the 32-bit offset of the target from the beginning of its section.
    SecRel32,
    /// The target's 32-bit RVA.
    Dir32Nb,
    /// This is applied to a signed 14-bit immediate that contains the difference between two relocatable targets.
    /// This is a declarative field for the linker that indicates that the compiler has already emitted this value.
    SRel14,
    /// This is applied to a signed 22-bit immediate that contains the difference between two relocatable targets.
    /// This is a declarative field for the linker that indicates that the compiler has already emitted this value.
    SRel22,
    /// This is applied to a signed 32-bit immediate that contains the difference between two relocatable values.
    /// This is a declarative field for the linker that indicates that the compiler has already emitted this value.
    SRel32,
    /// This is applied to an unsigned 32-bit immediate that contains the difference between two relocatable values.
    /// This is a declarative field for the linker that indicates that the compiler has already emitted this value.
    URel32,
    /// A 60-bit PC-relative fixup that always stays as a BRL instruction of an MLX bundle.
    PCRel60X,
    /// A 60-bit PC-relative fixup.
    /// If the target displacement fits in a signed 25-bit field, convert the entire bundle to an MBB bundle with NOP.B in slot 1 and a 25-bit BR instruction (with the 4 lowest bits all zero and dropped) in slot 2.
    PCRel60B,
    /// A 60-bit PC-relative fixup.
    /// If the target displacement fits in a signed 25-bit field, convert the entire bundle to an MFB bundle with NOP.F in slot 1 and a 25-bit (4 lowest bits all zero and dropped) BR instruction in slot 2.
    PCRel60F,
    /// A 60-bit PC-relative fixup.
    /// If the target displacement fits in a signed 25-bit field, convert the entire bundle to an MIB bundle with NOP.I in slot 1 and a 25-bit (4 lowest bits all zero and dropped) BR instruction in slot 2.
    PCRel60I,
    /// A 60-bit PC-relative fixup.
    /// If the target displacement fits in a signed 25-bit field, convert the entire bundle to an MMB bundle with NOP.M in slot 1 and a 25-bit (4 lowest bits all zero and dropped) BR instruction in slot 2.
    PCRel60M,
    /// A 64-bit GP-relative fixup.
    IMMGPRel64,
    /// A CLR token.
    Token,
    /// A 32-bit GP-relative fixup.
    GPRel32,
    /// The relocation is valid only when it immediately follows one of the following relocations: IMM14, IMM22, IMM64, GPREL22, LTOFF22, LTOFF64, SECREL22, SECREL64I, or SECREL32.
    /// Its value contains the addend to apply to instructions within a bundle, not for data.
    AddEnd,
}

impl IA64RelocationType {
    /// The relocation type that the numeric code `v` stands for, if any.
    pub open spec fn spec_from_u16(v: u16) -> Option<IA64RelocationType> {
        if v == 0x0000 {
            Some(IA64RelocationType::Absolute)
        } else if v == 0x0001 {
            Some(IA64RelocationType::IMM14)
        } else if v == 0x0002 {
            Some(IA64RelocationType::IMM32)
        } else if v == 0x0003 {
            Some(IA64RelocationType::IMM64)
        } else if v == 0x0004 {
            Some(IA64RelocationType::Dir32)
        } else if v == 0x0005 {
            Some(IA64RelocationType::Dir64)
        } else if v == 0x0006 {
            Some(IA64RelocationType::PCRel21B)
        } else if v == 0x0007 {
            Some(IA64RelocationType::PCRel21M)
        } else if v == 0x0008 {
            Some(IA64RelocationType::PCRel21F)
        } else if v == 0x0009 {
            Some(IA64RelocationType::GPRel22)
        } else if v == 0x000a {
            Some(IA64RelocationType::LTOff22)
        } else if v == 0x000b {
            Some(IA64RelocationType::Section)
        } else if v == 0x000c {
            Some(IA64RelocationType::SecRel22)
        } else if v == 0x000d {
            Some(IA64RelocationType::SecRel64I)
        } else if v == 0x000e {
            Some(IA64RelocationType::SecRel32)
        } else if v == 0x0010 {
            Some(IA64RelocationType::Dir32Nb)
        } else if v == 0x0011 {
            Some(IA64RelocationType::SRel14)
        } else if v == 0x0012 {
            Some(IA64RelocationType::SRel22)
        } else if v == 0x0013 {
            Some(IA64RelocationType::SRel32)
        } else if v == 0x0014 {
            Some(IA64RelocationType::URel32)
        } else if v == 0x0015 {
            Some(IA64RelocationType::PCRel60X)
        } else if v == 0x0016 {
            Some(IA64RelocationType::PCRel60B)
        } else if v == 0x0017 {
            Some(IA64RelocationType::PCRel60F)
        } else if v == 0x0018 {
            Some(IA64RelocationType::PCRel60I)
        } else if v == 0x0019 {
            Some(IA64RelocationType::PCRel60M)
        } else if v == 0x001a {
            Some(IA64RelocationType::IMMGPRel64)
        } else if v == 0x001b {
            Some(IA64RelocationType::Token)
        } else if v == 0x001c {
            Some(IA64RelocationType::GPRel32)
        } else if v == 0x001f {
            Some(IA64RelocationType::AddEnd)
        } else {
            None
        }
    }

    /// Map a numeric relocation code to its type indicator, or `None`
    /// for a code that is not among the documented ones.
    pub fn from_u16(v: u16) -> (r: Option<IA64RelocationType>)
        ensures
            r == IA64RelocationType::spec_from_u16(v),
    {
        match v {
            0x0000 => Some(IA64RelocationType::Absolute),
            0x0001 => Some(IA64RelocationType::IMM14),
            0x0002 => Some(IA64RelocationType::IMM32),
            0x0003 => Some(IA64RelocationType::IMM64),
            0x0004 => Some(IA64RelocationType::Dir32),
            0x0005 => Some(IA64RelocationType::Dir64),
            0x0006 => Some(IA64RelocationType::PCRel21B),
            0x0007 => Some(IA64RelocationType::PCRel21M),
            0x0008 => Some(IA64RelocationType::PCRel21F),
            0x0009 => Some(IA64RelocationType::GPRel22),
            0x000a => Some(IA64RelocationType::LTOff22),
            0x000b => Some(IA64RelocationType::Section),
            0x000c => Some(IA64RelocationType::SecRel22),
            0x000d => Some(IA64RelocationType::SecRel64I),
            0x000e => Some(IA64RelocationType::SecRel32),
            0x0010 => Some(IA64RelocationType::Dir32Nb),
            0x0011 => Some(IA64RelocationType::SRel14),
            0x0012 => Some(IA64RelocationType::SRel22),
            0x0013 => Some(IA64RelocationType::SRel32),
            0x0014 => Some(IA64RelocationType::URel32),
            0x0015 => Some(IA64RelocationType::PCRel60X),
            0x0016 => Some(IA64RelocationType::PCRel60B),
            0x0017 => Some(IA64RelocationType::PCRel60F),
            0x0018 => Some(IA64RelocationType::PCRel60I),
            0x0019 => Some(IA64RelocationType::PCRel60M),
            0x001a => Some(IA64RelocationType::IMMGPRel64),
            0x001b => Some(IA64RelocationType::Token),
            0x001c => Some(IA64RelocationType::GPRel32),
            0x001f => Some(IA64RelocationType::AddEnd),
            _ => None,
        }
    }
}

/// Relocation type indicators for MIPS processors.
#[derive(Clone, Copy, Debug, PartialEq, Eq, Structural)]
pub enum MIPSRelocationType {
    /// The relocation is ignored.
    Absolute,
    /// The high 16 bits of the target's 32-bit VA.
    RefHalf,
    /// The target's 32-bit VA.
    RefWord,
    /// The low 26 bits of the target's VA.
    /// This supports the MIPS J and JAL instructions.
    JMPAddr,
    /// The high 16 bits of the target's 32-bit VA.
    /// This is used for the first instruction in a two-instruction sequence that loads a full address.
    /// This relocation must be immediately followed by a PAIR relocation whose SymbolTableIndex contains a signed 16-bit displacement that is added to the upper 16 bits that are taken from the location that is being relocated.
    RefHi,
    /// The low 16 bits of the target's VA.
    RefLo,
    /// A 16-bit signed displacement of the target relative to the GP register.
    GPRel,
    /// The same as `MIPSRelocationType::GPRel`.
    Literal,
    /// The 16-bit section index of the section contains the target.
    /// This is used to support debugging information.
    Section,
    /// The 32-bit offset of the target from the beginning of its section.
    /// This is used to support debugging information and static thread local storage.
    SecRel,
    /// The low 16 bits of the 32-bit offset of the target from the beginning of its section.
    SecRelLo,
    /// The high 16 bits of the 32-bit offset of the target from the beginning of its section.
    /// A PAIR relocation must immediately follow this one.
    /// The SymbolTableIndex of the PAIR relocation contains a signed 16-bit displacement that is added to the upper 16 bits that are taken from the location that is being relocated.
    SecRelHi,
    /// The low 26 bits of the target's VA.
    /// This supports the MIPS16 JAL instruction.
    JMPAddr16,
    /// The target's 32-bit RVA.
    RefWordNb,
    /// The relocation is valid only when it immediately follows a REFHI or SECRELHI relocation.
    /// Its SymbolTableIndex contains a displacement and not an index into the symbol table.
    Pair,
}

impl MIPSRelocationType {
    /// The relocation type that the numeric code `v` stands for, if any.
    pub open spec fn spec_from_u16(v: u16) -> Option<MIPSRelocationType> {
        if v == 0x0000 {
            Some(MIPSRelocationType::Absolute)
        } else if v == 0x0001 {
            Some(MIPSRelocationType::RefHalf)
        } else if v == 0x0002 {
            Some(MIPSRelocationType::RefWord)
        } else if v == 0x0003 {
            Some(MIPSRelocationType::JMPAddr)
        } else if v == 0x0004 {
            Some(MIPSRelocationType::RefHi)
        } else if v == 0x0005 {
            Some(MIPSRelocationType::RefLo)
        } else if v == 0x0006 {
            Some(MIPSRelocationType::GPRel)
        } else if v == 0x0007 {
            Some(MIPSRelocationType::Literal)
        } else if v == 0x000a {
            Some(MIPSRelocationType::Section)
        } else if v == 0x000b {
            Some(MIPSRelocationType::SecRel)
        } else if v == 0x000c {
            Some(MIPSRelocationType::SecRelLo)
        } else if v == 0x000d {
            Some(MIPSRelocationType::SecRelHi)
        } else if v == 0x0010 {
            Some(MIPSRelocationType::JMPAddr16)
        } else if v == 0x0022 {
            Some(MIPSRelocationType::RefWordNb)
        } else if v == 0x0025 {
            Some(MIPSRelocationType::Pair)
        } else {
            None
        }
    }

    /// Map a numeric relocation code to its type indicator, or `None`
    /// for a code that is not among the documented ones.
    pub fn from_u16(v: u16) -> (r: Option<MIPSRelocationType>)
        ensures
            r == MIPSRelocationType::spec_from_u16(v),
    {
        match v {
            0x0000 => Some(MIPSRelocationType::Absolute),
            0x0001 => Some(MIPSRelocationType::RefHalf),
            0x0002 => Some(MIPSRelocationType::RefWord),
            0x0003 => Some(MIPSRelocationType::JMPAddr),
            0x0004 => Some(MIPSRelocationType::RefHi),
            0x0005 => Some(MIPSRelocationType::RefLo),
            0x0006 => Some(MIPSRelocationType::GPRel),
            0x0007 => Some(MIPSRelocationType::Literal),
            0x000a => Some(MIPSRelocationType::Section),
            0x000b => Some(MIPSRelocationType::SecRel),
            0x000c => Some(MIPSRelocationType::SecRelLo),
            0x000d => Some(MIPSRelocationType::SecRelHi),
            0x0010 => Some(MIPSRelocationType::JMPAddr16),
            0x0022 => Some(MIPSRelocationType::RefWordNb),
            0x0025 => Some(MIPSRelocationType::Pair),
            _ => None,
        }
    }
}

/// Relocation type indicators for Mitsubishi M32R processors.
#[derive(Clone, Copy, Debug, PartialEq, Eq, Structural)]
pub enum M32RRelocationType {
    /// The relocation is ignored.
    Absolute,
    /// The target's 32-bit VA.
    Addr32,
    /// The target's 32-bit RVA.
    Addr32Nb,
    /// The target's 24-bit VA.
    Addr24,
    /// The target's 16-bit offset from the GP register.
    GPRel16,
    /// The target's 24-bit offset from the program counter (PC), shifted left by 2 bits and sign-extended.
    PCRel24,
    /// The target's 16-bit offset from the PC, shifted left by 2 bits and sign-extended.
    PCRel16,
    /// The target's 8-bit offset from the PC, shifted left by 2 bits and sign-extended.
    PCRel8,
    /// The 16 MSBs of the target VA.
    RefHalf,
    /// The 16 MSBs of the target VA, adjusted for LSB sign extension.
    /// This is used for the first instruction in a two-instruction sequence that loads a full 32-bit address.
    /// This relocation must be immediately followed by a PAIR relocation whose SymbolTableIndex contains a signed 16-bit displacement that is added to the upper 16 bits that are taken from the location that is being relocated.
    RefHi,
    /// The 16 LSBs of the target VA.
    RefLo,
    /// The relocation must follow the REFHI relocation.
    /// Its SymbolTableIndex contains a displacement and not an index into the symbol table.
    Pair,
    /// The 16-bit section index of the section that contains the target.
    /// This is used to support debugging information.
    Section,
    /// The 32-bit offset of the target from the beginning of its section.
    /// This is used to support debugging information and static thread local storage.
    SecRel,
    /// The CLR token.
    Token,
}

impl M32RRelocationType {
    /// The relocation type that the numeric code `v` stands for, if any.
    pub open spec fn spec_from_u16(v: u16) -> Option<M32RRelocationType> {
        if v == 0x0000 {
            Some(M32RRelocationType::Absolute)
        } else if v == 0x0001 {
            Some(M32RRelocationType::Addr32)
        } else if v == 0x0002 {
            Some(M32RRelocationType::Addr32Nb)
        } else if v == 0x0003 {
            Some(M32RRelocationType::Addr24)
        } else if v == 0x0004 {
            Some(M32RRelocationType::GPRel16)
        } else if v == 0x0005 {
            Some(M32RRelocationType::PCRel24)
        } else if v == 0x0006 {
            Some(M32RRelocationType::PCRel16)
        } else if v == 0x0007 {
            Some(M32RRelocationType::PCRel8)
        } else if v == 0x0008 {
            Some(M32RRelocationType::RefHalf)
        } else if v == 0x0009 {
            Some(M32RRelocationType::RefHi)
        } else if v == 0x000a {
            Some(M32RRelocationType::RefLo)
        } else if v == 0x000b {
            Some(M32RRelocationType::Pair)
        } else if v == 0x000c {
            Some(M32RRelocationType::Section)
        } else if v == 0x000d {
            Some(M32RRelocationType::SecRel)
        } else if v == 0x000e {
            Some(M32RRelocationType::Token)
        } else {
            None
        }
    }

    /// Map a numeric relocation code to its type indicator, or `None`
    /// for a code that is not among the documented ones.
    pub fn from_u16(v: u16) -> (r: Option<M32RRelocationType>)
        ensures
            r == M32RRelocationType::spec_from_u16(v),
    {
        match v {
            0x0000 => Some(M32RRelocationType::Absolute),
            0x0001 => Some(M32RRelocationType::Addr32),
            0x0002 => Some(M32RRelocationType::Addr32Nb),
            0x0003 => Some(M32RRelocationType::Addr24),
            0x0004 => Some(M32RRelocationType::GPRel16),
            0x0005 => Some(M32RRelocationType::PCRel24),
            0x0006 => Some(M32RRelocationType::PCRel16),
            0x0007 => Some(M32RRelocationType::PCRel8),
            0x0008 => Some(M32RRelocationType::RefHalf),
            0x0009 => Some(M32RRelocationType::RefHi),
            0x000a => Some(M32RRelocationType::RefLo),
            0x000b => Some(M32RRelocationType::Pair),
            0x000c => Some(M32RRelocationType::Section),
            0x000d => Some(M32RRelocationType::SecRel),
            0x000e => Some(M32RRelocationType::Token),
            _ => None,
        }
    }
}

} // verus!
