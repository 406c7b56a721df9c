use vstd::prelude::*;

use crate::keyed::Duplicate;

verus! {

/// Mount flags, as `mount(2)` defines their bits.
#[derive(PartialEq, Eq, Structural, Clone, Copy, Debug, Hash)]
pub struct MountOptions {
    pub bits: u32,
}

/// Bit of `MountOptions::RDONLY`.
pub const RDONLY_BIT: u32 = 1;

/// Bit of `MountOptions::NOSUID`.
pub const NOSUID_BIT: u32 = 2;

/// Bit of `MountOptions::NODEV`.
pub const NODEV_BIT: u32 = 4;

/// Bit of `MountOptions::NOEXEC`.
pub const NOEXEC_BIT: u32 = 8;

/// Bit of `MountOptions::BIND`.
pub const BIND_BIT: u32 = 4096;

/// Bit of `MountOptions::REC`.
pub const REC_BIT: u32 = 16384;

/// The bits that `MountOptions` defines.
pub const ALL_OPTION_BITS: u32 = 0x500f;

impl MountOptions {
    /// Mount read-only.
    #[allow(non_snake_case)]
    pub fn RDONLY() -> (o: MountOptions)
        ensures
            o.bits == RDONLY_BIT,
    {
        MountOptions { bits: RDONLY_BIT }
    }

    /// Ignore suid and sgid bits.
    #[allow(non_snake_case)]
    pub fn NOSUID() -> (o: MountOptions)
        ensures
            o.bits == NOSUID_BIT,
    {
        MountOptions { bits: NOSUID_BIT }
    }

    /// Disallow access to device special files
    #[allow(non_snake_case)]
    pub fn NODEV() -> (o: MountOptions)
        ensures
            o.bits == NODEV_BIT,
    {
        MountOptions { bits: NODEV_BIT }
    }

    /// Disallow program execution.
    #[allow(non_snake_case)]
    pub fn NOEXEC() -> (o: MountOptions)
        ensures
            o.bits == NOEXEC_BIT,
    {
        MountOptions { bits: NOEXEC_BIT }
    }

    /// Bind directory at different place.
    #[allow(non_snake_case)]
    pub fn BIND() -> (o: MountOptions)
        ensures
            o.bits == BIND_BIT,
    {
        MountOptions { bits: BIND_BIT }
    }

    /// Create a recursive bind mount.
    #[allow(non_snake_case)]
    pub fn REC() -> (o: MountOptions)
        ensures
            o.bits == REC_BIT,
    {
        MountOptions { bits: REC_BIT }
    }

    /// No option.
    pub fn empty() -> (o: MountOptions)
        ensures
            o.bits == 0,
    {
        MountOptions { bits: 0 }
    }

    /// The options of both.
    pub fn union(self, other: MountOptions) -> (o: MountOptions)
        ensures
            o.bits == self.bits | other.bits,
    {
        MountOptions { bits: self.bits | other.bits }
    }

    /// Whether every option of `other` is set.
    pub fn contains(&self, other: MountOptions) -> (b: bool)
        ensures
            b == (self.bits & other.bits == other.bits),
    {
        self.bits & other.bits == other.bits
    }

    /// The `mount(2)` flags of these options; bits that no option defines
    /// are dropped.
    pub fn to_ms_flags(self) -> (f: MsFlags)
        ensures
            f.bits == (self.bits & ALL_OPTION_BITS) as u64,
    {
        let b: u32 = self.bits;
        let f1: u64 = if b & RDONLY_BIT != 0 { MS_RDONLY } else { 0 };
        let f2: u64 = if b & NOSUID_BIT != 0 { MS_NOSUID } else { 0 };
        let f3: u64 = if b & NODEV_BIT != 0 { MS_NODEV } else { 0 };
        let f4: u64 = if b & NOEXEC_BIT != 0 { MS_NOEXEC } else { 0 };
        let f5: u64 = if b & BIND_BIT != 0 { MS_BIND } else { 0 };
        let f6: u64 = if b & REC_BIT != 0 { MS_REC } else { 0 };
        let flags: u64 = f1 | f2 | f3 | f4 | f5 | f6;
        assert(flags == (b & 0x500f) as u64) by (bit_vector)
            requires
                f1 == (if b & 1 != 0 { 1u64 } else { 0u64 }),
                f2 == (if b & 2 != 0 { 2u64 } else { 0u64 }),
                f3 == (if b & 4 != 0 { 4u64 } else { 0u64 }),
                f4 == (if b & 8 != 0 { 8u64 } else { 0u64 }),
                f5 == (if b & 4096 != 0 { 4096u64 } else { 0u64 }),
                f6 == (if b & 16384 != 0 { 16384u64 } else { 0u64 }),
                flags == f1 | f2 | f3 | f4 | f5 | f6,
        ;
        MsFlags { bits: flags }
    }
}

/// Flags of `mount(2)`, as the kernel defines their bits.
#[derive(PartialEq, Eq, Structural, Clone, Copy, Debug)]
pub struct MsFlags {
    pub bits: u64,
}

/// `MS_RDONLY`.
pub const MS_RDONLY: u64 = 1;

/// `MS_NOSUID`.
pub const MS_NOSUID: u64 = 2;

/// `MS_NODEV`.
pub const MS_NODEV: u64 = 4;

/// `MS_NOEXEC`.
pub const MS_NOEXEC: u64 = 8;

/// `MS_BIND`.
pub const MS_BIND: u64 = 4096;

/// `MS_REC`.
pub const MS_REC: u64 = 16384;

/// A mount to perform in the new MOUNT namespace.
#[derive(PartialEq, Eq, Clone, Debug)]
pub struct Mount {
    pub source: String,
    pub target: String,
    pub fstype: String,
    pub options: MountOptions,
}

impl Duplicate for Mount {
    fn duplicate(&self) -> (r: Mount) {
        Mount {
            source: self.source.clone(),
            target: self.target.clone(),
            fstype: self.fstype.clone(),
            options: self.options,
        }
    }
}

} // verus!
