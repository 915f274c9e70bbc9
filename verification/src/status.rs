//! Drive status, as the `MTIOCGET` ioctl reports it.

use vstd::prelude::*;

verus! {

/// Tape drive status returned by the `MTIOCGET` ioctl.
///
/// The most useful field for callers is [`flags`](TapeStatus::flags), which
/// reports whether the tape is write-protected, online, at BOT, etc.
#[derive(Debug, Clone, PartialEq, Eq, Hash, Structural)]
pub struct TapeStatus {
    /// Manufacturer-specific drive type code from `mt_type`.
    pub drive_type: DriveType,
    /// Current tape file number (0-based), or -1 if it is unknown.
    pub file_number: i32,
    /// Current record number within the current tape file, or -1 if it is
    /// unknown.
    pub block_number: i32,
    /// Current block (record) size in bytes; `0` means variable-length mode.
    pub block_size: u32,
    /// Generic device-independent status flags decoded from `mt_gstat`.
    pub flags: StatusFlags,
}

/// Opaque drive-type identifier from the `mt_type` field of `struct mtget`.
///
/// The numeric value is manufacturer-specific. Stored as-is for logging and
/// diagnostics; no semantic meaning is ascribed to specific values here.
#[derive(Debug, Clone, Copy, PartialEq, Eq, PartialOrd, Ord, Hash, Structural)]
pub struct DriveType(pub i64);

impl Default for DriveType {
    fn default() -> (r: DriveType)
        ensures
            r == DriveType(0),
    {
        DriveType(0)
    }
}

/// Bitmask of generic, device-independent status flags from the `mt_gstat`
/// field of `struct mtget`.
///
/// Bit positions match the `GMT_*` macros in `linux/mtio.h`. Not all drives
/// report all flags; bits that none of the constants names are kept, and no
/// predicate looks at them.
#[derive(Debug, Clone, Copy, PartialEq, Eq, PartialOrd, Ord, Hash, Structural)]
pub struct StatusFlags(pub i64);

impl StatusFlags {
    /// A filemark was encountered during the last spacing or read operation.
    /// This is set transiently; check it immediately after the operation.
    pub const EOF: i64 = 0x8000_0000;

    /// The tape is positioned at the physical beginning of the medium (BOT).
    /// Set after a rewind or when the tape is first loaded.
    pub const BOT: i64 = 0x4000_0000;

    /// The tape is at or past the physical end of the medium (EOT, the
    /// early-warning region near the end of writable tape). This is *not* the
    /// same as [`EOD`](Self::EOD): EOT is physical; EOD is logical.
    pub const EOT: i64 = 0x2000_0000;

    /// A setmark was encountered (SCSI-2 feature, rarely used).
    pub const SM: i64 = 0x1000_0000;

    /// End of recorded data (EOD): no further data has been written past the
    /// current position. Appending new data starts here.
    pub const EOD: i64 = 0x0800_0000;

    /// The loaded cartridge is write-protected (physical write-protect tab or
    /// WORM media). Writing will fail with a permission error.
    pub const WR_PROT: i64 = 0x0400_0000;

    /// The drive is online (a cartridge is loaded and the drive is ready).
    pub const ONLINE: i64 = 0x0100_0000;

    /// The drive door is open: no cartridge is loaded.
    pub const DR_OPEN: i64 = 0x0004_0000;

    /// Immediate report mode is enabled (drive returns status before completing
    /// long operations).
    pub const IM_REP_EN: i64 = 0x0001_0000;

    /// The drive is requesting a cleaning cartridge.
    pub const CLN: i64 = 0x0000_8000;

    /// Whether every bit of `mask` is set.
    pub open spec fn has(self, mask: i64) -> bool {
        self.0 & mask == mask
    }

    /// Whether `mask` is one of the ten named flags.
    pub open spec fn is_named(mask: i64) -> bool {
        ||| mask == StatusFlags::EOF
        ||| mask == StatusFlags::BOT
        ||| mask == StatusFlags::EOT
        ||| mask == StatusFlags::SM
        ||| mask == StatusFlags::EOD
        ||| mask == StatusFlags::WR_PROT
        ||| mask == StatusFlags::ONLINE
        ||| mask == StatusFlags::DR_OPEN
        ||| mask == StatusFlags::IM_REP_EN
        ||| mask == StatusFlags::CLN
    }

    /// The bits that some named flag uses.
    pub open spec fn named_bits() -> i64 {
        StatusFlags::EOF
            | StatusFlags::BOT
            | StatusFlags::EOT
            | StatusFlags::SM
            | StatusFlags::EOD
            | StatusFlags::WR_PROT
            | StatusFlags::ONLINE
            | StatusFlags::DR_OPEN
            | StatusFlags::IM_REP_EN
            | StatusFlags::CLN
    }

    /// No flags.
    pub fn empty() -> (r: StatusFlags)
        ensures
            r == StatusFlags(0),
    {
        StatusFlags(0)
    }

    /// The flags with exactly these bits, unrecognised ones included.
    pub fn from_bits_retain(bits: i64) -> (r: StatusFlags)
        ensures
            r == StatusFlags(bits),
    {
        StatusFlags(bits)
    }

    /// The bits of the flags.
    pub fn bits(self) -> (r: i64)
        ensures
            r == self.0,
    {
        self.0
    }

    /// Returns `true` if every flag of `other` is set.
    #[must_use]
    pub fn contains(self, other: StatusFlags) -> (r: bool)
        ensures
            r == self.has(other.0),
    {
        self.0 & other.0 == other.0
    }

    /// Returns `true` if a filemark was encountered during the last operation.
    #[must_use]
    pub fn is_eof(self) -> (r: bool)
        ensures
            r == self.has(StatusFlags::EOF),
    {
        self.contains(StatusFlags(StatusFlags::EOF))
    }

    /// Returns `true` if the tape is positioned at the physical beginning
    /// of the medium (BOT).
    #[must_use]
    pub fn is_bot(self) -> (r: bool)
        ensures
            r == self.has(StatusFlags::BOT),
    {
        self.contains(StatusFlags(StatusFlags::BOT))
    }

    /// Returns `true` if the tape is at or past the physical end of the
    /// medium (EOT).
    #[must_use]
    pub fn is_eot(self) -> (r: bool)
        ensures
            r == self.has(StatusFlags::EOT),
    {
        self.contains(StatusFlags(StatusFlags::EOT))
    }

    /// Returns `true` if a setmark was encountered during the last operation.
    #[must_use]
    pub fn is_setmark(self) -> (r: bool)
        ensures
            r == self.has(StatusFlags::SM),
    {
        self.contains(StatusFlags(StatusFlags::SM))
    }

    /// Returns `true` if the tape is at the logical end of recorded data
    /// (EOD): no data has been written past this point.
    #[must_use]
    pub fn is_eod(self) -> (r: bool)
        ensures
            r == self.has(StatusFlags::EOD),
    {
        self.contains(StatusFlags(StatusFlags::EOD))
    }

    /// Returns `true` if the loaded cartridge is write-protected.
    #[must_use]
    pub fn is_write_protected(self) -> (r: bool)
        ensures
            r == self.has(StatusFlags::WR_PROT),
    {
        self.contains(StatusFlags(StatusFlags::WR_PROT))
    }

    /// Returns `true` if the drive is online (a cartridge is loaded and the
    /// drive is ready to accept commands).
    #[must_use]
    pub fn is_online(self) -> (r: bool)
        ensures
            r == self.has(StatusFlags::ONLINE),
    {
        self.contains(StatusFlags(StatusFlags::ONLINE))
    }

    /// Returns `true` if the drive door is open (no cartridge loaded).
    #[must_use]
    pub fn is_door_open(self) -> (r: bool)
        ensures
            r == self.has(StatusFlags::DR_OPEN),
    {
        self.contains(StatusFlags(StatusFlags::DR_OPEN))
    }

    /// Returns `true` if immediate report mode is enabled.
    #[must_use]
    pub fn is_immediate_report(self) -> (r: bool)
        ensures
            r == self.has(StatusFlags::IM_REP_EN),
    {
        self.contains(StatusFlags(StatusFlags::IM_REP_EN))
    }

    /// Returns `true` if the drive is requesting a cleaning cartridge.
    #[must_use]
    pub fn is_cleaning_requested(self) -> (r: bool)
        ensures
            r == self.has(StatusFlags::CLN),
    {
        self.contains(StatusFlags(StatusFlags::CLN))
    }
}

impl Default for StatusFlags {
    fn default() -> (r: StatusFlags)
        ensures
            r == StatusFlags(0),
    {
        StatusFlags::empty()
    }
}

impl std::ops::BitOr<StatusFlags> for StatusFlags {
    type Output = StatusFlags;

    fn bitor(self, rhs: StatusFlags) -> (r: StatusFlags) {
        StatusFlags(self.0 | rhs.0)
    }
}

impl vstd::std_specs::ops::BitOrSpecImpl<StatusFlags> for StatusFlags {
    open spec fn obeys_bitor_spec() -> bool {
        true
    }

    open spec fn bitor_req(self, rhs: StatusFlags) -> bool {
        true
    }

    open spec fn bitor_spec(self, rhs: StatusFlags) -> StatusFlags {
        StatusFlags(self.0 | rhs.0)
    }
}

/// Each named flag is seen by the predicate that names it and by no other.
pub proof fn law_flags_are_independent(flag: i64, other: i64)
    requires
        StatusFlags::is_named(flag),
        StatusFlags::is_named(other),
    ensures
        StatusFlags(flag).has(other) <==> flag == other,
{
    assert(flag & other == other <==> flag == other) by (bit_vector)
        requires
            flag == 0x8000_0000
                || flag == 0x4000_0000
                || flag == 0x2000_0000
                || flag == 0x1000_0000
                || flag == 0x0800_0000
                || flag == 0x0400_0000
                || flag == 0x0100_0000
                || flag == 0x0004_0000
                || flag == 0x0001_0000
                || flag == 0x0000_8000,
            other == 0x8000_0000
                || other == 0x4000_0000
                || other == 0x2000_0000
                || other == 0x1000_0000
                || other == 0x0800_0000
                || other == 0x0400_0000
                || other == 0x0100_0000
                || other == 0x0004_0000
                || other == 0x0001_0000
                || other == 0x0000_8000,
    ;
}

/// A predicate is true exactly where its one bit of the status word is set: the
/// bit of value `v` is set where the word leaves `v` or more modulo `2 * v`.
pub proof fn law_each_flag_is_one_bit_of_the_word(flags: StatusFlags)
    ensures
        flags.has(StatusFlags::EOF) <==> flags.0 as int % 0x1_0000_0000 >= 0x8000_0000,
        flags.has(StatusFlags::BOT) <==> flags.0 as int % 0x8000_0000 >= 0x4000_0000,
        flags.has(StatusFlags::EOT) <==> flags.0 as int % 0x4000_0000 >= 0x2000_0000,
        flags.has(StatusFlags::SM) <==> flags.0 as int % 0x2000_0000 >= 0x1000_0000,
        flags.has(StatusFlags::EOD) <==> flags.0 as int % 0x1000_0000 >= 0x0800_0000,
        flags.has(StatusFlags::WR_PROT) <==> flags.0 as int % 0x0800_0000 >= 0x0400_0000,
        flags.has(StatusFlags::ONLINE) <==> flags.0 as int % 0x0200_0000 >= 0x0100_0000,
        flags.has(StatusFlags::DR_OPEN) <==> flags.0 as int % 0x0008_0000 >= 0x0004_0000,
        flags.has(StatusFlags::IM_REP_EN) <==> flags.0 as int % 0x0002_0000 >= 0x0001_0000,
        flags.has(StatusFlags::CLN) <==> flags.0 as int % 0x0001_0000 >= 0x0000_8000,
{
    let x = flags.0;
    assert((x & 0x8000_0000 == 0x8000_0000 <==> x % 0x1_0000_0000 >= 0x8000_0000) && (x
        & 0x4000_0000 == 0x4000_0000 <==> x % 0x8000_0000 >= 0x4000_0000) && (x & 0x2000_0000
        == 0x2000_0000 <==> x % 0x4000_0000 >= 0x2000_0000) && (x & 0x1000_0000 == 0x1000_0000
        <==> x % 0x2000_0000 >= 0x1000_0000) && (x & 0x0800_0000 == 0x0800_0000 <==> x
        % 0x1000_0000 >= 0x0800_0000)) by (bit_vector);
    assert((x & 0x0400_0000 == 0x0400_0000 <==> x % 0x0800_0000 >= 0x0400_0000) && (x
        & 0x0100_0000 == 0x0100_0000 <==> x % 0x0200_0000 >= 0x0100_0000) && (x & 0x0004_0000
        == 0x0004_0000 <==> x % 0x0008_0000 >= 0x0004_0000) && (x & 0x0001_0000 == 0x0001_0000
        <==> x % 0x0002_0000 >= 0x0001_0000) && (x & 0x0000_8000 == 0x0000_8000 <==> x
        % 0x0001_0000 >= 0x0000_8000)) by (bit_vector);
}

/// Flags contain a mask exactly where no bit of the mask is missing, so that
/// they contain two masks together exactly where they contain each.
pub proof fn law_containing_is_of_every_bit(flags: StatusFlags, a: i64, b: i64, k: u64)
    requires
        k < 63,
    ensures
        flags.has(a | b) <==> flags.has(a) && flags.has(b),
        flags.has(1i64 << k) <==> (flags.0 >> k) % 2 == 1,
        flags.has(0),
        flags.has(flags.0),
        flags.has(i64::MIN) <==> flags.0 < 0,
{
    let x = flags.0;
    assert(x & (a | b) == a | b <==> x & a == a && x & b == b) by (bit_vector);
    assert(x & (1i64 << k) == 1i64 << k <==> (x >> k) % 2 == 1) by (bit_vector)
        requires
            k < 63,
    ;
    assert(x & 0 == 0 && x & x == x && (x & i64::MIN == i64::MIN <==> x < 0)) by (bit_vector);
}

/// The default flags have no named flag set.
pub proof fn law_no_flag_is_set_by_default(flag: i64)
    requires
        StatusFlags::is_named(flag),
    ensures
        !StatusFlags(0).has(flag),
{
    assert(0i64 & flag == 0) by (bit_vector);
}

/// A named flag is set in the union of two sets of flags exactly where it is
/// set in one of them.
pub proof fn law_union_has_the_flags_of_both(a: StatusFlags, b: StatusFlags, flag: i64)
    requires
        StatusFlags::is_named(flag),
    ensures
        StatusFlags(a.0 | b.0).has(flag) <==> a.has(flag) || b.has(flag),
{
    let x = a.0;
    let y = b.0;
    assert((x | y) & flag == flag <==> x & flag == flag || y & flag == flag) by (bit_vector)
        requires
            flag == 0x8000_0000
                || flag == 0x4000_0000
                || flag == 0x2000_0000
                || flag == 0x1000_0000
                || flag == 0x0800_0000
                || flag == 0x0400_0000
                || flag == 0x0100_0000
                || flag == 0x0004_0000
                || flag == 0x0001_0000
                || flag == 0x0000_8000,
    ;
}

/// Bits that no constant names have no effect on any predicate.
pub proof fn law_unrecognised_bits_are_ignored(flags: StatusFlags, flag: i64)
    requires
        StatusFlags::is_named(flag),
    ensures
        flags.has(flag) <==> StatusFlags(flags.0 & StatusFlags::named_bits()).has(flag),
{
    let x = flags.0;
    let named = StatusFlags::named_bits();
    assert(named == 0xfd05_8000) by (bit_vector)
        requires
            named == 0x8000_0000i64
                | 0x4000_0000i64
                | 0x2000_0000i64
                | 0x1000_0000i64
                | 0x0800_0000i64
                | 0x0400_0000i64
                | 0x0100_0000i64
                | 0x0004_0000i64
                | 0x0001_0000i64
                | 0x0000_8000i64,
    ;
    assert(x & flag == flag <==> (x & named) & flag == flag) by (bit_vector)
        requires
            named == 0xfd05_8000,
            flag == 0x8000_0000
                || flag == 0x4000_0000
                || flag == 0x2000_0000
                || flag == 0x1000_0000
                || flag == 0x0800_0000
                || flag == 0x0400_0000
                || flag == 0x0100_0000
                || flag == 0x0004_0000
                || flag == 0x0001_0000
                || flag == 0x0000_8000,
    ;
}

} // verus!
