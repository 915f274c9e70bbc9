//! The errors of the crate.

use vstd::prelude::*;
use vstd::std_specs::convert::FromSpec;

verus! {

/// [`nix::errno::Errno`], which `nix::Error` names too. A value of it is
/// carried from the driver to the caller and never looked into.
#[verifier::external_type_specification]
#[verifier::external_body]
pub struct ExErrno(nix::errno::Errno);

/// Errors that can be returned by tape device operations.
///
/// Most callers will want to match on the specific variant to decide whether
/// to abort, retry, or surface a user-facing message.
#[derive(Debug)]
pub enum TapeError {
    /// A data transfer (`read(2)` or `write(2)`) failed.
    Io(IoFault),
    /// An `ioctl(2)` call to the tape driver failed.
    ///
    /// Common causes: `EACCES` for write-protect violations at the ioctl
    /// level, `EIO` for hardware errors, `ENODEV` if the drive is not present.
    Ioctl(nix::errno::Errno),
    /// The loaded cartridge is write-protected (physical write-protect tab
    /// set, or WORM media).
    ///
    /// Check the cartridge before retrying; write-protection cannot be
    /// overridden in software.
    WriteProtected,
    /// The drive door is open: no cartridge is loaded.
    DoorOpen,
    /// The drive is not online (no cartridge loaded, or drive powered off).
    NotOnline,
    /// The tape has reached the physical end of medium.
    EndOfTape,
    /// The requested block number exceeds [`i32::MAX`], the largest value that
    /// the 32-bit `mt_count` field of the `MTSEEK` operation accepts.
    BlockNumberTooLarge(u64),
    /// An operation code that is none of the `MT*` constants exported from
    /// this crate.
    UnknownOperation(i16),
}

impl From<IoFault> for TapeError {
    fn from(fault: IoFault) -> (r: TapeError) {
        TapeError::Io(fault)
    }
}

impl vstd::std_specs::convert::FromSpecImpl<IoFault> for TapeError {
    open spec fn obeys_from_spec() -> bool {
        true
    }

    open spec fn from_spec(fault: IoFault) -> TapeError {
        TapeError::Io(fault)
    }
}

impl From<nix::errno::Errno> for TapeError {
    fn from(errno: nix::errno::Errno) -> (r: TapeError) {
        TapeError::Ioctl(errno)
    }
}

impl vstd::std_specs::convert::FromSpecImpl<nix::errno::Errno> for TapeError {
    open spec fn obeys_from_spec() -> bool {
        true
    }

    open spec fn from_spec(errno: nix::errno::Errno) -> TapeError {
        TapeError::Ioctl(errno)
    }
}

/// The class of an [`IoFault`]; each but `System` is a kind of
/// [`std::io::ErrorKind`].
#[derive(Debug, Clone, Copy, PartialEq, Eq, Structural)]
pub enum IoFaultKind {
    /// A parameter was incorrect.
    InvalidInput,
    /// The operation lacked the necessary privileges.
    PermissionDenied,
    /// Anything else.
    Other,
    /// The class is the one that the operating system gives this error code.
    System(i32),
}

/// Why a data transfer failed.
#[derive(Debug, Clone, PartialEq, Eq)]
pub enum IoFault {
    /// The system call failed with this OS error code. Common causes:
    /// `ENOSPC` at physical end of tape, `EIO` for a hardware error.
    System(i32),
    /// In fixed block mode, the read buffer is not a multiple of the block size.
    ReadNotAligned,
    /// In fixed block mode, the write buffer is not a multiple of the block size.
    WriteNotAligned,
    /// The tape is write-protected.
    WriteProtected,
    /// A read past the end of recorded data, after two that had returned zero
    /// bytes.
    EndOfData,
    /// A failure with neither an OS error code nor a variant of its own, in words.
    Described(String),
}

impl IoFault {
    /// The class that [`kind`](IoFault::kind) returns.
    pub open spec fn spec_kind(self) -> IoFaultKind {
        match self {
            IoFault::System(code) => IoFaultKind::System(code),
            IoFault::ReadNotAligned | IoFault::WriteNotAligned => IoFaultKind::InvalidInput,
            IoFault::WriteProtected => IoFaultKind::PermissionDenied,
            IoFault::EndOfData | IoFault::Described(_) => IoFaultKind::Other,
        }
    }

    /// The text that [`message`](IoFault::message) returns; none for a fault
    /// whose text the operating system supplies.
    pub open spec fn spec_message(self) -> Option<Seq<char>> {
        match self {
            IoFault::System(_) => None,
            IoFault::ReadNotAligned => Some(
                "EINVAL: read buffer length is not a multiple of the fixed block size"@,
            ),
            IoFault::WriteNotAligned => Some(
                "EINVAL: write buffer length is not a multiple of the fixed block size"@,
            ),
            IoFault::WriteProtected => Some("tape is write-protected"@),
            IoFault::EndOfData => Some("EIO: end of data (st driver ST_EOD state)"@),
            IoFault::Described(text) => Some(text@),
        }
    }

    /// The class of the fault.
    pub fn kind(&self) -> (r: IoFaultKind)
        ensures
            r == self.spec_kind(),
            self matches IoFault::System(code) ==> r == IoFaultKind::System(*code),
            r matches IoFaultKind::System(code) ==> *self == IoFault::System(code),
    {
        match self {
            IoFault::System(code) => IoFaultKind::System(*code),
            IoFault::ReadNotAligned | IoFault::WriteNotAligned => IoFaultKind::InvalidInput,
            IoFault::WriteProtected => IoFaultKind::PermissionDenied,
            IoFault::EndOfData | IoFault::Described(_) => IoFaultKind::Other,
        }
    }

    /// The text of the fault, or `None` where the operating system supplies it.
    pub fn message(&self) -> (r: Option<String>)
        ensures
            match r {
                Some(text) => self.spec_message() == Some(text@),
                None => self.spec_message() is None,
            },
            r is None <==> *self is System,
            *self matches IoFault::Described(text) ==> (r matches Some(shown) && shown@ == text@),
    {
        match self {
            IoFault::System(_) => None,
            IoFault::ReadNotAligned => Some(
                "EINVAL: read buffer length is not a multiple of the fixed block size".to_string(),
            ),
            IoFault::WriteNotAligned => Some(
                "EINVAL: write buffer length is not a multiple of the fixed block size".to_string(),
            ),
            IoFault::WriteProtected => Some("tape is write-protected".to_string()),
            IoFault::EndOfData => Some("EIO: end of data (st driver ST_EOD state)".to_string()),
            IoFault::Described(text) => Some(text.as_str().to_string()),
        }
    }
}

/// An error code and a text of one's own are carried as they are, whatever they
/// are, and only faults with an error code lack a text.
pub proof fn law_faults_carry_what_they_were_given(fault: IoFault, code: i32, text: String)
    ensures
        IoFault::System(code).spec_kind() == IoFaultKind::System(code),
        IoFault::Described(text).spec_kind() == IoFaultKind::Other,
        IoFault::Described(text).spec_message() == Some(text@),
        fault.spec_message() is None <==> fault is System,
        fault.spec_kind() is System <==> fault is System,
        fault.spec_kind() == IoFaultKind::InvalidInput <==> fault is ReadNotAligned
            || fault is WriteNotAligned,
        fault.spec_kind() == IoFaultKind::PermissionDenied <==> fault is WriteProtected,
{
}

/// Every fault and every error number comes out of the error that it went into.
pub proof fn law_errors_carry_their_cause(fault: IoFault, errno: nix::errno::Errno)
    ensures
        <TapeError as FromSpec<IoFault>>::from_spec(fault) == TapeError::Io(fault),
        <TapeError as FromSpec<nix::errno::Errno>>::from_spec(errno) == TapeError::Ioctl(errno),
{
}

} // verus!
