//! The Linux SCSI tape driver (`/dev/st*`, `/dev/nst*`): what its operations
//! ask of a drive, what its answers say, and an in-memory tape to test against.
//!
//! # Background: how tape differs from disk
//!
//! Magnetic tape is a *sequential-access* medium. You can only move forward or
//! backward by whole *records* or *filemarks*. Writing at any position
//! implicitly discards everything recorded after that point.
//!
//! Data is written in *records* (sometimes called *blocks*), which are grouped
//! into *tape files* separated by *filemarks*. A filemark is a delimiter; it is
//! written by [`Tape::write_filemarks`] and makes a read return zero bytes, just
//! like the end of a regular file.
//!
//! # Structure
//!
//! - [`Tape`]: the operations common to all tape devices.
//! - [`MockTape`]: an in-memory tape, specified by [`model`]. What each of its
//!   operations does to the tape and the head is told in [`behaviour`]; the laws
//!   that span operations stand in [`laws`].
//! - [`device`]: the `ioctl(2)` argument of each operation, and the reading of
//!   the driver's replies; [`ioctl`] holds their vocabulary.
//! - [`StatusFlags`], [`TapeStatus`]: the drive status.
//! - [`TapeError`]: the errors of all of these.

pub mod behaviour;
pub mod device;
pub mod error;
pub mod ioctl;
pub mod laws;
pub mod mock;
pub mod model;
pub mod status;
pub mod tape;

pub use error::{IoFault, IoFaultKind, TapeError};
pub use ioctl::{
    // Operation codes:
    MTBSF, MTBSFM, MTBSR, MTBSS, MTCOMPRESSION, MTEOM, MTERASE, MTFSF, MTFSFM, MTFSR, MTFSS,
    MTLOAD, MTLOCK, MTMKPART, MTNOP, MTOFFL, MTRETEN, MTREW, MTSEEK, MTSETBLK, MTSETDENSITY,
    MTSETDRVBUFFER, MTSETPART, MTUNLOAD, MTUNLOCK, MTWEOF, MTWEOFI, MTWSM,
    // Option groups of MTSETDRVBUFFER:
    MT_ST_BOOLEANS, MT_ST_CLEARBOOLEANS, MT_ST_DEF_BLKSIZE, MT_ST_DEF_OPTIONS, MT_ST_OPTIONS,
    MT_ST_SETBOOLEANS, MT_ST_SET_CLN, MT_ST_SET_LONG_TIMEOUT, MT_ST_SET_TIMEOUT,
    MT_ST_WRITE_THRESHOLD,
    // Boolean options of MTSETDRVBUFFER:
    MT_ST_ASYNC_WRITES, MT_ST_AUTO_LOCK, MT_ST_BUFFER_WRITES, MT_ST_CAN_BSR, MT_ST_CAN_PARTITIONS,
    MT_ST_DEBUGGING, MT_ST_DEF_WRITES, MT_ST_FAST_MTEOM, MT_ST_NOWAIT, MT_ST_NOWAIT_EOF,
    MT_ST_NO_BLKLIMS, MT_ST_READ_AHEAD, MT_ST_SCSI2LOGICAL, MT_ST_SILI, MT_ST_SYSV, MT_ST_TWO_FM,
};
pub use mock::MockTape;
pub use status::{DriveType, StatusFlags, TapeStatus};
pub use tape::{Tape, TapeCall};
