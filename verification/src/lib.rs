//! Client-side SNTP packet codec: the fixed 48-byte NTP packet layout,
//! 64-bit millisecond timestamps with their 32.32 fixed-point wire form,
//! and the classic two-way clock-offset estimator.

pub mod mode;
pub mod time;
pub mod wire;
pub mod packet;

pub use mode::SntpMode;
pub use time::{NtpEpochTime, NTP_TO_UNIX_EPOCH_SECONDS};
pub use packet::{ParseError, SntpData};
