//! The driver interface as data: the records the driver fills, the calls the
//! library asks for and the replies it concludes from.

use vstd::prelude::*;
use crate::error::{is_known_status, status_error, CardError};
use crate::name::FileName;

verus! {

/// The channel of the one card slot this library drives.
pub const CARD_CHANNEL: i32 = 0;

/// The granularity of a read, whatever the sector size.
pub const CARD_READ_SIZE: usize = 512;

/// The alignment that the driver demands of a transfer buffer's address.
pub const CARD_ALIGNMENT: usize = 32;

/// The most icons a file's status record addresses.
pub const CARD_ICON_MAX: usize = 8;

/// Width of an icon, in pixels.
pub const CARD_ICON_WIDTH: usize = 32;

/// Height of an icon, in pixels.
pub const CARD_ICON_HEIGHT: usize = 32;

/// Width of a banner, in pixels.
pub const CARD_BANNER_WIDTH: usize = 96;

/// Height of a banner, in pixels.
pub const CARD_BANNER_HEIGHT: usize = 32;

/// The driver's bookkeeping for one open file. The library mirrors these
/// fields and never interprets them.
#[derive(Clone, Copy, Debug, PartialEq, Eq, Structural)]
pub struct CardInfo {
    pub chan: i32,
    pub file_num: i32,
    pub offset: i32,
    pub length: i32,
    pub i_block: u16,
}

impl Default for CardInfo {
    fn default() -> (info: CardInfo)
        ensures
            info == (CardInfo { chan: 0, file_num: 0, offset: 0, length: 0, i_block: 0 }),
    {
        CardInfo { chan: 0, file_num: 0, offset: 0, length: 0, i_block: 0 }
    }
}

/// A file's status record, as the driver reports and accepts it.
#[derive(Clone, Copy, Debug)]
pub struct CardStat {
    /// Set by the driver.
    pub file_name: [u8; 32],
    /// Set by the driver.
    pub length: u32,
    /// Set by the driver.
    pub game_name: [u8; 4],
    /// Set by the driver.
    pub company: [u8; 2],
    pub banner_format: u8,
    pub icon_addr: u32,
    pub icon_format: u16,
    pub icon_speed: u16,
    pub commend_addr: u32,
    /// Set by the driver.
    pub offset_banner: u32,
    /// Set by the driver.
    pub offset_banner_tlut: u32,
    /// Set by the driver.
    pub offset_icon: [u32; 8],
    /// Set by the driver.
    pub offset_icon_tlut: u32,
    /// Set by the driver.
    pub offset_data: u32,
}

impl CardStat {
    /// Whether every field of the record is zero.
    pub open spec fn is_blank(&self) -> bool {
        &&& forall|i: int| 0 <= i < 32 ==> self.file_name[i] == 0u8
        &&& self.length == 0
        &&& forall|i: int| 0 <= i < 4 ==> self.game_name[i] == 0u8
        &&& forall|i: int| 0 <= i < 2 ==> self.company[i] == 0u8
        &&& self.banner_format == 0
        &&& self.icon_addr == 0
        &&& self.icon_format == 0
        &&& self.icon_speed == 0
        &&& self.commend_addr == 0
        &&& self.offset_banner == 0
        &&& self.offset_banner_tlut == 0
        &&& forall|i: int| 0 <= i < 8 ==> self.offset_icon[i] == 0u32
        &&& self.offset_icon_tlut == 0
        &&& self.offset_data == 0
    }
}

impl Default for CardStat {
    fn default() -> (stat: CardStat)
        ensures
            stat.is_blank(),
    {
        CardStat {
            file_name: [0u8; 32],
            length: 0,
            game_name: [0u8; 4],
            company: [0u8; 2],
            banner_format: 0,
            icon_addr: 0,
            icon_format: 0,
            icon_speed: 0,
            commend_addr: 0,
            offset_banner: 0,
            offset_banner_tlut: 0,
            offset_icon: [0u32; 8],
            offset_icon_tlut: 0,
            offset_data: 0,
        }
    }
}

/// One call that the driver is asked to make.
#[derive(Clone, Copy, Debug, PartialEq, Eq)]
pub enum Request {
    /// Probe the channel for its sector size.
    Probe { chan: i32 },
    /// Open the named file.
    Open { chan: i32, name: FileName },
    /// Create the named file with `size` bytes.
    Create { chan: i32, name: FileName, size: u32 },
    /// Read `length` bytes from `offset` into the caller's buffer.
    Read { info: CardInfo, length: i32, offset: i32 },
    /// Write `length` bytes from the caller's buffer at `offset`.
    Write { info: CardInfo, length: i32, offset: i32 },
    /// Close the file.
    Close { info: CardInfo },
}

/// What came back from one driver call: the translated status and the
/// out-parameters as the driver left them. A call that has no use for an
/// out-parameter leaves it as it was handed in.
#[derive(Clone, Copy, Debug, PartialEq, Eq)]
pub struct Reply {
    pub status: CardError,
    pub info: CardInfo,
    pub sector_size: i32,
}

impl Reply {
    /// A reply with the raw status translated, or `None` for a status
    /// outside the documented set.
    pub fn new(status: i32, info: CardInfo, sector_size: i32) -> (reply: Option<Reply>)
        ensures
            reply is Some <==> is_known_status(status as int),
            reply matches Some(r) ==> {
                &&& status_error(status as int) == Some(r.status)
                &&& r.info == info
                &&& r.sector_size == sector_size
            },
    {
        match CardError::from_status(status) {
            Some(status) => Some(Reply { status, info, sector_size }),
            None => None,
        }
    }
}

} // verus!
