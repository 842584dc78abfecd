use memcard::driver::{
    CardInfo, CardStat, CARD_ALIGNMENT, CARD_BANNER_HEIGHT, CARD_BANNER_WIDTH, CARD_CHANNEL,
    CARD_ICON_HEIGHT, CARD_ICON_MAX, CARD_ICON_WIDTH, CARD_READ_SIZE,
};

#[test]
fn the_driver_constants_are_those_of_the_device() {
    assert_eq!(CARD_CHANNEL, 0);
    assert_eq!(CARD_READ_SIZE, 512);
    assert_eq!(CARD_ALIGNMENT, 32);
    assert_eq!(CARD_ICON_MAX, 8);
    assert_eq!((CARD_ICON_WIDTH, CARD_ICON_HEIGHT), (32, 32));
    assert_eq!((CARD_BANNER_WIDTH, CARD_BANNER_HEIGHT), (96, 32));
}

#[test]
fn the_default_bookkeeping_is_all_zero() {
    let info = CardInfo::default();
    assert_eq!(info, CardInfo { chan: 0, file_num: 0, offset: 0, length: 0, i_block: 0 });
}

#[test]
fn the_default_status_record_is_blank() {
    let stat = CardStat::default();
    assert_eq!(stat.file_name, [0u8; 32]);
    assert_eq!(stat.length, 0);
    assert_eq!(stat.game_name, [0u8; 4]);
    assert_eq!(stat.company, [0u8; 2]);
    assert_eq!(stat.banner_format, 0);
    assert_eq!(stat.icon_addr, 0);
    assert_eq!(stat.icon_format, 0);
    assert_eq!(stat.icon_speed, 0);
    assert_eq!(stat.commend_addr, 0);
    assert_eq!(stat.offset_banner, 0);
    assert_eq!(stat.offset_banner_tlut, 0);
    assert_eq!(stat.offset_icon, [0u32; 8]);
    assert_eq!(stat.offset_icon_tlut, 0);
    assert_eq!(stat.offset_data, 0);
}
