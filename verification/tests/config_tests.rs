use vlfd_rs::Config;
use vlfd_rs::Device;
use vlfd_rs::Programmer;

#[test]
fn device_is_created_closed() {
    let device = Device::new().expect("failed to initialise USB context");
    assert!(!device.is_open());
}

#[test]
fn config_mutation_roundtrip() {
    let mut device = Device::new().expect("failed to initialise USB context");
    device.config_mut().set_vericomm_clock_high_delay(42);
    assert_eq!(device.config().vericomm_clock_high_delay(), 42);
}

#[test]
fn programmer_wraps_device() {
    let device = Device::new().expect("failed to initialise USB context");
    let programmer = Programmer::new(device);
    assert!(!programmer.device().is_open());
}

#[test]
fn default_config_is_all_zero() {
    let config = Config::new();
    assert_eq!(config.words(), &[0u16; 64]);
    assert_eq!(config.vericomm_clock_high_delay(), 0);
    assert!(!config.is_programmed());
    assert!(!config.vericomm_ability());
}

#[test]
fn whole_word_setters_roundtrip() {
    let mut config = Config::new();
    config.set_vericomm_clock_high_delay(0x1234);
    config.set_vericomm_clock_low_delay(0x5678);
    config.set_flash_begin_block_addr(0x9abc);
    config.set_flash_begin_cluster_addr(0xdef0);
    config.set_flash_read_end_block_addr(0x0f0f);
    config.set_flash_read_end_cluster_addr(0xf0f0);
    config.set_licence_key(0xff40);
    assert_eq!(config.vericomm_clock_high_delay(), 0x1234);
    assert_eq!(config.vericomm_clock_low_delay(), 0x5678);
    assert_eq!(config.flash_begin_block_addr(), 0x9abc);
    assert_eq!(config.flash_begin_cluster_addr(), 0xdef0);
    assert_eq!(config.flash_read_end_block_addr(), 0x0f0f);
    assert_eq!(config.flash_read_end_cluster_addr(), 0xf0f0);
    assert_eq!(config.licence_key(), 0xff40);
    assert_eq!(config.security_key(), 0xff40);
}

#[test]
fn isv_setter_preserves_clock_check_bit() {
    let mut config = Config::new();
    config.set_vericomm_clock_check_enabled(true);
    config.set_vericomm_isv(0x0a);
    assert_eq!(config.vericomm_isv(), 0x0a);
    assert!(config.vericomm_clock_check_enabled());
    config.set_vericomm_isv(0x05);
    assert_eq!(config.vericomm_isv(), 0x05);
    assert!(config.vericomm_clock_check_enabled());
}

#[test]
fn isv_setter_masks_to_nibble() {
    let mut config = Config::new();
    config.set_vericomm_isv(0xfa);
    assert_eq!(config.vericomm_isv(), 0x0a);
}

#[test]
fn clock_check_setter_preserves_isv() {
    let mut config = Config::new();
    config.set_vericomm_isv(0x07);
    config.set_vericomm_clock_check_enabled(true);
    assert!(config.vericomm_clock_check_enabled());
    assert_eq!(config.vericomm_isv(), 0x07);
    config.set_vericomm_clock_check_enabled(false);
    assert!(!config.vericomm_clock_check_enabled());
    assert_eq!(config.vericomm_isv(), 0x07);
}

#[test]
fn channel_and_mode_selectors_share_word_without_interference() {
    let mut config = Config::new();
    config.set_veri_sdk_channel_selector(0x5a);
    config.set_mode_selector(0xc3);
    assert_eq!(config.veri_sdk_channel_selector(), 0x5a);
    assert_eq!(config.mode_selector(), 0xc3);
    config.set_veri_sdk_channel_selector(0x11);
    assert_eq!(config.veri_sdk_channel_selector(), 0x11);
    assert_eq!(config.mode_selector(), 0xc3);
}

#[test]
fn setters_leave_other_words_untouched() {
    let mut words = [0u16; 64];
    words[32] = 0x0310;
    words[48] = 0x0101;
    let mut config = Config::from_words(words);
    config.set_vericomm_isv(0x03);
    config.set_mode_selector(0x02);
    config.set_licence_key(0x1111);
    assert_eq!(config.smims_version_raw(), 0x0310);
    assert!(config.is_programmed());
}

#[test]
fn version_fields_unpack_nibbles() {
    let mut words = [0u16; 64];
    words[32] = 0x4a5c;
    let config = Config::from_words(words);
    assert_eq!(config.smims_version_raw(), 0x4a5c);
    assert_eq!(config.smims_major_version(), 0x4a);
    assert_eq!(config.smims_sub_version(), 0x05);
    assert_eq!(config.smims_patch_version(), 0x0c);
}

#[test]
fn capability_bits_map_to_abilities() {
    let mut words = [0u16; 64];
    words[37] = 0x0115;
    let config = Config::from_words(words);
    assert!(config.vericomm_ability());
    assert!(!config.veri_instrument_ability());
    assert!(config.veri_link_ability());
    assert!(!config.veri_soc_ability());
    assert!(config.vericomm_pro_ability());
    assert!(config.veri_sdk_ability());
}

#[test]
fn status_bits_and_inverted_senses() {
    let mut words = [0u16; 64];
    words[33] = 256;
    words[34] = 7;
    words[35] = 8;
    words[36] = 9;
    words[48] = 0x0100;
    words[49] = 0x0001;
    let config = Config::from_words(words);
    assert_eq!(config.fifo_size(), 256);
    assert_eq!(config.flash_total_block(), 7);
    assert_eq!(config.flash_block_size(), 8);
    assert_eq!(config.flash_cluster_size(), 9);
    assert!(!config.is_programmed());
    assert!(!config.is_pcb_connected());
    assert!(!config.vericomm_clock_continues());
}

#[test]
fn from_words_roundtrips_through_words() {
    let mut words = [0u16; 64];
    for (i, word) in words.iter_mut().enumerate() {
        *word = (i as u16).wrapping_mul(0x101);
    }
    let config = Config::from_words(words);
    assert_eq!(config.words(), &words);
}
