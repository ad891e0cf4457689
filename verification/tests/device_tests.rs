use vlfd_rs::Config;
use vlfd_rs::IoSettings;
use vlfd_rs::constants;
use vlfd_rs::device::check_io_mode_preconditions;
use vlfd_rs::error::Error;
use vlfd_rs::error::Feature;
use vlfd_rs::program::upload_chunk_len;
use vlfd_rs::usb::Endpoint;
use vlfd_rs::usb::bytes_to_words;
use vlfd_rs::usb::words_to_bytes;

fn config_with(version: u16, programmed: bool, vericomm: bool) -> Config {
    let mut words = [0u16; 64];
    words[32] = version;
    words[48] = if programmed { 0x0001 } else { 0x0000 };
    words[37] = if vericomm { 0x0001 } else { 0x0000 };
    Config::from_words(words)
}

#[test]
fn version_check_comes_first() {
    // All three preconditions fail at once: the version error must win.
    let config = config_with(0x0000, false, false);
    let err = check_io_mode_preconditions(&config).unwrap_err();
    assert_eq!(
        err,
        Error::VersionMismatch { expected: constants::SMIMS_VERSION, actual: 0x0000 }
    );
}

#[test]
fn programmed_check_comes_second() {
    let config = config_with(constants::SMIMS_VERSION, false, false);
    let err = check_io_mode_preconditions(&config).unwrap_err();
    assert_eq!(err, Error::NotProgrammed);
}

#[test]
fn capability_check_comes_third() {
    let config = config_with(constants::SMIMS_VERSION, true, false);
    let err = check_io_mode_preconditions(&config).unwrap_err();
    assert_eq!(err, Error::FeatureUnavailable(Feature::VeriComm));
}

#[test]
fn all_preconditions_met() {
    let config = config_with(constants::SMIMS_VERSION, true, true);
    assert!(check_io_mode_preconditions(&config).is_ok());
}

#[test]
fn newer_version_passes_the_version_check() {
    let config = config_with(0xffff, false, false);
    let err = check_io_mode_preconditions(&config).unwrap_err();
    assert_eq!(err, Error::NotProgrammed);
}

#[test]
fn io_settings_defaults() {
    let settings = IoSettings::default();
    assert_eq!(settings.clock_high_delay, 11);
    assert_eq!(settings.clock_low_delay, 11);
    assert_eq!(settings.vericomm_isv, 0);
    assert!(!settings.clock_check_enabled);
    assert_eq!(settings.mode_selector, 0);
    assert_eq!(settings.licence_key, Some(0xff40));
}

#[test]
fn endpoint_addresses_are_protocol_fixed() {
    assert_eq!(Endpoint::FifoWrite.address(), 0x02);
    assert_eq!(Endpoint::Command.address(), 0x04);
    assert_eq!(Endpoint::FifoRead.address(), 0x86);
    assert_eq!(Endpoint::Sync.address(), 0x88);
}

#[test]
fn chunk_length_doubles_fifo_depth() {
    assert_eq!(upload_chunk_len(16), 32);
    assert_eq!(upload_chunk_len(1), 2);
    assert_eq!(upload_chunk_len(0), 1);
}

#[test]
fn words_serialize_little_endian() {
    let bytes = words_to_bytes(&vec![0x1234, 0xabcd]);
    assert_eq!(bytes, vec![0x34, 0x12, 0xcd, 0xab]);
}

#[test]
fn bytes_deserialize_little_endian() {
    let words = bytes_to_words(&vec![0x34, 0x12, 0xcd, 0xab]);
    assert_eq!(words, vec![0x1234, 0xabcd]);
}

#[test]
fn word_packing_round_trips() {
    let words: Vec<u16> = (0u16..64).map(|i| i.wrapping_mul(0x0135)).collect();
    assert_eq!(bytes_to_words(&words_to_bytes(&words)), words);
}
