//! The session layer: command framing, configuration mirroring and
//! transparent encryption over the USB transport.
//!
//! A [`Device`] owns the transport handle, the host's mirror of the
//! configuration bank and the session cipher, and is the sole writer of all
//! three.  Every command is preceded by the sync handshake; almost every
//! command is followed by the return-to-active command.  Configuration
//! words and FIFO payloads are encrypted on the wire, so the cipher cursors
//! advance in lock step with the transfers.  The contracts state all of
//! this exactly: which command frames go to the Command endpoint and in
//! what order, what each FIFO transfer carries, and how the cursors move.

use crate::cipher::CipherState;
use crate::cipher::xor_with_keystream;
use crate::clock;
use crate::config::Config;
use crate::config::spec_has_state_flag;
use crate::config::spec_is_programmed;
use crate::config::spec_mode_selector;
use crate::config::spec_smims_version_raw;
use crate::config::spec_vericomm_clock_check_enabled;
use crate::config::spec_vericomm_isv;
use crate::constants;
use crate::error::Error;
use crate::error::Feature;
use crate::error::Operation;
use crate::licence;
use crate::usb::Endpoint;
use crate::usb::UsbDevice;
use crate::usb::spec_bulk_error;
use crate::usb::spec_sync_probe;
use vstd::prelude::*;

verus! {

/// Caller-supplied settings for entering VeriComm I/O mode; consumed once
/// per mode entry.
#[derive(Debug, Clone)]
pub struct IoSettings {
    pub clock_high_delay: u16,
    pub clock_low_delay: u16,
    pub vericomm_isv: u8,
    pub clock_check_enabled: bool,
    pub mode_selector: u8,
    pub licence_key: Option<u16>,
}

impl Default for IoSettings {
    /// Conservative VeriComm timing and the stock licence key.
    fn default() -> (r: Self)
        ensures
            r.clock_high_delay == 11,
            r.clock_low_delay == 11,
            r.vericomm_isv == 0,
            r.clock_check_enabled == false,
            r.mode_selector == 0,
            r.licence_key == Some(0xff40u16),
    {
        IoSettings {
            clock_high_delay: 11,
            clock_low_delay: 11,
            vericomm_isv: 0,
            clock_check_enabled: false,
            mode_selector: 0,
            licence_key: Some(0xff40),
        }
    }
}

/// The ordered mode-entry checks: firmware version first, then the
/// programmed bit, then the VeriComm capability.  The first failing check
/// decides the error; `Ok` exactly when all three pass.
pub fn check_io_mode_preconditions(config: &Config) -> (r: Result<(), Error>)
    ensures
        (r matches Ok(_) <==> (spec_smims_version_raw(config@) >= constants::SMIMS_VERSION
            && spec_is_programmed(config@) && spec_has_state_flag(config@, 0x0001))),
        spec_smims_version_raw(config@) < constants::SMIMS_VERSION ==> r == Err::<(), Error>(
            Error::VersionMismatch {
                expected: constants::SMIMS_VERSION,
                actual: spec_smims_version_raw(config@),
            },
        ),
        spec_smims_version_raw(config@) >= constants::SMIMS_VERSION && !spec_is_programmed(config@)
            ==> r == Err::<(), Error>(Error::NotProgrammed),
        spec_smims_version_raw(config@) >= constants::SMIMS_VERSION && spec_is_programmed(config@)
            && !spec_has_state_flag(config@, 0x0001) ==> r == Err::<(), Error>(
            Error::FeatureUnavailable(Feature::VeriComm),
        ),
{
    let actual_version = config.smims_version_raw();
    if actual_version < constants::SMIMS_VERSION {
        return Err(
            Error::VersionMismatch { expected: constants::SMIMS_VERSION, actual: actual_version },
        );
    }
    if !config.is_programmed() {
        return Err(Error::NotProgrammed);
    }
    if !config.vericomm_ability() {
        return Err(Error::FeatureUnavailable(Feature::VeriComm));
    }
    Ok(())
}

/// The two-byte frame of a command on the Command endpoint: `0x01`, then
/// the code.
pub open spec fn spec_command(code: u8) -> Seq<u8> {
    seq![0x01u8, code]
}

/// The errors the sync-then-command sequence can produce of itself: the
/// sync deadline, or a byte transfer's own failures in either direction.
pub open spec fn spec_session_error(e: Error) -> bool {
    ||| e == Error::Timeout(Operation::SyncDelay)
    ||| spec_bulk_error(e, Operation::BulkRead)
    ||| spec_bulk_error(e, Operation::BulkWrite)
}

/// The commands of one full session initialization, in order: read the
/// encryption table, read the configuration, return to active.
pub open spec fn spec_init_commands() -> Seq<Seq<u8>> {
    seq![spec_command(0x0f), spec_command(0x01), spec_command(0x00)]
}

/// Build the two-byte frame of a command.
fn command_bytes(code: u8) -> (r: Vec<u8>)
    ensures
        r@ == spec_command(code),
        r@ != spec_sync_probe(),
{
    let mut frame: Vec<u8> = Vec::new();
    frame.push(0x01);
    frame.push(code);
    proof {
        assert(frame@ =~= spec_command(code));
        assert(frame@.len() != spec_sync_probe().len());
    }
    frame
}

/// Build a single-byte buffer.
fn single_byte(b: u8) -> (r: Vec<u8>)
    ensures
        r@ == seq![b],
{
    let mut buffer: Vec<u8> = Vec::new();
    buffer.push(b);
    proof {
        assert(buffer@ =~= seq![b]);
    }
    buffer
}

/// Whether a byte read on the sync channel means the device is ready.
fn sync_ready(answer: u8) -> (r: bool)
    ensures
        r == (answer != 0),
{
    answer != 0
}

/// A session with the board: the transport handle, the configuration
/// mirror and the session cipher, mutated only sequentially through these
/// methods.
pub struct Device {
    usb: UsbDevice,
    config: Config,
    encryption: CipherState,
}

impl Device {
    /// The transport state.
    pub closed spec fn spec_usb(&self) -> UsbDevice {
        self.usb
    }

    /// The host's mirror of the configuration bank.
    pub closed spec fn spec_config(&self) -> Config {
        self.config
    }

    /// The session cipher.
    pub closed spec fn spec_cipher(&self) -> CipherState {
        self.encryption
    }

    /// Whether the transport is open.
    pub open spec fn spec_is_open(&self) -> bool {
        self.spec_usb().spec_is_open()
    }

    /// Every completed word transfer to the FIFO-write endpoint.
    pub open spec fn fifo_write_log(&self) -> Seq<Seq<u16>> {
        self.spec_usb().fifo_write_log()
    }

    /// Every completed command written to the Command endpoint; the sync
    /// handshake's probe byte is not a command and is not recorded.
    pub open spec fn command_log(&self) -> Seq<Seq<u8>> {
        self.spec_usb().command_log()
    }

    /// The cipher cursors sit inside their keystream halves.
    pub open spec fn wf(&self) -> bool {
        self.spec_cipher().wf()
    }

    /// A closed session: transport acquired but no device opened, an
    /// all-zero configuration mirror and an all-zero cipher.
    pub fn new() -> (r: Result<Self, Error>)
        ensures
            (r matches Ok(d) ==> !d.spec_is_open() && d.wf() && d.spec_config()@ == Seq::new(
                64,
                |i: int| 0u16,
            ) && d.spec_cipher().table_view() == Seq::new(32, |i: int| 0u16)
                && d.spec_cipher().encode_cursor() == 0 && d.spec_cipher().decode_cursor() == 0
                && d.fifo_write_log() == Seq::<Seq<u16>>::empty() && d.command_log() == Seq::<
                Seq<u8>,
            >::empty()),
    {
        let usb = UsbDevice::new()?;
        Ok(Device { usb, config: Config::new(), encryption: CipherState::new() })
    }

    /// Open the board and initialize the session in one step.
    pub fn connect() -> (r: Result<Self, Error>)
        ensures
            (r matches Ok(d) ==> d.spec_is_open() && d.wf() && d.spec_cipher().encode_cursor() == 0
                && d.spec_cipher().decode_cursor() == 0 && d.fifo_write_log() == Seq::<
                Seq<u16>,
            >::empty() && d.command_log() == spec_init_commands()),
    {
        let mut device = Self::new()?;
        device.open()?;
        device.initialize()?;
        proof {
            assert(Seq::<Seq<u8>>::empty() + spec_init_commands() =~= spec_init_commands());
        }
        Ok(device)
    }

    /// The transport, read-only.
    pub fn usb(&self) -> (r: &UsbDevice)
        ensures
            r == self.spec_usb(),
    {
        &self.usb
    }

    /// The configuration mirror, read-only.
    pub fn config(&self) -> (r: &Config)
        ensures
            r == self.spec_config(),
    {
        &self.config
    }

    /// The configuration mirror, for local edits before a write.
    pub fn config_mut(&mut self) -> (r: &mut Config)
        ensures
            *r == old(self).spec_config(),
            final(self).spec_config() == *final(r),
            final(self).spec_cipher() == old(self).spec_cipher(),
            final(self).spec_usb() == old(self).spec_usb(),
    {
        &mut self.config
    }

    pub fn is_open(&self) -> (r: bool)
        ensures
            r == self.spec_is_open(),
    {
        self.usb.is_open()
    }

    /// Open the board at its fixed vendor/product identity.
    pub fn open(&mut self) -> (r: Result<(), Error>)
        ensures
            final(self).spec_config() == old(self).spec_config(),
            final(self).spec_cipher() == old(self).spec_cipher(),
            final(self).fifo_write_log() == old(self).fifo_write_log(),
            final(self).command_log() == old(self).command_log(),
            (r matches Err(e) ==> (e matches Error::DeviceNotFound { .. } || e matches Error::Usb {
                ..
            })),
            (r matches Ok(_) ==> final(self).spec_is_open()),
            (r matches Err(_) ==> !final(self).spec_is_open()),
            (match r {
                Err(Error::DeviceNotFound { vid, pid }) => vid == constants::DW_VID && pid
                    == constants::DW_PID,
                _ => true,
            }),
    {
        self.usb.open(constants::DW_VID, constants::DW_PID)
    }

    /// Close the transport.
    pub fn close(&mut self) -> (r: Result<(), Error>)
        ensures
            final(self).spec_config() == old(self).spec_config(),
            final(self).spec_cipher() == old(self).spec_cipher(),
            final(self).fifo_write_log() == old(self).fifo_write_log(),
            final(self).command_log() == old(self).command_log(),
            !final(self).spec_is_open(),
            !old(self).spec_is_open() ==> (r matches Ok(_) && *final(self) == *old(self)),
            (r matches Err(e) ==> e matches Error::Usb { .. }),
    {
        self.usb.close()
    }

    /// Fetch the raw cipher table, decode it, then read the configuration
    /// bank — in this order: decoding needs the raw table, and the
    /// configuration words arrive encrypted.  Afterwards both cursors stand
    /// at zero: decoding resets them, and the 64-word configuration read
    /// advances the decode cursor by a whole number of 16-word cycles.
    pub fn initialize(&mut self) -> (r: Result<(), Error>)
        requires
            old(self).wf(),
        ensures
            final(self).wf(),
            (r matches Ok(_) ==> final(self).spec_cipher().encode_cursor() == 0 && final(self).spec_cipher().decode_cursor() == 0),
            (r matches Ok(_) ==> final(self).command_log() == old(self).command_log()
                + spec_init_commands()),
            (r matches Err(_) ==> final(self).spec_config() == old(self).spec_config()),
            (r matches Err(e) ==> spec_session_error(e)),
            final(self).spec_is_open() == old(self).spec_is_open(),
            final(self).fifo_write_log() == old(self).fifo_write_log(),
            !old(self).spec_is_open() ==> (r matches Err(_)),
    {
        let ghost log0 = self.command_log();
        self.read_encrypt_table()?;
        self.encryption.decode_table();
        self.read_config()?;
        proof {
            assert(log0.push(spec_command(0x0f)) + seq![spec_command(0x01), spec_command(0x00)]
                =~= log0 + spec_init_commands());
        }
        Ok(())
    }

    /// Write the one-byte reset-engine command; no sync precedes it.
    pub fn reset_engine(&mut self) -> (r: Result<(), Error>)
        ensures
            final(self).spec_config() == old(self).spec_config(),
            final(self).spec_cipher() == old(self).spec_cipher(),
            final(self).spec_is_open() == old(self).spec_is_open(),
            final(self).fifo_write_log() == old(self).fifo_write_log(),
            !old(self).spec_is_open() ==> r == Err::<(), Error>(Error::DeviceNotOpen),
            (r matches Err(e) ==> spec_bulk_error(e, Operation::BulkWrite)),
            (r matches Ok(_) ==> final(self).command_log() == old(self).command_log().push(
                seq![0x02u8],
            )),
            (r matches Err(_) ==> final(self).command_log() == old(self).command_log()),
    {
        let command = single_byte(0x02);
        proof {
            assert(command@[0] != spec_sync_probe()[0]);
            assert(command@ != spec_sync_probe());
        }
        self.usb.write_bytes(Endpoint::Command, &command)
    }

    /// Make sure the session is open and freshly initialized.
    pub fn ensure_session(&mut self) -> (r: Result<(), Error>)
        requires
            old(self).wf(),
        ensures
            final(self).wf(),
            (r matches Ok(_) ==> final(self).spec_is_open() && final(self).spec_cipher().encode_cursor() == 0 && final(self).spec_cipher().decode_cursor() == 0),
            (r matches Ok(_) ==> final(self).command_log() == old(self).command_log()
                + spec_init_commands()),
            (r matches Err(e) ==> (spec_session_error(e) || e matches Error::DeviceNotFound { .. }
                || e matches Error::Usb { .. })),
            final(self).fifo_write_log() == old(self).fifo_write_log(),
    {
        if !self.is_open() {
            self.open()?;
        }
        self.initialize()
    }

    /// Enter VeriComm I/O mode: re-synchronize the session, check the
    /// firmware version, the programmed bit and the VeriComm capability in
    /// that strict order, install the optional licence key, apply the
    /// settings to the mirror, push the configuration and activate the
    /// mode.  The first failing check aborts before any device-side change.
    pub fn enter_io_mode(&mut self, settings: &IoSettings) -> (r: Result<(), Error>)
        requires
            old(self).wf(),
        ensures
            final(self).wf(),
            (r matches Ok(_) ==> {
                let w = final(self).spec_config()@;
                &&& w[0] == settings.clock_high_delay
                &&& w[1] == settings.clock_low_delay
                &&& spec_vericomm_isv(w) == settings.vericomm_isv & 0x0f
                &&& (settings.vericomm_isv < 16 ==> spec_vericomm_isv(w)
                    == settings.vericomm_isv)
                &&& spec_vericomm_clock_check_enabled(w) == settings.clock_check_enabled
                &&& spec_mode_selector(w) == settings.mode_selector
                &&& (settings.licence_key matches Some(k) ==> w[31] == k)
                &&& spec_smims_version_raw(w) >= constants::SMIMS_VERSION
                &&& spec_is_programmed(w)
                &&& spec_has_state_flag(w, 0x0001)
                &&& final(self).spec_is_open()
                &&& final(self).fifo_write_log() == old(self).fifo_write_log().push(
                    xor_with_keystream(
                        w,
                        final(self).spec_cipher().table_view(),
                        16,
                        0,
                    ),
                )
                &&& final(self).command_log() == old(self).command_log() + spec_init_commands()
                    + seq![spec_command(0x11), spec_command(0x00), spec_command(0x03)]
            }),
            (match r {
                Err(Error::VersionMismatch { .. }) => final(self).fifo_write_log() == old(self).fifo_write_log() && final(self).command_log() == old(self).command_log()
                    + spec_init_commands(),
                Err(Error::NotProgrammed) => final(self).fifo_write_log() == old(self).fifo_write_log() && final(self).command_log() == old(self).command_log()
                    + spec_init_commands(),
                Err(Error::FeatureUnavailable(_)) => final(self).fifo_write_log() == old(self).fifo_write_log() && final(self).command_log() == old(self).command_log()
                    + spec_init_commands(),
                _ => true,
            }),
    {
        self.ensure_session()?;
        proof {
            self.config.lemma_word_count();
        }
        match check_io_mode_preconditions(&self.config) {
            Ok(_) => (),
            Err(e) => {
                return Err(e);
            },
        }

        match settings.licence_key {
            Some(licence_key) => self.config.set_licence_key(licence_key),
            None => (),
        }

        self.config.set_vericomm_clock_high_delay(settings.clock_high_delay);
        self.config.set_vericomm_clock_low_delay(settings.clock_low_delay);
        self.config.set_vericomm_isv(settings.vericomm_isv);
        self.config.set_vericomm_clock_check_enabled(settings.clock_check_enabled);
        self.config.set_mode_selector(settings.mode_selector);

        let ghost log1 = self.command_log();
        self.write_config()?;
        self.activate_vericomm()?;
        proof {
            assert(log1 + seq![spec_command(0x11), spec_command(0x00)] + seq![spec_command(0x03)]
                =~= log1 + seq![spec_command(0x11), spec_command(0x00), spec_command(0x03)]);
        }
        Ok(())
    }

    /// One FIFO transaction: encrypt and send `write_buffer`, then receive
    /// and decrypt `read_len` words.  The outgoing buffer is encrypted in
    /// place whatever happens afterwards, and the cursors advance exactly
    /// once per word moved in each direction.
    pub fn transfer_io(&mut self, write_buffer: &mut Vec<u16>, read_len: usize) -> (r: Result<
        Vec<u16>,
        Error,
    >)
        requires
            old(self).wf(),
            read_len <= usize::MAX / 2,
        ensures
            final(self).wf(),
            final(self).spec_config() == old(self).spec_config(),
            final(self).command_log() == old(self).command_log(),
            final(self).spec_cipher().table_view() == old(self).spec_cipher().table_view(),
            final(write_buffer)@ == xor_with_keystream(
                old(write_buffer)@,
                old(self).spec_cipher().table_view(),
                16,
                old(self).spec_cipher().encode_cursor(),
            ),
            final(self).spec_cipher().encode_cursor() == (old(self).spec_cipher().encode_cursor()
                + old(write_buffer)@.len()) % 16,
            (r matches Ok(data) ==> {
                &&& data@.len() == read_len
                &&& final(self).spec_cipher().decode_cursor() == (old(self).spec_cipher().decode_cursor() + read_len) % 16
                &&& final(self).fifo_write_log() == old(self).fifo_write_log().push(
                    final(write_buffer)@,
                )
            }),
            (r matches Err(_) ==> final(self).spec_cipher().decode_cursor() == old(self).spec_cipher().decode_cursor()),
    {
        self.encryption.encrypt_words(write_buffer);
        self.usb.write_words(Endpoint::FifoWrite, write_buffer)?;
        let mut received = self.usb.read_words(Endpoint::FifoRead, read_len)?;
        self.encryption.decrypt_words(&mut received);
        Ok(received)
    }

    /// Leave I/O mode: return the device to its active state and close the
    /// transport.  A closed session is a no-op success.
    pub fn exit_io_mode(&mut self) -> (r: Result<(), Error>)
        ensures
            final(self).spec_config() == old(self).spec_config(),
            final(self).spec_cipher() == old(self).spec_cipher(),
            final(self).fifo_write_log() == old(self).fifo_write_log(),
            (r matches Ok(_) ==> !final(self).spec_is_open()),
            !old(self).spec_is_open() ==> (r matches Ok(_) && *final(self) == *old(self)),
            r matches Ok(_) && old(self).spec_is_open() ==> final(self).command_log() == old(self).command_log().push(spec_command(0x00)),
            (r matches Err(e) ==> (spec_session_error(e) || e matches Error::Usb { .. })),
            (r matches Err(_) ==> final(self).command_log() == old(self).command_log() || final(self).command_log() == old(self).command_log().push(spec_command(0x00))),
    {
        if !self.is_open() {
            return Ok(());
        }
        self.command_active()?;
        self.close()
    }

    /// Send raw words to the FIFO-write endpoint; a completed transfer is
    /// recorded in the write log.
    pub fn fifo_write(&mut self, buffer: &Vec<u16>) -> (r: Result<(), Error>)
        ensures
            final(self).spec_config() == old(self).spec_config(),
            final(self).spec_cipher() == old(self).spec_cipher(),
            final(self).spec_is_open() == old(self).spec_is_open(),
            final(self).command_log() == old(self).command_log(),
            !old(self).spec_is_open() ==> r == Err::<(), Error>(Error::DeviceNotOpen),
            (r matches Err(e) ==> spec_bulk_error(e, Operation::BulkWrite)),
            (r matches Ok(_) ==> final(self).fifo_write_log() == old(self).fifo_write_log().push(
                buffer@,
            )),
            (r matches Err(_) ==> final(self).fifo_write_log() == old(self).fifo_write_log()),
    {
        self.usb.write_words(Endpoint::FifoWrite, buffer)
    }

    /// Receive exactly `len` raw words from the FIFO-read endpoint.
    pub fn fifo_read(&self, len: usize) -> (r: Result<Vec<u16>, Error>)
        requires
            len <= usize::MAX / 2,
        ensures
            (r matches Ok(data) ==> data@.len() == len),
            (r matches Err(e) ==> spec_bulk_error(e, Operation::BulkRead)),
            !self.spec_is_open() ==> r == Err::<Vec<u16>, Error>(Error::DeviceNotOpen),
    {
        self.usb.read_words(Endpoint::FifoRead, len)
    }

    /// The sync handshake: write the single-zero probe byte on the Command
    /// endpoint and read one byte on the Sync endpoint until the device
    /// answers nonzero, bounded by a fixed wall-clock timeout.  Exceeding
    /// the deadline is a timeout failure, never silently ignored.  Only
    /// probes cross the wire here, so the command log is unchanged.
    pub fn sync_delay(&mut self) -> (r: Result<(), Error>)
        ensures
            final(self).spec_config() == old(self).spec_config(),
            final(self).spec_cipher() == old(self).spec_cipher(),
            final(self).spec_is_open() == old(self).spec_is_open(),
            final(self).fifo_write_log() == old(self).fifo_write_log(),
            final(self).command_log() == old(self).command_log(),
            !old(self).spec_is_open() ==> (r matches Err(_)),
            (r matches Err(e) ==> spec_session_error(e)),
    {
        let start = clock::monotonic_now();
        let probe = single_byte(0x00);
        let mut fuel: u64 = u64::MAX;
        loop
            invariant
                probe@ == spec_sync_probe(),
                self.spec_config() == old(self).spec_config(),
                self.spec_cipher() == old(self).spec_cipher(),
                self.spec_is_open() == old(self).spec_is_open(),
                self.fifo_write_log() == old(self).fifo_write_log(),
                self.command_log() == old(self).command_log(),
            decreases fuel,
        {
            if fuel == 0 || clock::millis_since(&start) > constants::SYNC_TIMEOUT_MS {
                return Err(Error::Timeout(Operation::SyncDelay));
            }
            fuel = fuel - 1;
            self.usb.write_bytes(Endpoint::Command, &probe)?;
            let answer = self.usb.read_bytes(Endpoint::Sync, 1)?;
            if sync_ready(answer[0]) {
                return Ok(());
            }
        }
    }

    /// Sync, then write the two-byte return-to-active command; required
    /// after almost every other command.
    pub fn command_active(&mut self) -> (r: Result<(), Error>)
        ensures
            final(self).spec_config() == old(self).spec_config(),
            final(self).spec_cipher() == old(self).spec_cipher(),
            final(self).spec_is_open() == old(self).spec_is_open(),
            final(self).fifo_write_log() == old(self).fifo_write_log(),
            !old(self).spec_is_open() ==> (r matches Err(_)),
            (r matches Err(e) ==> spec_session_error(e)),
            (r matches Ok(_) ==> final(self).command_log() == old(self).command_log().push(
                spec_command(0x00),
            )),
            (r matches Err(_) ==> final(self).command_log() == old(self).command_log()),
    {
        self.sync_delay()?;
        let command = command_bytes(0x00);
        self.usb.write_bytes(Endpoint::Command, &command)
    }

    /// Full configuration read: sync, issue the read command, receive all
    /// 64 words, return to active, decrypt, and replace the mirror
    /// wholesale.  The decode cursor moves by four full cycles, so it ends
    /// where it began; nothing else of the cipher moves.
    pub fn read_config(&mut self) -> (r: Result<(), Error>)
        requires
            old(self).wf(),
        ensures
            final(self).wf(),
            final(self).spec_cipher().table_view() == old(self).spec_cipher().table_view(),
            final(self).spec_cipher().encode_cursor() == old(self).spec_cipher().encode_cursor(),
            final(self).spec_cipher().decode_cursor() == old(self).spec_cipher().decode_cursor(),
            final(self).fifo_write_log() == old(self).fifo_write_log(),
            final(self).spec_is_open() == old(self).spec_is_open(),
            !old(self).spec_is_open() ==> (r matches Err(_)),
            (r matches Err(_) ==> final(self).spec_config() == old(self).spec_config()),
            (r matches Err(e) ==> spec_session_error(e)),
            (r matches Ok(_) ==> final(self).command_log() == old(self).command_log() + seq![
                spec_command(0x01),
                spec_command(0x00),
            ]),
            (r matches Err(_) ==> final(self).command_log() == old(self).command_log() || final(self).command_log() == old(self).command_log().push(spec_command(0x01))),
    {
        let ghost log0 = self.command_log();
        self.sync_delay()?;
        let command = command_bytes(0x01);
        self.usb.write_bytes(Endpoint::Command, &command)?;

        let mut words = self.usb.read_words(Endpoint::FifoRead, 64)?;
        self.command_active()?;
        proof {
            assert(log0.push(spec_command(0x01)).push(spec_command(0x00)) =~= log0 + seq![
                spec_command(0x01),
                spec_command(0x00),
            ]);
        }
        let ghost cursor = self.encryption.decode_cursor();
        self.encryption.decrypt_words(&mut words);
        proof {
            assert((cursor + 64) % 16 == cursor) by (nonlinear_arith)
                requires
                    0 <= cursor < 16,
            ;
        }
        self.config = Config::from_word_vec(&words);
        Ok(())
    }

    /// Full configuration write: sync, encrypt a snapshot of the mirror,
    /// issue the write command, push all 64 words, return to active.  The
    /// encode cursor moves by four full cycles, so it ends where it began;
    /// on success the encrypted snapshot is the newest entry of the write
    /// log.
    pub fn write_config(&mut self) -> (r: Result<(), Error>)
        requires
            old(self).wf(),
        ensures
            final(self).wf(),
            final(self).spec_config() == old(self).spec_config(),
            final(self).spec_cipher().table_view() == old(self).spec_cipher().table_view(),
            final(self).spec_cipher().decode_cursor() == old(self).spec_cipher().decode_cursor(),
            final(self).spec_cipher().encode_cursor() == old(self).spec_cipher().encode_cursor(),
            final(self).spec_is_open() == old(self).spec_is_open(),
            !old(self).spec_is_open() ==> (r matches Err(_)),
            (r matches Ok(_) ==> final(self).fifo_write_log() == old(self).fifo_write_log().push(
                xor_with_keystream(
                    old(self).spec_config()@,
                    old(self).spec_cipher().table_view(),
                    16,
                    old(self).spec_cipher().encode_cursor(),
                ),
            )),
            (r matches Err(_) ==> final(self).fifo_write_log() == old(self).fifo_write_log()
                || final(self).fifo_write_log() == old(self).fifo_write_log().push(
                xor_with_keystream(
                    old(self).spec_config()@,
                    old(self).spec_cipher().table_view(),
                    16,
                    old(self).spec_cipher().encode_cursor(),
                ),
            )),
            (r matches Err(e) ==> spec_session_error(e)),
            (r matches Ok(_) ==> final(self).command_log() == old(self).command_log() + seq![
                spec_command(0x11),
                spec_command(0x00),
            ]),
            (r matches Err(_) ==> final(self).command_log() == old(self).command_log() || final(self).command_log() == old(self).command_log().push(spec_command(0x11))),
    {
        let ghost log0 = self.command_log();
        self.sync_delay()?;
        let mut words = self.config.to_word_vec();
        let ghost cursor = self.encryption.encode_cursor();
        proof {
            self.config.lemma_word_count();
        }
        self.encryption.encrypt_words(&mut words);
        proof {
            assert((cursor + 64) % 16 == cursor) by (nonlinear_arith)
                requires
                    0 <= cursor < 16,
            ;
        }
        let command = command_bytes(0x11);
        self.usb.write_bytes(Endpoint::Command, &command)?;
        self.usb.write_words(Endpoint::FifoWrite, &words)?;
        let outcome = self.command_active();
        proof {
            if outcome matches Ok(_) {
                assert(log0.push(spec_command(0x11)).push(spec_command(0x00)) =~= log0 + seq![
                    spec_command(0x11),
                    spec_command(0x00),
                ]);
            }
        }
        outcome
    }

    /// Sync, then activate FPGA-programmer mode.
    pub fn activate_fpga_programmer(&mut self) -> (r: Result<(), Error>)
        ensures
            final(self).spec_config() == old(self).spec_config(),
            final(self).spec_cipher() == old(self).spec_cipher(),
            final(self).spec_is_open() == old(self).spec_is_open(),
            final(self).fifo_write_log() == old(self).fifo_write_log(),
            !old(self).spec_is_open() ==> (r matches Err(_)),
            (r matches Err(e) ==> spec_session_error(e)),
            (r matches Ok(_) ==> final(self).command_log() == old(self).command_log().push(
                spec_command(0x02),
            )),
            (r matches Err(_) ==> final(self).command_log() == old(self).command_log()),
    {
        self.activate(0x02)
    }

    /// Sync, then activate VeriComm mode.
    pub fn activate_vericomm(&mut self) -> (r: Result<(), Error>)
        ensures
            final(self).spec_config() == old(self).spec_config(),
            final(self).spec_cipher() == old(self).spec_cipher(),
            final(self).spec_is_open() == old(self).spec_is_open(),
            final(self).fifo_write_log() == old(self).fifo_write_log(),
            !old(self).spec_is_open() ==> (r matches Err(_)),
            (r matches Err(e) ==> spec_session_error(e)),
            (r matches Ok(_) ==> final(self).command_log() == old(self).command_log().push(
                spec_command(0x03),
            )),
            (r matches Err(_) ==> final(self).command_log() == old(self).command_log()),
    {
        self.activate(0x03)
    }

    /// Sync, then activate VeriInstrument mode.
    pub fn activate_veri_instrument(&mut self) -> (r: Result<(), Error>)
        ensures
            final(self).spec_config() == old(self).spec_config(),
            final(self).spec_cipher() == old(self).spec_cipher(),
            final(self).spec_is_open() == old(self).spec_is_open(),
            final(self).fifo_write_log() == old(self).fifo_write_log(),
            !old(self).spec_is_open() ==> (r matches Err(_)),
            (r matches Err(e) ==> spec_session_error(e)),
            (r matches Ok(_) ==> final(self).command_log() == old(self).command_log().push(
                spec_command(0x08),
            )),
            (r matches Err(_) ==> final(self).command_log() == old(self).command_log()),
    {
        self.activate(0x08)
    }

    /// Sync, then activate VeriLink mode.
    pub fn activate_verilink(&mut self) -> (r: Result<(), Error>)
        ensures
            final(self).spec_config() == old(self).spec_config(),
            final(self).spec_cipher() == old(self).spec_cipher(),
            final(self).spec_is_open() == old(self).spec_is_open(),
            final(self).fifo_write_log() == old(self).fifo_write_log(),
            !old(self).spec_is_open() ==> (r matches Err(_)),
            (r matches Err(e) ==> spec_session_error(e)),
            (r matches Ok(_) ==> final(self).command_log() == old(self).command_log().push(
                spec_command(0x09),
            )),
            (r matches Err(_) ==> final(self).command_log() == old(self).command_log()),
    {
        self.activate(0x09)
    }

    /// Sync, then activate VeriSoC mode.
    pub fn activate_veri_soc(&mut self) -> (r: Result<(), Error>)
        ensures
            final(self).spec_config() == old(self).spec_config(),
            final(self).spec_cipher() == old(self).spec_cipher(),
            final(self).spec_is_open() == old(self).spec_is_open(),
            final(self).fifo_write_log() == old(self).fifo_write_log(),
            !old(self).spec_is_open() ==> (r matches Err(_)),
            (r matches Err(e) ==> spec_session_error(e)),
            (r matches Ok(_) ==> final(self).command_log() == old(self).command_log().push(
                spec_command(0x0a),
            )),
            (r matches Err(_) ==> final(self).command_log() == old(self).command_log()),
    {
        self.activate(0x0a)
    }

    /// Sync, then activate VeriComm-Pro mode.
    pub fn activate_vericomm_pro(&mut self) -> (r: Result<(), Error>)
        ensures
            final(self).spec_config() == old(self).spec_config(),
            final(self).spec_cipher() == old(self).spec_cipher(),
            final(self).spec_is_open() == old(self).spec_is_open(),
            final(self).fifo_write_log() == old(self).fifo_write_log(),
            !old(self).spec_is_open() ==> (r matches Err(_)),
            (r matches Err(e) ==> spec_session_error(e)),
            (r matches Ok(_) ==> final(self).command_log() == old(self).command_log().push(
                spec_command(0x0b),
            )),
            (r matches Err(_) ==> final(self).command_log() == old(self).command_log()),
    {
        self.activate(0x0b)
    }

    /// Sync, then activate VeriSDK mode.
    pub fn activate_veri_sdk(&mut self) -> (r: Result<(), Error>)
        ensures
            final(self).spec_config() == old(self).spec_config(),
            final(self).spec_cipher() == old(self).spec_cipher(),
            final(self).spec_is_open() == old(self).spec_is_open(),
            final(self).fifo_write_log() == old(self).fifo_write_log(),
            !old(self).spec_is_open() ==> (r matches Err(_)),
            (r matches Err(e) ==> spec_session_error(e)),
            (r matches Ok(_) ==> final(self).command_log() == old(self).command_log().push(
                spec_command(0x04),
            )),
            (r matches Err(_) ==> final(self).command_log() == old(self).command_log()),
    {
        self.activate(0x04)
    }

    /// Sync, then activate flash-read mode.
    pub fn activate_flash_read(&mut self) -> (r: Result<(), Error>)
        ensures
            final(self).spec_config() == old(self).spec_config(),
            final(self).spec_cipher() == old(self).spec_cipher(),
            final(self).spec_is_open() == old(self).spec_is_open(),
            final(self).fifo_write_log() == old(self).fifo_write_log(),
            !old(self).spec_is_open() ==> (r matches Err(_)),
            (r matches Err(e) ==> spec_session_error(e)),
            (r matches Ok(_) ==> final(self).command_log() == old(self).command_log().push(
                spec_command(0x05),
            )),
            (r matches Err(_) ==> final(self).command_log() == old(self).command_log()),
    {
        self.activate(0x05)
    }

    /// Sync, then activate flash-write mode.
    pub fn activate_flash_write(&mut self) -> (r: Result<(), Error>)
        ensures
            final(self).spec_config() == old(self).spec_config(),
            final(self).spec_cipher() == old(self).spec_cipher(),
            final(self).spec_is_open() == old(self).spec_is_open(),
            final(self).fifo_write_log() == old(self).fifo_write_log(),
            !old(self).spec_is_open() ==> (r matches Err(_)),
            (r matches Err(e) ==> spec_session_error(e)),
            (r matches Ok(_) ==> final(self).command_log() == old(self).command_log().push(
                spec_command(0x15),
            )),
            (r matches Err(_) ==> final(self).command_log() == old(self).command_log()),
    {
        self.activate(0x15)
    }

    /// Sync, then write a two-byte mode-activation command; success is the
    /// absence of a transport error.
    fn activate(&mut self, code: u8) -> (r: Result<(), Error>)
        ensures
            final(self).spec_config() == old(self).spec_config(),
            final(self).spec_cipher() == old(self).spec_cipher(),
            final(self).spec_is_open() == old(self).spec_is_open(),
            final(self).fifo_write_log() == old(self).fifo_write_log(),
            !old(self).spec_is_open() ==> (r matches Err(_)),
            (r matches Err(e) ==> spec_session_error(e)),
            (r matches Ok(_) ==> final(self).command_log() == old(self).command_log().push(
                spec_command(code),
            )),
            (r matches Err(_) ==> final(self).command_log() == old(self).command_log()),
    {
        self.sync_delay()?;
        let command = command_bytes(code);
        self.usb.write_bytes(Endpoint::Command, &command)
    }

    /// Encrypt `buffer` in place with the session cipher.
    pub fn encrypt(&mut self, buffer: &mut Vec<u16>)
        requires
            old(self).wf(),
        ensures
            final(self).wf(),
            final(self).spec_config() == old(self).spec_config(),
            final(self).spec_usb() == old(self).spec_usb(),
            final(self).spec_cipher().table_view() == old(self).spec_cipher().table_view(),
            final(self).spec_cipher().decode_cursor() == old(self).spec_cipher().decode_cursor(),
            final(self).spec_cipher().encode_cursor() == (old(self).spec_cipher().encode_cursor()
                + old(buffer)@.len()) % 16,
            final(buffer)@ == xor_with_keystream(
                old(buffer)@,
                old(self).spec_cipher().table_view(),
                16,
                old(self).spec_cipher().encode_cursor(),
            ),
    {
        self.encryption.encrypt_words(buffer);
    }

    /// Decrypt `buffer` in place with the session cipher.
    pub fn decrypt(&mut self, buffer: &mut Vec<u16>)
        requires
            old(self).wf(),
        ensures
            final(self).wf(),
            final(self).spec_config() == old(self).spec_config(),
            final(self).spec_usb() == old(self).spec_usb(),
            final(self).spec_cipher().table_view() == old(self).spec_cipher().table_view(),
            final(self).spec_cipher().encode_cursor() == old(self).spec_cipher().encode_cursor(),
            final(self).spec_cipher().decode_cursor() == (old(self).spec_cipher().decode_cursor()
                + old(buffer)@.len()) % 16,
            final(buffer)@ == xor_with_keystream(
                old(buffer)@,
                old(self).spec_cipher().table_view(),
                0,
                old(self).spec_cipher().decode_cursor(),
            ),
    {
        self.encryption.decrypt_words(buffer);
    }

    /// The session cipher's cursors, observable for callers.
    pub fn cipher(&self) -> (r: &CipherState)
        ensures
            r == self.spec_cipher(),
    {
        &self.encryption
    }

    /// Derive a licence key; a convenience forward of
    /// [`licence::licence_gen`].
    pub fn licence_gen(&self, security_key: u16, customer_id: u16) -> (r: u16)
        ensures
            r == licence::spec_licence_gen(security_key, customer_id),
    {
        licence::licence_gen(security_key, customer_id)
    }

    /// Sync, issue the read-encryption-table command, and load the raw
    /// 32-word table into the cipher; the cursors are untouched until the
    /// table is decoded.
    fn read_encrypt_table(&mut self) -> (r: Result<(), Error>)
        ensures
            final(self).spec_config() == old(self).spec_config(),
            final(self).spec_cipher().encode_cursor() == old(self).spec_cipher().encode_cursor(),
            final(self).spec_cipher().decode_cursor() == old(self).spec_cipher().decode_cursor(),
            final(self).fifo_write_log() == old(self).fifo_write_log(),
            final(self).spec_is_open() == old(self).spec_is_open(),
            !old(self).spec_is_open() ==> (r matches Err(_)),
            (r matches Err(e) ==> spec_session_error(e)),
            (r matches Ok(_) ==> final(self).command_log() == old(self).command_log().push(
                spec_command(0x0f),
            )),
            (r matches Err(_) ==> final(self).command_log() == old(self).command_log() || final(self).command_log() == old(self).command_log().push(spec_command(0x0f))),
    {
        self.sync_delay()?;
        let command = command_bytes(0x0f);
        self.usb.write_bytes(Endpoint::Command, &command)?;
        let raw = self.usb.read_words(Endpoint::FifoRead, 32)?;
        self.encryption.load_raw_table(&raw);
        Ok(())
    }
}

} // verus!
