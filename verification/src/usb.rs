//! The USB transport: a thin, mostly-trusted boundary around `rusb`.
//!
//! Each `#[verifier::external_body]` function here wraps exactly one libusb
//! call and states only what the `rusb` documentation promises of it.  On
//! top of those wrappers stand verified pieces: the retry loops that drive a
//! bulk transfer to completion, and the explicit little-endian packing
//! between the protocol's 16-bit words and the wire's bytes.  The device
//! keeps two ghost logs — the completed word transfers to the FIFO-write
//! endpoint, and the completed commands written to the Command endpoint —
//! so that callers can state exactly what went down the wire.

use crate::constants;
use crate::error::Error;
use crate::error::Operation;
use crate::error::UsbCall;
use vstd::prelude::*;

verus! {

/// `rusb::Context`, a libusb context, held opaquely.
#[verifier::external_type_specification]
#[verifier::external_body]
pub struct ExContext(rusb::Context);

/// An open libusb device handle.  `rusb::DeviceHandle` is generic over a
/// context trait that Verus cannot see, so the handle is held inside this
/// opaque single-field struct instead of being declared directly.
#[verifier::external_body]
pub struct RawHandle {
    inner: rusb::DeviceHandle<rusb::Context>,
}

/// The four logical endpoints of the board, each a single wire channel.
#[derive(Clone, Copy, Debug, PartialEq, Eq, Structural)]
pub enum Endpoint {
    FifoWrite,
    Command,
    FifoRead,
    Sync,
}

/// The wire address of each endpoint.
pub open spec fn spec_endpoint_address(e: Endpoint) -> u8 {
    match e {
        Endpoint::FifoWrite => 0x02,
        Endpoint::Command => 0x04,
        Endpoint::FifoRead => 0x86,
        Endpoint::Sync => 0x88,
    }
}

impl Endpoint {
    /// The endpoint's address on the wire.
    pub fn address(self) -> (r: u8)
        ensures
            r == spec_endpoint_address(self),
    {
        match self {
            Endpoint::FifoWrite => 0x02,
            Endpoint::Command => 0x04,
            Endpoint::FifoRead => 0x86,
            Endpoint::Sync => 0x88,
        }
    }
}

/// The errors a byte transfer can produce of itself: a closed device, a
/// failed libusb bulk transfer, or a zero-length transfer counted as no
/// progress.
pub open spec fn spec_bulk_error(e: Error, op: Operation) -> bool {
    ||| e == Error::DeviceNotOpen
    ||| e matches Error::Usb { context: UsbCall::BulkTransfer, detail: _ }
    ||| e == Error::UnexpectedResponse(op)
}

/// The single zero byte the sync handshake writes as its probe; not a
/// command.
pub open spec fn spec_sync_probe() -> Seq<u8> {
    seq![0u8]
}

/// The low byte of a word, first on the wire.
pub open spec fn spec_word_lo(w: u16) -> u8 {
    (w & 0x00ff) as u8
}

/// The high byte of a word, second on the wire.
pub open spec fn spec_word_hi(w: u16) -> u8 {
    (w >> 8) as u8
}

/// Words laid out on the wire: each word as two bytes, low byte first
/// (little-endian, a protocol contract).
pub open spec fn spec_words_to_bytes(words: Seq<u16>) -> Seq<u8> {
    Seq::new(
        words.len() * 2,
        |i: int|
            if i % 2 == 0 {
                spec_word_lo(words[i / 2])
            } else {
                spec_word_hi(words[i / 2])
            },
    )
}

/// Bytes off the wire reassembled into words, low byte first.
pub open spec fn spec_bytes_to_words(bytes: Seq<u8>) -> Seq<u16> {
    Seq::new(
        bytes.len() / 2,
        |i: int| ((bytes[2 * i] as u16) | ((bytes[2 * i + 1] as u16) << 8)) as u16,
    )
}

/// Lay `words` out on the wire, low byte of each word first.
pub fn words_to_bytes(words: &Vec<u16>) -> (r: Vec<u8>)
    ensures
        r@ == spec_words_to_bytes(words@),
{
    let mut out: Vec<u8> = Vec::new();
    let mut i: usize = 0;
    while i < words.len()
        invariant
            0 <= i <= words@.len(),
            out@.len() == 2 * i,
            forall|j: int| 0 <= j < out@.len() ==> out@[j] == spec_words_to_bytes(words@)[j],
        decreases words@.len() - i,
    {
        let w = words[i];
        proof {
            assert(w & 0x00ff <= 0xff) by (bit_vector);
        }
        out.push((w & 0x00ff) as u8);
        out.push((w >> 8) as u8);
        i = i + 1;
    }
    proof {
        assert(out@ =~= spec_words_to_bytes(words@));
    }
    out
}

/// Reassemble words from wire bytes; `bytes` must hold whole words.
pub fn bytes_to_words(bytes: &Vec<u8>) -> (r: Vec<u16>)
    requires
        bytes@.len() % 2 == 0,
    ensures
        r@ == spec_bytes_to_words(bytes@),
{
    let mut out: Vec<u16> = Vec::new();
    let mut i: usize = 0;
    while i < bytes.len()
        invariant
            0 <= i <= bytes@.len(),
            i % 2 == 0,
            bytes@.len() % 2 == 0,
            out@.len() == i / 2,
            forall|j: int| 0 <= j < out@.len() ==> out@[j] == spec_bytes_to_words(bytes@)[j],
        decreases bytes@.len() - i,
    {
        let lo = bytes[i];
        let hi = bytes[i + 1];
        out.push((lo as u16) | ((hi as u16) << 8));
        i = i + 2;
    }
    proof {
        assert(i == bytes@.len());
        assert(out@.len() == spec_bytes_to_words(bytes@).len());
        assert(out@ =~= spec_bytes_to_words(bytes@));
    }
    out
}

/// Relies on `rusb::Context::new`: creates a libusb context or reports why
/// it cannot.
#[verifier::external_body]
fn usb_context_new() -> (r: Result<rusb::Context, Error>)
    ensures
        (r matches Err(e) ==> e matches Error::Usb { context: UsbCall::Init, detail: _ }),
{
    match rusb::Context::new() {
        Ok(context) => Ok(context),
        Err(err) => Err(
            Error::Usb { context: UsbCall::Init, detail: format!("{err}") },
        ),
    }
}

/// Relies on `rusb::UsbContext::open_device_with_vid_pid`: returns a handle
/// for the first device matching the identity, `None` on error or absence.
#[verifier::external_body]
fn usb_open_vid_pid(context: &rusb::Context, vid: u16, pid: u16) -> (r: Option<RawHandle>) {
    match rusb::UsbContext::open_device_with_vid_pid(context, vid, pid) {
        Some(inner) => Some(RawHandle { inner }),
        None => None,
    }
}

/// Relies on `rusb::DeviceHandle::reset`: performs a USB port reset.
#[verifier::external_body]
fn usb_reset(handle: &RawHandle) -> (r: Result<(), Error>)
    ensures
        (r matches Err(e) ==> e matches Error::Usb { context: UsbCall::Reset, detail: _ }),
{
    match handle.inner.reset() {
        Ok(()) => Ok(()),
        Err(err) => Err(
            Error::Usb { context: UsbCall::Reset, detail: format!("{err}") },
        ),
    }
}

/// Relies on `rusb::DeviceHandle::claim_interface`.
#[verifier::external_body]
fn usb_claim_interface(handle: &RawHandle, iface: u8) -> (r: Result<(), Error>)
    ensures
        (r matches Err(e) ==> e matches Error::Usb {
            context: UsbCall::ClaimInterface,
            detail: _,
        }),
{
    match handle.inner.claim_interface(iface) {
        Ok(()) => Ok(()),
        Err(err) => Err(
            Error::Usb { context: UsbCall::ClaimInterface, detail: format!("{err}") },
        ),
    }
}

/// Relies on `rusb::DeviceHandle::clear_halt`.
#[verifier::external_body]
fn usb_clear_halt(handle: &RawHandle, endpoint: u8) -> (r: Result<(), Error>)
    ensures
        (r matches Err(e) ==> e matches Error::Usb { context: UsbCall::ClearHalt, detail: _ }),
{
    match handle.inner.clear_halt(endpoint) {
        Ok(()) => Ok(()),
        Err(err) => Err(
            Error::Usb { context: UsbCall::ClearHalt, detail: format!("{err}") },
        ),
    }
}

/// Relies on `rusb::DeviceHandle::release_interface`.  A `NoDevice` answer
/// is benign here: the device already detached, there is nothing to release.
#[verifier::external_body]
fn usb_release_interface_tolerant(handle: &RawHandle, iface: u8) -> (r: Result<(), Error>)
    ensures
        (r matches Err(e) ==> e matches Error::Usb {
            context: UsbCall::ReleaseInterface,
            detail: _,
        }),
{
    match handle.inner.release_interface(iface) {
        Ok(()) | Err(rusb::Error::NoDevice) => Ok(()),
        Err(err) => Err(
            Error::Usb { context: UsbCall::ReleaseInterface, detail: format!("{err}") },
        ),
    }
}

/// Relies on `rusb::DeviceHandle::read_bulk`: on `Ok(n)`, exactly `n` bytes
/// were received into the buffer's first `n` positions; `n` never exceeds
/// the buffer's length.
#[verifier::external_body]
fn usb_read_bulk(
    handle: &RawHandle,
    endpoint: u8,
    max_len: usize,
    timeout_ms: u64,
) -> (r: Result<Vec<u8>, Error>)
    ensures
        (r matches Ok(data) ==> data@.len() <= max_len),
        (r matches Err(e) ==> e matches Error::Usb { context: UsbCall::BulkTransfer, detail: _ }),
{
    let mut buffer = vec![0u8; max_len];
    match handle.inner.read_bulk(endpoint, &mut buffer, core::time::Duration::from_millis(timeout_ms)) {
        Ok(n) => {
            buffer.truncate(n);
            Ok(buffer)
        },
        Err(err) => Err(
            Error::Usb { context: UsbCall::BulkTransfer, detail: format!("{err}") },
        ),
    }
}

/// Relies on `rusb::DeviceHandle::write_bulk`: on `Ok(n)`, the first `n`
/// bytes of the given suffix of `data` were sent; `n` never exceeds that
/// suffix's length.
#[verifier::external_body]
fn usb_write_bulk(
    handle: &RawHandle,
    endpoint: u8,
    data: &Vec<u8>,
    offset: usize,
    timeout_ms: u64,
) -> (r: Result<usize, Error>)
    requires
        offset <= data@.len(),
    ensures
        (r matches Ok(n) ==> offset + n <= data@.len()),
        (r matches Err(e) ==> e matches Error::Usb { context: UsbCall::BulkTransfer, detail: _ }),
{
    match handle.inner.write_bulk(endpoint, &data[offset..], core::time::Duration::from_millis(timeout_ms))
    {
        Ok(n) => Ok(n),
        Err(err) => Err(
            Error::Usb { context: UsbCall::BulkTransfer, detail: format!("{err}") },
        ),
    }
}

/// Write all of `buffer` to the endpoint at `address`, retrying against
/// short writes until every byte is accepted.  A zero-byte write is an
/// unexpected response, not progress.
fn bulk_write_all(handle: &RawHandle, address: u8, buffer: &Vec<u8>) -> (r: Result<(), Error>)
    ensures
        (r matches Err(e) ==> spec_bulk_error(e, Operation::BulkWrite)),
{
    let mut offset: usize = 0;
    while offset < buffer.len()
        invariant
            offset <= buffer@.len(),
        decreases buffer@.len() - offset,
    {
        let written = usb_write_bulk(handle, address, buffer, offset, constants::BULK_TIMEOUT_MS)?;
        if written == 0 {
            return Err(Error::UnexpectedResponse(Operation::BulkWrite));
        }
        offset = offset + written;
    }
    Ok(())
}

/// Read exactly `len` bytes from the endpoint at `address`, retrying
/// against short reads until the buffer is full.  A zero-byte read is an
/// unexpected response, not progress.
fn bulk_read_exact(handle: &RawHandle, address: u8, len: usize) -> (r: Result<Vec<u8>, Error>)
    ensures
        (r matches Ok(data) ==> data@.len() == len),
        (r matches Err(e) ==> spec_bulk_error(e, Operation::BulkRead)),
{
    let mut out: Vec<u8> = Vec::new();
    while out.len() < len
        invariant
            out@.len() <= len,
        decreases len - out@.len(),
    {
        let mut chunk = usb_read_bulk(handle, address, len - out.len(), constants::BULK_TIMEOUT_MS)?;
        if chunk.len() == 0 {
            return Err(Error::UnexpectedResponse(Operation::BulkRead));
        }
        out.append(&mut chunk);
    }
    Ok(out)
}

/// The transport half of a session: a libusb context, at most one open
/// handle, and two ghost logs — the completed word transfers to the
/// FIFO-write endpoint, and the completed command writes to the Command
/// endpoint.
pub struct UsbDevice {
    context: Option<rusb::Context>,
    handle: Option<RawHandle>,
    fifo_writes: Ghost<Seq<Seq<u16>>>,
    command_writes: Ghost<Seq<Seq<u8>>>,
}

impl UsbDevice {
    /// Whether a device handle is currently open.
    pub closed spec fn spec_is_open(&self) -> bool {
        self.handle is Some
    }

    /// Every completed word transfer to the FIFO-write endpoint, oldest
    /// first, each entry one `write_words` call.
    pub closed spec fn fifo_write_log(&self) -> Seq<Seq<u16>> {
        self.fifo_writes@
    }

    /// Every completed command written to the Command endpoint, oldest
    /// first, each entry the bytes of one `write_bytes` call.  The sync
    /// handshake's single-zero probe is not a command and is not recorded.
    pub closed spec fn command_log(&self) -> Seq<Seq<u8>> {
        self.command_writes@
    }

    /// A closed transport; the libusb context is acquired lazily on the
    /// first open, since host-process USB-stack initialization is not this
    /// layer's concern.
    pub fn new() -> (r: Result<Self, Error>)
        ensures
            r matches Ok(d) ==> !d.spec_is_open() && d.fifo_write_log() == Seq::<Seq<u16>>::empty()
                && d.command_log() == Seq::<Seq<u8>>::empty(),
    {
        Ok(
            UsbDevice {
                context: None,
                handle: None,
                fifo_writes: Ghost(Seq::empty()),
                command_writes: Ghost(Seq::empty()),
            },
        )
    }

    pub fn is_open(&self) -> (r: bool)
        ensures
            r == self.spec_is_open(),
    {
        self.handle.is_some()
    }

    /// The libusb context, if one has been acquired, for callers that
    /// attach their own event machinery (such as a hotplug listener) to
    /// the same context.
    pub fn context(&self) -> Option<&rusb::Context> {
        self.context.as_ref()
    }

    /// Open the device with the given identity: find it, reset it, claim
    /// its interface and clear all four endpoints.  Opening an already-open
    /// device is a no-op success.
    pub fn open(&mut self, vid: u16, pid: u16) -> (r: Result<(), Error>)
        ensures
            final(self).fifo_write_log() == old(self).fifo_write_log(),
            final(self).command_log() == old(self).command_log(),
            (r matches Err(e) ==> (e matches Error::DeviceNotFound { .. } || e matches Error::Usb {
                ..
            })),
            r matches Ok(_) ==> final(self).spec_is_open(),
            old(self).spec_is_open() ==> (r matches Ok(_) && *final(self) == *old(self)),
            (match r {
                Err(Error::DeviceNotFound { vid: v, pid: p }) => v == vid && p == pid,
                _ => true,
            }),
            r matches Err(_) ==> !final(self).spec_is_open(),
    {
        if self.handle.is_some() {
            return Ok(());
        }
        if self.context.is_none() {
            self.context = Some(usb_context_new()?);
        }
        let context = match self.context.as_ref() {
            Some(context) => context,
            None => {
                return Err(Error::DeviceNotFound { vid, pid });
            },
        };
        let handle = match usb_open_vid_pid(context, vid, pid) {
            Some(handle) => handle,
            None => {
                return Err(Error::DeviceNotFound { vid, pid });
            },
        };
        usb_reset(&handle)?;
        usb_claim_interface(&handle, constants::USB_INTERFACE)?;
        usb_clear_halt(&handle, Endpoint::FifoWrite.address())?;
        usb_clear_halt(&handle, Endpoint::Command.address())?;
        usb_clear_halt(&handle, Endpoint::FifoRead.address())?;
        usb_clear_halt(&handle, Endpoint::Sync.address())?;
        self.handle = Some(handle);
        Ok(())
    }

    /// Release the claimed interface and drop the handle.  Closing a closed
    /// device is a no-op success, and a device that already detached counts
    /// as released.
    pub fn close(&mut self) -> (r: Result<(), Error>)
        ensures
            final(self).fifo_write_log() == old(self).fifo_write_log(),
            final(self).command_log() == old(self).command_log(),
            !final(self).spec_is_open(),
            !old(self).spec_is_open() ==> (r matches Ok(_) && *final(self) == *old(self)),
            (r matches Err(e) ==> e matches Error::Usb { .. }),
    {
        let handle = self.handle.take();
        match handle {
            Some(h) => usb_release_interface_tolerant(&h, constants::USB_INTERFACE),
            None => Ok(()),
        }
    }

    /// Write all of `buffer` to `endpoint`.  A closed device answers
    /// `DeviceNotOpen`.  A completed write to the Command endpoint, other
    /// than the sync probe, is appended to the command log.
    pub fn write_bytes(&mut self, endpoint: Endpoint, buffer: &Vec<u8>) -> (r: Result<(), Error>)
        ensures
            final(self).spec_is_open() == old(self).spec_is_open(),
            final(self).fifo_write_log() == old(self).fifo_write_log(),
            !old(self).spec_is_open() ==> r == Err::<(), Error>(Error::DeviceNotOpen),
            (r matches Err(e) ==> spec_bulk_error(e, Operation::BulkWrite)),
            (r matches Err(_) ==> *final(self) == *old(self)),
            r matches Ok(_) && endpoint == Endpoint::Command && buffer@ != spec_sync_probe()
                ==> final(self).command_log() == old(self).command_log().push(buffer@),
            !(r matches Ok(_) && endpoint == Endpoint::Command && buffer@ != spec_sync_probe())
                ==> final(self).command_log() == old(self).command_log(),
    {
        let outcome = match self.handle.as_ref() {
            Some(handle) => bulk_write_all(handle, endpoint.address(), buffer),
            None => Err(Error::DeviceNotOpen),
        };
        match outcome {
            Ok(_) => {
                let probe = buffer.len() == 1 && buffer[0] == 0x00;
                proof {
                    if probe {
                        assert(buffer@ =~= spec_sync_probe());
                    } else {
                        assert(buffer@ != spec_sync_probe());
                    }
                }
                if matches!(endpoint, Endpoint::Command) && !probe {
                    self.command_writes = Ghost(self.command_writes@.push(buffer@));
                }
                Ok(())
            },
            Err(e) => Err(e),
        }
    }

    /// Read exactly `len` bytes from `endpoint`.  A closed device answers
    /// `DeviceNotOpen`.
    pub fn read_bytes(&self, endpoint: Endpoint, len: usize) -> (r: Result<Vec<u8>, Error>)
        ensures
            (r matches Ok(data) ==> data@.len() == len),
            (r matches Err(e) ==> spec_bulk_error(e, Operation::BulkRead)),
            !self.spec_is_open() ==> r == Err::<Vec<u8>, Error>(Error::DeviceNotOpen),
    {
        match self.handle.as_ref() {
            Some(handle) => bulk_read_exact(handle, endpoint.address(), len),
            None => Err(Error::DeviceNotOpen),
        }
    }

    /// Write `words` to `endpoint` as little-endian bytes, completely.  A
    /// completed transfer to the FIFO-write endpoint is appended to the
    /// ghost log; transfers to other endpoints, and failed transfers, are
    /// not.
    pub fn write_words(&mut self, endpoint: Endpoint, words: &Vec<u16>) -> (r: Result<(), Error>)
        ensures
            final(self).spec_is_open() == old(self).spec_is_open(),
            !old(self).spec_is_open() ==> r == Err::<(), Error>(Error::DeviceNotOpen),
            (r matches Err(e) ==> spec_bulk_error(e, Operation::BulkWrite)),
            endpoint != Endpoint::Command ==> final(self).command_log() == old(self).command_log(),
            r matches Ok(_) && endpoint == Endpoint::FifoWrite ==> final(self).fifo_write_log()
                == old(self).fifo_write_log().push(words@),
            !(r matches Ok(_) && endpoint == Endpoint::FifoWrite) ==> final(self).fifo_write_log()
                == old(self).fifo_write_log(),
    {
        let bytes = words_to_bytes(words);
        self.write_bytes(endpoint, &bytes)?;
        if matches!(endpoint, Endpoint::FifoWrite) {
            self.fifo_writes = Ghost(self.fifo_writes@.push(words@));
        }
        Ok(())
    }

    /// Read exactly `len` words from `endpoint`, reassembled from
    /// little-endian bytes.
    pub fn read_words(&self, endpoint: Endpoint, len: usize) -> (r: Result<Vec<u16>, Error>)
        requires
            len <= usize::MAX / 2,
        ensures
            (r matches Ok(data) ==> data@.len() == len),
            (r matches Err(e) ==> spec_bulk_error(e, Operation::BulkRead)),
            !self.spec_is_open() ==> r == Err::<Vec<u16>, Error>(Error::DeviceNotOpen),
    {
        let bytes = self.read_bytes(endpoint, len * 2)?;
        let words = bytes_to_words(&bytes);
        Ok(words)
    }
}

} // verus!
