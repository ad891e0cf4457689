//! Bitstream upload.
//!
//! A [`Programmer`] consumes a session: it decodes the textual bitstream,
//! encrypts the whole word sequence as one continuous keystream, activates
//! FPGA-programmer mode, pushes the words through the FIFO in chunks sized
//! to the device's advertised depth, and finally re-reads the configuration
//! to verify the "programmed" status bit — the only confirmation that the
//! upload took.

use crate::bitstream;
use crate::cipher::xor_with_keystream;
use crate::config::spec_is_programmed;
use crate::device::Device;
use crate::device::spec_command;
use crate::device::spec_init_commands;
use crate::error::Error;
use crate::error::Operation;
use crate::usb::spec_bulk_error;
use vstd::prelude::*;
use vstd::seq_lib::*;

verus! {

/// `s` cut into successive chunks of `k` words; only the last chunk may be
/// shorter, and no chunk is empty.
pub open spec fn spec_chunks(s: Seq<u16>, k: nat) -> Seq<Seq<u16>>
    decreases s.len(),
    when k >= 1
{
    if s.len() == 0 {
        Seq::empty()
    } else if s.len() <= k {
        seq![s]
    } else {
        seq![s.take(k as int)] + spec_chunks(s.skip(k as int), k)
    }
}

/// Chunking loses nothing: the chunks concatenate back to the sequence.
pub proof fn lemma_chunks_concat(s: Seq<u16>, k: nat)
    requires
        k >= 1,
    ensures
        spec_chunks(s, k).flatten() == s,
    decreases s.len(),
{
    if s.len() == 0 {
        assert(spec_chunks(s, k) =~= Seq::<Seq<u16>>::empty());
        assert(spec_chunks(s, k).flatten() =~= s);
    } else if s.len() <= k {
        let chunks = spec_chunks(s, k);
        assert(chunks =~= seq![s]);
        chunks.lemma_flatten_one_element();
        assert(chunks.flatten() == s);
    } else {
        lemma_chunks_concat(s.skip(k as int), k);
        let chunks = spec_chunks(s, k);
        let head = s.take(k as int);
        let rest = spec_chunks(s.skip(k as int), k);
        assert(chunks =~= seq![head] + rest);
        assert(chunks.first() == head);
        assert(chunks.drop_first() =~= rest);
        assert(chunks.flatten() == head.add(rest.flatten()));
        assert(head + s.skip(k as int) =~= s);
    }
}

/// Every chunk but the last holds exactly `k` words; the last holds
/// between one and `k`.
pub proof fn lemma_chunks_shape(s: Seq<u16>, k: nat)
    requires
        k >= 1,
    ensures
        forall|i: int|
            0 <= i < spec_chunks(s, k).len() - 1 ==> (#[trigger] spec_chunks(s, k)[i]).len() == k,
        s.len() > 0 ==> spec_chunks(s, k).len() > 0 && 1 <= spec_chunks(s, k).last().len() <= k,
        s.len() == 0 ==> spec_chunks(s, k).len() == 0,
    decreases s.len(),
{
    if s.len() > k {
        lemma_chunks_shape(s.skip(k as int), k);
        let chunks = spec_chunks(s, k);
        let rest = spec_chunks(s.skip(k as int), k);
        assert forall|i: int| 0 <= i < chunks.len() - 1 implies (#[trigger] chunks[i]).len()
            == k by {
            if i > 0 {
                assert(chunks[i] == rest[i - 1]);
            }
        }
        assert(chunks.last() == rest.last());
    }
}

/// A 100-word stream under a 32-word chunk bound goes out as four
/// transfers of 32, 32, 32 and 4 words, in that order.
pub proof fn lemma_chunks_of_hundred(s: Seq<u16>)
    requires
        s.len() == 100,
    ensures
        spec_chunks(s, 32).len() == 4,
        spec_chunks(s, 32)[0] == s.subrange(0, 32),
        spec_chunks(s, 32)[1] == s.subrange(32, 64),
        spec_chunks(s, 32)[2] == s.subrange(64, 96),
        spec_chunks(s, 32)[3] == s.subrange(96, 100),
{
    let s1 = s.skip(32);
    let s2 = s1.skip(32);
    let s3 = s2.skip(32);
    assert(spec_chunks(s3, 32) =~= seq![s3]);
    assert(spec_chunks(s2, 32) =~= seq![s2.take(32)] + spec_chunks(s3, 32));
    assert(spec_chunks(s1, 32) =~= seq![s1.take(32)] + spec_chunks(s2, 32));
    assert(spec_chunks(s, 32) =~= seq![s.take(32)] + spec_chunks(s1, 32));
    assert(spec_chunks(s, 32)[0] =~= s.subrange(0, 32));
    assert(spec_chunks(s, 32)[1] =~= s.subrange(32, 64));
    assert(spec_chunks(s, 32)[2] =~= s.subrange(64, 96));
    assert(spec_chunks(s, 32)[3] =~= s.subrange(96, 100));
}

/// The chunk length used for an upload: the device-advertised FIFO depth
/// in words, doubled to account for the byte-pair framing of each word on
/// the wire, and at least one.
pub fn upload_chunk_len(fifo_size: u16) -> (r: usize)
    ensures
        fifo_size == 0 ==> r == 1,
        fifo_size > 0 ==> r == 2 * fifo_size,
{
    let doubled: usize = (fifo_size as usize) * 2;
    if doubled < 1 {
        1
    } else {
        doubled
    }
}

/// A copy of `words[start..end]`.
fn vec_range(words: &Vec<u16>, start: usize, end: usize) -> (r: Vec<u16>)
    requires
        start <= end <= words@.len(),
    ensures
        r@ == words@.subrange(start as int, end as int),
{
    let mut out: Vec<u16> = Vec::new();
    let mut i: usize = start;
    while i < end
        invariant
            start <= i <= end <= words@.len(),
            out@.len() == i - start,
            forall|j: int| 0 <= j < out@.len() ==> out@[j] == words@[start + j],
        decreases end - i,
    {
        out.push(words[i]);
        i = i + 1;
    }
    proof {
        assert(out@ =~= words@.subrange(start as int, end as int));
    }
    out
}

/// Push `words` through the FIFO-write endpoint in successive chunks of
/// `chunk_len` words.  On success the write log has grown by exactly the
/// chunks of `words`, in order, each a single complete transfer; on
/// failure by some prefix of them.
fn upload_in_chunks(device: &mut Device, words: &Vec<u16>, chunk_len: usize) -> (r: Result<
    (),
    Error,
>)
    requires
        chunk_len >= 1,
    ensures
        final(device).spec_config() == old(device).spec_config(),
        final(device).spec_cipher() == old(device).spec_cipher(),
        final(device).spec_is_open() == old(device).spec_is_open(),
        final(device).command_log() == old(device).command_log(),
        (r matches Err(e) ==> spec_bulk_error(e, Operation::BulkWrite)),
        (r matches Ok(_) ==> final(device).fifo_write_log() == old(device).fifo_write_log()
            + spec_chunks(words@, chunk_len as nat)),
        old(device).fifo_write_log().is_prefix_of(final(device).fifo_write_log()),
{
    let ghost old_log = device.fifo_write_log();
    let mut offset: usize = 0;
    proof {
        assert(words@.skip(0) =~= words@);
    }
    while offset < words.len()
        invariant
            0 <= offset <= words@.len(),
            chunk_len >= 1,
            device.spec_config() == old(device).spec_config(),
            device.spec_cipher() == old(device).spec_cipher(),
            device.spec_is_open() == old(device).spec_is_open(),
            device.command_log() == old(device).command_log(),
            old_log == old(device).fifo_write_log(),
            old_log.is_prefix_of(device.fifo_write_log()),
            old_log + spec_chunks(words@, chunk_len as nat) == device.fifo_write_log()
                + spec_chunks(words@.skip(offset as int), chunk_len as nat),
        decreases words@.len() - offset,
    {
        let remaining = words.len() - offset;
        let step = if chunk_len < remaining {
            chunk_len
        } else {
            remaining
        };
        let end = offset + step;
        let chunk = vec_range(words, offset, end);
        let ghost suffix = words@.skip(offset as int);
        proof {
            assert(suffix.len() == remaining);
            if suffix.len() <= chunk_len {
                assert(chunk@ =~= suffix);
                assert(spec_chunks(suffix, chunk_len as nat) =~= seq![suffix]);
            } else {
                assert(chunk@ =~= suffix.take(chunk_len as int));
                assert(suffix.skip(chunk_len as int) =~= words@.skip(end as int));
            }
        }
        let ghost log_before = device.fifo_write_log();
        match device.fifo_write(&chunk) {
            Ok(_) => (),
            Err(e) => {
                return Err(e);
            },
        }
        proof {
            assert(device.fifo_write_log() == log_before.push(chunk@));
            assert(log_before.push(chunk@) =~= log_before + seq![chunk@]);
            assert((device.fifo_write_log() + spec_chunks(
                words@.skip(end as int),
                chunk_len as nat,
            )) =~= (log_before + (seq![chunk@] + spec_chunks(
                words@.skip(end as int),
                chunk_len as nat,
            ))));
            if suffix.len() <= chunk_len {
                assert(words@.skip(end as int) =~= Seq::<u16>::empty());
                assert(spec_chunks(words@.skip(end as int), chunk_len as nat)
                    =~= Seq::<Seq<u16>>::empty());
                assert(seq![chunk@] + spec_chunks(words@.skip(end as int), chunk_len as nat)
                    =~= spec_chunks(suffix, chunk_len as nat));
            } else {
                assert(seq![chunk@] + spec_chunks(words@.skip(end as int), chunk_len as nat)
                    =~= spec_chunks(suffix, chunk_len as nat));
            }
            assert(old_log.is_prefix_of(device.fifo_write_log()));
        }
        offset = end;
    }
    proof {
        assert(words@.skip(words@.len() as int) =~= Seq::<u16>::empty());
        assert(spec_chunks(words@.skip(words@.len() as int), chunk_len as nat) =~= Seq::<
            Seq<u16>,
        >::empty());
        assert(device.fifo_write_log() + Seq::<Seq<u16>>::empty() =~= device.fifo_write_log());
    }
    Ok(())
}

/// The commands of one complete upload, in order: session initialization,
/// programmer-mode activation, return to active, then the verifying
/// configuration read with its own return to active.
pub open spec fn spec_program_commands() -> Seq<Seq<u8>> {
    spec_init_commands() + seq![
        spec_command(0x02),
        spec_command(0x00),
        spec_command(0x01),
        spec_command(0x00),
    ]
}

/// What a completed upload guarantees: the re-read configuration shows the
/// device programmed, the write log has grown by exactly the chunks of the
/// words `ws` encrypted under the session table from a fresh cursor (one
/// continuous keystream, so the encode cursor ends at `ws.len() % 16`), and
/// the upload's command sequence went out in order.
pub open spec fn spec_upload_complete(
    old_log: Seq<Seq<u16>>,
    old_commands: Seq<Seq<u8>>,
    d: Device,
    ws: Seq<u16>,
) -> bool {
    &&& spec_is_programmed(d.spec_config()@)
    &&& exists|chunk_len: nat|
        chunk_len >= 1 && d.fifo_write_log() == old_log + spec_chunks(
            xor_with_keystream(ws, d.spec_cipher().table_view(), 16, 0),
            chunk_len,
        )
    &&& d.spec_cipher().encode_cursor() == ws.len() % 16
    &&& d.command_log() == old_commands + spec_program_commands()
}

/// Manages FPGA bitstream uploads over a [`Device`] session.
pub struct Programmer {
    device: Device,
}

impl Programmer {
    /// The owned session.
    pub closed spec fn spec_device(&self) -> Device {
        self.device
    }

    /// The session cipher cursors sit inside their keystream halves.
    pub open spec fn wf(&self) -> bool {
        self.spec_device().wf()
    }

    /// Wrap an existing session.
    pub fn new(device: Device) -> (r: Self)
        ensures
            r.spec_device() == device,
    {
        Programmer { device }
    }

    /// Open and initialize a fresh session.
    pub fn connect() -> (r: Result<Self, Error>)
        ensures
            (r matches Ok(p) ==> p.wf() && p.spec_device().spec_is_open() && p.spec_device().spec_cipher().encode_cursor() == 0 && p.spec_device().spec_cipher().decode_cursor() == 0 && p.spec_device().command_log() == spec_init_commands()),
    {
        let device = Device::connect()?;
        Ok(Programmer { device })
    }

    /// The session, read-only.
    pub fn device(&self) -> (r: &Device)
        ensures
            r == self.spec_device(),
    {
        &self.device
    }

    /// The session, for direct use.
    pub fn device_mut(&mut self) -> (r: &mut Device)
        ensures
            *r == old(self).spec_device(),
            final(self).spec_device() == *final(r),
    {
        &mut self.device
    }

    /// Close the session, consuming the programmer; no command precedes
    /// the release.
    pub fn close(self) -> (r: Result<(), Error>)
        ensures
            (r matches Err(e) ==> e matches Error::Usb { .. }),
    {
        let mut device = self.device;
        device.close()
    }

    /// Upload a bitstream, given as its raw text bytes.  The text is split
    /// into lines and decoded; the words are encrypted as one continuous
    /// keystream starting at a fresh session's cursor, sent in chunks sized
    /// by [`upload_chunk_len`], and the programmed bit is verified
    /// afterwards — on success the write log has grown by exactly those
    /// chunks and the re-read configuration shows the device programmed.
    pub fn program(&mut self, text: &Vec<u8>) -> (r: Result<(), Error>)
        requires
            old(self).wf(),
        ensures
            final(self).wf(),
            (match spec_decode_result(text@) {
                Some(ws) => if ws.len() == 0 {
                    r == Err::<(), Error>(
                        Error::InvalidBitfile(crate::error::BitstreamFault::Empty),
                    )
                } else {
                    r matches Ok(_) ==> spec_upload_complete(
                        old(self).spec_device().fifo_write_log(),
                        old(self).spec_device().command_log(),
                        final(self).spec_device(),
                        ws,
                    )
                },
                None => r == Err::<(), Error>(
                    Error::InvalidBitfile(crate::error::BitstreamFault::NonHexByte),
                ),
            }),
            (r == Err::<(), Error>(Error::NotProgrammed) ==> !spec_is_programmed(
                final(self).spec_device().spec_config()@,
            )),
    {
        let mut program_data = match bitstream::decode_bitstream(text) {
            Ok(data) => data,
            Err(e) => {
                return Err(e);
            },
        };

        let ghost commands0 = self.device.command_log();
        self.device.ensure_session()?;
        self.device.encrypt(&mut program_data);
        self.device.activate_fpga_programmer()?;

        let chunk_len = upload_chunk_len(self.device.config().fifo_size());
        upload_in_chunks(&mut self.device, &program_data, chunk_len)?;

        self.device.command_active()?;
        self.device.read_config()?;

        if !self.device.config().is_programmed() {
            return Err(Error::NotProgrammed);
        }
        proof {
            assert(chunk_len >= 1);
            assert(self.device.fifo_write_log() == old(self).spec_device().fifo_write_log()
                + spec_chunks(program_data@, chunk_len as nat));
            let after_init = commands0 + spec_init_commands();
            assert(after_init.push(spec_command(0x02)).push(spec_command(0x00)) + seq![
                spec_command(0x01),
                spec_command(0x00),
            ] =~= commands0 + spec_program_commands());
            let decoded = spec_decode_result(text@);
            if decoded is Some {
                let ws = decoded->Some_0;
                if ws.len() > 0 {
                    assert(spec_upload_complete(
                        old(self).spec_device().fifo_write_log(),
                        commands0,
                        self.device,
                        ws,
                    ));
                }
            }
        }
        Ok(())
    }
}

/// The decoded words of a bitstream's text, as [`bitstream::spec_decode_lines`]
/// over its split lines.
pub open spec fn spec_decode_result(text: Seq<u8>) -> Option<Seq<u16>> {
    bitstream::spec_decode_lines(bitstream::spec_split_lines(text))
}

} // verus!
