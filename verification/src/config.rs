//! The device's configuration register bank, mirrored on the host.
//!
//! The bank is a fixed array of 64 words whose meaning is positional: the
//! protocol fixes which word and which bits hold each field.  Every setter
//! masks so that unrelated bits of a shared word are preserved, and every
//! accessor pair round-trips: setting a field then reading it back returns
//! the written value (masked to the field's width) while every other bit
//! position of the bank is unchanged.  Those two facts are stated in the
//! `ensures` of each setter.

use vstd::prelude::*;

verus! {

/// The host's view of the device's 64-word configuration bank.
///
/// Default-constructed to all zero, replaced wholesale by a configuration
/// read, mutated locally through the field setters, and pushed back by a
/// configuration write; never partially written.
#[derive(Debug, Clone, PartialEq, Eq)]
pub struct Config {
    words: [u16; 64],
}

impl View for Config {
    type V = Seq<u16>;

    closed spec fn view(&self) -> Seq<u16> {
        self.words@
    }
}

impl Default for Config {
    /// The all-zero bank.
    fn default() -> (r: Self)
        ensures
            r@ == Seq::new(64, |i: int| 0u16),
    {
        let words = [0u16; 64];
        proof {
            assert(words@ =~= Seq::new(64, |i: int| 0u16));
        }
        Config { words }
    }
}

/// The packed firmware version word.
pub open spec fn spec_smims_version_raw(w: Seq<u16>) -> u16 {
    w[32]
}

/// Whether the "programmed" status bit (word 48, bit 0) is set.
pub open spec fn spec_is_programmed(w: Seq<u16>) -> bool {
    w[48] & 0x0001 != 0
}

/// Whether a capability bit of the word-37 bitmask is set.
pub open spec fn spec_has_state_flag(w: Seq<u16>, mask: u16) -> bool {
    w[37] & mask != 0
}

/// The ISV nibble packed into bits 4..8 of word 2.
pub open spec fn spec_vericomm_isv(w: Seq<u16>) -> u8 {
    ((w[2] >> 4) & 0x000f) as u8
}

/// The clock-check-enable flag, bit 0 of word 2.
pub open spec fn spec_vericomm_clock_check_enabled(w: Seq<u16>) -> bool {
    w[2] & 0x0001 != 0
}

/// The SDK channel selector, low byte of word 3.
pub open spec fn spec_veri_sdk_channel_selector(w: Seq<u16>) -> u8 {
    (w[3] & 0x00ff) as u8
}

/// The mode selector, high byte of word 3.
pub open spec fn spec_mode_selector(w: Seq<u16>) -> u8 {
    (w[3] >> 8) as u8
}

impl Config {
    /// The all-zero bank, as [`Default::default`].
    pub fn new() -> (r: Self)
        ensures
            r@ == Seq::new(64, |i: int| 0u16),
    {
        Self::default()
    }

    /// Every view of a configuration bank has exactly 64 words.
    pub proof fn lemma_word_count(&self)
        ensures
            self@.len() == 64,
    {
    }

    /// Adopt a full 64-word image wholesale, as after a configuration read.
    pub fn from_words(words: [u16; 64]) -> (r: Self)
        ensures
            r@ == words@,
    {
        Self { words }
    }

    /// Adopt a full 64-word image given as a vector, as off the wire.
    pub fn from_word_vec(words: &Vec<u16>) -> (r: Self)
        requires
            words@.len() == 64,
        ensures
            r@ == words@,
    {
        let mut array = [0u16; 64];
        let mut i: usize = 0;
        while i < 64
            invariant
                0 <= i <= 64,
                words@.len() == 64,
                array@.len() == 64,
                forall|j: int| 0 <= j < i ==> array@[j] == words@[j],
            decreases 64 - i,
        {
            array[i] = words[i];
            i = i + 1;
        }
        proof {
            assert(array@ =~= words@);
        }
        Config { words: array }
    }

    /// The bank as a vector of words, for transport round-trips.
    pub fn to_word_vec(&self) -> (r: Vec<u16>)
        ensures
            r@ == self@,
    {
        let mut out: Vec<u16> = Vec::new();
        let mut i: usize = 0;
        while i < 64
            invariant
                0 <= i <= 64,
                out@.len() == i,
                self.words@.len() == 64,
                forall|j: int| 0 <= j < i ==> out@[j] == self.words@[j],
            decreases 64 - i,
        {
            out.push(self.words[i]);
            i = i + 1;
        }
        proof {
            assert(out@ =~= self@);
        }
        out
    }

    /// The raw word array, for transport round-trips.
    pub fn words(&self) -> (r: &[u16; 64])
        ensures
            r@ == self@,
    {
        &self.words
    }

    /// Mutable access to the raw word array.
    pub fn words_mut(&mut self) -> (r: &mut [u16; 64])
        ensures
            r@ == old(self)@,
            final(self)@ == final(r)@,
    {
        &mut self.words
    }

    /// Word 0: VeriComm clock high delay, in device clock units.
    pub fn vericomm_clock_high_delay(&self) -> (r: u16)
        ensures
            r == self@[0],
    {
        self.words[0]
    }

    pub fn set_vericomm_clock_high_delay(&mut self, delay: u16)
        ensures
            final(self)@ == old(self)@.update(0, delay),
    {
        self.words[0] = delay;
    }

    /// Word 1: VeriComm clock low delay, in device clock units.
    pub fn vericomm_clock_low_delay(&self) -> (r: u16)
        ensures
            r == self@[1],
    {
        self.words[1]
    }

    pub fn set_vericomm_clock_low_delay(&mut self, delay: u16)
        ensures
            final(self)@ == old(self)@.update(1, delay),
    {
        self.words[1] = delay;
    }

    /// The ISV nibble of word 2.
    pub fn vericomm_isv(&self) -> (r: u8)
        ensures
            r == spec_vericomm_isv(self@),
    {
        ((self.words[2] >> 4) & 0x000f) as u8
    }

    /// Store the low nibble of `value` into bits 4..8 of word 2, preserving
    /// the clock-check-enable bit that shares the word.
    pub fn set_vericomm_isv(&mut self, value: u8)
        ensures
            final(self)@ == old(self)@.update(
                2,
                ((((value & 0x0f) as u16) << 4) | (old(self)@[2] & 0x0001)) as u16,
            ),
            spec_vericomm_isv(final(self)@) == value & 0x0f,
            value < 16 ==> spec_vericomm_isv(final(self)@) == value,
            spec_vericomm_clock_check_enabled(final(self)@) == spec_vericomm_clock_check_enabled(
                old(self)@,
            ),
    {
        proof {
            assert(value < 16 ==> value & 0x0f == value) by (bit_vector);
        }
        let masked: u16 = (value & 0x0f) as u16;
        let clock_check: u16 = self.words[2] & 0x0001;
        let packed: u16 = (masked << 4) | clock_check;
        proof {
            let w2 = self.words@[2];
            assert((((((value & 0x0f) as u16) << 4) | (w2 & 0x0001)) >> 4) & 0x000f == (value
                & 0x0f) as u16) by (bit_vector);
            assert(((((value & 0x0f) as u16) << 4) | (w2 & 0x0001)) & 0x0001 == w2
                & 0x0001) by (bit_vector);
        }
        self.words[2] = packed;
    }

    /// The clock-check-enable flag of word 2.
    pub fn vericomm_clock_check_enabled(&self) -> (r: bool)
        ensures
            r == spec_vericomm_clock_check_enabled(self@),
    {
        self.words[2] & 0x0001 != 0
    }

    /// Set or clear bit 0 of word 2, preserving the ISV nibble that shares
    /// the word.
    pub fn set_vericomm_clock_check_enabled(&mut self, enabled: bool)
        ensures
            final(self)@ == old(self)@.update(
                2,
                if enabled {
                    (old(self)@[2] | 0x0001) as u16
                } else {
                    (old(self)@[2] & !0x0001) as u16
                },
            ),
            spec_vericomm_clock_check_enabled(final(self)@) == enabled,
            spec_vericomm_isv(final(self)@) == spec_vericomm_isv(old(self)@),
    {
        proof {
            let w2 = self.words@[2];
            assert((w2 | 0x0001) & 0x0001 != 0) by (bit_vector);
            assert((w2 & !0x0001) & 0x0001 == 0) by (bit_vector);
            assert((((w2 | 0x0001) >> 4) & 0x000f) == ((w2 >> 4) & 0x000f)) by (bit_vector);
            assert((((w2 & !0x0001) >> 4) & 0x000f) == ((w2 >> 4) & 0x000f)) by (bit_vector);
        }
        if enabled {
            self.words[2] = self.words[2] | 0x0001;
        } else {
            self.words[2] = self.words[2] & !0x0001;
        }
    }

    /// The SDK channel selector, low byte of word 3.
    pub fn veri_sdk_channel_selector(&self) -> (r: u8)
        ensures
            r == spec_veri_sdk_channel_selector(self@),
    {
        (self.words[3] & 0x00ff) as u8
    }

    /// Store `channel` into the low byte of word 3, preserving the mode
    /// selector in the high byte.
    pub fn set_veri_sdk_channel_selector(&mut self, channel: u8)
        ensures
            final(self)@ == old(self)@.update(
                3,
                ((old(self)@[3] & 0xff00) | (channel as u16)) as u16,
            ),
            spec_veri_sdk_channel_selector(final(self)@) == channel,
            spec_mode_selector(final(self)@) == spec_mode_selector(old(self)@),
    {
        proof {
            let w3 = self.words@[3];
            assert(((w3 & 0xff00) | (channel as u16)) & 0x00ff == channel as u16) by (bit_vector);
            assert((((w3 & 0xff00) | (channel as u16)) >> 8) == (w3 >> 8)) by (bit_vector);
            assert(channel as u16 <= 0xff) by (bit_vector);
        }
        self.words[3] = (self.words[3] & 0xff00) | (channel as u16);
    }

    /// The mode selector, high byte of word 3.
    pub fn mode_selector(&self) -> (r: u8)
        ensures
            r == spec_mode_selector(self@),
    {
        (self.words[3] >> 8) as u8
    }

    /// Store `mode` into the high byte of word 3, preserving the SDK channel
    /// selector in the low byte.
    pub fn set_mode_selector(&mut self, mode: u8)
        ensures
            final(self)@ == old(self)@.update(
                3,
                ((old(self)@[3] & 0x00ff) | ((mode as u16) << 8)) as u16,
            ),
            spec_mode_selector(final(self)@) == mode,
            spec_veri_sdk_channel_selector(final(self)@) == spec_veri_sdk_channel_selector(
                old(self)@,
            ),
    {
        proof {
            let w3 = self.words@[3];
            assert((((w3 & 0x00ff) | ((mode as u16) << 8)) >> 8) == mode as u16) by (bit_vector);
            assert(((w3 & 0x00ff) | ((mode as u16) << 8)) & 0x00ff == w3 & 0x00ff) by (bit_vector);
        }
        self.words[3] = (self.words[3] & 0x00ff) | ((mode as u16) << 8);
    }

    /// Word 4: first flash block address of a transfer range.
    pub fn flash_begin_block_addr(&self) -> (r: u16)
        ensures
            r == self@[4],
    {
        self.words[4]
    }

    pub fn set_flash_begin_block_addr(&mut self, addr: u16)
        ensures
            final(self)@ == old(self)@.update(4, addr),
    {
        self.words[4] = addr;
    }

    /// Word 5: first flash cluster address of a transfer range.
    pub fn flash_begin_cluster_addr(&self) -> (r: u16)
        ensures
            r == self@[5],
    {
        self.words[5]
    }

    pub fn set_flash_begin_cluster_addr(&mut self, addr: u16)
        ensures
            final(self)@ == old(self)@.update(5, addr),
    {
        self.words[5] = addr;
    }

    /// Word 6: last flash block address of a read range.
    pub fn flash_read_end_block_addr(&self) -> (r: u16)
        ensures
            r == self@[6],
    {
        self.words[6]
    }

    pub fn set_flash_read_end_block_addr(&mut self, addr: u16)
        ensures
            final(self)@ == old(self)@.update(6, addr),
    {
        self.words[6] = addr;
    }

    /// Word 7: last flash cluster address of a read range.
    pub fn flash_read_end_cluster_addr(&self) -> (r: u16)
        ensures
            r == self@[7],
    {
        self.words[7]
    }

    pub fn set_flash_read_end_cluster_addr(&mut self, addr: u16)
        ensures
            final(self)@ == old(self)@.update(7, addr),
    {
        self.words[7] = addr;
    }

    /// Word 31: the combined licence/security key.
    pub fn licence_key(&self) -> (r: u16)
        ensures
            r == self@[31],
    {
        self.words[31]
    }

    /// Word 31 again: the same word doubles as the security key.
    pub fn security_key(&self) -> (r: u16)
        ensures
            r == self@[31],
    {
        self.words[31]
    }

    pub fn set_licence_key(&mut self, key: u16)
        ensures
            final(self)@ == old(self)@.update(31, key),
    {
        self.words[31] = key;
    }

    /// Word 32: the packed firmware version.
    pub fn smims_version_raw(&self) -> (r: u16)
        ensures
            r == spec_smims_version_raw(self@),
    {
        self.words[32]
    }

    /// The major version, high byte of word 32.
    pub fn smims_major_version(&self) -> (r: u8)
        ensures
            r == (self@[32] >> 8) as u8,
    {
        (self.words[32] >> 8) as u8
    }

    /// The sub version, bits 4..8 of word 32.
    pub fn smims_sub_version(&self) -> (r: u8)
        ensures
            r == ((self@[32] >> 4) & 0x000f) as u8,
    {
        ((self.words[32] >> 4) & 0x000f) as u8
    }

    /// The patch version, low nibble of word 32.
    pub fn smims_patch_version(&self) -> (r: u8)
        ensures
            r == (self@[32] & 0x000f) as u8,
    {
        (self.words[32] & 0x000f) as u8
    }

    /// Word 33: the device-advertised FIFO depth, in words.
    pub fn fifo_size(&self) -> (r: u16)
        ensures
            r == self@[33],
    {
        self.words[33]
    }

    /// Word 34: total flash blocks.
    pub fn flash_total_block(&self) -> (r: u16)
        ensures
            r == self@[34],
    {
        self.words[34]
    }

    /// Word 35: flash block size.
    pub fn flash_block_size(&self) -> (r: u16)
        ensures
            r == self@[35],
    {
        self.words[35]
    }

    /// Word 36: flash cluster size.
    pub fn flash_cluster_size(&self) -> (r: u16)
        ensures
            r == self@[36],
    {
        self.words[36]
    }

    /// Capability bit 0 of word 37: VeriComm.
    pub fn vericomm_ability(&self) -> (r: bool)
        ensures
            r == spec_has_state_flag(self@, 0x0001),
    {
        self.has_state_flag(0x0001)
    }

    /// Capability bit 1 of word 37: VeriInstrument.
    pub fn veri_instrument_ability(&self) -> (r: bool)
        ensures
            r == spec_has_state_flag(self@, 0x0002),
    {
        self.has_state_flag(0x0002)
    }

    /// Capability bit 2 of word 37: VeriLink.
    pub fn veri_link_ability(&self) -> (r: bool)
        ensures
            r == spec_has_state_flag(self@, 0x0004),
    {
        self.has_state_flag(0x0004)
    }

    /// Capability bit 3 of word 37: VeriSoC.
    pub fn veri_soc_ability(&self) -> (r: bool)
        ensures
            r == spec_has_state_flag(self@, 0x0008),
    {
        self.has_state_flag(0x0008)
    }

    /// Capability bit 4 of word 37: VeriComm-Pro.
    pub fn vericomm_pro_ability(&self) -> (r: bool)
        ensures
            r == spec_has_state_flag(self@, 0x0010),
    {
        self.has_state_flag(0x0010)
    }

    /// Capability bit 8 of word 37: VeriSDK.
    pub fn veri_sdk_ability(&self) -> (r: bool)
        ensures
            r == spec_has_state_flag(self@, 0x0100),
    {
        self.has_state_flag(0x0100)
    }

    /// The "programmed" status bit, word 48 bit 0.
    pub fn is_programmed(&self) -> (r: bool)
        ensures
            r == spec_is_programmed(self@),
    {
        self.words[48] & 0x0001 != 0
    }

    /// Word 48 bit 8 has inverted sense: clear means the PCB is connected.
    pub fn is_pcb_connected(&self) -> (r: bool)
        ensures
            r == (self@[48] & 0x0100 == 0),
    {
        self.words[48] & 0x0100 == 0
    }

    /// Word 49 bit 0 has inverted sense: clear means the clock continues.
    pub fn vericomm_clock_continues(&self) -> (r: bool)
        ensures
            r == (self@[49] & 0x0001 == 0),
    {
        self.words[49] & 0x0001 == 0
    }

    fn has_state_flag(&self, mask: u16) -> (r: bool)
        ensures
            r == spec_has_state_flag(self@, mask),
    {
        self.words[37] & mask != 0
    }
}

} // verus!
