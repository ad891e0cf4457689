//! The session stream cipher.
//!
//! The device issues a raw 32-word table at session start.  The table is
//! decoded in place exactly once (complement word 0, then XOR each word with
//! its already-decoded predecessor), after which the two 16-word halves act
//! as rolling keystreams: encryption XORs each word with the second half,
//! decryption with the first, each under its own 4-bit cursor that advances
//! once per word and wraps modulo 16.  The cursors persist across calls, so
//! the keystream is continuous over a whole session.

use vstd::prelude::*;

verus! {

/// Word `i` of the decoded table: word 0 is complemented, every later word
/// is XORed with the decoded word before it (a running XOR, left to right).
pub open spec fn decoded_word(raw: Seq<u16>, i: int) -> u16
    decreases i,
{
    if i <= 0 {
        !raw[0]
    } else {
        raw[i] ^ decoded_word(raw, i - 1)
    }
}

/// The whole decoded table.
pub open spec fn decoded_table(raw: Seq<u16>) -> Seq<u16> {
    Seq::new(raw.len(), |i: int| decoded_word(raw, i))
}

/// `data` XORed word by word against the 16-word keystream half of `table`
/// that starts at `base`, beginning at cursor position `start`.
pub open spec fn xor_with_keystream(data: Seq<u16>, table: Seq<u16>, base: int, start: int) -> Seq<
    u16,
> {
    Seq::new(data.len(), |i: int| (data[i] ^ table[base + ((start + i) % 16)]) as u16)
}

/// The rolling XOR stream cipher: the decoded table and the two independent
/// keystream cursors.
#[derive(Debug, Clone)]
pub struct CipherState {
    table: [u16; 32],
    encode_index: usize,
    decode_index: usize,
}

impl CipherState {
    /// The 32-word table.
    pub closed spec fn table_view(&self) -> Seq<u16> {
        self.table@
    }

    /// The cursor of the encrypting keystream (second table half).
    pub closed spec fn encode_cursor(&self) -> int {
        self.encode_index as int
    }

    /// The cursor of the decrypting keystream (first table half).
    pub closed spec fn decode_cursor(&self) -> int {
        self.decode_index as int
    }

    /// Both cursors stay inside their 16-word half.
    pub open spec fn wf(&self) -> bool {
        &&& 0 <= self.encode_cursor() < 16
        &&& 0 <= self.decode_cursor() < 16
    }

    /// The all-zero cipher of a session that has not yet fetched its table.
    pub fn new() -> (r: Self)
        ensures
            r.table_view() == Seq::new(32, |i: int| 0u16),
            r.encode_cursor() == 0,
            r.decode_cursor() == 0,
            r.wf(),
    {
        let table = [0u16; 32];
        proof {
            assert(table@ =~= Seq::new(32, |i: int| 0u16));
        }
        CipherState { table, encode_index: 0, decode_index: 0 }
    }

    /// The encode cursor, observable for callers.
    pub fn encode_index(&self) -> (r: usize)
        ensures
            r == self.encode_cursor(),
    {
        self.encode_index
    }

    /// The decode cursor, observable for callers.
    pub fn decode_index(&self) -> (r: usize)
        ensures
            r == self.decode_cursor(),
    {
        self.decode_index
    }

    /// The table's words, observable for callers.
    pub fn table_words(&self) -> (r: Vec<u16>)
        ensures
            r@ == self.table_view(),
    {
        let mut out: Vec<u16> = Vec::new();
        let mut i: usize = 0;
        while i < 32
            invariant
                0 <= i <= 32,
                out@.len() == i,
                self.table@.len() == 32,
                forall|j: int| 0 <= j < i ==> out@[j] == self.table@[j],
            decreases 32 - i,
        {
            out.push(self.table[i]);
            i = i + 1;
        }
        proof {
            assert(out@ =~= self.table@);
        }
        out
    }

    /// Replace the table wholesale with the raw words read from the device.
    /// The cursors are untouched; [`Self::decode_table`] resets them.
    pub fn load_raw_table(&mut self, raw: &Vec<u16>)
        requires
            raw@.len() == 32,
        ensures
            final(self).table_view() == raw@,
            final(self).encode_cursor() == old(self).encode_cursor(),
            final(self).decode_cursor() == old(self).decode_cursor(),
    {
        let mut i: usize = 0;
        while i < 32
            invariant
                0 <= i <= 32,
                raw@.len() == 32,
                self.table@.len() == 32,
                forall|j: int| 0 <= j < i ==> self.table@[j] == raw@[j],
                self.encode_index == old(self).encode_index,
                self.decode_index == old(self).decode_index,
            decreases 32 - i,
        {
            self.table[i] = raw[i];
            i = i + 1;
        }
        proof {
            assert(self.table@ =~= raw@);
        }
    }

    /// Decode the raw table in place and reset both cursors.  Must run
    /// exactly once per session, after the raw table is fetched and before
    /// the first encrypt or decrypt.
    pub fn decode_table(&mut self)
        ensures
            final(self).table_view() == decoded_table(old(self).table_view()),
            final(self).encode_cursor() == 0,
            final(self).decode_cursor() == 0,
            final(self).wf(),
    {
        let ghost raw = self.table@;
        self.table[0] = !self.table[0];
        let mut i: usize = 1;
        while i < 32
            invariant
                1 <= i <= 32,
                raw.len() == 32,
                self.table@.len() == 32,
                forall|j: int| 0 <= j < i ==> self.table@[j] == decoded_word(raw, j),
                forall|j: int| i <= j < 32 ==> self.table@[j] == raw[j],
            decreases 32 - i,
        {
            let prev = self.table[i - 1];
            proof {
                assert(prev == decoded_word(raw, i - 1));
                assert(self.table@[i as int] == raw[i as int]);
            }
            self.table[i] = self.table[i] ^ prev;
            proof {
                assert(self.table@[i as int] == (raw[i as int] ^ decoded_word(raw, i - 1)) as u16);
                assert(self.table@[i as int] == decoded_word(raw, i as int));
            }
            i = i + 1;
        }
        self.encode_index = 0;
        self.decode_index = 0;
        proof {
            assert(self.table@ =~= decoded_table(raw));
        }
    }

    /// Encrypt `buffer` in place against the second table half, advancing
    /// the encode cursor once per word.  A zero-length buffer changes
    /// nothing.
    pub fn encrypt_words(&mut self, buffer: &mut Vec<u16>)
        requires
            old(self).wf(),
        ensures
            final(buffer)@ == xor_with_keystream(
                old(buffer)@,
                old(self).table_view(),
                16,
                old(self).encode_cursor(),
            ),
            final(self).table_view() == old(self).table_view(),
            final(self).encode_cursor() == (old(self).encode_cursor() + old(buffer)@.len()) % 16,
            final(self).decode_cursor() == old(self).decode_cursor(),
            final(self).wf(),
            old(buffer)@.len() == 0 ==> *final(self) == *old(self) && final(buffer)@ == old(
                buffer,
            )@,
    {
        let ghost start = self.encode_index as int;
        let mut index: usize = self.encode_index;
        let mut i: usize = 0;
        while i < buffer.len()
            invariant
                0 <= i <= buffer@.len(),
                buffer@.len() == old(buffer)@.len(),
                self == old(self),
                self.wf(),
                0 <= start < 16,
                index == (start + i) % 16,
                forall|j: int|
                    0 <= j < i ==> buffer@[j] == (old(buffer)@[j] ^ self.table@[16 + ((start + j)
                        % 16)]) as u16,
                forall|j: int| i <= j < buffer@.len() ==> buffer@[j] == old(buffer)@[j],
            decreases buffer@.len() - i,
        {
            let word = buffer[i] ^ self.table[16 + index];
            buffer.set(i, word);
            index = (index + 1) & 0x0f;
            proof {
                assert(((start + i) % 16 + 1) % 16 == (start + (i + 1)) % 16) by (nonlinear_arith)
                    requires
                        0 <= start < 16,
                        0 <= i,
                ;
                assert(forall|x: usize| 0 <= x < 32 ==> (x & 0x0f) == x % 16) by (bit_vector);
            }
            i = i + 1;
        }
        self.encode_index = index;
        proof {
            assert(buffer@ =~= xor_with_keystream(old(buffer)@, old(self).table_view(), 16, start));
            if old(buffer)@.len() == 0 {
                assert((start + 0) % 16 == start);
                assert(buffer@ =~= old(buffer)@);
            }
        }
    }

    /// Decrypt `buffer` in place against the first table half, advancing the
    /// decode cursor once per word.  A zero-length buffer changes nothing.
    /// Not an inverse of [`Self::encrypt_words`]: the two directions use
    /// different table halves.
    pub fn decrypt_words(&mut self, buffer: &mut Vec<u16>)
        requires
            old(self).wf(),
        ensures
            final(buffer)@ == xor_with_keystream(
                old(buffer)@,
                old(self).table_view(),
                0,
                old(self).decode_cursor(),
            ),
            final(self).table_view() == old(self).table_view(),
            final(self).decode_cursor() == (old(self).decode_cursor() + old(buffer)@.len()) % 16,
            final(self).encode_cursor() == old(self).encode_cursor(),
            final(self).wf(),
            old(buffer)@.len() == 0 ==> *final(self) == *old(self) && final(buffer)@ == old(
                buffer,
            )@,
    {
        let ghost start = self.decode_index as int;
        let mut index: usize = self.decode_index;
        let mut i: usize = 0;
        while i < buffer.len()
            invariant
                0 <= i <= buffer@.len(),
                buffer@.len() == old(buffer)@.len(),
                self == old(self),
                self.wf(),
                0 <= start < 16,
                index == (start + i) % 16,
                forall|j: int|
                    0 <= j < i ==> buffer@[j] == (old(buffer)@[j] ^ self.table@[(start + j)
                        % 16]) as u16,
                forall|j: int| i <= j < buffer@.len() ==> buffer@[j] == old(buffer)@[j],
            decreases buffer@.len() - i,
        {
            let word = buffer[i] ^ self.table[index];
            buffer.set(i, word);
            index = (index + 1) & 0x0f;
            proof {
                assert(((start + i) % 16 + 1) % 16 == (start + (i + 1)) % 16) by (nonlinear_arith)
                    requires
                        0 <= start < 16,
                        0 <= i,
                ;
                assert(forall|x: usize| 0 <= x < 32 ==> (x & 0x0f) == x % 16) by (bit_vector);
            }
            i = i + 1;
        }
        self.decode_index = index;
        proof {
            assert(buffer@ =~= xor_with_keystream(old(buffer)@, old(self).table_view(), 0, start));
            if old(buffer)@.len() == 0 {
                assert((start + 0) % 16 == start);
                assert(buffer@ =~= old(buffer)@);
            }
        }
    }
}

/// Decrypting what was just encrypted does not restore the plaintext in
/// general: the two directions draw from different table halves, so the
/// composition XORs each word with one word of each half.
pub proof fn lemma_decrypt_of_encrypt(data: Seq<u16>, table: Seq<u16>, enc_start: int, dec_start: int)
    requires
        table.len() == 32,
        0 <= enc_start < 16,
        0 <= dec_start < 16,
    ensures
        xor_with_keystream(
            xor_with_keystream(data, table, 16, enc_start),
            table,
            0,
            dec_start,
        ) == Seq::new(
            data.len(),
            |i: int|
                ((data[i] ^ table[16 + ((enc_start + i) % 16)]) ^ table[(dec_start + i)
                    % 16]) as u16,
        ),
{
    let enc = xor_with_keystream(data, table, 16, enc_start);
    let both = xor_with_keystream(enc, table, 0, dec_start);
    assert(both =~= Seq::new(
        data.len(),
        |i: int| ((data[i] ^ table[16 + ((enc_start + i) % 16)]) ^ table[(dec_start + i) % 16]) as u16,
    ));
}

} // verus!
