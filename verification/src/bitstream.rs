//! The textual bitstream format.
//!
//! A bitstream file is ASCII text, one line at a time.  Within a line each
//! byte is either a hexadecimal digit (accumulated high nibble first into
//! the current 16-bit word), an underscore (a word terminator: flush the
//! accumulator and start a new word), or a space or tab (terminate the rest
//! of the line, flushing a word begun before it).  A line that ends mid-word
//! still flushes its accumulator.  Any other byte is fatal, and so is a file
//! that decodes to no words at all.

use crate::error::BitstreamFault;
use crate::error::Error;
use vstd::prelude::*;

verus! {

/// The value of an ASCII hexadecimal digit, or `None`.
pub open spec fn spec_hex_nibble(b: u8) -> Option<u8> {
    if 0x30 <= b && b <= 0x39 {  // '0'..='9'
        Some((b - 0x30) as u8)
    } else if 0x41 <= b && b <= 0x46 {  // 'A'..='F'
        Some((b - 0x41 + 10) as u8)
    } else if 0x61 <= b && b <= 0x66 {  // 'a'..='f'
        Some((b - 0x61 + 10) as u8)
    } else {
        None
    }
}

/// The words of one line, starting from accumulator `acc` with `has` nibbles
/// already taken in; `None` when the line holds a byte outside the format.
pub open spec fn spec_decode_line_rec(line: Seq<u8>, acc: u16, has: bool) -> Option<Seq<u16>>
    decreases line.len(),
{
    if line.len() == 0 {
        if has {
            Some(seq![acc])
        } else {
            Some(Seq::empty())
        }
    } else {
        let b = line[0];
        let rest = line.drop_first();
        if b == 0x5f {  // '_'
            match spec_decode_line_rec(rest, 0, false) {
                Some(ws) => Some(seq![acc] + ws),
                None => None,
            }
        } else if b == 0x20 || b == 0x09 {  // ' ' or '\t'
            if has {
                Some(seq![acc])
            } else {
                Some(Seq::empty())
            }
        } else {
            match spec_hex_nibble(b) {
                Some(n) => spec_decode_line_rec(rest, ((acc << 4) | (n as u16)) as u16, true),
                None => None,
            }
        }
    }
}

/// The words of one full line.
pub open spec fn spec_decode_line(line: Seq<u8>) -> Option<Seq<u16>> {
    spec_decode_line_rec(line, 0, false)
}

/// The words of a sequence of lines, concatenated in order.
pub open spec fn spec_decode_lines(lines: Seq<Seq<u8>>) -> Option<Seq<u16>>
    decreases lines.len(),
{
    if lines.len() == 0 {
        Some(Seq::empty())
    } else {
        match (spec_decode_line(lines[0]), spec_decode_lines(lines.drop_first())) {
            (Some(first), Some(rest)) => Some(first + rest),
            _ => None,
        }
    }
}

/// One line's text with a carriage return stripped off its end, as happens
/// to a line that ended in the two-byte terminator.
pub open spec fn spec_strip_cr(line: Seq<u8>) -> Seq<u8> {
    if line.len() > 0 && line.last() == 0x0d {
        line.drop_last()
    } else {
        line
    }
}

/// The lines of `text`, split at each newline byte, with `cur` the bytes of
/// the line in progress.  A line that ends at a newline loses a trailing
/// carriage return; a final fragment without a newline is a line of its
/// own, kept verbatim, and an empty final fragment is no line at all.
pub open spec fn spec_split_rec(text: Seq<u8>, cur: Seq<u8>) -> Seq<Seq<u8>>
    decreases text.len(),
{
    if text.len() == 0 {
        if cur.len() == 0 {
            Seq::empty()
        } else {
            seq![cur]
        }
    } else if text[0] == 0x0a {
        seq![spec_strip_cr(cur)] + spec_split_rec(text.drop_first(), Seq::empty())
    } else {
        spec_split_rec(text.drop_first(), cur.push(text[0]))
    }
}

/// The lines of a whole text.
pub open spec fn spec_split_lines(text: Seq<u8>) -> Seq<Seq<u8>> {
    spec_split_rec(text, Seq::empty())
}

/// Split `text` into its lines, as [`spec_split_lines`].
pub fn split_lines(text: &Vec<u8>) -> (r: Vec<Vec<u8>>)
    ensures
        r.deep_view() == spec_split_lines(text@),
{
    let mut out: Vec<Vec<u8>> = Vec::new();
    let mut cur: Vec<u8> = Vec::new();
    let mut i: usize = 0;
    proof {
        assert(text@.skip(0) =~= text@);
        assert(out.deep_view() =~= Seq::<Seq<u8>>::empty());
    }
    while i < text.len()
        invariant
            0 <= i <= text@.len(),
            spec_split_lines(text@) == out.deep_view() + spec_split_rec(
                text@.skip(i as int),
                cur@,
            ),
        decreases text@.len() - i,
    {
        let b = text[i];
        proof {
            assert(text@.skip(i as int)[0] == text@[i as int]);
            assert(text@.skip(i as int).drop_first() =~= text@.skip(i as int + 1));
        }
        if b == 0x0a {
            let ghost cur_view = cur@;
            let ghost out_view = out.deep_view();
            if cur.len() > 0 && cur[cur.len() - 1] == 0x0d {
                cur.pop();
                proof {
                    assert(cur@ =~= spec_strip_cr(cur_view));
                }
            }
            proof {
                assert(cur@ =~= spec_strip_cr(cur_view));
            }
            let ghost stripped = cur@;
            proof {
                assert(cur.deep_view() =~= stripped);
            }
            out.push(cur);
            cur = Vec::new();
            proof {
                assert(out.deep_view() =~= out_view.push(spec_strip_cr(cur_view)));
                assert(out_view + (seq![spec_strip_cr(cur_view)] + spec_split_rec(
                    text@.skip(i as int + 1),
                    Seq::empty(),
                )) =~= out.deep_view() + spec_split_rec(text@.skip(i as int + 1), cur@));
            }
        } else {
            cur.push(b);
        }
        i = i + 1;
    }
    proof {
        assert(text@.skip(text@.len() as int) =~= Seq::<u8>::empty());
    }
    if cur.len() > 0 {
        let ghost out_view = out.deep_view();
        let ghost cur_view = cur@;
        proof {
            assert(cur.deep_view() =~= cur_view);
        }
        out.push(cur);
        proof {
            assert(out.deep_view() =~= out_view.push(cur_view));
            assert(out_view + seq![cur_view] =~= out.deep_view());
        }
    } else {
        proof {
            assert(out.deep_view() + Seq::<Seq<u8>>::empty() =~= out.deep_view());
        }
    }
    out
}

/// Decode a whole bitstream given as raw text bytes: split into lines,
/// then decode them as [`decode_bitstream_lines`].
pub fn decode_bitstream(text: &Vec<u8>) -> (r: Result<Vec<u16>, Error>)
    ensures
        match spec_decode_lines(spec_split_lines(text@)) {
            Some(ws) => if ws.len() == 0 {
                r == Err::<Vec<u16>, Error>(Error::InvalidBitfile(BitstreamFault::Empty))
            } else {
                r matches Ok(v) && v@ == ws
            },
            None => r == Err::<Vec<u16>, Error>(Error::InvalidBitfile(BitstreamFault::NonHexByte)),
        },
{
    let lines = split_lines(text);
    decode_bitstream_lines(&lines)
}

/// The value of an ASCII hexadecimal digit.
pub fn remap_hex(byte: u8) -> (r: Option<u8>)
    ensures
        r == spec_hex_nibble(byte),
{
    if 0x30 <= byte && byte <= 0x39 {
        Some(byte - 0x30)
    } else if 0x41 <= byte && byte <= 0x46 {
        Some(byte - 0x41 + 10)
    } else if 0x61 <= byte && byte <= 0x66 {
        Some(byte - 0x61 + 10)
    } else {
        None
    }
}

/// Decode one line, appending its words to `out`.  Returns `false`, leaving
/// `out` in an unspecified extension, when the line holds a byte outside the
/// format.
pub fn decode_line(line: &Vec<u8>, out: &mut Vec<u16>) -> (ok: bool)
    ensures
        match spec_decode_line(line@) {
            Some(ws) => ok && final(out)@ == old(out)@ + ws,
            None => !ok,
        },
{
    let ghost base = out@;
    let mut acc: u16 = 0;
    let mut has: bool = false;
    let mut i: usize = 0;
    proof {
        assert(line@.skip(0) =~= line@);
        assert(out@.subrange(0, base.len() as int) =~= base);
        assert(out@.subrange(base.len() as int, out@.len() as int) =~= Seq::<u16>::empty());
        if spec_decode_line(line@) is Some {
            let ws = spec_decode_line(line@)->Some_0;
            assert(Seq::<u16>::empty() + ws =~= ws);
        }
    }
    loop
        invariant
            base == old(out)@,
            0 <= i <= line@.len(),
            out@.len() >= base.len(),
            out@.subrange(0, base.len() as int) == base,
            ({
                let pushed = out@.subrange(base.len() as int, out@.len() as int);
                spec_decode_line(line@) == match spec_decode_line_rec(
                    line@.skip(i as int),
                    acc,
                    has,
                ) {
                    Some(ws) => Some(pushed + ws),
                    None => None::<Seq<u16>>,
                }
            }),
        decreases line@.len() - i,
    {
        if i >= line.len() {
            proof {
                assert(line@.skip(i as int) =~= Seq::<u8>::empty());
            }
            let ghost pushed_before = out@.subrange(base.len() as int, out@.len() as int);
            if has {
                out.push(acc);
                proof {
                    let pushed = out@.subrange(base.len() as int, out@.len() as int);
                    assert(out@.subrange(0, base.len() as int) =~= base);
                    assert(pushed =~= pushed_before + seq![acc]);
                    assert(out@ =~= base + pushed);
                }
            } else {
                proof {
                    assert(pushed_before + Seq::<u16>::empty() =~= pushed_before);
                    assert(out@ =~= base + pushed_before);
                }
            }
            return true;
        }
        let b = line[i];
        proof {
            assert(line@.skip(i as int)[0] == line@[i as int]);
            assert(line@.skip(i as int).drop_first() =~= line@.skip(i as int + 1));
        }
        if b == 0x5f {
            let ghost pushed_before = out@.subrange(base.len() as int, out@.len() as int);
            let ghost acc_before = acc;
            out.push(acc);
            acc = 0;
            has = false;
            proof {
                let pushed = out@.subrange(base.len() as int, out@.len() as int);
                assert(out@.subrange(0, base.len() as int) =~= base);
                assert(pushed =~= pushed_before + seq![acc_before]);
                if spec_decode_line_rec(line@.skip(i as int + 1), 0, false) is Some {
                    let ws = spec_decode_line_rec(line@.skip(i as int + 1), 0, false)->Some_0;
                    assert(pushed_before + (seq![acc_before] + ws) =~= pushed + ws);
                }
            }
        } else if b == 0x20 || b == 0x09 {
            let ghost pushed_before = out@.subrange(base.len() as int, out@.len() as int);
            if has {
                out.push(acc);
                proof {
                    let pushed = out@.subrange(base.len() as int, out@.len() as int);
                    assert(out@.subrange(0, base.len() as int) =~= base);
                    assert(pushed =~= pushed_before + seq![acc]);
                    assert(out@ =~= base + pushed);
                }
            } else {
                proof {
                    assert(pushed_before + Seq::<u16>::empty() =~= pushed_before);
                    assert(out@ =~= base + pushed_before);
                }
            }
            return true;
        } else {
            match remap_hex(b) {
                Some(nibble) => {
                    acc = (acc << 4) | (nibble as u16);
                    has = true;
                },
                None => {
                    return false;
                },
            }
        }
        i = i + 1;
    }
}

/// Decode a whole bitstream, given as its text lines (each without its line
/// terminator).  Returns the decoded words; rejects a byte outside the
/// format and a bitstream that decodes to no words at all.
pub fn decode_bitstream_lines(lines: &Vec<Vec<u8>>) -> (r: Result<Vec<u16>, Error>)
    ensures
        match spec_decode_lines(lines.deep_view()) {
            Some(ws) => if ws.len() == 0 {
                r == Err::<Vec<u16>, Error>(Error::InvalidBitfile(BitstreamFault::Empty))
            } else {
                r matches Ok(v) && v@ == ws
            },
            None => r == Err::<Vec<u16>, Error>(Error::InvalidBitfile(BitstreamFault::NonHexByte)),
        },
{
    let mut out: Vec<u16> = Vec::new();
    let mut k: usize = 0;
    proof {
        assert(lines.deep_view().skip(0) =~= lines.deep_view());
        if spec_decode_lines(lines.deep_view()) is Some {
            let ws = spec_decode_lines(lines.deep_view())->Some_0;
            assert(Seq::<u16>::empty() + ws =~= ws);
        }
    }
    while k < lines.len()
        invariant
            0 <= k <= lines@.len(),
            ({
                let done = spec_decode_lines(lines.deep_view().skip(k as int));
                spec_decode_lines(lines.deep_view()) == match done {
                    Some(ws) => Some(out@ + ws),
                    None => None::<Seq<u16>>,
                }
            }) || (spec_decode_lines(lines.deep_view()) is None && spec_decode_lines(
                lines.deep_view().skip(k as int),
            ) is None),
        decreases lines@.len() - k,
    {
        proof {
            assert(lines.deep_view().skip(k as int)[0] == lines.deep_view()[k as int]);
            assert(lines.deep_view().skip(k as int).drop_first() =~= lines.deep_view().skip(
                k as int + 1,
            ));
            assert(lines.deep_view()[k as int] == lines@[k as int]@);
        }
        let ghost out_before = out@;
        let ok = decode_line(&lines[k], &mut out);
        if !ok {
            return Err(Error::InvalidBitfile(BitstreamFault::NonHexByte));
        }
        proof {
            let line_ws = spec_decode_line(lines.deep_view()[k as int])->Some_0;
            if spec_decode_lines(lines.deep_view().skip(k as int + 1)) is Some {
                let rest = spec_decode_lines(lines.deep_view().skip(k as int + 1))->Some_0;
                assert(out_before + (line_ws + rest) =~= (out_before + line_ws) + rest);
            }
        }
        k = k + 1;
    }
    proof {
        assert(lines.deep_view().skip(lines@.len() as int) =~= Seq::<Seq<u8>>::empty());
        assert(out@ + Seq::<u16>::empty() =~= out@);
    }
    if out.len() == 0 {
        return Err(Error::InvalidBitfile(BitstreamFault::Empty));
    }
    Ok(out)
}

} // verus!
