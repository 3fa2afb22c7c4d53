//! A read-only NFC Forum Type 4 tag: a capability container and an NDEF
//! file holding the URL "https://solokeys.com/".

use vstd::prelude::*;

verus! {

/// Errors answered by the applet.
#[derive(Clone, Copy, Debug, PartialEq, Eq, Structural)]
pub enum NdefError {
    SwFileNotFound,
    SwCondUseNotSatisfied,
}

/// The capability container: version 2.0, 127-byte reads and writes, one
/// NDEF file `E104` of 127 bytes, readable, writable.
pub open spec fn capability_container() -> Seq<u8> {
    seq![0x00u8, 0x0f, 0x20, 0x00, 0x7f, 0x00, 0x7f, 0x04, 0x06, 0xe1, 0x04, 0x00, 0x7f, 0x00, 0x00]
}

/// The NDEF file: a URI record "https://" + "solokeys.com/".
pub open spec fn ndef_url_file() -> Seq<u8> {
    seq![
        0x00u8, 0x12, 0xd1, 0x01, 0x0e, 0x55, 0x04, 0x73, 0x6f, 0x6c, 0x6f, 0x6b, 0x65, 0x79, 0x73, 0x2e, 0x63, 0x6f,
        0x6d, 0x2f,
    ]
}

/// The file that READ BINARY reads.
#[derive(Clone, Copy, Debug, PartialEq, Eq, Structural)]
pub enum TagFile {
    CapabilityContainer,
    Ndef,
}

pub open spec fn file_bytes(f: TagFile) -> Seq<u8> {
    match f {
        TagFile::CapabilityContainer => capability_container(),
        TagFile::Ndef => ndef_url_file(),
    }
}

fn file_vec(f: TagFile) -> (r: Vec<u8>)
    ensures
        r@ == file_bytes(f),
{
    match f {
        TagFile::CapabilityContainer => {
            let v: Vec<u8> = vec![0x00, 0x0f, 0x20, 0x00, 0x7f, 0x00, 0x7f, 0x04, 0x06, 0xe1, 0x04, 0x00, 0x7f, 0x00, 0x00];
            assert(v@ =~= capability_container());
            v
        },
        TagFile::Ndef => {
            let v: Vec<u8> = vec![
                0x00, 0x12, 0xd1, 0x01, 0x0e, 0x55, 0x04, 0x73, 0x6f, 0x6c, 0x6f, 0x6b, 0x65, 0x79, 0x73, 0x2e, 0x63,
                0x6f, 0x6d, 0x2f,
            ];
            assert(v@ =~= ndef_url_file());
            v
        },
    }
}

/// The NDEF tag application.
pub struct NdefApplet {
    reader: TagFile,
}

/// SELECT.
pub const INS_SELECT: u8 = 0xa4;
/// READ BINARY.
pub const INS_READ_BINARY: u8 = 0xb0;

/// Offset of READ BINARY: P1 without bit 4, then P2.
pub open spec fn read_offset(p1: u8, p2: u8) -> int {
    ((p1 as int) % 16 + ((p1 as int) / 32) * 32) * 256 + p2 as int
}

impl NdefApplet {
    pub closed spec fn selected(&self) -> TagFile {
        self.reader
    }

    /// A new applet reads the NDEF file.
    pub fn new() -> (r: NdefApplet)
        ensures
            r.selected() == TagFile::Ndef,
    {
        NdefApplet { reader: TagFile::Ndef }
    }

    /// The AID `D2 76 00 00 85 01 01`, padded with zeros to 16 bytes.
    pub fn aid(&self) -> (r: [u8; 16])
        ensures
            r@ == seq![0xD2u8, 0x76, 0x00, 0x00, 0x85, 0x01, 0x01, 0x00, 0, 0, 0, 0, 0, 0, 0, 0],
    {
        let r = [0xD2u8, 0x76, 0x00, 0x00, 0x85, 0x01, 0x01, 0x00, 0, 0, 0, 0, 0, 0, 0, 0];
        assert(r@ =~= seq![0xD2u8, 0x76, 0x00, 0x00, 0x85, 0x01, 0x01, 0x00, 0, 0, 0, 0, 0, 0, 0, 0]);
        r
    }

    /// SELECT of the applet answers with no data.
    pub fn select(&mut self) -> (r: Result<u16, NdefError>)
        ensures
            r == Ok::<u16, NdefError>(0),
            final(self).selected() == old(self).selected(),
    {
        Ok(0)
    }

    pub fn deselect(&mut self) -> (r: Result<(), NdefError>)
        ensures
            r is Ok,
            final(self).selected() == old(self).selected(),
    {
        Ok(())
    }

    /// SELECT of a file (`E103` the capability container, `E104` the NDEF
    /// file) or READ BINARY of the selected file, whose bytes go to the
    /// front of `buffer`; the answer is the number of bytes read.
    pub fn send_recv(&mut self, ins: u8, p1: u8, p2: u8, le: u16, payload: &[u8], buffer: &mut Vec<u8>) -> (r: Result<u16, NdefError>)
        requires
            ins == INS_READ_BINARY ==> read_offset(p1, p2) <= file_bytes(old(self).selected()).len(),
            ins == INS_READ_BINARY ==> old(buffer)@.len() >= le || old(buffer)@.len() >= file_bytes(old(self).selected()).len()
                - read_offset(p1, p2),
        ensures
            ins == INS_SELECT ==> if payload@ == seq![0xE1u8, 0x03] {
                r == Ok::<u16, NdefError>(0) && final(self).selected() == TagFile::CapabilityContainer
            } else if payload@ == seq![0xE1u8, 0x04] {
                r == Ok::<u16, NdefError>(0) && final(self).selected() == TagFile::Ndef
            } else {
                r == Err::<u16, NdefError>(NdefError::SwFileNotFound) && final(self).selected() == old(self).selected()
            },
            ins == INS_SELECT ==> final(buffer)@ == old(buffer)@,
            ins == INS_READ_BINARY ==> {
                let f = file_bytes(old(self).selected());
                let off = read_offset(p1, p2);
                let n = if le > f.len() - off { f.len() - off } else { le as int };
                &&& r == Ok::<u16, NdefError>(n as u16)
                &&& final(self).selected() == old(self).selected()
                &&& final(buffer)@.len() == old(buffer)@.len()
                &&& final(buffer)@.subrange(0, n) == f.subrange(off, off + n)
                &&& final(buffer)@.subrange(n, old(buffer)@.len() as int) == old(buffer)@.subrange(n, old(buffer)@.len() as int)
            },
            ins != INS_SELECT && ins != INS_READ_BINARY ==> r == Err::<u16, NdefError>(NdefError::SwCondUseNotSatisfied)
                && final(self).selected() == old(self).selected() && final(buffer)@ == old(buffer)@,
    {
        if ins == INS_SELECT {
            if payload.len() == 2 && payload[0] == 0xE1 && payload[1] == 0x03 {
                assert(payload@ =~= seq![0xE1u8, 0x03]);
                self.reader = TagFile::CapabilityContainer;
                return Ok(0);
            }
            if payload.len() == 2 && payload[0] == 0xE1 && payload[1] == 0x04 {
                assert(payload@ =~= seq![0xE1u8, 0x04]);
                self.reader = TagFile::Ndef;
                return Ok(0);
            }
            proof {
                if payload@ == seq![0xE1u8, 0x03] || payload@ == seq![0xE1u8, 0x04] {
                    assert(payload@.len() == 2);
                }
            }
            return Err(NdefError::SwFileNotFound);
        }
        if ins == INS_READ_BINARY {
            let reader = file_vec(self.reader);
            assert((p1 & 0xef) as int == (p1 as int) % 16 + ((p1 as int) / 32) * 32) by (bit_vector);
            let hi: usize = (p1 & 0xef) as usize;
            let offset: usize = hi * 256 + p2 as usize;
            let len_to_read: usize = if le as usize > reader.len() - offset {
                reader.len() - offset
            } else {
                le as usize
            };
            let mut i: usize = 0;
            while i < len_to_read
                invariant
                    0 <= i <= len_to_read,
                    offset + len_to_read <= reader@.len(),
                    reader@.len() <= 20,
                    len_to_read <= old(buffer)@.len(),
                    buffer@.len() == old(buffer)@.len(),
                    forall|j: int| 0 <= j < i ==> buffer@[j] == reader@[offset + j],
                    forall|j: int| i <= j < buffer@.len() ==> buffer@[j] == old(buffer)@[j],
                decreases len_to_read - i,
            {
                buffer.set(i, reader[offset + i]);
                i = i + 1;
            }
            assert(buffer@.subrange(0, len_to_read as int) =~= reader@.subrange(offset as int, (offset + len_to_read) as int));
            assert(buffer@.subrange(len_to_read as int, old(buffer)@.len() as int) =~= old(buffer)@.subrange(
                len_to_read as int,
                old(buffer)@.len() as int,
            ));
            return Ok(len_to_read as u16);
        }
        Err(NdefError::SwCondUseNotSatisfied)
    }
}

} // verus!
