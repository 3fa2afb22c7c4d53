//! Command APDUs (ISO 7816-4): length decoding, header accessors and the
//! interpretation of the class byte.

use vstd::prelude::*;

verus! {

/// Capacity of the message buffer that carries APDUs between the CCID
/// transport and the applications.
pub const MESSAGE_CAPACITY: usize = 3072;

/// Big-endian value of two bytes.
pub open spec fn be16(hi: u8, lo: u8) -> nat {
    hi as nat * 256 + lo as nat
}

/// The decoding table of ISO 7816-3, 12.1.3, as this library applies it to
/// the body of a command APDU (everything after the four header bytes).
///
/// The result is `(Lc, Le, offset)`, where `offset` is the number of length
/// bytes that precede the command data.
pub open spec fn spec_lengths(body: Seq<u8>) -> Result<(nat, nat, nat), ()> {
    let l = body.len();
    if l == 0 {
        // case 1
        Ok((0, 0, 0))
    } else {
        let b1 = body[0] as nat;
        if l == 1 {
            // case 2S
            Ok((0, if b1 == 0 { 256 } else { b1 }, 0))
        } else if l == 1 + b1 && b1 != 0 {
            // case 3S
            Ok((b1, 0, 1))
        } else if l == 2 + b1 && b1 != 0 {
            // case 4S
            let last = body[l - 1] as nat;
            Ok((b1, if last == 0 { 256 } else { last }, 1))
        } else if b1 != 0 {
            Err(())
        } else if l == 3 {
            // case 2E
            Ok((0, if body[1] == 0 && body[2] == 0 { 65536 } else { be16(body[1], body[2]) }, 0))
        } else {
            let lc = be16(body[1], body[2]);
            if l == 3 + lc {
                // case 3E
                Ok((lc, 0, 3))
            } else if l == 5 + lc {
                // case 4E
                let pre_le = be16(body[l - 2], body[l - 1]);
                Ok((lc, if pre_le == 0 { 65536 } else { pre_le }, 3))
            } else {
                Err(())
            }
        }
    }
}

/// The inputs on which length decoding is defined: a full four-byte header,
/// and not a two-byte body that announces extended lengths (whose second
/// length byte is missing).
pub open spec fn decodable(apdu: Seq<u8>) -> bool {
    &&& apdu.len() >= 4
    &&& !(apdu.len() == 6 && apdu[4] == 0)
}

/// Body of a command APDU.
pub open spec fn body_of(apdu: Seq<u8>) -> Seq<u8> {
    apdu.subrange(4, apdu.len() as int)
}

/// Decode the length fields of a command APDU into `(Lc, Le, offset)`.
pub fn calculate_lengths(apdu: &[u8]) -> (res: Result<(usize, usize, usize), ()>)
    requires
        decodable(apdu@),
    ensures
        match (res, spec_lengths(body_of(apdu@))) {
            (Ok((lc, le, off)), Ok((slc, sle, soff))) => lc == slc && le == sle && off == soff,
            (Err(()), Err(())) => true,
            _ => false,
        },
        // whatever decodes leaves the command data inside the APDU
        res matches Ok((lc, le, off)) ==> 4 + off + lc <= apdu@.len(),
        res matches Ok((lc, le, off)) ==> lc <= 65535 && le <= 65536,
{
    let n = apdu.len();
    let l = n - 4;
    let ghost body = body_of(apdu@);
    assert(body.len() == l);
    assert(forall|i: int| 0 <= i < l ==> body[i] == apdu@[i + 4]);

    // case 1
    if l == 0 {
        return Ok((0, 0, 0));
    }

    let b1 = apdu[4] as usize;

    // case 2S
    if l == 1 {
        let le: usize = if b1 == 0 { 256 } else { b1 };
        return Ok((0, le, 0));
    }

    // case 3S
    if l == 1 + b1 && b1 != 0 {
        return Ok((b1, 0, 1));
    }

    // case 4S
    if l == 2 + b1 && b1 != 0 {
        let last = apdu[n - 1] as usize;
        let le: usize = if last == 0 { 256 } else { last };
        return Ok((b1, le, 1));
    }

    // only extended cases are left now
    if b1 != 0 {
        return Err(());
    }

    let hi = apdu[5];
    let lo = apdu[6];
    // case 2E (no data)
    if l == 3 {
        let le: usize = if hi == 0 && lo == 0 { 65_536 } else { (hi as usize) * 256 + lo as usize };
        return Ok((0, le, 0));
    }

    let lc: usize = (hi as usize) * 256 + lo as usize;

    // case 3E
    if l == 3 + lc {
        return Ok((lc, 0, 3));
    }

    // case 4E
    if l == 5 + lc {
        let pre_le: usize = (apdu[n - 2] as usize) * 256 + apdu[n - 1] as usize;
        let le: usize = if pre_le == 0 { 65_536 } else { pre_le };
        return Ok((lc, le, 3));
    }

    Err(())
}

/// A parsed command APDU over a borrowed byte buffer.
pub struct Apdu<'a> {
    lc: usize,
    le: usize,
    offset: usize,
    apdu: &'a [u8],
}

impl<'a> Apdu<'a> {
    /// The parsed length fields agree with the decoding table.
    pub closed spec fn wf(&self) -> bool {
        &&& decodable(self.apdu@)
        &&& spec_lengths(body_of(self.apdu@)) == Ok::<(nat, nat, nat), ()>((self.lc as nat, self.le as nat, self.offset as nat))
        &&& 4 + self.offset + self.lc <= self.apdu@.len()
    }

    /// The raw bytes of the APDU.
    pub closed spec fn bytes(&self) -> Seq<u8> {
        self.apdu@
    }

    pub closed spec fn spec_lc(&self) -> usize {
        self.lc
    }

    pub closed spec fn spec_le(&self) -> usize {
        self.le
    }

    pub closed spec fn spec_offset(&self) -> usize {
        self.offset
    }

    /// The command data of the APDU.
    pub closed spec fn spec_data(&self) -> Seq<u8> {
        self.apdu@.subrange(4 + self.offset, 4 + self.offset + self.lc)
    }

    /// Parse a command APDU; fails exactly where the decoding table fails.
    pub fn try_from(apdu: &'a [u8]) -> (res: Result<Apdu<'a>, ()>)
        requires
            decodable(apdu@),
        ensures
            res is Ok <==> spec_lengths(body_of(apdu@)) is Ok,
            res matches Ok(a) ==> {
                let (lc, le, off) = spec_lengths(body_of(apdu@))->Ok_0;
                &&& a.wf()
                &&& a.bytes() == apdu@
                &&& a.spec_lc() == lc
                &&& a.spec_le() == le
                &&& a.spec_offset() == off
                &&& a.spec_data() == apdu@.subrange(4 + off as int, 4 + off + lc as int)
            },
    {
        match calculate_lengths(apdu) {
            Ok((lc, le, offset)) => Ok(Apdu { lc, le, offset, apdu }),
            Err(()) => Err(()),
        }
    }

    /// The "class" byte of the APDU
    pub fn cla(&self) -> (r: u8)
        requires
            self.wf(),
        ensures
            r == self.bytes()[0],
    {
        self.apdu[0]
    }

    /// The "instruction" byte of the APDU
    pub fn ins(&self) -> (r: u8)
        requires
            self.wf(),
        ensures
            r == self.bytes()[1],
    {
        self.apdu[1]
    }

    /// The first "parameter" byte of the APDU
    pub fn p1(&self) -> (r: u8)
        requires
            self.wf(),
        ensures
            r == self.bytes()[2],
    {
        self.apdu[2]
    }

    /// The second "parameter" byte of the APDU
    pub fn p2(&self) -> (r: u8)
        requires
            self.wf(),
        ensures
            r == self.bytes()[3],
    {
        self.apdu[3]
    }

    /// The length of the APDU's command data bytes
    pub fn lc(&self) -> (r: usize)
        ensures
            r == self.spec_lc(),
    {
        self.lc
    }

    /// The maximum expected length of the response
    pub fn le(&self) -> (r: usize)
        ensures
            r == self.spec_le(),
    {
        self.le
    }

    /// The command data: `Lc` bytes after the length field.
    pub fn data(&self) -> (r: &'a [u8])
        requires
            self.wf(),
        ensures
            r@ == self.spec_data(),
            r@.len() == self.spec_lc(),
    {
        let start = 4 + self.offset;
        vstd::slice::slice_subrange(self.apdu, start, start + self.lc)
    }
}

/// Ranges of the class byte.
#[derive(Clone, Copy, Debug, PartialEq, Eq, Structural)]
pub enum Range {
    FirstInterindustry,
    FurtherInterindustry,
    Reserved,
    Proprietary,
    Invalid,
}

/// Secure messaging indication of the class byte.
#[derive(Clone, Copy, Debug, PartialEq, Eq, Structural)]
pub enum SecureMessaging {
    NotUsed,
    Proprietary,
    Standard,
    Authenticated,
    Unknown,
}

/// Command chaining indication of the class byte.
#[derive(Clone, Copy, Debug, PartialEq, Eq, Structural)]
pub enum Chain {
    LastOrOnly,
    NotTheLast,
    Unknown,
}

/// The range of a class byte: `0xFF` is invalid, otherwise its top three bits
/// decide (`000` first interindustry, `01x` further interindustry, `001`
/// reserved, `1xx` proprietary).
pub open spec fn spec_range(cla: u8) -> Range {
    if cla == 0xff {
        Range::Invalid
    } else if cla / 32 == 0 {
        Range::FirstInterindustry
    } else if cla / 32 == 2 || cla / 32 == 3 {
        Range::FurtherInterindustry
    } else if cla / 32 == 1 {
        Range::Reserved
    } else {
        Range::Proprietary
    }
}

/// Bit 5 of the class byte (value 0x10) is the chaining bit.
pub open spec fn chaining_bit(cla: u8) -> bool {
    (cla / 16) % 2 == 1
}

pub open spec fn spec_chain(cla: u8) -> Chain {
    match spec_range(cla) {
        Range::FirstInterindustry | Range::FurtherInterindustry => if chaining_bit(cla) {
            Chain::NotTheLast
        } else {
            Chain::LastOrOnly
        },
        _ => Chain::Unknown,
    }
}

pub open spec fn spec_channel(cla: u8) -> Option<u8> {
    match spec_range(cla) {
        Range::FirstInterindustry => Some((cla % 4) as u8),
        Range::FurtherInterindustry => Some((4 + cla % 16) as u8),
        _ => None,
    }
}

pub open spec fn spec_secure_messaging(cla: u8) -> SecureMessaging {
    match spec_range(cla) {
        Range::FirstInterindustry => {
            let sm = (cla / 4) % 4;
            if sm == 0 {
                SecureMessaging::NotUsed
            } else if sm == 1 {
                SecureMessaging::Proprietary
            } else if sm == 2 {
                SecureMessaging::Standard
            } else {
                SecureMessaging::Authenticated
            }
        },
        Range::FurtherInterindustry => if (cla / 32) % 2 == 1 {
            SecureMessaging::Standard
        } else {
            SecureMessaging::NotUsed
        },
        _ => SecureMessaging::Unknown,
    }
}

/// The class byte of a command APDU.
pub struct Class {
    cla: u8,
}

impl Class {
    pub closed spec fn byte(&self) -> u8 {
        self.cla
    }

    pub fn new(cla: u8) -> (r: Class)
        ensures
            r.byte() == cla,
    {
        Class { cla }
    }

    /// The chaining bit is clear.
    pub fn last(&self) -> (r: bool)
        ensures
            r == !chaining_bit(self.byte()),
    {
        let cla = self.cla;
        assert((cla & 0x10 == 0) == ((cla / 16) % 2 != 1)) by (bit_vector);
        self.cla & 0x10 == 0
    }

    pub fn chain(&self) -> (r: Chain)
        ensures
            r == spec_chain(self.byte()),
    {
        match self.range() {
            Range::FirstInterindustry | Range::FurtherInterindustry => {
                let cla = self.cla;
                assert((cla & 0x10 != 0) == ((cla / 16) % 2 == 1)) by (bit_vector);
                if self.cla & 0x10 != 0 {
                    Chain::NotTheLast
                } else {
                    Chain::LastOrOnly
                }
            },
            _ => Chain::Unknown,
        }
    }

    /// Logical channel number, for the interindustry ranges.
    pub fn channel(&self) -> (r: Option<u8>)
        ensures
            r == spec_channel(self.byte()),
    {
        let cla = self.cla;
        match self.range() {
            Range::FirstInterindustry => {
                assert(cla & 0b11 == cla % 4) by (bit_vector);
                Some(self.cla & 0b11)
            },
            Range::FurtherInterindustry => {
                assert(cla & 0x0f == cla % 16) by (bit_vector);
                Some(4 + (self.cla & 0x0f))
            },
            _ => None,
        }
    }

    pub fn range(&self) -> (r: Range)
        ensures
            r == spec_range(self.byte()),
    {
        if self.cla == 0xff {
            return Range::Invalid;
        }
        let cla = self.cla;
        assert(cla >> 5 == cla / 32) by (bit_vector);
        let top = self.cla >> 5;
        if top == 0 {
            Range::FirstInterindustry
        } else if top == 2 || top == 3 {
            Range::FurtherInterindustry
        } else if top == 1 {
            Range::Reserved
        } else {
            Range::Proprietary
        }
    }

    pub fn secure_messaging(&self) -> (r: SecureMessaging)
        ensures
            r == spec_secure_messaging(self.byte()),
    {
        match self.range() {
            Range::FirstInterindustry => {
                let cla = self.cla;
                assert((cla >> 2) & 0b11 == (cla / 4) % 4) by (bit_vector);
                let sm = (self.cla >> 2) & 0b11;
                if sm == 0 {
                    SecureMessaging::NotUsed
                } else if sm == 1 {
                    SecureMessaging::Proprietary
                } else if sm == 2 {
                    SecureMessaging::Standard
                } else {
                    SecureMessaging::Authenticated
                }
            },
            Range::FurtherInterindustry => {
                let cla = self.cla;
                assert((cla & 0x20 != 0) == ((cla / 32) % 2 == 1)) by (bit_vector);
                if self.cla & 0x20 != 0 {
                    SecureMessaging::Standard
                } else {
                    SecureMessaging::NotUsed
                }
            },
            _ => SecureMessaging::Unknown,
        }
    }
}

/// A command APDU with owned command data.
#[derive(Clone, Debug, PartialEq)]
pub struct Command {
    pub cla: u8,
    pub ins: u8,
    pub p1: u8,
    pub p2: u8,
    pub lc: usize,
    pub le: usize,
    pub data: Vec<u8>,
}

impl Command {
    /// Parse a message into a command; fails exactly where the decoding table
    /// fails, and otherwise copies the header, the lengths and the data.
    pub fn try_from(message: &[u8]) -> (res: Result<Command, ()>)
        requires
            decodable(message@),
            message@.len() <= MESSAGE_CAPACITY,
        ensures
            res is Ok <==> spec_lengths(body_of(message@)) is Ok,
            res matches Ok(c) ==> {
                let (lc, le, off) = spec_lengths(body_of(message@))->Ok_0;
                &&& c.cla == message@[0]
                &&& c.ins == message@[1]
                &&& c.p1 == message@[2]
                &&& c.p2 == message@[3]
                &&& c.lc == lc
                &&& c.le == le
                &&& c.data@ == message@.subrange(4 + off as int, 4 + off + lc as int)
            },
    {
        let apdu = Apdu::try_from(message)?;
        let data = apdu.data();
        Ok(Command {
            cla: apdu.cla(),
            ins: apdu.ins(),
            p1: apdu.p1(),
            p2: apdu.p2(),
            lc: apdu.lc(),
            le: apdu.le(),
            data: vstd::slice::slice_to_vec(data),
        })
    }
}

/// A response APDU: data followed by the two status bytes.
#[derive(Clone, Debug, Default, PartialEq)]
pub struct Response {
    pub sw1: u8,
    pub sw2: u8,
    pub data: Vec<u8>,
}

impl Response {
    /// Serialize: the data, then `SW1`, then `SW2`.
    pub fn into_message(self) -> (message: Vec<u8>)
        requires
            self.data@.len() + 2 <= MESSAGE_CAPACITY,
        ensures
            message@ == self.data@.push(self.sw1).push(self.sw2),
    {
        let mut message: Vec<u8> = Vec::new();
        message.extend_from_slice(self.data.as_slice());
        message.push(self.sw1);
        message.push(self.sw2);
        message
    }
}

/// CCID class-specific requests.
#[derive(Clone, Copy, Debug, PartialEq, Eq, Structural)]
pub enum ClassRequest {
    Abort,
    GetClockFrequencies,
    GetDataRates,
}

impl ClassRequest {
    /// The request code of the CCID specification.
    pub open spec fn spec_code(&self) -> u8 {
        match self {
            ClassRequest::Abort => 1,
            ClassRequest::GetClockFrequencies => 2,
            ClassRequest::GetDataRates => 3,
        }
    }

    pub fn try_from(request: u8) -> (r: Result<ClassRequest, ()>)
        ensures
            r is Ok <==> 1 <= request <= 3,
            r matches Ok(c) ==> c.spec_code() == request,
    {
        match request {
            1 => Ok(ClassRequest::Abort),
            2 => Ok(ClassRequest::GetClockFrequencies),
            3 => Ok(ClassRequest::GetDataRates),
            _ => Err(()),
        }
    }
}

/// The class-specific requests of the CCID specification.
pub proof fn lemma_class_request_codes(x: ClassRequest)
    ensures
        (x == ClassRequest::Abort) <==> x.spec_code() == 1,
        (x == ClassRequest::GetClockFrequencies) <==> x.spec_code() == 2,
        (x == ClassRequest::GetDataRates) <==> x.spec_code() == 3,
{
}

} // verus!
