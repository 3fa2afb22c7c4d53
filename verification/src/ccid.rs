//! The USB CCID smart card interface: its constants, the answer to reset,
//! the reassembly of long bulk packets, the decoding of commands, the
//! transfer state machine that carries APDUs in and responses out in
//! chunks, and the fixed replies (slot status, parameters, time extension).
//! The caller moves packets over USB and hands APDUs to the applications.

use vstd::prelude::*;
use crate::apdu::{ClassRequest, Apdu, decodable, spec_lengths, body_of};
use crate::der::{tlv, push_tlv};
use crate::derp::bytes_eq;
use crate::bounded::flatten;

verus! {

/// Size of a bulk packet at full speed.
pub const PACKET_SIZE: usize = 64;
/// Size of the header of a CCID message.
pub const HEADER_SIZE: usize = 10;
/// Data that fits in one packet after the header.
pub const CHUNK_SIZE: usize = 54;
/// Interface class of CCID.
pub const CLASS_CCID: u8 = 0x0B;
pub const SUBCLASS_NONE: u8 = 0x0;
/// Descriptor type of the CCID functional descriptor.
pub const FUNCTIONAL_INTERFACE: u8 = 0x21;
/// 4 MHz, little-endian.
pub const CLOCK_FREQUENCY_KHZ: [u8; 4] = [0xa0, 0x0f, 0x00, 0x00];
/// 307200 bps, little-endian.
pub const DATA_RATE_BPS: [u8; 4] = [0x00, 0xb0, 0x04, 0x00];
/// Largest information field, little-endian.
pub const MAX_IFSD: [u8; 4] = [0xf6, 0x07, 0x00, 0x00];
/// Largest message.
pub const MAX_MSG_LENGTH: usize = 3072;
pub const MAX_MSG_LENGTH_LE: [u8; 4] = [0x00, 0x0C, 0x00, 0x00];
pub const NUM_SLOTS: u8 = 1;
pub const MAX_BUSY_SLOTS: u8 = 1;
pub const PIN_SUPPORT: u8 = 0;

/// The CCID functional descriptor: version 1.10, one slot, 5V/3V/1.8V,
/// T=1, the clock and data rates above, TPDU-less short and extended APDU
/// exchanges, the largest message, echoed class bytes, no PIN support.
pub const FUNCTIONAL_INTERFACE_DESCRIPTOR: [u8; 52] = [
    0x00, 0x01, 0x00, 0x07, 0x02, 0x00, 0x00, 0x00, 0xa0, 0x0f, 0x00, 0x00, 0xa0, 0x0f, 0x00, 0x00, 0x00,
    0x00, 0xb0, 0x04, 0x00, 0x00, 0xb0, 0x04, 0x00, 0x00, 0xf6, 0x07, 0x00, 0x00, 0x00, 0x00, 0x00, 0x00,
    0x00, 0x00, 0x00, 0x00, 0xFE, 0x00, 0x04, 0x00, 0x00, 0x0C, 0x00, 0x00, 0xFF, 0xFF, 0x00, 0x00, 0x00,
    0x01,
];

/// Transfer modes of the interface protocol field.
#[derive(Clone, Copy, Debug, PartialEq, Eq, Structural)]
pub enum TransferMode {
    Bulk,
    ControlA,
    ControlB,
}

impl TransferMode {
    pub open spec fn spec_code(self) -> u8 {
        match self {
            TransferMode::Bulk => 0,
            TransferMode::ControlA => 1,
            TransferMode::ControlB => 2,
        }
    }

    pub fn code(self) -> (r: u8)
        ensures
            r == self.spec_code(),
    {
        match self {
            TransferMode::Bulk => 0,
            TransferMode::ControlA => 1,
            TransferMode::ControlB => 2,
        }
    }
}

/// XOR of all bytes.
pub open spec fn xor_all(s: Seq<u8>) -> u8
    decreases s.len(),
{
    if s.len() == 0 {
        0
    } else {
        xor_all(s.drop_last()) ^ s.last()
    }
}

/// The answer to reset before its check byte: direct convention, the number
/// of historical bytes, T=0 if signalled, T=1, then the card issuer's data
/// as a compact TLV (tag 5) after a category byte `80`.
pub open spec fn atr_body(card_issuers_data: Option<Seq<u8>>, signal_t_equals_0: bool) -> Seq<u8> {
    let k: u8 = match card_issuers_data {
        Some(d) => (2 + d.len()) as u8,
        None => 0,
    };
    seq![0x3Bu8, (0x80 + k) as u8] + (if signal_t_equals_0 {
        seq![0x80u8]
    } else {
        Seq::empty()
    }) + seq![0x01u8] + match card_issuers_data {
        Some(d) => seq![0x80u8, (0x50 + d.len()) as u8] + d,
        None => Seq::empty(),
    }
}

/// The answer to reset: the body and the XOR of all its bytes but the first.
pub open spec fn atr(card_issuers_data: Option<Seq<u8>>, signal_t_equals_0: bool) -> Seq<u8> {
    let b = atr_body(card_issuers_data, signal_t_equals_0);
    b.push(xor_all(b.drop_first()))
}

pub open spec fn opt_seq(d: Option<&[u8]>) -> Option<Seq<u8>> {
    match d {
        Some(s) => Some(s@),
        None => None,
    }
}

/// Build the answer to reset; the card issuer's data holds at most 13 bytes.
pub fn construct_atr(card_issuers_data: Option<&[u8]>, signal_t_equals_0: bool) -> (r: Vec<u8>)
    requires
        card_issuers_data matches Some(d) ==> d@.len() <= 13,
    ensures
        r@ == atr(opt_seq(card_issuers_data), signal_t_equals_0),
        r@.len() <= 32,
        xor_all(r@.drop_first()) == 0,
{
    let k: u8 = match card_issuers_data {
        Some(data) => 2 + data.len() as u8,
        None => 0,
    };
    let mut atr: Vec<u8> = Vec::new();
    // TS: direct convention
    atr.push(0x3B);
    // T0: number of historical bytes
    atr.push(0x80 | k);
    assert(0x80 | k == 0x80 + k) by (bit_vector)
        requires
            k <= 15,
    ;
    if signal_t_equals_0 {
        atr.push(0x80);
    }
    // T=1
    atr.push(0x01);
    match card_issuers_data {
        Some(data) => {
            // no status indicator
            atr.push(0x80);
            // tag 5: card issuer's data
            let l = data.len() as u8;
            assert(0x50 | l == 0x50 + l) by (bit_vector)
                requires
                    l <= 13,
            ;
            atr.push(0x50 | l);
            atr.extend_from_slice(data);
        },
        None => {},
    }
    let ghost body = atr@;
    assert(body =~= atr_body(opt_seq(card_issuers_data), signal_t_equals_0));
    // xor of all bytes except TS
    let mut checksum: u8 = 0;
    let mut i: usize = 1;
    while i < atr.len()
        invariant
            1 <= i <= atr@.len(),
            atr@ == body,
            body.len() <= 31,
            checksum == xor_all(body.subrange(1, i as int)),
        decreases atr@.len() - i,
    {
        assert(body.subrange(1, i + 1).drop_last() =~= body.subrange(1, i as int));
        checksum = checksum ^ atr[i];
        i = i + 1;
    }
    assert(body.subrange(1, body.len() as int) =~= body.drop_first());
    atr.push(checksum);
    proof {
        let t = atr@.drop_first();
        assert(t.drop_last() =~= body.drop_first());
        assert(t.last() == checksum);
        assert(checksum ^ checksum == 0) by (bit_vector);
    }
    atr
}

/// Where the transfer of an APDU and of its response stands.
#[derive(Copy, Clone, Debug, PartialEq, Eq, Structural)]
pub enum State {
    Idle,
    Receiving,
    Processing,
    ReadyToSend,
    Sending,
}

/// The chaining parameter of a transfer block.
#[derive(Copy, Clone, Debug, PartialEq, Eq, Structural)]
pub enum Chain {
    BeginsAndEnds,
    Begins,
    Ends,
    Continues,
    ExpectingMore,
}

impl Chain {
    /// Its code in the level parameter of the CCID specification.
    pub open spec fn spec_code(self) -> u8 {
        match self {
            Chain::BeginsAndEnds => 0x00,
            Chain::Begins => 0x01,
            Chain::Ends => 0x02,
            Chain::Continues => 0x03,
            Chain::ExpectingMore => 0x10,
        }
    }

    pub fn code(self) -> (r: u8)
        ensures
            r == self.spec_code(),
    {
        match self {
            Chain::BeginsAndEnds => 0x00,
            Chain::Begins => 0x01,
            Chain::Ends => 0x02,
            Chain::Continues => 0x03,
            Chain::ExpectingMore => 0x10,
        }
    }

    pub open spec fn spec_from_code(c: u8) -> Option<Chain> {
        if c == 0x00 {
            Some(Chain::BeginsAndEnds)
        } else if c == 0x01 {
            Some(Chain::Begins)
        } else if c == 0x02 {
            Some(Chain::Ends)
        } else if c == 0x03 {
            Some(Chain::Continues)
        } else if c == 0x10 {
            Some(Chain::ExpectingMore)
        } else {
            None
        }
    }

    pub fn from_code(c: u8) -> (r: Option<Chain>)
        ensures
            r == Chain::spec_from_code(c),
    {
        match c {
            0x00 => Some(Chain::BeginsAndEnds),
            0x01 => Some(Chain::Begins),
            0x02 => Some(Chain::Ends),
            0x03 => Some(Chain::Continues),
            0x10 => Some(Chain::ExpectingMore),
            _ => None,
        }
    }
}

/// The chaining codes of the level parameter (USB CCID, `wLevelParameter`):
/// 0 a single block, 1 the first, 2 the last, 3 a middle one, 0x10 a request
/// for more. Decoding is exact on these five codes, refuses every other
/// value, and undoes `code`.
pub proof fn lemma_chain_codes(c: u8, ch: Chain)
    ensures
        Chain::spec_from_code(c) == Some(Chain::BeginsAndEnds) <==> c == 0x00,
        Chain::spec_from_code(c) == Some(Chain::Begins) <==> c == 0x01,
        Chain::spec_from_code(c) == Some(Chain::Ends) <==> c == 0x02,
        Chain::spec_from_code(c) == Some(Chain::Continues) <==> c == 0x03,
        Chain::spec_from_code(c) == Some(Chain::ExpectingMore) <==> c == 0x10,
        Chain::spec_from_code(c) is None <==> !(c <= 3 || c == 0x10),
        Chain::spec_from_code(ch.spec_code()) == Some(ch),
        (ch == Chain::Ends) <==> ch.spec_code() == 0x02,
        (ch == Chain::Continues) <==> ch.spec_code() == 0x03,
{
}

/// What the pipe does after a transfer block.
#[derive(Copy, Clone, Debug, PartialEq, Eq, Structural)]
pub enum TransferAction {
    /// The APDU is complete: hand it to the application.
    CallApp,
    /// Acknowledge with an empty data block that expects more.
    ExpectMore,
    /// Send the next chunk of the response.
    PrimeOutbox,
}

/// The combinations of state and chaining that the pipe does not expect,
/// and messages that would grow past the largest message.
pub open spec fn transfer_refused(state: State, chain: Chain, message_len: nat, data_len: nat) -> bool {
    match state {
        State::Idle => !(chain == Chain::BeginsAndEnds || chain == Chain::Begins) || data_len > MAX_MSG_LENGTH,
        State::Receiving => !(chain == Chain::Continues || chain == Chain::Ends) || message_len + data_len > MAX_MSG_LENGTH,
        State::Processing | State::ReadyToSend => true,
        State::Sending => chain != Chain::ExpectingMore,
    }
}

/// A transfer block in the given state: the state and action after it, and
/// the message being received.
pub open spec fn spec_transfer(state: State, chain: Chain, message: Seq<u8>, data: Seq<u8>) -> (
    State,
    TransferAction,
    Seq<u8>,
) {
    match (state, chain) {
        (State::Idle, Chain::BeginsAndEnds) => (State::Processing, TransferAction::CallApp, data),
        (State::Idle, Chain::Begins) => (State::Receiving, TransferAction::ExpectMore, data),
        (State::Receiving, Chain::Continues) => (State::Receiving, TransferAction::ExpectMore, message + data),
        (State::Receiving, Chain::Ends) => (State::Processing, TransferAction::CallApp, message + data),
        _ => (State::Sending, TransferAction::PrimeOutbox, message),
    }
}

/// A run of transfer blocks from `state`: the state and message at the end,
/// the action taken for each block, and whether every block was accepted
/// (the run stops at the first refused block).
pub open spec fn run_transfers(state: State, message: Seq<u8>, blocks: Seq<(Chain, Seq<u8>)>) -> (
    State,
    Seq<u8>,
    Seq<TransferAction>,
    bool,
)
    decreases blocks.len(),
{
    if blocks.len() == 0 {
        (state, message, Seq::empty(), true)
    } else if transfer_refused(state, blocks[0].0, message.len(), blocks[0].1.len()) {
        (state, message, Seq::empty(), false)
    } else {
        let (s, a, m) = spec_transfer(state, blocks[0].0, message, blocks[0].1);
        let rest = run_transfers(s, m, blocks.drop_first());
        (rest.0, rest.1, seq![a] + rest.2, rest.3)
    }
}

/// The blocks `Continues d` for each piece `d`, then `Ends last`.
pub open spec fn continuation_blocks(middle: Seq<Seq<u8>>, last: Seq<u8>) -> Seq<(Chain, Seq<u8>)> {
    middle.map_values(|d: Seq<u8>| (Chain::Continues, d)) + seq![(Chain::Ends, last)]
}

/// `n` requests for more, then the call of the application.
pub open spec fn chain_actions(n: nat) -> Seq<TransferAction> {
    Seq::new(n, |i: int| TransferAction::ExpectMore).push(TransferAction::CallApp)
}

proof fn lemma_continuation_delivers(message: Seq<u8>, middle: Seq<Seq<u8>>, last: Seq<u8>)
    requires
        message.len() + flatten(middle).len() + last.len() <= MAX_MSG_LENGTH,
    ensures
        run_transfers(State::Receiving, message, continuation_blocks(middle, last)) == (
            State::Processing,
            message + flatten(middle) + last,
            chain_actions(middle.len()),
            true,
        ),
    decreases middle.len(),
{
    let blocks = continuation_blocks(middle, last);
    reveal_with_fuel(run_transfers, 2);
    if middle.len() == 0 {
        assert(blocks =~= seq![(Chain::Ends, last)]);
        assert(blocks.drop_first() =~= Seq::<(Chain, Seq<u8>)>::empty());
        assert(flatten(middle) =~= Seq::<u8>::empty());
        assert(message + flatten(middle) + last =~= message + last);
        assert(chain_actions(0) =~= seq![TransferAction::CallApp]);
        assert(seq![TransferAction::CallApp] + Seq::<TransferAction>::empty() =~= seq![TransferAction::CallApp]);
    } else {
        let d = middle[0];
        assert(flatten(middle) == d + flatten(middle.drop_first()));
        assert(blocks[0] == (Chain::Continues, d));
        assert(blocks.drop_first() =~= continuation_blocks(middle.drop_first(), last));
        lemma_continuation_delivers(message + d, middle.drop_first(), last);
        assert(!transfer_refused(State::Receiving, Chain::Continues, message.len(), d.len()));
        assert(spec_transfer(State::Receiving, Chain::Continues, message, d) == (
            State::Receiving,
            TransferAction::ExpectMore,
            message + d,
        ));
        assert(message + d + flatten(middle.drop_first()) + last =~= message + flatten(middle) + last);
        assert(seq![TransferAction::ExpectMore] + chain_actions((middle.len() - 1) as nat) =~= chain_actions(
            middle.len(),
        ));
    }
}

/// A chained command arrives whole: from an idle pipe, a first block, any
/// number of continuing blocks and a last block whose data together fit in
/// the largest message are all accepted; each but the last is answered with
/// a request for more, the last hands the application the concatenation of
/// all their data, and the pipe is then processing.
pub proof fn lemma_chain_delivers(
    message: Seq<u8>,
    first: Seq<u8>,
    middle: Seq<Seq<u8>>,
    last: Seq<u8>,
)
    requires
        first.len() + flatten(middle).len() + last.len() <= MAX_MSG_LENGTH,
    ensures
        run_transfers(State::Idle, message, seq![(Chain::Begins, first)] + continuation_blocks(middle, last)) == (
            State::Processing,
            first + flatten(middle) + last,
            seq![TransferAction::ExpectMore] + chain_actions(middle.len()),
            true,
        ),
{
    let blocks = seq![(Chain::Begins, first)] + continuation_blocks(middle, last);
    assert(blocks[0] == (Chain::Begins, first));
    assert(blocks.drop_first() =~= continuation_blocks(middle, last));
    lemma_continuation_delivers(first, middle, last);
}

/// A transfer block (`PC_to_RDR_XfrBlock`) in the given state: a first
/// piece starts the message, later pieces extend it, and the last one (or a
/// single one) hands it to the application; while sending, a request for
/// more sends the next chunk.
pub fn handle_transfer(state: State, chain: Chain, message: &mut Vec<u8>, data: &[u8]) -> (r: (State, TransferAction))
    requires
        !transfer_refused(state, chain, old(message)@.len(), data@.len()),
    ensures
        final(message)@.len() <= MAX_MSG_LENGTH || state == State::Sending,
        (r.0, r.1, final(message)@) == spec_transfer(state, chain, old(message)@, data@),
        match (state, chain) {
            (State::Idle, Chain::BeginsAndEnds) => final(message)@ == data@ && r == (State::Processing, TransferAction::CallApp),
            (State::Idle, Chain::Begins) => final(message)@ == data@ && r == (State::Receiving, TransferAction::ExpectMore),
            (State::Receiving, Chain::Continues) => final(message)@ == old(message)@ + data@ && r == (
                State::Receiving,
                TransferAction::ExpectMore,
            ),
            (State::Receiving, Chain::Ends) => final(message)@ == old(message)@ + data@ && r == (
                State::Processing,
                TransferAction::CallApp,
            ),
            _ => final(message)@ == old(message)@ && r == (State::Sending, TransferAction::PrimeOutbox),
        },
{
    match state {
        State::Idle => {
            message.clear();
            message.extend_from_slice(data);
            match chain {
                Chain::BeginsAndEnds => (State::Processing, TransferAction::CallApp),
                _ => (State::Receiving, TransferAction::ExpectMore),
            }
        },
        State::Receiving => {
            message.extend_from_slice(data);
            match chain {
                Chain::Continues => (State::Receiving, TransferAction::ExpectMore),
                _ => (State::Processing, TransferAction::CallApp),
            }
        },
        _ => (State::Sending, TransferAction::PrimeOutbox),
    }
}

/// The next chunk of a response: up to 54 bytes from `sent`, with the
/// chaining that tells the host whether more follows.
pub open spec fn spec_prime(state: State, sent: nat, len: nat) -> Option<(nat, Chain, State)> {
    if state != State::ReadyToSend && state != State::Sending {
        None
    } else {
        let size: nat = if len - sent < CHUNK_SIZE { (len - sent) as nat } else { CHUNK_SIZE as nat };
        let more = sent + size < len;
        match (state, more) {
            (State::ReadyToSend, true) => Some((size, Chain::Begins, State::Sending)),
            (State::ReadyToSend, false) => Some((size, Chain::BeginsAndEnds, State::Idle)),
            (State::Sending, true) => Some((size, Chain::Continues, State::Sending)),
            _ => Some((size, Chain::Ends, State::Idle)),
        }
    }
}

/// Choose the next chunk of the response: its size, its chaining and the
/// state afterwards (`None` when no response is being sent).
pub fn prime_outbox(state: State, sent: usize, len: usize) -> (r: Option<(usize, Chain, State)>)
    requires
        sent <= len,
    ensures
        match (r, spec_prime(state, sent as nat, len as nat)) {
            (Some((n, c, s)), Some((sn, sc, ss))) => n == sn && c == sc && s == ss,
            (None, None) => true,
            _ => false,
        },
{
    if state != State::ReadyToSend && state != State::Sending {
        return None;
    }
    let chunk_size = if len - sent < CHUNK_SIZE {
        len - sent
    } else {
        CHUNK_SIZE
    };
    let more = sent + chunk_size < len;
    match (state, more) {
        (State::ReadyToSend, true) => Some((chunk_size, Chain::Begins, State::Sending)),
        (State::ReadyToSend, false) => Some((chunk_size, Chain::BeginsAndEnds, State::Idle)),
        (State::Sending, true) => Some((chunk_size, Chain::Continues, State::Sending)),
        _ => Some((chunk_size, Chain::Ends, State::Idle)),
    }
}

/// Sending a response chunk by chunk from `sent` until the pipe is idle
/// again: the chunks that are sent, in order.
pub open spec fn chunks(state: State, sent: nat, len: nat) -> Seq<(nat, nat, Chain)>
    decreases len - sent, (if state == State::ReadyToSend { 1nat } else { 0nat }),
{
    match spec_prime(state, sent, len) {
        None => Seq::empty(),
        Some((n, c, s)) => if s == State::Idle || n == 0 {
            seq![(sent, n, c)]
        } else {
            seq![(sent, n, c)] + chunks(s, sent + n, len)
        },
    }
}

/// A response is sent whole and in order: the chunks from a ready pipe
/// start at 0, each starts where the one before ended, none is longer than
/// 54 bytes, and the last ends at the end of the response and leaves the
/// pipe idle.
pub proof fn lemma_chunks_cover(state: State, sent: nat, len: nat)
    requires
        state == State::ReadyToSend || state == State::Sending,
        sent <= len,
        state == State::Sending ==> sent < len,
    ensures
        ({
            let cs = chunks(state, sent, len);
            &&& cs.len() >= 1
            &&& cs[0].0 == sent
            &&& forall|i: int| 0 <= i < cs.len() ==> #[trigger] cs[i].1 <= CHUNK_SIZE
            &&& forall|i: int| 0 <= i < cs.len() - 1 ==> #[trigger] cs[i + 1].0 == cs[i].0 + cs[i].1
            &&& cs[cs.len() - 1].0 + cs[cs.len() - 1].1 == len
            &&& spec_prime(state, sent, len) matches Some((_, _, s)) && (s == State::Idle <==> cs.len() == 1)
        }),
    decreases len - sent, (if state == State::ReadyToSend { 1nat } else { 0nat }),
{
    let (n, c, s) = spec_prime(state, sent, len)->Some_0;
    if s == State::Idle || n == 0 {
    } else {
        lemma_chunks_cover(s, sent + n, len);
        let rest = chunks(s, sent + n, len);
        let cs = chunks(state, sent, len);
        assert(cs == seq![(sent, n, c)] + rest);
        assert forall|i: int| 0 <= i < cs.len() implies #[trigger] cs[i].1 <= CHUNK_SIZE by {
            if i > 0 {
                assert(cs[i] == rest[i - 1]);
            }
        }
        assert forall|i: int| 0 <= i < cs.len() - 1 implies #[trigger] cs[i + 1].0 == cs[i].0 + cs[i].1 by {
            assert(cs[i + 1] == rest[i]);
            if i > 0 {
                assert(cs[i] == rest[i - 1]);
                let j = i - 1;
                assert(rest[j + 1].0 == rest[j].0 + rest[j].1);
            }
        }
        assert(cs[cs.len() - 1] == rest[rest.len() - 1]);
    }
}

/// The header of a message to the host: type, little-endian length, slot
/// 0, sequence number, status, error and a last parameter byte.
pub open spec fn header(message_type: u8, len: nat, seq_no: u8, status: u8, error: u8, param: u8) -> Seq<u8> {
    seq![
        message_type,
        (len % 256) as u8,
        ((len / 256) % 256) as u8,
        ((len / 65536) % 256) as u8,
        ((len / 16777216) % 256) as u8,
        0u8,
        seq_no,
        status,
        error,
        param,
    ]
}

/// `RDR_to_PC_DataBlock` with the given chaining and data.
pub open spec fn data_block(seq_no: u8, chain: Chain, data: Seq<u8>) -> Seq<u8> {
    header(0x80, data.len(), seq_no, 0, 0, chain.spec_code()) + data
}

pub fn build_data_block(seq_no: u8, chain: Chain, data: &[u8]) -> (r: Vec<u8>)
    requires
        data@.len() <= CHUNK_SIZE,
    ensures
        r@ == data_block(seq_no, chain, data@),
        r@.len() <= PACKET_SIZE,
{
    let len = data.len() as u8;
    let mut v: Vec<u8> = vec![0x80, len, 0, 0, 0, 0, seq_no, 0, 0, chain.code()];
    v.extend_from_slice(data);
    assert(v@ =~= data_block(seq_no, chain, data@));
    v
}

/// `RDR_to_PC_SlotStatus` with no error.
pub fn slot_status_ok(seq_no: u8) -> (r: Vec<u8>)
    ensures
        r@ == header(0x81, 0, seq_no, 0, 0, 0),
{
    let v: Vec<u8> = vec![0x81, 0, 0, 0, 0, 0, seq_no, 0, 0, 0];
    assert(v@ =~= header(0x81, 0, seq_no, 0, 0, 0));
    v
}

/// Slot errors.
#[derive(Copy, Clone, Debug, PartialEq, Eq, Structural)]
pub enum SlotError {
    CmdAborted,
    IccMute,
    XfrParityError,
    CmdSlotBusy,
    CommandNotSupported,
}

impl SlotError {
    pub open spec fn spec_code(self) -> u8 {
        match self {
            SlotError::CmdAborted => 0xff,
            SlotError::IccMute => 0xfe,
            SlotError::XfrParityError => 0xfd,
            SlotError::CmdSlotBusy => 0xe0,
            SlotError::CommandNotSupported => 0x00,
        }
    }

    pub fn code(self) -> (r: u8)
        ensures
            r == self.spec_code(),
    {
        match self {
            SlotError::CmdAborted => 0xff,
            SlotError::IccMute => 0xfe,
            SlotError::XfrParityError => 0xfd,
            SlotError::CmdSlotBusy => 0xe0,
            SlotError::CommandNotSupported => 0x00,
        }
    }
}

/// A slot status reporting a failed command.
pub fn slot_status_error(seq_no: u8, error: SlotError) -> (r: Vec<u8>)
    ensures
        r@ == header(0x6c, 0, seq_no, 0x40, error.spec_code(), 0),
{
    let v: Vec<u8> = vec![0x6c, 0, 0, 0, 0, 0, seq_no, 0x40, error.code(), 0];
    assert(v@ =~= header(0x6c, 0, seq_no, 0x40, error.spec_code(), 0));
    v
}

/// `RDR_to_PC_Parameters` for T=1: fastest Fi/Di, default checksum and
/// guard time, the longest waiting time.
pub fn parameters(seq_no: u8) -> (r: Vec<u8>)
    ensures
        r@ == header(0x82, 7, seq_no, 0, 0, 1) + seq![0x11u8, 0x10, 0x00, 0x15, 0x00, 0xfe, 0x00],
{
    let v: Vec<u8> = vec![0x82, 7, 0, 0, 0, 0, seq_no, 0, 0, 1, 0x11, 0x10, 0x00, 0x15, 0x00, 0xfe, 0x00];
    assert(v@ =~= header(0x82, 7, seq_no, 0, 0, 1) + seq![0x11u8, 0x10, 0x00, 0x15, 0x00, 0xfe, 0x00]);
    v
}

/// A data block that asks the host for more time (multiplier 1), while the
/// application is processing; `None` otherwise.
pub fn wait_extension(state: State, seq_no: u8) -> (r: Option<Vec<u8>>)
    ensures
        state == State::Processing ==> (r matches Some(v) && v@ == header(0x80, 0, seq_no, 0x80, 1, 0)),
        state != State::Processing ==> r is None,
{
    if state == State::Processing {
        let v: Vec<u8> = vec![0x80, 0, 0, 0, 0, 0, seq_no, 0x80, 1, 0];
        assert(v@ =~= header(0x80, 0, seq_no, 0x80, 1, 0));
        Some(v)
    } else {
        None
    }
}

/// The answer to a class request read from the host: the clock
/// frequencies or the data rates; other known requests are not reads.
pub open spec fn spec_control_in(request: u8) -> Option<Seq<u8>> {
    if request == 2 {
        Some(CLOCK_FREQUENCY_KHZ@)
    } else if request == 3 {
        Some(DATA_RATE_BPS@)
    } else {
        None
    }
}

/// A class request to the interface with data to the host: the answer, or
/// `None` to reject an unknown request.
pub fn control_in(request: u8) -> (r: Option<Vec<u8>>)
    requires
        request != 1,
    ensures
        match (r, spec_control_in(request)) {
            (Some(v), Some(s)) => v@ == s,
            (None, None) => true,
            _ => false,
        },
{
    match ClassRequest::try_from(request) {
        Ok(ClassRequest::GetClockFrequencies) => {
            let mut v: Vec<u8> = Vec::new();
            v.extend_from_slice(&CLOCK_FREQUENCY_KHZ);
            Some(v)
        },
        Ok(ClassRequest::GetDataRates) => {
            let mut v: Vec<u8> = Vec::new();
            v.extend_from_slice(&DATA_RATE_BPS);
            Some(v)
        },
        _ => None,
    }
}

/// AID of the PIV application.
pub open spec fn piv_aid_bytes() -> Seq<u8> {
    seq![0xa0u8, 0x00, 0x00, 0x03, 0x08, 0x00, 0x00, 0x10, 0x00, 0x01, 0x00]
}

/// The PIV AID without its version.
pub open spec fn piv_truncated_aid_bytes() -> Seq<u8> {
    seq![0xa0u8, 0x00, 0x00, 0x03, 0x08, 0x00, 0x00, 0x10, 0x00]
}

/// The answer of the stand-in PIV application to SELECT: the application
/// property template (PIX, NIST RID, algorithms 07, 0C, 11) and `90 00`.
pub open spec fn stand_in_select_answer() -> Seq<u8> {
    tlv(
        seq![0x61u8],
        tlv(seq![0x4fu8], seq![0x00u8, 0x00, 0x10, 0x00, 0x01, 0x00]) + tlv(
            seq![0x79u8],
            tlv(seq![0x4fu8], seq![0xa0u8, 0x00, 0x00, 0x03, 0x08]),
        ) + tlv(
            seq![0xacu8],
            tlv(seq![0x80u8], seq![0x07u8]) + tlv(seq![0x80u8], seq![0x0cu8]) + tlv(seq![0x80u8], seq![0x11u8])
                + tlv(seq![0x07u8], seq![0x00u8]),
        ),
    ) + seq![0x90u8, 0x00]
}

/// A well-formed command that is not `SELECT` by name (`00 A4 04 00`,
/// Le 256): the stand-in PIV application stops on it.
pub open spec fn stand_in_refused(c: Seq<u8>) -> bool {
    &&& spec_lengths(body_of(c)) is Ok
    &&& !(c[0] == 0x00 && c[1] == 0xa4 && c[2] == 0x04 && c[3] == 0x00 && spec_lengths(body_of(c))->Ok_0.1 == 256)
}

/// A stand-in PIV application over the raw message buffer: a malformed APDU
/// is answered `6A 82`; a SELECT of the PIV AID (full or truncated) is
/// answered with the application property template; a SELECT of another
/// AID leaves the buffer as it is.
pub fn fake_piv(command: &mut Vec<u8>)
    requires
        decodable(old(command)@),
        !stand_in_refused(old(command)@),
    ensures
        spec_lengths(body_of(old(command)@)) is Err ==> final(command)@ == seq![0x6au8, 0x82],
        spec_lengths(body_of(old(command)@)) is Ok ==> {
            let (lc, le, off) = spec_lengths(body_of(old(command)@))->Ok_0;
            let data = old(command)@.subrange(4 + off as int, 4 + off + lc as int);
            if data == piv_aid_bytes() || data == piv_truncated_aid_bytes() {
                final(command)@ == stand_in_select_answer()
            } else {
                final(command)@ == old(command)@
            }
        },
{
    let is_piv: bool;
    {
        let bytes = command.as_slice();
        match Apdu::try_from(bytes) {
            Ok(apdu) => {
                let data = apdu.data();
                let full = [0xa0u8, 0x00, 0x00, 0x03, 0x08, 0x00, 0x00, 0x10, 0x00, 0x01, 0x00];
                let truncated = [0xa0u8, 0x00, 0x00, 0x03, 0x08, 0x00, 0x00, 0x10, 0x00];
                assert(full@ =~= piv_aid_bytes());
                assert(truncated@ =~= piv_truncated_aid_bytes());
                is_piv = bytes_eq(data, full.as_slice()) || bytes_eq(data, truncated.as_slice());
            },
            Err(()) => {
                command.clear();
                command.push(0x6a);
                command.push(0x82);
                assert(command@ =~= seq![0x6au8, 0x82]);
                return;
            },
        }
    }
    if is_piv {
        let mut ac: Vec<u8> = Vec::new();
        push_tlv(&mut ac, &[0x80], &[0x07]);
        push_tlv(&mut ac, &[0x80], &[0x0c]);
        push_tlv(&mut ac, &[0x80], &[0x11]);
        push_tlv(&mut ac, &[0x07], &[0x00]);
        let mut rid: Vec<u8> = Vec::new();
        push_tlv(&mut rid, &[0x4f], &[0xa0, 0x00, 0x00, 0x03, 0x08]);
        let mut inner: Vec<u8> = Vec::new();
        push_tlv(&mut inner, &[0x4f], &[0x00, 0x00, 0x10, 0x00, 0x01, 0x00]);
        push_tlv(&mut inner, &[0x79], rid.as_slice());
        push_tlv(&mut inner, &[0xac], ac.as_slice());
        command.clear();
        push_tlv(command, &[0x61], inner.as_slice());
        command.push(0x90);
        command.push(0x00);
        proof {
            assert([0x80u8]@ =~= seq![0x80u8]);
            assert([0x07u8]@ =~= seq![0x07u8]);
            assert([0x0cu8]@ =~= seq![0x0cu8]);
            assert([0x11u8]@ =~= seq![0x11u8]);
            assert([0x00u8]@ =~= seq![0x00u8]);
            assert([0x4fu8]@ =~= seq![0x4fu8]);
            assert([0xa0u8, 0x00, 0x00, 0x03, 0x08]@ =~= seq![0xa0u8, 0x00, 0x00, 0x03, 0x08]);
            assert([0x00u8, 0x00, 0x10, 0x00, 0x01, 0x00]@ =~= seq![0x00u8, 0x00, 0x10, 0x00, 0x01, 0x00]);
            assert([0x79u8]@ =~= seq![0x79u8]);
            assert([0xacu8]@ =~= seq![0xacu8]);
            assert([0x61u8]@ =~= seq![0x61u8]);
            assert(command@ =~= stand_in_select_answer());
        }
    }
}

/// Commands from the host.
#[derive(Copy, Clone, Debug, PartialEq, Eq, Structural)]
pub enum PacketCommand {
    PowerOn,
    PowerOff,
    GetSlotStatus,
    XfrBlock,
    Abort,
    GetParameters,
}

impl PacketCommand {
    pub open spec fn spec_from_type(t: u8) -> Option<PacketCommand> {
        if t == 0x62 {
            Some(PacketCommand::PowerOn)
        } else if t == 0x63 {
            Some(PacketCommand::PowerOff)
        } else if t == 0x65 {
            Some(PacketCommand::GetSlotStatus)
        } else if t == 0x6f {
            Some(PacketCommand::XfrBlock)
        } else if t == 0x72 {
            Some(PacketCommand::Abort)
        } else if t == 0x6c {
            Some(PacketCommand::GetParameters)
        } else {
            None
        }
    }

    pub fn from_type(t: u8) -> (r: Option<PacketCommand>)
        ensures
            r == PacketCommand::spec_from_type(t),
    {
        match t {
            0x62 => Some(PacketCommand::PowerOn),
            0x63 => Some(PacketCommand::PowerOff),
            0x65 => Some(PacketCommand::GetSlotStatus),
            0x6f => Some(PacketCommand::XfrBlock),
            0x72 => Some(PacketCommand::Abort),
            0x6c => Some(PacketCommand::GetParameters),
            _ => None,
        }
    }
}

/// The message types of the CCID specification that the pipe knows:
/// each is decoded from exactly one byte.
pub proof fn lemma_message_types(t: u8)
    ensures
        PacketCommand::spec_from_type(t) == Some(PacketCommand::PowerOn) <==> t == 0x62,
        PacketCommand::spec_from_type(t) == Some(PacketCommand::PowerOff) <==> t == 0x63,
        PacketCommand::spec_from_type(t) == Some(PacketCommand::GetSlotStatus) <==> t == 0x65,
        PacketCommand::spec_from_type(t) == Some(PacketCommand::XfrBlock) <==> t == 0x6f,
        PacketCommand::spec_from_type(t) == Some(PacketCommand::Abort) <==> t == 0x72,
        PacketCommand::spec_from_type(t) == Some(PacketCommand::GetParameters) <==> t == 0x6c,
{
}

/// The slot error codes of the CCID specification.
pub proof fn lemma_slot_error_codes(x: SlotError)
    ensures
        (x == SlotError::CmdAborted) <==> x.spec_code() == 0xff,
        (x == SlotError::IccMute) <==> x.spec_code() == 0xfe,
        (x == SlotError::XfrParityError) <==> x.spec_code() == 0xfd,
        (x == SlotError::CmdSlotBusy) <==> x.spec_code() == 0xe0,
        (x == SlotError::CommandNotSupported) <==> x.spec_code() == 0x00,
{
}

/// The exchange levels announced in the class descriptor.
pub proof fn lemma_transfer_mode_codes(x: TransferMode)
    ensures
        (x == TransferMode::Bulk) <==> x.spec_code() == 0,
        (x == TransferMode::ControlA) <==> x.spec_code() == 1,
        (x == TransferMode::ControlB) <==> x.spec_code() == 2,
{
}

/// The reply to a complete message from the host.
#[derive(Copy, Clone, Debug, PartialEq, Eq, Structural)]
pub enum PacketReply {
    /// Send the answer to reset.
    Atr,
    /// Send a slot status without error.
    SlotStatusOk,
    /// Run the transfer state machine on the block's data and chaining.
    Transfer(Chain),
    /// Send the parameters.
    Parameters,
    /// Send a slot status saying the command is not supported.
    NotSupported,
}

/// The little-endian length field of a message header.
pub open spec fn message_length(m: Seq<u8>) -> nat {
    m[1] as nat + 256 * (m[2] as nat) + 65536 * (m[3] as nat) + 16777216 * (m[4] as nat)
}

/// How a complete message is answered, and the sequence number that the
/// answer carries. A transfer block names its chaining in the level
/// parameter (bytes 8 and 9, little-endian).
pub open spec fn spec_reply(m: Seq<u8>) -> (PacketReply, u8) {
    match PacketCommand::spec_from_type(m[0]) {
        Some(PacketCommand::PowerOn) => (PacketReply::Atr, m[6]),
        Some(PacketCommand::PowerOff) => (PacketReply::SlotStatusOk, m[6]),
        Some(PacketCommand::GetSlotStatus) => (PacketReply::SlotStatusOk, m[6]),
        Some(PacketCommand::GetParameters) => (PacketReply::Parameters, m[6]),
        Some(PacketCommand::XfrBlock) => (PacketReply::Transfer(Chain::spec_from_code(m[8])->Some_0), m[6]),
        _ => (PacketReply::NotSupported, m[6]),
    }
}

/// The messages that stop the pipe: aborts (not implemented) and transfer
/// blocks with an unknown chaining parameter.
pub open spec fn reply_refused(m: Seq<u8>) -> bool {
    ||| PacketCommand::spec_from_type(m[0]) == Some(PacketCommand::Abort)
    ||| PacketCommand::spec_from_type(m[0]) == Some(PacketCommand::XfrBlock) && (m[9] != 0
        || Chain::spec_from_code(m[8]) is None)
}

pub fn reply_to(message: &[u8]) -> (r: (PacketReply, u8))
    requires
        message@.len() >= HEADER_SIZE,
        !reply_refused(message@),
    ensures
        r == spec_reply(message@),
{
    let seq_no = message[6];
    match PacketCommand::from_type(message[0]) {
        Some(PacketCommand::PowerOn) => (PacketReply::Atr, seq_no),
        Some(PacketCommand::PowerOff) => (PacketReply::SlotStatusOk, seq_no),
        Some(PacketCommand::GetSlotStatus) => (PacketReply::SlotStatusOk, seq_no),
        Some(PacketCommand::GetParameters) => (PacketReply::Parameters, seq_no),
        Some(PacketCommand::XfrBlock) => {
            match Chain::from_code(message[8]) {
                Some(c) => (PacketReply::Transfer(c), seq_no),
                None => (PacketReply::NotSupported, seq_no),
            }
        },
        _ => (PacketReply::NotSupported, seq_no),
    }
}

/// Reassembly of messages longer than one packet: the first packet carries
/// the header and 54 bytes, the packets after it only data.
pub struct PacketAssembler {
    ext_packet: Vec<u8>,
    receiving_long: bool,
    long_packet_missing: usize,
    in_chain: usize,
}

impl PacketAssembler {
    pub closed spec fn message(&self) -> Seq<u8> {
        self.ext_packet@
    }

    pub closed spec fn receiving_long(&self) -> bool {
        self.receiving_long
    }

    pub closed spec fn missing(&self) -> nat {
        self.long_packet_missing as nat
    }

    pub closed spec fn packets(&self) -> nat {
        self.in_chain as nat
    }

    pub fn new() -> (r: PacketAssembler)
        ensures
            r.message() == Seq::<u8>::empty(),
            !r.receiving_long(),
            r.missing() == 0,
            r.packets() == 0,
    {
        PacketAssembler { ext_packet: Vec::new(), receiving_long: false, long_packet_missing: 0, in_chain: 0 }
    }

    /// Whether a long message is being received.
    pub fn is_receiving_long(&self) -> (r: bool)
        ensures
            r == self.receiving_long(),
    {
        self.receiving_long
    }

    /// Bytes still missing from the long message being received.
    pub fn missing_bytes(&self) -> (r: usize)
        ensures
            r == self.missing(),
    {
        self.long_packet_missing
    }

    /// Packets of the long message received so far.
    pub fn packet_count(&self) -> (r: usize)
        ensures
            r == self.packets(),
    {
        self.in_chain
    }

    /// The message received so far.
    pub fn message_bytes(&self) -> (r: &[u8])
        ensures
            r@ == self.message(),
    {
        self.ext_packet.as_slice()
    }

    /// Take one packet; true when the message is complete. A first packet
    /// whose header announces more than 54 bytes of data starts a long
    /// message, which ends once the announced bytes have arrived.
    pub fn receive(&mut self, packet: &[u8]) -> (complete: bool)
        requires
            !old(self).receiving_long() ==> packet@.len() >= HEADER_SIZE,
            old(self).receiving_long() ==> packet@.len() <= old(self).missing(),
            old(self).receiving_long() ==> old(self).packets() < usize::MAX,
        ensures
            !old(self).receiving_long() ==> {
                let pl = message_length(packet@);
                &&& final(self).message() == packet@
                &&& if pl > CHUNK_SIZE {
                    &&& !complete
                    &&& final(self).receiving_long()
                    &&& final(self).missing() == pl - CHUNK_SIZE
                    &&& final(self).packets() == 1
                } else {
                    &&& complete
                    &&& !final(self).receiving_long()
                    &&& final(self).missing() == old(self).missing()
                    &&& final(self).packets() == old(self).packets()
                }
            },
            old(self).receiving_long() ==> {
                &&& final(self).message() == old(self).message() + packet@
                &&& final(self).missing() == old(self).missing() - packet@.len()
                &&& final(self).packets() == old(self).packets() + 1
                &&& complete == (final(self).missing() == 0)
                &&& final(self).receiving_long() == !complete
            },
    {
        if !self.receiving_long {
            self.ext_packet.clear();
            self.ext_packet.extend_from_slice(packet);
            let pl: u64 = (packet[1] as u64) + 256 * (packet[2] as u64) + 65536 * (packet[3] as u64)
                + 16777216 * (packet[4] as u64);
            if pl > CHUNK_SIZE as u64 {
                self.receiving_long = true;
                self.in_chain = 1;
                self.long_packet_missing = (pl - CHUNK_SIZE as u64) as usize;
                return false;
            }
            true
        } else {
            self.ext_packet.extend_from_slice(packet);
            self.in_chain = self.in_chain + 1;
            self.long_packet_missing = self.long_packet_missing - packet.len();
            if self.long_packet_missing > 0 {
                return false;
            }
            self.receiving_long = false;
            true
        }
    }
}

} // verus!
