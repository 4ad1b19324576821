//! The byte protocol of display programs: a stream of messages, each of two
//! marker bytes and a four-byte channel packet.

use crate::queue::MESSAGE_CAPACITY;
use crate::queue::message_dequeue;
use crate::queue::message_enqueue;
use crate::queue::message_items;
use crate::queue::message_len;
use crate::queue::message_new;
use crate::utils::generate_yaagc_packet;
use crate::utils::parse_yaagc_packet;
use crate::utils::spec_yaagc_channel;
use crate::utils::spec_yaagc_framed;
use crate::utils::spec_yaagc_packet;
use crate::utils::spec_yaagc_value;
use vstd::prelude::*;

verus! {

/// The first marker byte of a message.
pub const COMMAND_BYTE_1: u8 = 0xAA;

/// The second marker byte of a message.
pub const COMMAND_BYTE_2: u8 = 0x55;

/// A word for a channel.
#[derive(Debug, Clone, Copy, PartialEq, Eq, Structural)]
pub struct AGCPacket {
    pub _hw_packet: bool,
    pub io_addr: usize,
    pub io_value: u16,
}

impl AGCPacket {
    /// The packet that the four bytes `data` carry; channel 0 with the word
    /// 0 where the bytes are not framed.
    pub fn new(data: &[u8; 4]) -> (p: Self)
        ensures
            !p._hw_packet,
            spec_yaagc_framed(data@) ==> p.io_addr == spec_yaagc_channel(data@) && p.io_value
                == spec_yaagc_value(data@),
            !spec_yaagc_framed(data@) ==> p.io_addr == 0 && p.io_value == 0,
    {
        match parse_yaagc_packet(*data) {
            Some((channel, value)) => AGCPacket {
                io_addr: channel as usize,
                io_value: value,
                _hw_packet: false,
            },
            _ => AGCPacket { io_addr: 0x0, io_value: 0x0, _hw_packet: false },
        }
    }

    /// The four bytes that carry the packet.
    pub fn serialize(&self) -> (r: [u8; 4])
        ensures
            r@ == spec_yaagc_packet(self.io_addr, self.io_value),
    {
        generate_yaagc_packet(self.io_addr, self.io_value)
    }
}

/// The six bytes of the message that carries `value` for `channel`.
pub open spec fn spec_message(channel: usize, value: u16) -> Seq<u8> {
    seq![COMMAND_BYTE_1, COMMAND_BYTE_2] + spec_yaagc_packet(channel, value)
}

/// Builds the message that carries `value` for `channel`.
pub fn generate_packet(channel: usize, value: u16) -> (msg: [u8; 6])
    ensures
        msg@ == spec_message(channel, value),
{
    let p: [u8; 4] = generate_yaagc_packet(channel, value);
    let msg: [u8; 6] = [COMMAND_BYTE_1, COMMAND_BYTE_2, p[0], p[1], p[2], p[3]];
    assert(msg@ =~= spec_message(channel, value));
    msg
}

/// Where the parser is in a message.
#[derive(Debug, Clone, Copy, PartialEq, Eq, Structural)]
pub enum YaagcParserState {
    CommandByte1,
    CommandByte2,
    DataBytes,
}

/// The parser as a value.
pub struct ParserView {
    /// The packet bytes of the message in hand.
    pub buf: Seq<u8>,
    pub state: YaagcParserState,
    /// How many packet bytes of the message in hand have come.
    pub count: usize,
    /// The messages that were read and not yet taken.
    pub msgs: Seq<(usize, u16)>,
}

impl ParserView {
    /// The parser between two messages, with `msgs` waiting.
    pub open spec fn idle(msgs: Seq<(usize, u16)>) -> ParserView {
        ParserView {
            buf: Seq::new(4, |i: int| 0u8),
            state: YaagcParserState::CommandByte1,
            count: 0,
            msgs: msgs,
        }
    }

    /// The messages that wait once the packet `buf` is complete: one more
    /// where the packet is framed and fewer than fifteen wait.
    pub open spec fn with_packet(msgs: Seq<(usize, u16)>, buf: Seq<u8>) -> Seq<(usize, u16)> {
        if spec_yaagc_framed(buf) && msgs.len() < MESSAGE_CAPACITY {
            msgs.push((spec_yaagc_channel(buf) as usize, spec_yaagc_value(buf)))
        } else {
            msgs
        }
    }

    /// The parser after the byte `b`. It waits for the first marker, then
    /// for the second, and falls back where another byte comes instead;
    /// then it gathers four packet bytes, reads the packet, and waits for
    /// the next message.
    pub open spec fn step(self, b: u8) -> ParserView {
        match self.state {
            YaagcParserState::CommandByte1 => {
                if b == COMMAND_BYTE_1 {
                    ParserView { state: YaagcParserState::CommandByte2, ..self }
                } else {
                    self
                }
            },
            YaagcParserState::CommandByte2 => {
                if b == COMMAND_BYTE_2 {
                    ParserView { state: YaagcParserState::DataBytes, count: 0, ..self }
                } else {
                    Self::idle(self.msgs)
                }
            },
            YaagcParserState::DataBytes => {
                if self.count >= 4 {
                    Self::idle(self.msgs)
                } else if self.count + 1 >= 4 {
                    Self::idle(
                        Self::with_packet(self.msgs, self.buf.update(self.count as int, b)),
                    )
                } else {
                    ParserView {
                        buf: self.buf.update(self.count as int, b),
                        count: (self.count + 1) as usize,
                        ..self
                    }
                }
            },
        }
    }

    /// The parser after the bytes `data`, one after the other.
    pub open spec fn run(self, data: Seq<u8>) -> ParserView
        decreases data.len(),
    {
        if data.len() == 0 {
            self
        } else {
            self.run(data.drop_last()).step(data.last())
        }
    }
}

/// The parser after one more byte is the parser after the bytes before it,
/// stepped by that byte.
pub proof fn lemma_run_push(p: ParserView, data: Seq<u8>, b: u8)
    ensures
        p.run(data.push(b)) == p.run(data).step(b),
{
    assert(data.push(b).drop_last() =~= data);
}

/// A parser between two messages that takes the bytes of a built message
/// is between two messages again, and the message waits last in the queue,
/// with the low eight bits of its channel and the low fifteen bits of its
/// value, provided that fewer than fifteen waited.
pub proof fn lemma_message_is_read(msgs: Seq<(usize, u16)>, channel: usize, value: u16)
    requires
        msgs.len() < MESSAGE_CAPACITY,
    ensures
        ParserView::idle(msgs).run(spec_message(channel, value)) == ParserView::idle(
            msgs.push((((channel & 0xFF) as u16) as usize, value & 0x7FFF)),
        ),
{
    let pk = spec_yaagc_packet(channel, value);
    let start = ParserView::idle(msgs);
    let e = Seq::<u8>::empty();
    let d1 = e.push(COMMAND_BYTE_1);
    let d2 = d1.push(COMMAND_BYTE_2);
    let d3 = d2.push(pk[0]);
    let d4 = d3.push(pk[1]);
    let d5 = d4.push(pk[2]);
    let d6 = d5.push(pk[3]);
    assert(d6 =~= spec_message(channel, value));
    assert(start.run(e) == start);
    lemma_run_push(start, e, COMMAND_BYTE_1);
    lemma_run_push(start, d1, COMMAND_BYTE_2);
    lemma_run_push(start, d2, pk[0]);
    lemma_run_push(start, d3, pk[1]);
    lemma_run_push(start, d4, pk[2]);
    lemma_run_push(start, d5, pk[3]);
    let buf = start.buf.update(0, pk[0]).update(1, pk[1]).update(2, pk[2]).update(3, pk[3]);
    assert(buf =~= pk);
    crate::utils::lemma_yaagc_round_trip(channel, value);
}

pub struct YaagcParser {
    pub msg_buf: [u8; 4],
    pub state: YaagcParserState,
    pub count: usize,
    pub msgs: heapless::spsc::Queue<(usize, u16), 16>,
}

impl View for YaagcParser {
    type V = ParserView;

    open spec fn view(&self) -> ParserView {
        ParserView {
            buf: self.msg_buf@,
            state: self.state,
            count: self.count,
            msgs: message_items(self.msgs),
        }
    }
}

impl YaagcParser {
    pub fn new() -> (p: Self)
        ensures
            p@ == ParserView::idle(Seq::<(usize, u16)>::empty()),
    {
        let p = YaagcParser {
            msg_buf: [0u8; 4],
            state: YaagcParserState::CommandByte1,
            count: 0,
            msgs: message_new(),
        };
        assert(p@.buf =~= ParserView::idle(Seq::<(usize, u16)>::empty()).buf);
        p
    }

    /// Drops the message in hand; the messages that wait stay.
    pub fn reset(&mut self)
        ensures
            final(self)@ == ParserView::idle(old(self)@.msgs),
    {
        self.msg_buf = [0u8; 4];
        self.state = YaagcParserState::CommandByte1;
        self.count = 0;
        assert(self@.buf =~= ParserView::idle(old(self)@.msgs).buf);
    }

    /// Takes one byte of the stream.
    fn push_byte(&mut self, b: u8)
        ensures
            final(self)@ == old(self)@.step(b),
    {
        match self.state {
            YaagcParserState::CommandByte1 => {
                if b == COMMAND_BYTE_1 {
                    self.state = YaagcParserState::CommandByte2;
                }
            },
            YaagcParserState::CommandByte2 => {
                if b == COMMAND_BYTE_2 {
                    self.state = YaagcParserState::DataBytes;
                    self.count = 0;
                } else {
                    self.reset();
                }
            },
            YaagcParserState::DataBytes => {
                if self.count >= 4 {
                    self.reset();
                } else {
                    self.msg_buf[self.count] = b;
                    self.count = self.count + 1;
                    if self.count >= 4 {
                        match parse_yaagc_packet(self.msg_buf) {
                            Some((x, y)) => {
                                message_enqueue(&mut self.msgs, (x as usize, y));
                            },
                            None => {},
                        };
                        self.reset();
                    }
                }
            },
        }
    }

    /// Takes the bytes `new_data` of the stream, and queues each message
    /// that they complete.
    pub fn push_bytes(&mut self, new_data: &[u8])
        ensures
            final(self)@ == old(self)@.run(new_data@),
    {
        let mut i: usize = 0;
        while i < new_data.len()
            invariant
                i <= new_data.len(),
                self@ == old(self)@.run(new_data@.take(i as int)),
            decreases new_data.len() - i,
        {
            self.push_byte(new_data[i]);
            i = i + 1;
            assert(new_data@.take(i as int).drop_last() =~= new_data@.take(i - 1));
        }
        assert(new_data@.take(i as int) =~= new_data@);
    }

    /// The number of messages that wait.
    pub fn count(&self) -> (r: usize)
        ensures
            r == self@.msgs.len(),
    {
        message_len(&self.msgs)
    }

    /// Takes the message that has waited longest, if one waits.
    pub fn pop_message(&mut self) -> (r: Option<(usize, u16)>)
        ensures
            old(self)@.msgs.len() == 0 ==> r is None && final(self)@ == old(self)@,
            old(self)@.msgs.len() > 0 ==> r == Some(old(self)@.msgs[0]) && final(self)@ == (
            ParserView { msgs: old(self)@.msgs.drop_first(), ..old(self)@ }),
    {
        if message_len(&self.msgs) == 0 {
            None
        } else {
            message_dequeue(&mut self.msgs)
        }
    }
}

} // verus!
