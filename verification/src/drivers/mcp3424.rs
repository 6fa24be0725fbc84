//! Configuration and replies of the eighteen-bit converter behind the sense
//! channels, and the bounded polling of a conversion.

use vstd::prelude::*;

verus! {

/// How often a started conversion is polled before the read is given up.
pub const MAX_POLLS: u8 = 7;

/// Wait before each poll, in milliseconds.
pub const POLL_INTERVAL_MS: u64 = 50;

/// Configuration bits that select eighteen-bit resolution at gain one.
pub const CONFIG_18BIT_PGA1: u8 = 0x0C;

/// Bit of the status byte that is set while no fresh result is ready.
pub const NOT_READY: u8 = 0x80;

/// Weight of one step of the converter, in nanovolts (15.625 microvolts).
pub const LSB_NANOVOLTS: i64 = 15_625;

/// What the device answers to a poll: three data bytes and the status byte,
/// or a failed bus read.
pub type Reply = Result<[u8; 4], ()>;

/// The two channel-select bits for a channel number; numbers other than
/// one to four select the first channel.
pub open spec fn channel_bits(channel: u8) -> u8 {
    if channel == 2 {
        1
    } else if channel == 3 {
        2
    } else if channel == 4 {
        3
    } else {
        0
    }
}

/// The configuration byte that starts a conversion on `channel`: the channel
/// bits in bits 5 and 6, above the resolution and gain bits.
pub open spec fn config_byte(channel: u8) -> u8 {
    (channel_bits(channel) * 32 + CONFIG_18BIT_PGA1) as u8
}

/// The eighteen-bit code in the three data bytes: the upper eighteen of
/// their twenty-four bits.
pub open spec fn raw_code(b0: u8, b1: u8, b2: u8) -> int {
    (b0 as int * 65_536 + b1 as int * 256 + b2 as int) / 64
}

/// An eighteen-bit code read as a two's complement number.
pub open spec fn signed_code(raw: int) -> int {
    if raw >= 131_072 {
        raw - 262_144
    } else {
        raw
    }
}

/// The voltage of a signed code in whole microvolts, the fraction dropped
/// (rounded towards zero).
pub open spec fn code_microvolts(code: int) -> int {
    if code >= 0 {
        (code * 15_625) / 1000
    } else {
        -((-code * 15_625) / 1000)
    }
}

/// Whether the status byte reports a fresh result.
pub open spec fn conversion_ready(status: u8) -> bool {
    status & NOT_READY == 0
}

/// The reading in a reply, in microvolts, if it holds a fresh result.
pub open spec fn reading_of(reply: Reply) -> Option<i64> {
    match reply {
        Ok(buf) => if conversion_ready(buf[3]) {
            Some(code_microvolts(signed_code(raw_code(buf[0], buf[1], buf[2]))) as i64)
        } else {
            None
        },
        Err(_) => None,
    }
}

/// How a poll ends.
#[derive(Copy, Clone, Debug, PartialEq, Eq, Structural)]
pub enum PollOutcome {
    /// The result is in, in microvolts.
    Ready(i64),
    /// Nothing yet: wait and poll again.
    Retry,
    /// The last poll allowed brought nothing: the read has failed.
    Failed,
}

/// The outcome of a poll after `polls` earlier polls of the same read.
pub open spec fn poll_outcome(polls: int, reply: Reply) -> PollOutcome {
    if polls >= MAX_POLLS {
        PollOutcome::Failed
    } else {
        match reading_of(reply) {
            Some(uv) => PollOutcome::Ready(uv),
            None => if polls + 1 >= MAX_POLLS {
                PollOutcome::Failed
            } else {
                PollOutcome::Retry
            },
        }
    }
}

/// The outcome of a read that polls until something other than `Retry` comes
/// out, on the replies that the device would give in turn; `Retry` if the
/// replies run out first.
pub open spec fn read_outcome(polls: int, replies: Seq<Reply>) -> PollOutcome
    decreases replies.len(),
{
    if replies.len() == 0 {
        PollOutcome::Retry
    } else {
        match poll_outcome(polls, replies.first()) {
            PollOutcome::Retry => read_outcome(polls + 1, replies.drop_first()),
            outcome => outcome,
        }
    }
}

/// Decodes the three data bytes of a reply into microvolts.
pub fn decode_microvolts(b0: u8, b1: u8, b2: u8) -> (uv: i64)
    ensures
        uv == code_microvolts(signed_code(raw_code(b0, b1, b2))),
        -2_048_000 <= uv <= 2_047_984,
{
    let raw: u32 = (((b0 as u32) << 16) | ((b1 as u32) << 8) | (b2 as u32)) >> 6;
    assert(raw == (b0 as u32 * 65_536 + b1 as u32 * 256 + b2 as u32) / 64 && raw < 262_144
        && ((raw & 0x2_0000 != 0) <==> raw >= 131_072)) by (bit_vector)
        requires
            raw == (((b0 as u32) << 16) | ((b1 as u32) << 8) | (b2 as u32)) >> 6,
    ;
    let code: i64 = if raw & 0x2_0000 != 0 {
        raw as i64 - 262_144
    } else {
        raw as i64
    };
    code * LSB_NANOVOLTS / 1000
}

/// The converter at one bus address, seen from the register side: which byte
/// starts a conversion, and what a reply means.
#[derive(Copy, Clone, Debug, PartialEq, Eq, Structural)]
pub struct Mcp3424 {
    pub addr: u8,
}

impl Mcp3424 {
    /// The converter at bus address `addr`.
    pub fn new(addr: u8) -> (adc: Self)
        ensures
            adc.addr == addr,
    {
        Mcp3424 { addr }
    }

    /// Nothing needs to be written before the first conversion: every
    /// conversion is started with the whole configuration.
    pub fn init_18bit_pga1(&mut self) -> (done: Result<(), ()>)
        ensures
            done is Ok,
            *final(self) == *old(self),
    {
        Ok(())
    }

    /// The configuration byte to write in order to start a conversion on
    /// `channel`.
    pub fn start_conversion(&self, channel: u8) -> (config: u8)
        ensures
            config == config_byte(channel),
    {
        let chan_bits: u8 = match channel {
            1 => 0,
            2 => 1,
            3 => 2,
            4 => 3,
            _ => 0,
        };
        chan_bits * 32 + CONFIG_18BIT_PGA1
    }

    /// A fresh count of the polls of one read.
    pub fn begin_read(&self) -> (poll: ConversionPoll)
        ensures
            poll@ == 0,
    {
        ConversionPoll { polls: 0 }
    }
}

/// The count of the polls made for one read. Its view is that count.
pub struct ConversionPoll {
    polls: u8,
}

impl View for ConversionPoll {
    type V = int;

    closed spec fn view(&self) -> int {
        self.polls as int
    }
}

impl ConversionPoll {
    #[verifier::type_invariant]
    spec fn within_limit(&self) -> bool {
        self.polls <= MAX_POLLS
    }

    /// How many polls were made.
    pub fn polls(&self) -> (polls: u8)
        ensures
            polls == self@,
            polls <= MAX_POLLS,
    {
        proof {
            use_type_invariant(self);
        }
        self.polls
    }

    /// Takes the reply to one poll. A fresh result ends the read with its
    /// value; a reply without one, or a failed bus read, asks for another
    /// poll, and for the last poll allowed it ends the read as failed.
    pub fn on_reply(&mut self, reply: Reply) -> (outcome: PollOutcome)
        ensures
            outcome == poll_outcome(old(self)@, reply),
            final(self)@ == if old(self)@ < MAX_POLLS {
                old(self)@ + 1
            } else {
                old(self)@
            },
            outcome == PollOutcome::Retry ==> final(self)@ < MAX_POLLS,
    {
        proof {
            use_type_invariant(&*self);
        }
        if self.polls >= MAX_POLLS {
            return PollOutcome::Failed;
        }
        self.polls = self.polls + 1;
        match reply {
            Ok(buf) => {
                if buf[3] & NOT_READY == 0 {
                    return PollOutcome::Ready(decode_microvolts(buf[0], buf[1], buf[2]));
                }
            },
            Err(_) => {},
        }
        if self.polls >= MAX_POLLS {
            PollOutcome::Failed
        } else {
            PollOutcome::Retry
        }
    }
}

/// A read ends with its seventh poll at the latest: on seven replies or more
/// it gives the value of the first reply that holds a fresh result, if one
/// of the first seven does, and fails otherwise.
pub proof fn law_read_ends_within_seven_polls(replies: Seq<Reply>)
    requires
        replies.len() >= MAX_POLLS,
    ensures
        read_outcome(0, replies) != PollOutcome::Retry,
        (forall|i: int| 0 <= i < MAX_POLLS ==> reading_of(#[trigger] replies[i]) is None)
            ==> read_outcome(0, replies) == PollOutcome::Failed,
        forall|k: int|
            0 <= k < MAX_POLLS && reading_of(#[trigger] replies[k]) is Some && (forall|i: int|
                0 <= i < k ==> reading_of(#[trigger] replies[i]) is None) ==> read_outcome(
                0,
                replies,
            ) == PollOutcome::Ready(reading_of(replies[k])->0),
{
    lemma_read_outcome(0, replies);
}

/// The same, from any number of polls already made.
proof fn lemma_read_outcome(polls: int, replies: Seq<Reply>)
    requires
        0 <= polls <= MAX_POLLS,
        replies.len() >= MAX_POLLS - polls,
        polls < MAX_POLLS,
    ensures
        read_outcome(polls, replies) != PollOutcome::Retry,
        (forall|i: int| 0 <= i < MAX_POLLS - polls ==> reading_of(#[trigger] replies[i]) is None)
            ==> read_outcome(polls, replies) == PollOutcome::Failed,
        forall|k: int|
            0 <= k < MAX_POLLS - polls && reading_of(#[trigger] replies[k]) is Some && (forall|
                i: int,
            |
                0 <= i < k ==> reading_of(#[trigger] replies[i]) is None) ==> read_outcome(
                polls,
                replies,
            ) == PollOutcome::Ready(reading_of(replies[k])->0),
    decreases MAX_POLLS - polls,
{
    let rest = replies.drop_first();
    assert(replies.first() == replies[0]);
    if reading_of(replies[0]) is None && polls + 1 < MAX_POLLS {
        lemma_read_outcome(polls + 1, rest);
        assert forall|i: int| 0 <= i < rest.len() implies rest[i] == replies[i + 1] by {}
        assert forall|k: int|
            0 <= k < MAX_POLLS - polls && reading_of(#[trigger] replies[k]) is Some && (forall|
                i: int,
            |
                0 <= i < k ==> reading_of(#[trigger] replies[i]) is None) implies read_outcome(
            polls,
            replies,
        ) == PollOutcome::Ready(reading_of(replies[k])->0) by {
            assert(k >= 1);
            assert(rest[k - 1] == replies[k]);
            assert forall|i: int| 0 <= i < k - 1 implies reading_of(#[trigger] rest[i]) is None by {
                assert(rest[i] == replies[i + 1]);
            }
        }
        if forall|i: int| 0 <= i < MAX_POLLS - polls ==> reading_of(#[trigger] replies[i]) is None {
            assert forall|i: int| 0 <= i < MAX_POLLS - polls - 1 implies reading_of(
                #[trigger] rest[i],
            ) is None by {
                assert(rest[i] == replies[i + 1]);
            }
        }
    }
}

} // verus!
