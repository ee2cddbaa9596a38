//! Wire framing: a two-byte big-endian message-type tag followed by the body.
use vstd::prelude::*;

verus! {

/// The closed set of message kinds that travel between peers.
#[derive(Clone, Copy, Debug, PartialEq, Eq, Structural)]
pub enum MessageType {
    OpenChannelNodeNegotiateMessage,
    ChannelTransactionRequest,
    ChannelTransactionResponse,
    ErrorMessage,
    BalanceQueryRequest,
    BalanceQueryResponse,
    MultiHopChannelTransactionRequest,
}

/// Why a received frame could not be decoded.
#[derive(Clone, Copy, Debug, PartialEq, Eq, Structural)]
pub enum FrameError {
    /// Fewer than two bytes: there is no tag.
    TooShort,
    /// The tag names no known message type.
    UnknownType(u16),
}

impl MessageType {
    pub open spec fn spec_tag(self) -> u16 {
        match self {
            MessageType::OpenChannelNodeNegotiateMessage => 1,
            MessageType::ChannelTransactionRequest => 2,
            MessageType::ChannelTransactionResponse => 3,
            MessageType::ErrorMessage => 4,
            MessageType::BalanceQueryRequest => 5,
            MessageType::BalanceQueryResponse => 6,
            MessageType::MultiHopChannelTransactionRequest => 7,
        }
    }

    pub open spec fn spec_from_type(tag: u16) -> Option<MessageType> {
        if tag == 1 {
            Some(MessageType::OpenChannelNodeNegotiateMessage)
        } else if tag == 2 {
            Some(MessageType::ChannelTransactionRequest)
        } else if tag == 3 {
            Some(MessageType::ChannelTransactionResponse)
        } else if tag == 4 {
            Some(MessageType::ErrorMessage)
        } else if tag == 5 {
            Some(MessageType::BalanceQueryRequest)
        } else if tag == 6 {
            Some(MessageType::BalanceQueryResponse)
        } else if tag == 7 {
            Some(MessageType::MultiHopChannelTransactionRequest)
        } else {
            None
        }
    }

    /// The numeric tag of this message type.
    pub fn get_type(&self) -> (tag: u16)
        ensures
            tag == self.spec_tag(),
    {
        match self {
            MessageType::OpenChannelNodeNegotiateMessage => 1,
            MessageType::ChannelTransactionRequest => 2,
            MessageType::ChannelTransactionResponse => 3,
            MessageType::ErrorMessage => 4,
            MessageType::BalanceQueryRequest => 5,
            MessageType::BalanceQueryResponse => 6,
            MessageType::MultiHopChannelTransactionRequest => 7,
        }
    }

    /// The message type with the given tag, if any.
    pub fn from_type(tag: u16) -> (r: Option<MessageType>)
        ensures
            r == Self::spec_from_type(tag),
    {
        if tag == 1 {
            Some(MessageType::OpenChannelNodeNegotiateMessage)
        } else if tag == 2 {
            Some(MessageType::ChannelTransactionRequest)
        } else if tag == 3 {
            Some(MessageType::ChannelTransactionResponse)
        } else if tag == 4 {
            Some(MessageType::ErrorMessage)
        } else if tag == 5 {
            Some(MessageType::BalanceQueryRequest)
        } else if tag == 6 {
            Some(MessageType::BalanceQueryResponse)
        } else if tag == 7 {
            Some(MessageType::MultiHopChannelTransactionRequest)
        } else {
            None
        }
    }
}

/// The tag read big-endian from two bytes.
pub open spec fn be_u16(hi: u8, lo: u8) -> u16 {
    (hi as int * 256 + lo as int) as u16
}

/// The frame of a message: its tag, high byte first, then the body.
pub open spec fn frame(msg_type: MessageType, body: Seq<u8>) -> Seq<u8> {
    seq![(msg_type.spec_tag() / 256) as u8, (msg_type.spec_tag() % 256) as u8] + body
}

/// What a received frame decodes to.
pub open spec fn decode(data: Seq<u8>) -> Result<(MessageType, Seq<u8>), FrameError> {
    if data.len() < 2 {
        Err(FrameError::TooShort)
    } else {
        let tag = be_u16(data[0], data[1]);
        match MessageType::spec_from_type(tag) {
            Some(t) => Ok((t, data.subrange(2, data.len() as int))),
            None => Err(FrameError::UnknownType(tag)),
        }
    }
}

/// Prefixes `data` with the tag of `msg_type`.
pub fn add_message_type(data: Vec<u8>, msg_type: MessageType) -> (r: Vec<u8>)
    ensures
        r@ == frame(msg_type, data@),
{
    let tag = msg_type.get_type();
    let mut result: Vec<u8> = Vec::new();
    result.push((tag / 256) as u8);
    result.push((tag % 256) as u8);
    let mut i: usize = 0;
    while i < data.len()
        invariant
            0 <= i <= data@.len(),
            result@ == seq![(tag / 256) as u8, (tag % 256) as u8] + data@.subrange(0, i as int),
        decreases data@.len() - i,
    {
        result.push(data[i]);
        i = i + 1;
        assert(data@.subrange(0, i as int) == data@.subrange(0, i - 1 as int).push(data@[i - 1]));
    }
    assert(data@.subrange(0, data@.len() as int) == data@);
    result
}

/// Splits a received frame into its message type and body.
pub fn parse_message_type(data: &Vec<u8>) -> (r: Result<(MessageType, Vec<u8>), FrameError>)
    ensures
        match (r, decode(data@)) {
            (Ok((t, body)), Ok((st, sbody))) => t == st && body@ == sbody,
            (Err(e), Err(se)) => e == se,
            _ => false,
        },
{
    if data.len() < 2 {
        return Err(FrameError::TooShort);
    }
    let tag: u16 = (data[0] as u16) * 256 + data[1] as u16;
    match MessageType::from_type(tag) {
        Some(t) => {
            let mut body: Vec<u8> = Vec::with_capacity(data.len() - 2);
            let mut i: usize = 2;
            while i < data.len()
                invariant
                    2 <= i <= data@.len(),
                    body@ == data@.subrange(2, i as int),
                decreases data@.len() - i,
            {
                body.push(data[i]);
                i = i + 1;
                assert(data@.subrange(2, i as int) == data@.subrange(2, i - 1 as int).push(
                    data@[i - 1],
                ));
            }
            Ok((t, body))
        },
        None => Err(FrameError::UnknownType(tag)),
    }
}

/// Decoding the frame of any message type and body gives back that type and
/// that body.
pub proof fn lemma_frame_round_trip(msg_type: MessageType, body: Seq<u8>)
    ensures
        decode(frame(msg_type, body)) == Ok::<(MessageType, Seq<u8>), FrameError>((msg_type, body)),
{
    let f = frame(msg_type, body);
    assert(f.subrange(2, f.len() as int) =~= body);
}

} // verus!
