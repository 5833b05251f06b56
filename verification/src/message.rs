//! The addresses of nodes and the messages that they exchange.

use vstd::prelude::*;

use crate::block::{Block, BlockHash, BlockHeader, BlockView, HeaderView};
use crate::block_locators::{BlockLocators, LocatorView};

verus! {

/// The address of a node.
#[derive(Clone, Copy, Debug, PartialEq, Eq, Hash, Structural)]
pub enum SocketAddr {
    /// V4 := (ip, port)
    V4(u32, u16),
    /// V6 := (ip, port, flowinfo, scope_id)
    V6(u128, u16, u32, u32),
}

/// The kind of a node, by its number in the protocol.
#[derive(Clone, Copy, Debug, PartialEq, Eq, Hash, Structural)]
pub struct NodeType {
    pub id: u32,
}

/// What a node is doing.
#[derive(Clone, Copy, Debug, PartialEq, Eq, Hash, Structural)]
pub enum State {
    /// The node is ready for requests.
    Ready,
    /// The node is shutting down.
    ShuttingDown,
    /// Another state, by its number in the protocol.
    Other(u8),
}

/// A value that has a serialized form.
pub trait Serialized: View {
    /// The serialized form.
    spec fn bytes_of(v: Self::V) -> Seq<u8>;

    /// Hands out the serialized form.
    fn into_bytes(self) -> (r: Vec<u8>) where Self: Sized
        ensures
            r@ == Self::bytes_of(self@),
    ;
}

impl Serialized for BlockHeader {
    open spec fn bytes_of(v: HeaderView) -> Seq<u8> {
        v.bytes
    }

    fn into_bytes(self) -> (r: Vec<u8>) {
        self.bytes
    }
}

impl Serialized for Block {
    open spec fn bytes_of(v: BlockView) -> Seq<u8> {
        v.bytes
    }

    fn into_bytes(self) -> (r: Vec<u8>) {
        self.bytes
    }
}

/// A part of a message whose decoding is deferred.
#[derive(Debug, PartialEq, Eq)]
pub enum Data<T> {
    /// The value itself.
    Object(T),
    /// Its serialized form.
    Buffer(Vec<u8>),
}

/// What a part of a message holds.
pub enum DataView<V> {
    Object(V),
    Buffer(Seq<u8>),
}

impl<T: View> View for Data<T> {
    type V = DataView<T::V>;

    open spec fn view(&self) -> DataView<T::V> {
        match *self {
            Data::Object(value) => DataView::Object(value@),
            Data::Buffer(bytes) => DataView::Buffer(bytes@),
        }
    }
}

impl<T: Serialized> Data<T> {
    /// The serialized form of the part.
    pub open spec fn serialized(v: DataView<T::V>) -> Seq<u8> {
        match v {
            DataView::Object(value) => T::bytes_of(value),
            DataView::Buffer(bytes) => bytes,
        }
    }

    /// Serializes the part, if it is not serialized yet.
    pub fn serialize(self) -> (r: Vec<u8>)
        ensures
            r@ == Self::serialized(self@),
    {
        match self {
            Data::Object(value) => value.into_bytes(),
            Data::Buffer(bytes) => bytes,
        }
    }
}

impl<T> Data<T> {
    /// Takes the value itself, or decodes its serialized form.
    pub fn deserialize<F: FnOnce(Vec<u8>) -> Result<T, String>>(self, decode: F) -> (r: Result<
        T,
        String,
    >)
        requires
            self matches Data::Buffer(bytes) ==> decode.requires((bytes,)),
        ensures
            match self {
                Data::Object(value) => r == Ok::<T, String>(value),
                Data::Buffer(bytes) => decode.ensures((bytes,), r),
            },
    {
        match self {
            Data::Object(value) => Ok(value),
            Data::Buffer(bytes) => decode(bytes),
        }
    }
}

impl Clone for Data<BlockHeader> {
    fn clone(&self) -> (r: Self)
        ensures
            r@ == self@,
    {
        match self {
            Data::Object(value) => Data::Object(value.clone()),
            Data::Buffer(bytes) => {
                let copy: Vec<u8> = bytes.clone();
                assert(copy@ =~= bytes@);
                Data::Buffer(copy)
            },
        }
    }
}

impl Clone for Data<Block> {
    fn clone(&self) -> (r: Self)
        ensures
            r@ == self@,
    {
        match self {
            Data::Object(value) => Data::Object(value.clone()),
            Data::Buffer(bytes) => {
                let copy: Vec<u8> = bytes.clone();
                assert(copy@ =~= bytes@);
                Data::Buffer(copy)
            },
        }
    }
}

impl Clone for Data<BlockLocators> {
    fn clone(&self) -> (r: Self)
        ensures
            r@ == self@,
    {
        match self {
            Data::Object(value) => Data::Object(value.clone()),
            Data::Buffer(bytes) => {
                let copy: Vec<u8> = bytes.clone();
                assert(copy@ =~= bytes@);
                Data::Buffer(copy)
            },
        }
    }
}

/// A message between two nodes. The parts of a message that nothing here depends on are left out.
#[derive(Debug, PartialEq, Eq)]
pub enum Message {
    /// BlockResponse := (block)
    BlockResponse(Data<Block>),
    /// A challenge of the handshake.
    ChallengeRequest,
    /// The answer to a challenge of the handshake.
    ChallengeResponse,
    /// The sender disconnects.
    Disconnect,
    /// Ping := (version, fork_depth, node_type, status, block_hash, block_header)
    Ping(u32, u32, NodeType, State, BlockHash, Data<BlockHeader>),
    /// Pong := (is_fork, block_locators)
    Pong(Option<bool>, Data<BlockLocators>),
    /// UnconfirmedBlock := (block_height, block_hash, block)
    UnconfirmedBlock(u32, BlockHash, Data<Block>),
    /// A message with a number that is no longer used.
    Unused,
    /// Any other message.
    Other,
}

/// What a message says.
pub enum MessageView {
    BlockResponse(DataView<BlockView>),
    ChallengeRequest,
    ChallengeResponse,
    Disconnect,
    Ping(u32, u32, NodeType, State, BlockHash, DataView<HeaderView>),
    Pong(Option<bool>, DataView<Map<u32, LocatorView>>),
    UnconfirmedBlock(u32, BlockHash, DataView<BlockView>),
    Unused,
    Other,
}

impl View for Message {
    type V = MessageView;

    open spec fn view(&self) -> MessageView {
        match *self {
            Message::BlockResponse(block) => MessageView::BlockResponse(block@),
            Message::ChallengeRequest => MessageView::ChallengeRequest,
            Message::ChallengeResponse => MessageView::ChallengeResponse,
            Message::Disconnect => MessageView::Disconnect,
            Message::Ping(version, fork_depth, node_type, status, hash, header) => MessageView::Ping(
                version,
                fork_depth,
                node_type,
                status,
                hash,
                header@,
            ),
            Message::Pong(is_fork, locators) => MessageView::Pong(is_fork, locators@),
            Message::UnconfirmedBlock(height, hash, block) => MessageView::UnconfirmedBlock(
                height,
                hash,
                block@,
            ),
            Message::Unused => MessageView::Unused,
            Message::Other => MessageView::Other,
        }
    }
}

impl Clone for Message {
    fn clone(&self) -> (r: Self)
        ensures
            r@ == self@,
    {
        match self {
            Message::BlockResponse(block) => Message::BlockResponse(block.clone()),
            Message::ChallengeRequest => Message::ChallengeRequest,
            Message::ChallengeResponse => Message::ChallengeResponse,
            Message::Disconnect => Message::Disconnect,
            Message::Ping(version, fork_depth, node_type, status, hash, header) => Message::Ping(
                *version,
                *fork_depth,
                *node_type,
                *status,
                *hash,
                header.clone(),
            ),
            Message::Pong(is_fork, locators) => Message::Pong(*is_fork, locators.clone()),
            Message::UnconfirmedBlock(height, hash, block) => Message::UnconfirmedBlock(
                *height,
                *hash,
                block.clone(),
            ),
            Message::Unused => Message::Unused,
            Message::Other => Message::Other,
        }
    }
}

} // verus!
