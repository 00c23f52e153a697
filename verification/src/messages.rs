//! Messages exchanged with the RPU.
pub mod commands;

use vstd::prelude::*;
use crate::bytes::{
    bytes_as_words, lemma_bytes_of_le_u32, lemma_le_u32_of_bytes, u32_at, words_as_bytes, u32_le_bytes, push_u32_le, push_bytes,
    slice32,
};

verus! {

/// The kind of a message exchanged with the RPU (`host_rpu_msg_type`).
#[derive(Clone, Copy, Debug, PartialEq, Eq, Structural)]
pub enum RpuMessageType {
    System,
    Supplicant,
    Data,
    Umac,
}

impl RpuMessageType {
    /// The number that stands for this kind on the wire.
    pub open spec fn spec_value(self) -> u32 {
        match self {
            RpuMessageType::System => 0,
            RpuMessageType::Supplicant => 1,
            RpuMessageType::Data => 2,
            RpuMessageType::Umac => 3,
        }
    }

    pub fn value(self) -> (v: u32)
        ensures
            v == self.spec_value(),
    {
        match self {
            RpuMessageType::System => 0,
            RpuMessageType::Supplicant => 1,
            RpuMessageType::Data => 2,
            RpuMessageType::Umac => 3,
        }
    }

    /// The kind with the given number, if there is one.
    pub open spec fn spec_from_value(v: u32) -> Option<RpuMessageType> {
        if v == 0 {
            Some(RpuMessageType::System)
        } else if v == 1 {
            Some(RpuMessageType::Supplicant)
        } else if v == 2 {
            Some(RpuMessageType::Data)
        } else if v == 3 {
            Some(RpuMessageType::Umac)
        } else {
            None
        }
    }

    pub fn from_value(v: u32) -> (r: Option<RpuMessageType>)
        ensures
            r == Self::spec_from_value(v),
    {
        if v == 0 {
            Some(RpuMessageType::System)
        } else if v == 1 {
            Some(RpuMessageType::Supplicant)
        } else if v == 2 {
            Some(RpuMessageType::Data)
        } else if v == 3 {
            Some(RpuMessageType::Umac)
        } else {
            None
        }
    }
}

/// Message types by value (system 0, supplicant 1, data 2, UMAC 3), and
/// every type is read back from its own number.
pub proof fn lemma_message_types(t: RpuMessageType)
    ensures
        RpuMessageType::System.spec_value() == 0,
        RpuMessageType::Supplicant.spec_value() == 1,
        RpuMessageType::Data.spec_value() == 2,
        RpuMessageType::Umac.spec_value() == 3,
        RpuMessageType::spec_from_value(t.spec_value()) == Some(t),
{
}

/// A message that can be sent to the RPU.
pub trait Message {
    const MESSAGE_TYPE: RpuMessageType;
}

/// Size in bytes of the header of a message: its length, the resubmit
/// flag and its type.
pub const HOST_RPU_MSG_HEADER_SIZE: usize = 12;

/// Size of the buffer in which a command is framed.
pub const MAX_CMD_SIZE: usize = 512;

/// A message to the RPU: the header (length of the whole message, a clear
/// resubmit flag, the type), then the command.
pub open spec fn spec_message_bytes(msg_type: RpuMessageType, cmd: Seq<u8>) -> Seq<u8> {
    u32_le_bytes((HOST_RPU_MSG_HEADER_SIZE + cmd.len()) as u32) + u32_le_bytes(0) + u32_le_bytes(
        msg_type.spec_value(),
    ) + cmd
}

/// A message's header gives back what it was made of: its first word is
/// the length of the whole message, its third word names the message's
/// type, and the command follows the header unchanged.
pub proof fn lemma_message_header(msg_type: RpuMessageType, cmd: Seq<u8>)
    ensures
        u32_at(spec_message_bytes(msg_type, cmd), 0) == (HOST_RPU_MSG_HEADER_SIZE
            + cmd.len()) as u32,
        u32_at(spec_message_bytes(msg_type, cmd), 4) == 0,
        u32_at(spec_message_bytes(msg_type, cmd), 8) == msg_type.spec_value(),
        RpuMessageType::spec_from_value(u32_at(spec_message_bytes(msg_type, cmd), 8)) == Some(
            msg_type,
        ),
        spec_message_bytes(msg_type, cmd).subrange(
            HOST_RPU_MSG_HEADER_SIZE as int,
            HOST_RPU_MSG_HEADER_SIZE + cmd.len(),
        ) == cmd,
{
    let m = spec_message_bytes(msg_type, cmd);
    lemma_le_u32_of_bytes((HOST_RPU_MSG_HEADER_SIZE + cmd.len()) as u32);
    lemma_le_u32_of_bytes(0);
    lemma_le_u32_of_bytes(msg_type.spec_value());
    assert(m.subrange(HOST_RPU_MSG_HEADER_SIZE as int, HOST_RPU_MSG_HEADER_SIZE + cmd.len())
        =~= cmd);
}

/// Number of words of a framed command that are posted to the RPU: the
/// size of the command alone, rounded up to whole words.
pub open spec fn spec_posted_words(cmd_len: nat) -> nat {
    (cmd_len + 3) / 4
}

/// The posted words are the fewest whole words that hold the command's own
/// bytes (not counting the header).
pub proof fn lemma_posted_words(cmd_len: nat)
    ensures
        4 * spec_posted_words(cmd_len) >= cmd_len,
        4 * spec_posted_words(cmd_len) < cmd_len + 4,
{
}

/// The words posted to the RPU for a command: the first
/// `spec_posted_words` words of the message.
pub open spec fn spec_frame_command(msg_type: RpuMessageType, cmd: Seq<u8>) -> Seq<u32> {
    bytes_as_words(spec_message_bytes(msg_type, cmd)).take(spec_posted_words(cmd.len()) as int)
}

/// The posted words, read back as bytes, are the first bytes of the
/// message, unchanged and in order.
pub proof fn lemma_frame_is_message_prefix(msg_type: RpuMessageType, cmd: Seq<u8>)
    ensures
        words_as_bytes(spec_frame_command(msg_type, cmd)) == spec_message_bytes(msg_type, cmd).take(
            4 * spec_posted_words(cmd.len()) as int,
        ),
{
    let m = spec_message_bytes(msg_type, cmd);
    let n = spec_posted_words(cmd.len()) as int;
    let f = spec_frame_command(msg_type, cmd);
    assert(4 * n <= m.len());
    assert forall|i: int| 0 <= i < 4 * n implies #[trigger] words_as_bytes(f)[i] == m.take(
        4 * n,
    )[i] by {
        let q = i / 4;
        assert(0 <= q < n);
        assert(4 * q + 3 < m.len());
        lemma_bytes_of_le_u32(m[4 * q], m[4 * q + 1], m[4 * q + 2], m[4 * q + 3]);
    }
    assert(words_as_bytes(f) =~= m.take(4 * n));
}

/// Frames a command as a message and gives the words to post to the RPU.
///
/// The number of words posted counts the command's bytes only, not the
/// header's, so the last bytes of a long command are not posted.
pub fn frame_command(msg_type: RpuMessageType, cmd: &[u8]) -> (words: Vec<u32>)
    requires
        HOST_RPU_MSG_HEADER_SIZE + cmd@.len() <= MAX_CMD_SIZE,
    ensures
        words@ == spec_frame_command(msg_type, cmd@),
{
    let mut msg: Vec<u8> = Vec::new();
    push_u32_le(&mut msg, (HOST_RPU_MSG_HEADER_SIZE + cmd.len()) as u32);
    push_u32_le(&mut msg, 0);
    push_u32_le(&mut msg, msg_type.value());
    push_bytes(&mut msg, cmd);
    assert(msg@ =~= spec_message_bytes(msg_type, cmd@));
    let nwords = (cmd.len() + 3) / 4;
    let total = 4 * nwords;
    let mut posted: Vec<u8> = Vec::new();
    let mut i: usize = 0;
    while i < total
        invariant
            nwords == spec_posted_words(cmd@.len()),
            total == 4 * nwords,
            msg@ == spec_message_bytes(msg_type, cmd@),
            msg@.len() == HOST_RPU_MSG_HEADER_SIZE + cmd@.len(),
            4 * nwords <= msg@.len(),
            0 <= i <= 4 * nwords,
            posted@ == msg@.take(i as int),
        decreases total - i,
    {
        posted.push(msg[i]);
        assert(msg@.take(i + 1) =~= msg@.take(i as int).push(msg@[i as int]));
        i += 1;
    }
    let words = slice32(posted.as_slice());
    assert forall|k: int| 0 <= k < nwords implies #[trigger] words@[k] == spec_frame_command(
        msg_type,
        cmd@,
    )[k] by {
        assert(4 * k + 3 < 4 * nwords) by (nonlinear_arith)
            requires
                0 <= k < nwords,
        ;
    }
    assert(words@ =~= spec_frame_command(msg_type, cmd@));
    words
}

} // verus!
