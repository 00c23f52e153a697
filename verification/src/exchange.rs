//! A command for the RPU and the buffer in which its reply arrives.
use vstd::prelude::*;
use crate::bytes::{u32_at, push_u32_le, push_bytes, read_u32_le};
use crate::messages::{lemma_message_header, spec_message_bytes, RpuMessageType, HOST_RPU_MSG_HEADER_SIZE};

verus! {

/// A command for the RPU together with room for the RPU's reply: the
/// command message and the reply message share one buffer, as large as
/// the larger of the two.
pub struct Message {
    buf: Vec<u8>,
    cmd_len: usize,
    reply_len: usize,
}

impl Message {
    #[verifier::type_invariant]
    spec fn inv(&self) -> bool {
        &&& self.cmd_len >= HOST_RPU_MSG_HEADER_SIZE
        &&& self.reply_len >= HOST_RPU_MSG_HEADER_SIZE
        &&& self.buf@.len() == if self.cmd_len >= self.reply_len {
            self.cmd_len
        } else {
            self.reply_len
        }
    }

    /// The length of the shared buffer: that of the longer of the two
    /// messages.
    pub open spec fn spec_buffer_len(cmd_len: nat, reply_len: nat) -> nat {
        if cmd_len >= reply_len {
            cmd_len
        } else {
            reply_len
        }
    }

    /// The length of the buffer: that of the longer of the two messages.
    pub fn buffer_len(&self) -> (n: usize)
        ensures
            n == self.bytes().len(),
            n == Self::spec_buffer_len(self.spec_cmd_len(), self.spec_reply_len()),
            self.spec_cmd_len() >= HOST_RPU_MSG_HEADER_SIZE,
            self.spec_reply_len() >= HOST_RPU_MSG_HEADER_SIZE,
    {
        proof {
            use_type_invariant(self);
        }
        self.buf.len()
    }

    /// The shared buffer.
    pub closed spec fn bytes(&self) -> Seq<u8> {
        self.buf@
    }

    /// Length of the command message.
    pub closed spec fn spec_cmd_len(&self) -> nat {
        self.cmd_len as nat
    }

    /// Length of the reply message.
    pub closed spec fn spec_reply_len(&self) -> nat {
        self.reply_len as nat
    }

    /// The message carrying `command`, of type `msg_type`, with room for a
    /// reply of `reply_size` bytes after its header. The buffer holds the
    /// command message, then zeros up to the reply message's length.
    pub fn new(msg_type: RpuMessageType, command: &[u8], reply_size: usize) -> (m: Message)
        requires
            HOST_RPU_MSG_HEADER_SIZE + command@.len() <= u32::MAX,
            HOST_RPU_MSG_HEADER_SIZE + reply_size <= usize::MAX,
        ensures
            m.spec_cmd_len() == HOST_RPU_MSG_HEADER_SIZE + command@.len(),
            m.spec_reply_len() == HOST_RPU_MSG_HEADER_SIZE + reply_size,
            m.bytes().len() == Self::spec_buffer_len(m.spec_cmd_len(), m.spec_reply_len()),
            m.bytes().take(m.spec_cmd_len() as int) == spec_message_bytes(msg_type, command@),
            forall|i: int|
                m.spec_cmd_len() <= i < m.bytes().len() ==> #[trigger] m.bytes()[i] == 0,
            u32_at(m.bytes(), 0) == m.spec_cmd_len(),
            m.bytes().subrange(HOST_RPU_MSG_HEADER_SIZE as int, m.spec_cmd_len() as int)
                == command@,
            RpuMessageType::spec_from_value(u32_at(m.bytes(), 8)) == Some(msg_type),
    {
        let cmd_len = HOST_RPU_MSG_HEADER_SIZE + command.len();
        let reply_len = HOST_RPU_MSG_HEADER_SIZE + reply_size;
        let mut buf: Vec<u8> = Vec::new();
        push_u32_le(&mut buf, cmd_len as u32);
        push_u32_le(&mut buf, 0);
        push_u32_le(&mut buf, msg_type.value());
        push_bytes(&mut buf, command);
        assert(buf@ =~= spec_message_bytes(msg_type, command@));
        while buf.len() < reply_len
            invariant
                buf@.len() >= cmd_len,
                cmd_len == HOST_RPU_MSG_HEADER_SIZE + command@.len(),
                buf@.len() <= if cmd_len >= reply_len {
                    cmd_len
                } else {
                    reply_len
                },
                buf@.take(cmd_len as int) == spec_message_bytes(msg_type, command@),
                forall|i: int| cmd_len <= i < buf@.len() ==> #[trigger] buf@[i] == 0,
            decreases reply_len - buf@.len(),
        {
            buf.push(0);
            assert(buf@.take(cmd_len as int) =~= buf@.take(buf@.len() - 1).take(cmd_len as int));
        }
        proof {
            lemma_message_header(msg_type, command@);
            let mb = spec_message_bytes(msg_type, command@);
            assert(buf@.take(cmd_len as int)[0] == mb[0]);
            assert(buf@[0] == mb[0] && buf@[1] == mb[1] && buf@[2] == mb[2] && buf@[3] == mb[3]);
            assert(buf@[8] == mb[8] && buf@[9] == mb[9] && buf@[10] == mb[10] && buf@[11]
                == mb[11]);
            assert(buf@.subrange(HOST_RPU_MSG_HEADER_SIZE as int, cmd_len as int) =~= mb.subrange(
                HOST_RPU_MSG_HEADER_SIZE as int,
                cmd_len as int,
            ));
        }
        Message { buf, cmd_len, reply_len }
    }

    /// The type in the message header, if it names a known type.
    pub fn ty(&self) -> (t: Option<RpuMessageType>)
        ensures
            t == RpuMessageType::spec_from_value(u32_at(self.bytes(), 8)),
    {
        proof {
            use_type_invariant(self);
        }
        RpuMessageType::from_value(read_u32_le(self.buf.as_slice(), 8))
    }

    /// The command message, to send to the device.
    pub fn as_cmd_slice(&self) -> (s: &[u8])
        ensures
            s@ == self.bytes().take(self.spec_cmd_len() as int),
            s@.len() == self.spec_cmd_len(),
    {
        proof {
            use_type_invariant(self);
        }
        vstd::slice::slice_subrange(self.buf.as_slice(), 0, self.cmd_len)
    }

    /// The reply message.
    pub fn as_reply_slice(&self) -> (s: &[u8])
        ensures
            s@ == self.bytes().take(self.spec_reply_len() as int),
            s@.len() == self.spec_reply_len(),
    {
        proof {
            use_type_invariant(self);
        }
        vstd::slice::slice_subrange(self.buf.as_slice(), 0, self.reply_len)
    }

    /// Stores the reply received from the device at the start of the buffer.
    /// Writing the reply replaces the command.
    pub fn write_reply(&mut self, reply: &[u8])
        requires
            reply@.len() <= old(self).spec_reply_len(),
        ensures
            final(self).spec_cmd_len() == old(self).spec_cmd_len(),
            final(self).spec_reply_len() == old(self).spec_reply_len(),
            final(self).bytes() == reply@ + old(self).bytes().skip(reply@.len() as int),
            final(self).bytes().len() == old(self).bytes().len(),
            final(self).bytes().len() == Self::spec_buffer_len(
                final(self).spec_cmd_len(),
                final(self).spec_reply_len(),
            ),
    {
        proof {
            use_type_invariant(&*self);
        }
        let mut buf: Vec<u8> = Vec::new();
        let mut i: usize = 0;
        while i < self.buf.len()
            invariant
                0 <= i <= self.buf@.len(),
                reply@.len() <= self.buf@.len(),
                buf@.len() == i,
                forall|k: int|
                    0 <= k < i ==> #[trigger] buf@[k] == if k < reply@.len() {
                        reply@[k]
                    } else {
                        self.buf@[k]
                    },
            decreases self.buf@.len() - i,
        {
            if i < reply.len() {
                buf.push(reply[i]);
            } else {
                buf.push(self.buf[i]);
            }
            i += 1;
        }
        assert(buf@ =~= reply@ + self.buf@.skip(reply@.len() as int));
        self.buf = buf;
    }
}

} // verus!
