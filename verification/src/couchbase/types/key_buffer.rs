//! Key and value buffers handed to libcouchbase commands.

use vstd::prelude::*;

use super::kv_buffer_type::KvBufferType;

verus! {

/// A run of bytes together with its length (`lcb_CONTIGBUF`).
#[derive(Debug, Clone)]
pub struct ContiguousBuffer {
    pub bytes: Vec<u8>,
    pub nbytes: u64,
}

impl ContiguousBuffer {
    /// The length field agrees with the bytes.
    pub open spec fn wf(&self) -> bool {
        self.nbytes == self.bytes@.len()
    }

    /// The empty buffer, as a zeroed command holds it.
    pub fn empty() -> (b: ContiguousBuffer)
        ensures
            b.bytes@ == Seq::<u8>::empty(),
            b.nbytes == 0,
            b.wf(),
    {
        ContiguousBuffer { bytes: Vec::new(), nbytes: 0 }
    }
}

/// A key or value of a command and how libcouchbase is to read it (`lcb_KEYBUF`).
#[derive(Debug, Clone)]
pub struct KeyBuffer {
    pub _type: KvBufferType,
    pub contig: ContiguousBuffer,
}

impl KeyBuffer {
    /// The buffer of a zeroed command: copy mode, no bytes.
    pub open spec fn is_zeroed(&self) -> bool {
        &&& self._type == KvBufferType::Copy
        &&& self.contig.bytes@ == Seq::<u8>::empty()
        &&& self.contig.nbytes == 0
    }

    /// The buffer of a zeroed command.
    pub fn empty() -> (b: KeyBuffer)
        ensures
            b.is_zeroed(),
    {
        KeyBuffer { _type: KvBufferType::Copy, contig: ContiguousBuffer::empty() }
    }

    /// A buffer that libcouchbase copies, holding the UTF-8 bytes of `text`.
    pub fn copied(text: &str) -> (b: KeyBuffer)
        ensures
            b._type == KvBufferType::Copy,
            b.contig.bytes@ == vstd::utf8::encode_utf8(text@),
            b.contig.nbytes == vstd::utf8::encode_utf8(text@).len(),
    {
        let bytes = text.as_bytes_vec();
        let n = bytes.len() as u64;
        KeyBuffer { _type: KvBufferType::Copy, contig: ContiguousBuffer { bytes, nbytes: n } }
    }
}

} // verus!
