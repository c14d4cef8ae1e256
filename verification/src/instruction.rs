//! The embedded instruction and its stable binary encoding.
//!
//! A task stores a fully self-describing instruction: the target program,
//! an ordered list of account references with their writability and signer
//! flags, and an opaque data payload. A downstream executor replays it
//! verbatim, so the encoding is fixed: the 32 program-id bytes, the
//! account count as a little-endian 32-bit length, 34 bytes per account
//! (address, signer flag, writable flag), then the payload length and the
//! payload. The task account must be allocated at exactly the encoded
//! size plus a fixed header, so the encoded length is part of the
//! admission contract.

use vstd::prelude::*;

use crate::address::Address;
use crate::codec::u32_le;
use crate::codec::u32_le_bytes;
use crate::codec::append_bytes;

verus! {

/// One account reference of an embedded instruction.
pub struct AccountMetaData {
    pub address: Address,
    pub is_signer: bool,
    pub is_writable: bool,
}

/// A fully self-describing instruction stored inside a task.
pub struct InstructionData {
    pub program_id: Address,
    pub accounts: Vec<AccountMetaData>,
    pub data: Vec<u8>,
}

pub open spec fn bool_byte(b: bool) -> u8 {
    if b {
        1u8
    } else {
        0u8
    }
}

/// The 34 encoded bytes of one account reference.
pub open spec fn encoded_meta(m: AccountMetaData) -> Seq<u8> {
    m.address@ + seq![bool_byte(m.is_signer), bool_byte(m.is_writable)]
}

pub open spec fn encoded_metas(ms: Seq<AccountMetaData>) -> Seq<u8>
    decreases ms.len(),
{
    if ms.len() == 0 {
        Seq::<u8>::empty()
    } else {
        encoded_meta(ms[0]) + encoded_metas(ms.drop_first())
    }
}

impl AccountMetaData {
    pub open spec fn wf(&self) -> bool {
        self.address.wf()
    }
}

impl InstructionData {
    /// Addresses are 32 bytes and both list lengths fit their encoded
    /// 32-bit fields.
    pub open spec fn wf(&self) -> bool {
        &&& self.program_id.wf()
        &&& forall|i: int| 0 <= i < self.accounts@.len() ==> (#[trigger] self.accounts@[i]).wf()
        &&& self.accounts@.len() <= u32::MAX
        &&& self.data@.len() <= u32::MAX
    }

    /// The encoded bytes of the whole instruction.
    pub open spec fn encoded(&self) -> Seq<u8> {
        self.program_id@ + u32_le(self.accounts@.len() as u32) + encoded_metas(self.accounts@)
            + u32_le(self.data@.len() as u32) + self.data@
    }

    /// The encoded length, as a plain formula over the field sizes.
    pub open spec fn encoded_len(&self) -> int {
        32 + 4 + 34 * (self.accounts@.len() as int) + 4 + (self.data@.len() as int)
    }
}

/// Well-formed account references encode to 34 bytes each.
pub proof fn lemma_encoded_metas_len(ms: Seq<AccountMetaData>)
    requires
        forall|i: int| 0 <= i < ms.len() ==> (#[trigger] ms[i]).wf(),
    ensures
        encoded_metas(ms).len() == 34 * ms.len(),
    decreases ms.len(),
{
    if ms.len() > 0 {
        lemma_encoded_metas_len(ms.drop_first());
    }
}

/// The encoded bytes of a well-formed instruction are exactly
/// `encoded_len` many.
pub proof fn lemma_encoded_len(ix: InstructionData)
    requires
        ix.wf(),
    ensures
        ix.encoded().len() == ix.encoded_len(),
{
    lemma_encoded_metas_len(ix.accounts@);
}

proof fn lemma_encoded_metas_push(ms: Seq<AccountMetaData>, m: AccountMetaData)
    ensures
        encoded_metas(ms.push(m)) == encoded_metas(ms) + encoded_meta(m),
    decreases ms.len(),
{
    if ms.len() == 0 {
        assert(ms.push(m).drop_first() =~= ms);
        assert(encoded_metas(ms.push(m)) =~= encoded_metas(ms) + encoded_meta(m));
    } else {
        assert(ms.push(m).drop_first() =~= ms.drop_first().push(m));
        lemma_encoded_metas_push(ms.drop_first(), m);
        assert(encoded_metas(ms.push(m)) =~= encoded_metas(ms) + encoded_meta(m));
    }
}

/// Encodes the instruction into its stable byte form.
pub fn serialize_instruction(ix: &InstructionData) -> (r: Vec<u8>)
    requires
        ix.wf(),
    ensures
        r@ == ix.encoded(),
{
    let mut out: Vec<u8> = Vec::new();
    append_bytes(&mut out, ix.program_id.as_bytes());
    let count_bytes = u32_le_bytes(ix.accounts.len() as u32);
    append_bytes(&mut out, &count_bytes);
    proof {
        assert(Seq::<u8>::empty() + ix.program_id@ =~= ix.program_id@);
        assert(ix.accounts@.subrange(0, 0) =~= Seq::<AccountMetaData>::empty());
        assert(out@ =~= ix.program_id@ + u32_le(ix.accounts@.len() as u32) + encoded_metas(
            ix.accounts@.subrange(0, 0),
        ));
    }
    let mut i: usize = 0;
    while i < ix.accounts.len()
        invariant
            ix.wf(),
            i <= ix.accounts@.len(),
            out@ == ix.program_id@ + u32_le(ix.accounts@.len() as u32) + encoded_metas(
                ix.accounts@.subrange(0, i as int),
            ),
        decreases ix.accounts@.len() - i,
    {
        let m = &ix.accounts[i];
        append_bytes(&mut out, m.address.as_bytes());
        out.push(if m.is_signer {
            1u8
        } else {
            0u8
        });
        out.push(if m.is_writable {
            1u8
        } else {
            0u8
        });
        proof {
            lemma_encoded_metas_push(ix.accounts@.subrange(0, i as int), ix.accounts@[i as int]);
            assert(ix.accounts@.subrange(0, i as int).push(ix.accounts@[i as int])
                =~= ix.accounts@.subrange(0, i + 1));
            assert(out@ =~= ix.program_id@ + u32_le(ix.accounts@.len() as u32) + encoded_metas(
                ix.accounts@.subrange(0, i + 1),
            ));
        }
        i = i + 1;
    }
    proof {
        assert(ix.accounts@.subrange(0, ix.accounts@.len() as int) =~= ix.accounts@);
    }
    let len_bytes = u32_le_bytes(ix.data.len() as u32);
    append_bytes(&mut out, &len_bytes);
    append_bytes(&mut out, &ix.data);
    proof {
        assert(out@ =~= ix.encoded());
    }
    out
}

} // verus!
