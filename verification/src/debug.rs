//! A read-only view over a chunk for diagnostics: the decoded listing of
//! its instruction stream. Rendering the listing as text is left to the
//! caller; nothing here mutates a chunk or touches execution semantics.

use vstd::prelude::*;

use crate::chunks::{Chunk, Instruction, decode_spec};

verus! {

/// The decoded listing of `code` from `offset` on: each decoded
/// instruction paired with the byte offset it starts at, ending at the
/// first position where no whole instruction can be decoded.
pub open spec fn listing_spec(code: Seq<u8>, offset: int) -> Seq<(usize, Instruction)>
    decreases code.len() - offset
        when 0 <= offset <= code.len()
{
    let (consumed, decoded) = decode_spec(code, offset);
    match decoded {
        None => Seq::empty(),
        Some(instruction) => seq![(offset as usize, instruction)]
            + listing_spec(code, offset + consumed),
    }
}

/// Walks the chunk's byte stream from offset zero by the decode contract
/// and returns each decoded instruction with the byte offset it starts
/// at. Every returned offset lies inside the code, so its source line can
/// be looked up in a well-formed chunk.
pub fn dissassemble_chunk(chunk: &Chunk) -> (listing: Vec<(usize, Instruction)>)
    ensures
        listing@ == listing_spec(chunk@.code, 0),
        forall|i: int| 0 <= i < listing@.len()
            ==> (#[trigger] listing@[i]).0 < chunk@.code.len(),
{
    let code = chunk.code();
    let code_len = code.len();
    let mut listing: Vec<(usize, Instruction)> = Vec::new();
    let mut offset: usize = 0;

    loop
        invariant
            offset <= code_len,
            code_len == chunk@.code.len(),
            code@ == chunk@.code,
            listing_spec(chunk@.code, 0)
                == listing@ + listing_spec(chunk@.code, offset as int),
            forall|i: int| 0 <= i < listing@.len()
                ==> (#[trigger] listing@[i]).0 < chunk@.code.len(),
        decreases code_len - offset,
    {
        proof {
            reveal_with_fuel(listing_spec, 2);
        }
        let (consumed, decoded) = Instruction::from_bytecode(code, offset);

        let instruction = match decoded {
            Some(instruction) => instruction,
            None => {
                proof {
                    assert(listing@ + listing_spec(chunk@.code, offset as int) =~= listing@);
                }
                return listing;
            },
        };

        let ghost pre_listing = listing@;
        listing.push((offset, instruction));
        proof {
            assert(listing@ + listing_spec(chunk@.code, offset + consumed)
                =~= pre_listing + listing_spec(chunk@.code, offset as int));
        }
        offset = offset + consumed;
    }
}

} // verus!
