use vstd::prelude::*;

use crate::error::Error;

verus! {

/// The four little-endian bytes of a 32-bit length.
pub open spec fn le32_bytes(n: u32) -> Seq<u8> {
    seq![
        (n & 0xFF) as u8,
        ((n >> 8) & 0xFF) as u8,
        ((n >> 16) & 0xFF) as u8,
        ((n >> 24) & 0xFF) as u8,
    ]
}

/// The length declared by the first four bytes of a framed blob, read
/// little-endian.
pub open spec fn declared_len(data: Seq<u8>) -> int
    recommends
        data.len() >= 4,
{
    data[0] + data[1] * 0x100 + data[2] * 0x1_0000 + data[3] * 0x100_0000
}

/// Reading back the four little-endian bytes of a length gives the
/// length.
pub proof fn lemma_le32_roundtrip(n: u32)
    ensures
        declared_len(le32_bytes(n)) == n,
{
    assert(n & 0xFF < 256 && (n >> 8) & 0xFF < 256 && (n >> 16) & 0xFF < 256
        && (n >> 24) & 0xFF < 256) by (bit_vector);
    assert((n & 0xFF) + ((n >> 8) & 0xFF) * 0x100 + ((n >> 16) & 0xFF) * 0x1_0000
        + ((n >> 24) & 0xFF) * 0x100_0000 == n) by (bit_vector);
    assert(le32_bytes(n)[0] == (n & 0xFF) as u8);
    assert(le32_bytes(n)[1] == ((n >> 8) & 0xFF) as u8);
    assert(le32_bytes(n)[2] == ((n >> 16) & 0xFF) as u8);
    assert(le32_bytes(n)[3] == ((n >> 24) & 0xFF) as u8);
}

/// Frames processor and controller preset blobs into one byte blob: four
/// little-endian bytes holding the processor part's length, the
/// processor part, then the controller part.
pub fn encode_preset_blob(processor: &Vec<u8>, controller: &Vec<u8>) -> (r: Vec<u8>)
    requires
        processor@.len() <= u32::MAX,
    ensures
        r@ == le32_bytes(processor@.len() as u32) + processor@ + controller@,
{
    let plen = processor.len();
    let plen32 = plen as u32;
    let mut data: Vec<u8> = Vec::new();
    data.push((plen32 & 0xFF) as u8);
    data.push(((plen32 >> 8) & 0xFF) as u8);
    data.push(((plen32 >> 16) & 0xFF) as u8);
    data.push(((plen32 >> 24) & 0xFF) as u8);
    proof {
        assert(data@ =~= le32_bytes(plen32));
    }
    let mut i: usize = 0;
    while i < plen
        invariant
            plen == processor@.len(),
            i <= plen,
            data@ == le32_bytes(plen as u32) + processor@.subrange(0, i as int),
        decreases plen - i,
    {
        data.push(processor[i]);
        proof {
            assert(le32_bytes(plen as u32) + processor@.subrange(0, i + 1)
                =~= (le32_bytes(plen as u32) + processor@.subrange(0, i as int)).push(
                    processor@[i as int]));
        }
        i = i + 1;
    }
    proof {
        assert(processor@.subrange(0, plen as int) =~= processor@);
    }
    let clen = controller.len();
    let mut j: usize = 0;
    while j < clen
        invariant
            plen == processor@.len(),
            clen == controller@.len(),
            j <= clen,
            data@ == le32_bytes(plen as u32) + processor@ + controller@.subrange(0, j as int),
        decreases clen - j,
    {
        data.push(controller[j]);
        proof {
            assert(le32_bytes(plen as u32) + processor@ + controller@.subrange(0, j + 1)
                =~= (le32_bytes(plen as u32) + processor@
                    + controller@.subrange(0, j as int)).push(controller@[j as int]));
        }
        j = j + 1;
    }
    proof {
        assert(controller@.subrange(0, clen as int) =~= controller@);
    }
    data
}

/// Splits a framed preset blob back into its processor and controller
/// parts. A blob shorter than its header, or shorter than the processor
/// length the header declares, is rejected as malformed.
pub fn split_preset_blob(data: &Vec<u8>) -> (r: Result<(Vec<u8>, Vec<u8>), Error>)
    ensures
        data@.len() >= 4 && declared_len(data@) + 4 <= data@.len() ==> (r matches Ok(parts)
            && parts.0@ == data@.subrange(4, 4 + declared_len(data@))
            && parts.1@ == data@.subrange(4 + declared_len(data@), data@.len() as int)),
        !(data@.len() >= 4 && declared_len(data@) + 4 <= data@.len()) ==> r is Err,
{
    if data.len() < 4 {
        return crate::error::err("preset blob is shorter than its header");
    }
    let b0 = data[0] as usize;
    let b1 = data[1] as usize;
    let b2 = data[2] as usize;
    let b3 = data[3] as usize;
    let plen: usize = b0 + b1 * 0x100 + b2 * 0x1_0000 + b3 * 0x100_0000;
    proof {
        assert(plen == declared_len(data@));
    }
    if plen > data.len() - 4 {
        return crate::error::err("preset blob is shorter than its declared processor part");
    }
    let n = data.len();
    let mut processor: Vec<u8> = Vec::new();
    let mut i: usize = 4;
    while i < 4 + plen
        invariant
            n == data@.len(),
            plen + 4 <= n,
            4 <= i <= 4 + plen,
            processor@ == data@.subrange(4, i as int),
        decreases 4 + plen - i,
    {
        processor.push(data[i]);
        proof {
            assert(data@.subrange(4, i + 1)
                =~= data@.subrange(4, i as int).push(data@[i as int]));
        }
        i = i + 1;
    }
    let mut controller: Vec<u8> = Vec::new();
    let mut j: usize = 4 + plen;
    while j < n
        invariant
            n == data@.len(),
            plen + 4 <= n,
            4 + plen <= j <= n,
            controller@ == data@.subrange(4 + plen as int, j as int),
        decreases n - j,
    {
        controller.push(data[j]);
        proof {
            assert(data@.subrange(4 + plen as int, j + 1)
                =~= data@.subrange(4 + plen as int, j as int).push(data@[j as int]));
        }
        j = j + 1;
    }
    Ok((processor, controller))
}

/// Round-trip law: splitting a blob framed from a processor part and a
/// controller part yields those two parts back.
pub proof fn lemma_preset_blob_roundtrip(processor: Seq<u8>, controller: Seq<u8>)
    requires
        processor.len() <= u32::MAX,
    ensures
        ({
            let blob = le32_bytes(processor.len() as u32) + processor + controller;
            &&& blob.len() >= 4
            &&& declared_len(blob) == processor.len()
            &&& declared_len(blob) + 4 <= blob.len()
            &&& blob.subrange(4, 4 + declared_len(blob)) == processor
            &&& blob.subrange(4 + declared_len(blob), blob.len() as int) == controller
        }),
{
    let blob = le32_bytes(processor.len() as u32) + processor + controller;
    lemma_le32_roundtrip(processor.len() as u32);
    assert(declared_len(blob) == declared_len(le32_bytes(processor.len() as u32)));
    assert(blob.subrange(4, 4 + processor.len() as int) =~= processor);
    assert(blob.subrange(4 + processor.len() as int, blob.len() as int) =~= controller);
}

} // verus!
