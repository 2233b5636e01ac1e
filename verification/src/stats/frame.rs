//! The fixed-size frames that carry a report over TCP: the payload at the
//! front and its length in the last byte.
use vstd::prelude::*;

verus! {

/// The bytes a frame holds after `payload` is written into `frame`: the
/// payload at the front, the untouched middle, and the payload length
/// (modulo 256) in the last byte.  A payload as long as the frame covers it
/// entirely, its own last byte included.
pub open spec fn padded(payload: Seq<u8>, frame: Seq<u8>) -> Seq<u8> {
    if payload.len() < frame.len() {
        payload + frame.subrange(payload.len() as int, frame.len() - 1) + seq![
            (payload.len() % 256) as u8,
        ]
    } else {
        payload
    }
}

/// The payload a frame announces: the prefix whose length its last byte gives.
pub open spec fn unpadded(frame: Seq<u8>) -> Seq<u8> {
    frame.subrange(0, frame.last() as int)
}

/// Writes `a` into the front of the fixed-size frame `b` and its length into
/// the frame's last byte.
pub fn padding(a: &[u8], b: &mut [u8])
    requires
        old(b)@.len() > 0,
        a@.len() <= old(b)@.len(),
    ensures
        final(b)@ == padded(a@, old(b)@),
{
    let blen = b.len();
    let alen = a.len();
    let len_byte: u8 = (alen % 256) as u8;
    b[blen - 1] = len_byte;
    let mut i: usize = 0;
    while i < alen
        invariant
            i <= alen,
            alen == a@.len(),
            blen == b@.len(),
            blen == old(b)@.len(),
            alen <= blen,
            forall|j: int| 0 <= j < i ==> b@[j] == a@[j],
            forall|j: int| i <= j < blen - 1 ==> b@[j] == old(b)@[j],
            i < blen ==> b@[blen - 1] == len_byte,
        decreases alen - i,
    {
        b[i] = a[i];
        i = i + 1;
    }
    assert(b@ =~= padded(a@, old(b)@));
}

/// Reads the payload out of a frame written by [`padding`].
pub fn unpadding(frame: &[u8]) -> (payload: Vec<u8>)
    requires
        frame@.len() > 0,
        frame@.last() <= frame@.len(),
    ensures
        payload@ == unpadded(frame@),
{
    let n: usize = frame[frame.len() - 1] as usize;
    let mut out: Vec<u8> = Vec::new();
    let mut i: usize = 0;
    while i < n
        invariant
            i <= n,
            n == frame@.last(),
            n <= frame@.len(),
            out@ == frame@.subrange(0, i as int),
        decreases n - i,
    {
        out.push(frame[i]);
        i = i + 1;
    }
    out
}

/// A frame read back gives exactly the payload written into it, whenever
/// the payload is shorter than the frame and its length fits the length
/// byte.
pub proof fn lemma_padding_roundtrip(payload: Seq<u8>, frame: Seq<u8>)
    requires
        payload.len() < frame.len(),
        payload.len() < 256,
    ensures
        padded(payload, frame).len() == frame.len(),
        padded(payload, frame).last() == payload.len(),
        unpadded(padded(payload, frame)) == payload,
{
    let p = padded(payload, frame);
    assert(p.subrange(0, payload.len() as int) =~= payload);
}

/// A payload shorter than the frame keeps the frame's size and leaves its
/// length, modulo 256, in the last byte; a payload as long as the frame
/// becomes the whole frame, its own last byte included.
pub proof fn lemma_padding_shape(payload: Seq<u8>, frame: Seq<u8>)
    requires
        payload.len() <= frame.len(),
        frame.len() > 0,
    ensures
        padded(payload, frame).len() == frame.len(),
        padded(payload, frame).subrange(0, payload.len() as int) == payload,
        payload.len() < frame.len() ==> padded(payload, frame).last() == (payload.len() % 256) as u8,
        payload.len() == frame.len() ==> padded(payload, frame) == payload,
{
    assert(padded(payload, frame).subrange(0, payload.len() as int) =~= payload);
}

} // verus!
