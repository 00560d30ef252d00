//! 16-bit little-endian PCM: samples as bytes and back.

use vstd::prelude::*;

verus! {

/// The 16-bit pattern of a sample, read as an unsigned number.
pub open spec fn pattern(s: i16) -> int {
    if s < 0 {
        s + 0x1_0000
    } else {
        s as int
    }
}

/// The sample whose bytes are `lo` and `hi`.
pub open spec fn sample(lo: u8, hi: u8) -> i16 {
    let u = lo + 0x100 * hi;
    if u >= 0x8000 {
        (u - 0x1_0000) as i16
    } else {
        u as i16
    }
}

/// The bytes of `samples`, two for each, the low one first.
pub open spec fn pcm_bytes(samples: Seq<i16>) -> Seq<u8> {
    Seq::new(
        2 * samples.len(),
        |i: int|
            if i % 2 == 0 {
                (pattern(samples[i / 2]) % 0x100) as u8
            } else {
                (pattern(samples[i / 2]) / 0x100) as u8
            },
    )
}

/// The samples that `bytes` hold, two bytes for each, the low one first.
pub open spec fn pcm_samples(bytes: Seq<u8>) -> Seq<i16> {
    Seq::new(bytes.len() / 2, |i: int| sample(bytes[2 * i], bytes[2 * i + 1]))
}

/// Samples or an error text, by their views.
pub open spec fn pcm_result(r: Result<Vec<i16>, String>) -> Result<Seq<i16>, Seq<char>> {
    match r {
        Ok(s) => Ok(s@),
        Err(e) => Err(e@),
    }
}

/// Samples are read back from their bytes as they were.
pub proof fn law_samples_survive_bytes(samples: Seq<i16>)
    ensures
        pcm_bytes(samples).len() == 2 * samples.len(),
        pcm_samples(pcm_bytes(samples)) == samples,
{
    let b = pcm_bytes(samples);
    assert forall|i: int| 0 <= i < samples.len() implies pcm_samples(b)[i] == samples[i] by {
        assert((2 * i) / 2 == i && (2 * i + 1) / 2 == i);
        assert((2 * i) % 2 == 0 && (2 * i + 1) % 2 == 1);
    }
    assert(pcm_samples(b) =~= samples);
}

/// An even number of bytes is read back from the samples as it was.
pub proof fn law_bytes_survive_samples(bytes: Seq<u8>)
    requires
        bytes.len() % 2 == 0,
    ensures
        pcm_bytes(pcm_samples(bytes)) == bytes,
{
    let s = pcm_samples(bytes);
    assert forall|i: int| 0 <= i < bytes.len() implies pcm_bytes(s)[i] == bytes[i] by {
        let k = i / 2;
        assert(i == 2 * k || i == 2 * k + 1);
        let u = bytes[2 * k] + 0x100 * bytes[2 * k + 1];
        assert(pattern(s[k]) == u);
    }
    assert(pcm_bytes(s) =~= bytes);
}

/// The bytes of `samples`.
pub fn samples_to_bytes(samples: &[i16]) -> (r: Vec<u8>)
    requires
        2 * samples@.len() <= usize::MAX,
    ensures
        r@ == pcm_bytes(samples@),
{
    let mut out: Vec<u8> = Vec::new();
    let mut i: usize = 0;
    while i < samples.len()
        invariant
            i <= samples.len(),
            out@.len() == 2 * i,
            forall|j: int| 0 <= j < 2 * i ==> #[trigger] out@[j] == pcm_bytes(samples@)[j],
        decreases samples.len() - i,
    {
        let s: i32 = samples[i] as i32;
        let u: i32 = if s < 0 {
            s + 0x1_0000
        } else {
            s
        };
        out.push((u % 0x100) as u8);
        out.push((u / 0x100) as u8);
        i = i + 1;
    }
    assert(out@ =~= pcm_bytes(samples@));
    out
}

/// The samples that `bytes` hold; an odd last byte is left out.
pub fn bytes_to_samples(bytes: &[u8]) -> (r: Vec<i16>)
    ensures
        r@ == pcm_samples(bytes@),
{
    let mut out: Vec<i16> = Vec::new();
    let n: usize = bytes.len() / 2;
    let mut i: usize = 0;
    while i < n
        invariant
            n == bytes@.len() / 2,
            bytes@.len() <= usize::MAX,
            i <= n,
            out@ == pcm_samples(bytes@).take(i as int),
        decreases n - i,
    {
        let u: i32 = bytes[2 * i] as i32 + 0x100 * (bytes[2 * i + 1] as i32);
        let s: i16 = if u >= 0x8000 {
            (u - 0x1_0000) as i16
        } else {
            u as i16
        };
        out.push(s);
        i = i + 1;
        assert(out@ =~= pcm_samples(bytes@).take(i as int));
    }
    assert(pcm_samples(bytes@).take(n as int) =~= pcm_samples(bytes@));
    out
}

/// Each sample is two bytes, the low one first: together they are the sample, or,
/// where it is negative, the sample and 65536.
pub proof fn law_low_byte_comes_first(samples: Seq<i16>, bytes: Seq<u8>, i: int)
    ensures
        0 <= i < samples.len() ==> pcm_bytes(samples)[2 * i] + 256 * pcm_bytes(samples)[2 * i + 1]
            == if samples[i] < 0 {
            samples[i] + 65_536
        } else {
            samples[i] as int
        },
        pcm_samples(bytes).len() == bytes.len() / 2,
        0 <= i && 2 * i + 1 < bytes.len() ==> bytes[2 * i] + 256 * bytes[2 * i + 1] == if pcm_samples(
            bytes,
        )[i] < 0 {
            pcm_samples(bytes)[i] + 65_536
        } else {
            pcm_samples(bytes)[i] as int
        },
{
    assert((2 * i) / 2 == i && (2 * i + 1) / 2 == i);
    assert((2 * i) % 2 == 0 && (2 * i + 1) % 2 == 1);
}

/// Samples that may be an error are modelled by what they hold.
pub proof fn law_model_is_what_is_held(result: Result<Vec<i16>, String>)
    ensures
        result matches Ok(s) ==> pcm_result(result) == Ok::<Seq<i16>, Seq<char>>(s@),
        result matches Err(e) ==> pcm_result(result) == Err::<Seq<i16>, Seq<char>>(e@),
{
}

} // verus!
