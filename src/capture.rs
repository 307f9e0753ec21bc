//! Capture-side logic that runs in the backend's callback: turning the buffers of one
//! delivery into an interleaved chunk and routing it to its source channel.
use vstd::prelude::*;

use crate::mixer::{ProcMsg, SampleChunk};

verus! {

/// Concatenation of all buffers, in order.
pub open spec fn concat_all(planes: Seq<Seq<i32>>) -> Seq<i32>
    decreases planes.len(),
{
    if planes.len() == 0 {
        Seq::empty()
    } else {
        concat_all(planes.drop_last()) + planes.last()
    }
}

/// Two planar channels interleaved frame by frame, as far as both reach.
pub open spec fn interleaved(left: Seq<i32>, right: Seq<i32>) -> Seq<i32> {
    let n = if left.len() <= right.len() {
        left.len()
    } else {
        right.len()
    };
    Seq::new(2 * n, |i: int| if i % 2 == 0 {
        left[i / 2]
    } else {
        right[i / 2]
    })
}

pub open spec fn planes_view(planes: Seq<Vec<i32>>) -> Seq<Seq<i32>> {
    planes.map_values(|p: Vec<i32>| p@)
}

/// The samples of one delivery: two buffers are the left and right planes of a stereo
/// signal and are interleaved; any other number of buffers is concatenated.
pub open spec fn delivery_samples(planes: Seq<Seq<i32>>) -> Seq<i32> {
    if planes.len() == 2 {
        interleaved(planes[0], planes[1])
    } else {
        concat_all(planes)
    }
}

/// The interleaved samples of one delivery, or `None` when it holds no sample.
pub fn extract_samples(planes: &Vec<Vec<i32>>) -> (r: Option<Vec<i32>>)
    ensures
        delivery_samples(planes_view(planes@)).len() == 0 ==> r is None,
        delivery_samples(planes_view(planes@)).len() > 0 ==> (r matches Some(v) && v@
            == delivery_samples(planes_view(planes@))),
{
    let ghost pv = planes_view(planes@);
    let mut out: Vec<i32> = Vec::new();
    if planes.len() == 2 {
        let left: &Vec<i32> = &planes[0];
        let right: &Vec<i32> = &planes[1];
        assert(pv[0] == left@ && pv[1] == right@);
        let n: usize = if left.len() <= right.len() {
            left.len()
        } else {
            right.len()
        };
        let mut i: usize = 0;
        while i < n
            invariant
                n <= left@.len(),
                n <= right@.len(),
                i <= n,
                out@ =~= interleaved(left@.take(i as int), right@.take(i as int)),
            decreases n - i,
        {
            out.push(left[i]);
            out.push(right[i]);
            i = i + 1;
            assert(out@ =~= interleaved(left@.take(i as int), right@.take(i as int)));
        }
        assert(interleaved(left@.take(n as int), right@.take(n as int)) =~= interleaved(left@, right@));
    } else {
        let mut k: usize = 0;
        while k < planes.len()
            invariant
                k <= planes@.len(),
                pv == planes_view(planes@),
                out@ == concat_all(pv.take(k as int)),
            decreases planes@.len() - k,
        {
            let p: &Vec<i32> = &planes[k];
            let mut j: usize = 0;
            let ghost before = out@;
            while j < p.len()
                invariant
                    j <= p@.len(),
                    out@ == before + p@.take(j as int),
                decreases p@.len() - j,
            {
                out.push(p[j]);
                j = j + 1;
                assert(out@ =~= before + p@.take(j as int));
            }
            assert(p@.take(j as int) =~= p@);
            assert(pv.take(k + 1).drop_last() =~= pv.take(k as int));
            assert(pv.take(k + 1).last() == p@);
            k = k + 1;
        }
        assert(pv.take(k as int) =~= pv);
    }
    if out.len() == 0 {
        None
    } else {
        Some(out)
    }
}

/// The kind of output a capture stream delivers.
pub enum OutputKind {
    /// What plays through the machine's output, as interleaved stereo.
    Audio,
    /// The microphone, as mono.
    Microphone,
    /// Anything else (video frames): not routed.
    Screen,
}

/// The message that a delivery of the given kind becomes on its source channel.
pub fn route_chunk(kind: OutputKind, samples: Vec<i32>) -> (r: Option<ProcMsg>)
    ensures
        kind is Audio ==> (r matches Some(ProcMsg::SystemAudio(c)) && c.samples@ == samples@
            && c.channel_count == 2),
        kind is Microphone ==> (r matches Some(ProcMsg::MicrophoneAudio(c)) && c.samples@
            == samples@ && c.channel_count == 1),
        kind is Screen ==> r is None,
{
    match kind {
        OutputKind::Audio => Some(ProcMsg::SystemAudio(SampleChunk { samples, channel_count: 2 })),
        OutputKind::Microphone => Some(
            ProcMsg::MicrophoneAudio(SampleChunk { samples, channel_count: 1 }),
        ),
        OutputKind::Screen => None,
    }
}

} // verus!
