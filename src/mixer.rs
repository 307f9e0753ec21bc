//! The mixer: two per-source sample queues paired by position into one mono stream.
use vstd::prelude::*;

use crate::normalize::{div_trunc, mono_of, to_mono};

verus! {

/// Sample value that stands for full scale (logical 1.0); output is clamped to +/- this value.
pub const FULL_SCALE: i32 = 32767;

/// One delivery event from a capture backend: interleaved samples and their channel count.
pub struct SampleChunk {
    pub samples: Vec<i32>,
    pub channel_count: usize,
}

/// A message on one of the two source channels.
pub enum ProcMsg {
    SystemAudio(SampleChunk),
    MicrophoneAudio(SampleChunk),
    Stop,
}

/// What the caller of `Mixer::step` does next.
pub enum MixAction {
    /// Write these samples to the sink.
    Emit(Vec<i16>),
    /// Exactly one source has unpaired samples: wait briefly for the other one.
    WaitShort,
    /// Nothing is buffered: wait for new data.
    WaitLong,
    /// Write these samples, finalize the sink and report completion.
    Finish(Vec<i16>),
}

/// Mathematical form of a `MixAction`.
pub enum ActionView {
    Emit(Seq<i16>),
    WaitShort,
    WaitLong,
    Finish(Seq<i16>),
}

impl View for MixAction {
    type V = ActionView;

    open spec fn view(&self) -> ActionView {
        match self {
            MixAction::Emit(v) => ActionView::Emit(v@),
            MixAction::WaitShort => ActionView::WaitShort,
            MixAction::WaitLong => ActionView::WaitLong,
            MixAction::Finish(v) => ActionView::Finish(v@),
        }
    }
}

/// Clamps a value to the full-scale range.
pub open spec fn clamp_full(x: int) -> int {
    if x > FULL_SCALE {
        FULL_SCALE as int
    } else if x < -FULL_SCALE {
        -FULL_SCALE
    } else {
        x
    }
}

/// One output sample: the mean of a system sample and a microphone sample, clamped.
pub open spec fn mix_pair(s: i32, m: i32) -> i16 {
    clamp_full(div_trunc(s + m, 2)) as i16
}

/// Sample `i` of `s`, or silence past its end.
pub open spec fn sample_or_silence(s: Seq<i32>, i: int) -> i32 {
    if 0 <= i < s.len() {
        s[i]
    } else {
        0
    }
}

/// Positional pairing of the two streams, as far as both reach.
pub open spec fn paired(sys: Seq<i32>, mic: Seq<i32>) -> Seq<i16> {
    Seq::new(
        if sys.len() <= mic.len() {
            sys.len()
        } else {
            mic.len()
        },
        |i: int| mix_pair(sys[i], mic[i]),
    )
}

/// Pairing of the two streams with the shorter one padded with silence.
pub open spec fn padded(sys: Seq<i32>, mic: Seq<i32>) -> Seq<i16> {
    Seq::new(
        if sys.len() >= mic.len() {
            sys.len()
        } else {
            mic.len()
        },
        |i: int| mix_pair(sample_or_silence(sys, i), sample_or_silence(mic, i)),
    )
}

/// The mono samples that a polled message adds to the system-audio stream.
pub open spec fn system_part(m: Option<ProcMsg>) -> Seq<i32> {
    match m {
        Some(ProcMsg::SystemAudio(c)) => if c.channel_count > 0 {
            mono_of(c.samples@, c.channel_count as nat)
        } else {
            Seq::empty()
        },
        _ => Seq::empty(),
    }
}

/// The mono samples that a polled message adds to the microphone stream.
pub open spec fn microphone_part(m: Option<ProcMsg>) -> Seq<i32> {
    match m {
        Some(ProcMsg::MicrophoneAudio(c)) => if c.channel_count > 0 {
            mono_of(c.samples@, c.channel_count as nat)
        } else {
            Seq::empty()
        },
        _ => Seq::empty(),
    }
}

pub open spec fn is_stop(m: Option<ProcMsg>) -> bool {
    m matches Some(ProcMsg::Stop)
}

/// The mixer's history: every mono sample delivered per source, every sample emitted,
/// and whether the final drain has happened.
pub struct MixerView {
    pub system: Seq<i32>,
    pub microphone: Seq<i32>,
    pub emitted: Seq<i16>,
    pub finished: bool,
}

/// The initial history.
pub open spec fn fresh_view() -> MixerView {
    MixerView { system: Seq::empty(), microphone: Seq::empty(), emitted: Seq::empty(), finished: false }
}

/// One iteration of the mixing loop on the history: take one poll result from each channel,
/// then pair what both sources have, or drain everything once a `Stop` has been seen.
#[verifier::opaque]
pub open spec fn step_view(v: MixerView, sys_poll: Option<ProcMsg>, mic_poll: Option<ProcMsg>) -> (
    MixerView,
    ActionView,
) {
    let system = v.system + system_part(sys_poll) + system_part(mic_poll);
    let microphone = v.microphone + microphone_part(sys_poll) + microphone_part(mic_poll);
    if is_stop(sys_poll) || is_stop(mic_poll) {
        let all = padded(system, microphone);
        (
            MixerView { system, microphone, emitted: all, finished: true },
            ActionView::Finish(all.skip(v.emitted.len() as int)),
        )
    } else {
        let p = paired(system, microphone);
        let fresh = p.skip(v.emitted.len() as int);
        (
            MixerView { system, microphone, emitted: p, finished: false },
            if fresh.len() > 0 {
                ActionView::Emit(fresh)
            } else if system.len() != microphone.len() {
                ActionView::WaitShort
            } else {
                ActionView::WaitLong
            },
        )
    }
}

/// Mixes one system sample with one microphone sample.
pub fn mix_sample(s: i32, m: i32) -> (r: i16)
    ensures
        r == mix_pair(s, m),
{
    let sum: i64 = s as i64 + m as i64;
    let half: i64 = if sum >= 0 {
        sum / 2
    } else {
        -((-sum) / 2)
    };
    let full: i64 = FULL_SCALE as i64;
    let clamped: i64 = if half > full {
        full
    } else if half < -full {
        -full
    } else {
        half
    };
    clamped as i16
}

/// The mixing state of one recording session.
pub struct Mixer {
    sys_buf: Vec<i32>,
    mic_buf: Vec<i32>,
    finished: bool,
    system: Ghost<Seq<i32>>,
    microphone: Ghost<Seq<i32>>,
    emitted: Ghost<Seq<i16>>,
}

impl View for Mixer {
    type V = MixerView;

    closed spec fn view(&self) -> MixerView {
        MixerView {
            system: self.system@,
            microphone: self.microphone@,
            emitted: self.emitted@,
            finished: self.finished,
        }
    }
}

impl Mixer {
    /// The queues hold exactly the delivered samples that are not yet emitted, and what was
    /// emitted is the pairing of the two streams so far.
    pub closed spec fn wf(&self) -> bool {
        let e = self.emitted@.len();
        &&& self.emitted@ =~= padded(self.system@, self.microphone@).take(e as int)
        &&& if self.finished {
            &&& e == padded(self.system@, self.microphone@).len()
            &&& self.sys_buf@.len() == 0
            &&& self.mic_buf@.len() == 0
        } else {
            &&& e <= self.system@.len()
            &&& e <= self.microphone@.len()
            &&& self.sys_buf@ =~= self.system@.skip(e as int)
            &&& self.mic_buf@ =~= self.microphone@.skip(e as int)
        }
    }

    /// A mixer with empty queues that has not been stopped.
    pub fn new() -> (r: Mixer)
        ensures
            r.wf(),
            r@ == fresh_view(),
    {
        Mixer {
            sys_buf: Vec::new(),
            mic_buf: Vec::new(),
            finished: false,
            system: Ghost(Seq::empty()),
            microphone: Ghost(Seq::empty()),
            emitted: Ghost(Seq::empty()),
        }
    }

    /// Takes one poll result from a source channel: a chunk of either source is normalized
    /// and queued; a chunk with no channels is dropped; `Stop` is reported to the caller.
    fn receive(&mut self, m: &Option<ProcMsg>) -> (stop: bool)
        requires
            old(self).wf(),
            !old(self)@.finished,
        ensures
            final(self).wf(),
            !final(self)@.finished,
            final(self)@.system == old(self)@.system + system_part(*m),
            final(self)@.microphone == old(self)@.microphone + microphone_part(*m),
            final(self)@.emitted == old(self)@.emitted,
            stop == is_stop(*m),
    {
        let ghost e = self.emitted@.len() as int;
        match m {
            Some(ProcMsg::SystemAudio(c)) => {
                match to_mono(&c.samples, c.channel_count) {
                    Some(mut mono) => {
                        let ghost part = mono@;
                        self.sys_buf.append(&mut mono);
                        self.system = Ghost(self.system@ + part);
                        assert(self.sys_buf@ =~= self.system@.skip(e));
                    },
                    None => {},
                }
                assert(self.system@ =~= old(self)@.system + system_part(*m));
                assert(self.microphone@ =~= old(self)@.microphone + microphone_part(*m));
                false
            },
            Some(ProcMsg::MicrophoneAudio(c)) => {
                match to_mono(&c.samples, c.channel_count) {
                    Some(mut mono) => {
                        let ghost part = mono@;
                        self.mic_buf.append(&mut mono);
                        self.microphone = Ghost(self.microphone@ + part);
                        assert(self.mic_buf@ =~= self.microphone@.skip(e));
                    },
                    None => {},
                }
                assert(self.system@ =~= old(self)@.system + system_part(*m));
                assert(self.microphone@ =~= old(self)@.microphone + microphone_part(*m));
                false
            },
            Some(ProcMsg::Stop) => {
                assert(self.system@ =~= old(self)@.system + system_part(*m));
                assert(self.microphone@ =~= old(self)@.microphone + microphone_part(*m));
                true
            },
            None => {
                assert(self.system@ =~= old(self)@.system + system_part(*m));
                assert(self.microphone@ =~= old(self)@.microphone + microphone_part(*m));
                false
            },
        }
    }

    /// Emits every position that both queues can fill and removes those samples from the
    /// front of both queues.
    fn mix_available(&mut self) -> (r: Vec<i16>)
        requires
            old(self).wf(),
            !old(self)@.finished,
        ensures
            final(self).wf(),
            !final(self)@.finished,
            final(self)@.system == old(self)@.system,
            final(self)@.microphone == old(self)@.microphone,
            final(self)@.emitted == paired(old(self)@.system, old(self)@.microphone),
            r@ == paired(old(self)@.system, old(self)@.microphone).skip(old(self)@.emitted.len() as int),
    {
        let ghost e = self.emitted@.len() as int;
        let ghost sys = self.system@;
        let ghost mic = self.microphone@;
        let n: usize = if self.sys_buf.len() <= self.mic_buf.len() {
            self.sys_buf.len()
        } else {
            self.mic_buf.len()
        };
        let mut out: Vec<i16> = Vec::with_capacity(n);
        let mut i: usize = 0;
        while i < n
            invariant
                n <= self.sys_buf@.len(),
                n <= self.mic_buf@.len(),
                i <= n,
                out@.len() == i,
                forall|j: int|
                    0 <= j < i ==> #[trigger] out@[j] == mix_pair(self.sys_buf@[j], self.mic_buf@[j]),
            decreases n - i,
        {
            out.push(mix_sample(self.sys_buf[i], self.mic_buf[i]));
            i = i + 1;
        }
        let rest_sys = self.sys_buf.split_off(n);
        let rest_mic = self.mic_buf.split_off(n);
        self.sys_buf = rest_sys;
        self.mic_buf = rest_mic;
        let ghost p = paired(sys, mic);
        assert(out@ =~= p.skip(e));
        self.emitted = Ghost(p);
        assert(p =~= padded(sys, mic).take(p.len() as int));
        assert(self.sys_buf@ =~= sys.skip(p.len() as int));
        assert(self.mic_buf@ =~= mic.skip(p.len() as int));
        out
    }

    /// Final drain: emits everything still queued, padding the shorter queue with silence,
    /// and leaves both queues empty.
    fn drain(&mut self) -> (r: Vec<i16>)
        requires
            old(self).wf(),
            !old(self)@.finished,
        ensures
            final(self).wf(),
            final(self)@.finished,
            final(self)@.system == old(self)@.system,
            final(self)@.microphone == old(self)@.microphone,
            final(self)@.emitted == padded(old(self)@.system, old(self)@.microphone),
            r@ == padded(old(self)@.system, old(self)@.microphone).skip(old(self)@.emitted.len() as int),
    {
        let ghost e = self.emitted@.len() as int;
        let ghost sys = self.system@;
        let ghost mic = self.microphone@;
        let n: usize = if self.sys_buf.len() >= self.mic_buf.len() {
            self.sys_buf.len()
        } else {
            self.mic_buf.len()
        };
        let mut out: Vec<i16> = Vec::with_capacity(n);
        let mut i: usize = 0;
        while i < n
            invariant
                n == if self.sys_buf@.len() >= self.mic_buf@.len() {
                    self.sys_buf@.len()
                } else {
                    self.mic_buf@.len()
                },
                i <= n,
                out@.len() == i,
                forall|j: int|
                    0 <= j < i ==> #[trigger] out@[j] == mix_pair(
                        sample_or_silence(self.sys_buf@, j),
                        sample_or_silence(self.mic_buf@, j),
                    ),
            decreases n - i,
        {
            let s: i32 = if i < self.sys_buf.len() {
                self.sys_buf[i]
            } else {
                0
            };
            let m: i32 = if i < self.mic_buf.len() {
                self.mic_buf[i]
            } else {
                0
            };
            out.push(mix_sample(s, m));
            i = i + 1;
        }
        self.sys_buf.clear();
        self.mic_buf.clear();
        self.finished = true;
        let ghost all = padded(sys, mic);
        assert forall|j: int| 0 <= j < n implies sample_or_silence(old(self).sys_buf@, j)
            == sample_or_silence(sys, j + e) && sample_or_silence(old(self).mic_buf@, j)
            == sample_or_silence(mic, j + e) by {}
        assert(out@ =~= all.skip(e));
        self.emitted = Ghost(all);
        assert(all =~= all.take(all.len() as int));
        out
    }

    /// One iteration of the mixing loop: receive one poll result from the system channel and
    /// one from the microphone channel (`None` when a channel had nothing), then pair what is
    /// available, or, when either carried `Stop`, drain and finish.
    pub fn step(&mut self, sys_poll: Option<ProcMsg>, mic_poll: Option<ProcMsg>) -> (r: MixAction)
        requires
            old(self).wf(),
            !old(self)@.finished,
        ensures
            final(self).wf(),
            (final(self)@, r@) == step_view(old(self)@, sys_poll, mic_poll),
    {
        proof {
            reveal(step_view);
        }
        let stop_sys = self.receive(&sys_poll);
        let stop_mic = self.receive(&mic_poll);
        if stop_sys || stop_mic {
            let out = self.drain();
            MixAction::Finish(out)
        } else {
            let out = self.mix_available();
            if out.len() > 0 {
                MixAction::Emit(out)
            } else if self.sys_buf.len() > 0 || self.mic_buf.len() > 0 {
                MixAction::WaitShort
            } else {
                MixAction::WaitLong
            }
        }
    }

    /// Number of system samples waiting for a partner.
    pub fn pending_system(&self) -> (r: usize)
        requires
            self.wf(),
        ensures
            !self@.finished ==> r == self@.system.len() - self@.emitted.len(),
            self@.finished ==> r == 0,
    {
        self.sys_buf.len()
    }

    /// Number of microphone samples waiting for a partner.
    pub fn pending_microphone(&self) -> (r: usize)
        requires
            self.wf(),
        ensures
            !self@.finished ==> r == self@.microphone.len() - self@.emitted.len(),
            self@.finished ==> r == 0,
    {
        self.mic_buf.len()
    }
}

} // verus!
