use vstd::prelude::*;
use crate::{Core, SyncModes};

verus! {

/// The smallest buffer, in frames, asked of a device that lets the size be chosen.
pub const MIN_BUFFER_FRAMES: u32 = 512;

/// The buffer size to ask of the audio device.
#[derive(PartialEq, Eq, Structural, Clone, Copy, Debug)]
pub enum BufferSize {
    /// This many frames.
    Fixed(u32),
    /// Whatever the device uses by default.
    Default,
}

/// The buffer size for a device whose smallest supported buffer is
/// `supported_min` frames, or `None` where the device gives no range.
pub fn choose_buffer_size(supported_min: Option<u32>) -> (r: BufferSize)
    ensures
        r == match supported_min {
            Some(m) => BufferSize::Fixed(if m >= MIN_BUFFER_FRAMES { m } else { MIN_BUFFER_FRAMES }),
            None => BufferSize::Default,
        },
{
    match supported_min {
        Some(m) => BufferSize::Fixed(if m >= MIN_BUFFER_FRAMES { m } else { MIN_BUFFER_FRAMES }),
        None => BufferSize::Default,
    }
}

/// `trace` is a run of instructions, one between each two states, in which
/// no sample waits until its last state, and one waits there.
pub open spec fn runs_to_first_sample<C: Core>(trace: Seq<C>) -> bool {
    &&& trace.len() >= 1
    &&& forall|k: int| 0 <= k < trace.len() - 1 ==> {
        &&& (#[trigger] trace[k]).sample_queue().len() == 0
        &&& trace[k].instruction_step(trace[k + 1])
    }
    &&& trace.last().sample_queue().len() > 0
}

/// `after` is `before` with the oldest waiting sample taken.
pub open spec fn sample_taken<C: Core>(before: C, after: C) -> bool {
    &&& after.sample_queue() == before.sample_queue().drop_first()
    &&& forall|j: int| after.key_state(j) == before.key_state(j)
}

/// Produces the next output sample from `core`, which the caller holds locked
/// for the whole call.
///
/// With `AudioCallback`, instructions run until a sample is waiting, and
/// exactly that one sample is taken and returned. With `VSync`, every waiting
/// sample is thrown away and `None`, silence, is returned.
pub fn produce_sample<C: Core>(core: &mut C, sync_mode: SyncModes) -> (r: Option<C::Sample>)
    ensures
        sync_mode == SyncModes::AudioCallback ==> exists|trace: Seq<C>|
            #[trigger] runs_to_first_sample(trace) && {
                &&& trace[0] == *old(core)
                &&& r == Some(trace.last().sample_queue()[0])
                &&& sample_taken(trace.last(), *final(core))
            },
        sync_mode == SyncModes::VSync ==> {
            &&& r.is_none()
            &&& final(core).sample_queue().len() == 0
            &&& forall|j: int| final(core).key_state(j) == old(core).key_state(j)
        },
{
    match sync_mode {
        SyncModes::AudioCallback => {
            let ghost mut trace: Seq<C> = seq![*core];
            while core.get_sample_queue_length() == 0
                invariant
                    trace.len() >= 1,
                    trace[0] == *old(core),
                    trace.last() == *core,
                    forall|k: int| 0 <= k < trace.len() - 1 ==> {
                        &&& (#[trigger] trace[k]).sample_queue().len() == 0
                        &&& trace[k].instruction_step(trace[k + 1])
                    },
                decreases
                    if core.sample_queue().len() == 0 { 1int } else { 0int },
                    core.instructions_to_sample(),
            {
                let ghost before = trace;
                core.run_inst();
                proof {
                    trace = trace.push(*core);
                    assert forall|k: int| 0 <= k < trace.len() - 1 implies {
                        &&& (#[trigger] trace[k]).sample_queue().len() == 0
                        &&& trace[k].instruction_step(trace[k + 1])
                    } by {
                        if k < before.len() - 1 {
                            assert(trace[k] == before[k]);
                            assert(trace[k + 1] == before[k + 1]);
                        }
                    };
                }
            }
            let s = core.get_sample();
            assert(runs_to_first_sample(trace));
            Some(s)
        },
        SyncModes::VSync => {
            while core.get_sample_queue_length() > 0
                invariant
                    forall|j: int| core.key_state(j) == old(core).key_state(j),
                decreases core.sample_queue().len(),
            {
                core.get_sample();
            }
            None
        },
    }
}

/// Tells `core` the output's sample rate and channel count.
pub fn configure_output<C: Core>(core: &mut C, sample_rate: u32, channels: usize)
    requires
        sample_rate > 0,
    ensures
        final(core).output_sample_rate() == sample_rate,
        final(core).output_channels() == channels,
{
    core.set_num_output_channels(channels);
    core.set_output_sample_rate(sample_rate);
}

} // verus!
