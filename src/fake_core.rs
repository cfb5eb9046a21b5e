use vstd::prelude::*;
use crate::Core;

verus! {

/// A stand-in machine for driving the frontend without a real emulator.
///
/// It produces one sample every `period` instructions and one on every
/// frame, numbering its samples from zero, and counts the instructions and
/// frames it has run. Its screen is blank.
pub struct FakeCore {
    width: usize,
    height: usize,
    keys: Vec<bool>,
    queue: Vec<u32>,
    period: u32,
    countdown: u32,
    next_value: u32,
    instructions: u64,
    frames: u64,
    sample_rate: u32,
    channels: usize,
}

/// `n + 1`, held at the largest value.
pub open spec fn bumped(n: u64) -> u64 {
    if n < u64::MAX { (n + 1) as u64 } else { n }
}

fn bump(n: u64) -> (r: u64)
    ensures
        r == bumped(n),
{
    if n < u64::MAX { n + 1 } else { n }
}

/// The value of the sample after one numbered `n`.
pub open spec fn next_number(n: u32) -> u32 {
    if n < u32::MAX { (n + 1) as u32 } else { 0 }
}

fn next_sample_number(n: u32) -> (r: u32)
    ensures
        r == next_number(n),
{
    if n < u32::MAX { n + 1 } else { 0 }
}

/// The period that a machine made with `period` counts down from.
pub open spec fn countdown_start(period: u32) -> u32 {
    if period == 0 { 1 } else { period }
}

impl FakeCore {
    /// The settings that no step changes.
    closed spec fn same_settings(&self, next: FakeCore) -> bool {
        &&& next.width == self.width
        &&& next.height == self.height
        &&& next.period == self.period
        &&& next.sample_rate == self.sample_rate
        &&& next.channels == self.channels
    }

    /// The number of instructions run so far, held at `u64::MAX`.
    pub closed spec fn instruction_count(&self) -> u64 {
        self.instructions
    }

    /// The number of frames run so far, held at `u64::MAX`.
    pub closed spec fn frame_count(&self) -> u64 {
        self.frames
    }

    /// A machine with a `width` by `height` screen, all keys up, no sample
    /// waiting, that produces a sample every `period` instructions (every
    /// instruction where `period` is zero).
    pub fn new(width: usize, height: usize, period: u32) -> (r: FakeCore)
        ensures
            r.screen_width() == width,
            r.screen_height() == height,
            r.sample_queue().len() == 0,
            forall|i: int| !r.key_state(i),
            r.instructions_to_sample() == countdown_start(period),
            r.instruction_count() == 0,
            r.frame_count() == 0,
    {
        FakeCore {
            width,
            height,
            keys: Vec::new(),
            queue: Vec::new(),
            period,
            countdown: if period == 0 { 1 } else { period },
            next_value: 0,
            instructions: 0,
            frames: 0,
            sample_rate: 0,
            channels: 0,
        }
    }

    /// The number of instructions run so far.
    pub fn instructions_run(&self) -> (r: u64)
        ensures
            r == self.instruction_count(),
    {
        self.instructions
    }

    /// The number of frames run so far.
    pub fn frames_run(&self) -> (r: u64)
        ensures
            r == self.frame_count(),
    {
        self.frames
    }

    /// The sample rate last set, zero before any.
    pub fn sample_rate(&self) -> (r: u32)
        ensures
            r == self.output_sample_rate(),
    {
        self.sample_rate
    }

    /// The channel count last set, zero before any.
    pub fn channels(&self) -> (r: usize)
        ensures
            r == self.output_channels(),
    {
        self.channels
    }
}

impl Core for FakeCore {
    type Sample = u32;

    closed spec fn sample_queue(&self) -> Seq<u32> {
        self.queue@
    }

    closed spec fn key_state(&self, key_index: int) -> bool {
        0 <= key_index < self.keys@.len() && self.keys@[key_index]
    }

    closed spec fn instruction_step(&self, next: FakeCore) -> bool {
        &&& self.same_settings(next)
        &&& next.keys@ == self.keys@
        &&& next.instructions == bumped(self.instructions)
        &&& next.frames == self.frames
        &&& if self.countdown <= 1 {
            &&& next.queue@ == self.queue@.push(self.next_value)
            &&& next.next_value == next_number(self.next_value)
            &&& next.countdown == countdown_start(self.period)
        } else {
            &&& next.queue@ == self.queue@
            &&& next.next_value == self.next_value
            &&& next.countdown == self.countdown - 1
        }
    }

    closed spec fn frame_step(&self, next: FakeCore) -> bool {
        &&& self.same_settings(next)
        &&& next.keys@ == self.keys@
        &&& next.instructions == self.instructions
        &&& next.frames == bumped(self.frames)
        &&& next.queue@ == self.queue@.push(self.next_value)
        &&& next.next_value == next_number(self.next_value)
        &&& next.countdown == self.countdown
    }

    closed spec fn instructions_to_sample(&self) -> nat {
        self.countdown as nat
    }

    closed spec fn screen_width(&self) -> nat {
        self.width as nat
    }

    closed spec fn screen_height(&self) -> nat {
        self.height as nat
    }

    closed spec fn output_sample_rate(&self) -> nat {
        self.sample_rate as nat
    }

    closed spec fn output_channels(&self) -> nat {
        self.channels as nat
    }

    fn get_width(&self) -> (r: usize) {
        self.width
    }

    fn get_height(&self) -> (r: usize) {
        self.height
    }

    fn get_sample_queue_length(&self) -> (r: usize) {
        self.queue.len()
    }

    fn get_key_pressed(&self, key_index: usize) -> (r: bool) {
        key_index < self.keys.len() && self.keys[key_index]
    }

    /// The screen is blank: the frame is left as it is.
    fn draw(&self, frame: &mut [u8]) {
    }

    fn set_output_sample_rate(&mut self, samples_per_second: u32) {
        self.sample_rate = samples_per_second;
    }

    fn set_num_output_channels(&mut self, value: usize) {
        self.channels = value;
    }

    fn press_key(&mut self, key_index: usize) {
        while self.keys.len() <= key_index
            invariant
                forall|j: int| self.key_state(j) == old(self).key_state(j),
                self.queue@ == old(self).queue@,
            decreases key_index + 1 - self.keys@.len(),
        {
            self.keys.push(false);
        }
        self.keys.set(key_index, true);
    }

    fn release_key(&mut self, key_index: usize) {
        if key_index < self.keys.len() {
            self.keys.set(key_index, false);
        }
    }

    fn run_inst(&mut self) {
        self.instructions = bump(self.instructions);
        if self.countdown <= 1 {
            self.queue.push(self.next_value);
            self.next_value = next_sample_number(self.next_value);
            self.countdown = if self.period == 0 { 1 } else { self.period };
        } else {
            self.countdown = self.countdown - 1;
        }
    }

    fn run_frame(&mut self) {
        self.frames = bump(self.frames);
        self.queue.push(self.next_value);
        self.next_value = next_sample_number(self.next_value);
    }

    fn get_sample(&mut self) -> (r: u32) {
        let r = self.queue.remove(0);
        assert(self.queue@ =~= old(self).queue@.drop_first());
        r
    }
}

} // verus!
