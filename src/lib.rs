use vstd::prelude::*;

pub mod audio;
pub mod display;
pub mod fake_core;
pub mod keymap;
pub mod rom;

verus! {

/// Which context has the right to advance emulation.
#[derive(PartialEq, Eq, Structural, Clone, Copy, Debug)]
pub enum SyncModes {
    /// One rendered frame is one emulated frame; audio is silent.
    VSync,
    /// Instructions run whenever the audio device needs another sample.
    AudioCallback,
}

impl Default for SyncModes {
    fn default() -> (r: SyncModes)
        ensures
            r == SyncModes::AudioCallback,
    {
        SyncModes::AudioCallback
    }
}

/// The emulated machine that this frontend drives.
///
/// Its state is seen through a few spec functions: the queue of samples it
/// has produced and not yet handed out, the pressed state of each logical key,
/// and which states one instruction or one frame may lead to.
pub trait Core: Sized + Send + 'static {
    /// One audio sample as the machine produces it.
    type Sample;

    /// The samples waiting to be taken, oldest first.
    spec fn sample_queue(&self) -> Seq<Self::Sample>;

    /// Whether logical key `key_index` is down.
    spec fn key_state(&self, key_index: int) -> bool;

    /// Whether one instruction may take the machine from `self` to `next`.
    spec fn instruction_step(&self, next: Self) -> bool;

    /// Whether one frame may take the machine from `self` to `next`.
    spec fn frame_step(&self, next: Self) -> bool;

    /// While no sample is waiting: a bound on the instructions that remain
    /// before one is.
    spec fn instructions_to_sample(&self) -> nat;

    /// Width of the screen, in pixels.
    spec fn screen_width(&self) -> nat;

    /// Height of the screen, in pixels.
    spec fn screen_height(&self) -> nat;

    /// The sample rate of the output, in samples per second.
    spec fn output_sample_rate(&self) -> nat;

    /// The number of output channels.
    spec fn output_channels(&self) -> nat;

    fn get_width(&self) -> (r: usize)
        ensures
            r == self.screen_width(),
    ;

    fn get_height(&self) -> (r: usize)
        ensures
            r == self.screen_height(),
    ;

    fn get_sample_queue_length(&self) -> (r: usize)
        ensures
            r == self.sample_queue().len(),
    ;

    fn get_key_pressed(&self, key_index: usize) -> (r: bool)
        ensures
            r == self.key_state(key_index as int),
    ;

    /// Writes the screen into `frame`, four bytes for each pixel.
    fn draw(&self, frame: &mut [u8]);

    /// Sets the output timing: one sample every `1 / samples_per_second` seconds.
    fn set_output_sample_rate(&mut self, samples_per_second: u32)
        requires
            samples_per_second > 0,
        ensures
            final(self).output_sample_rate() == samples_per_second,
            final(self).output_channels() == old(self).output_channels(),
    ;

    fn set_num_output_channels(&mut self, value: usize)
        ensures
            final(self).output_channels() == value,
            final(self).output_sample_rate() == old(self).output_sample_rate(),
    ;

    fn press_key(&mut self, key_index: usize)
        ensures
            final(self).key_state(key_index as int),
            forall|j: int| j != key_index ==> final(self).key_state(j) == old(self).key_state(j),
            final(self).sample_queue() == old(self).sample_queue(),
    ;

    fn release_key(&mut self, key_index: usize)
        ensures
            !final(self).key_state(key_index as int),
            forall|j: int| j != key_index ==> final(self).key_state(j) == old(self).key_state(j),
            final(self).sample_queue() == old(self).sample_queue(),
    ;

    /// Runs one instruction. With no sample waiting, this either makes one
    /// wait or brings the next one strictly closer.
    fn run_inst(&mut self)
        ensures
            old(self).instruction_step(*final(self)),
            old(self).sample_queue().len() == 0 ==> final(self).sample_queue().len() > 0
                || final(self).instructions_to_sample() < old(self).instructions_to_sample(),
    ;

    /// Runs one frame.
    fn run_frame(&mut self)
        ensures
            old(self).frame_step(*final(self)),
    ;

    /// Takes the oldest waiting sample.
    fn get_sample(&mut self) -> (r: Self::Sample)
        requires
            old(self).sample_queue().len() > 0,
        ensures
            r == old(self).sample_queue()[0],
            final(self).sample_queue() == old(self).sample_queue().drop_first(),
            forall|j: int| final(self).key_state(j) == old(self).key_state(j),
    ;
}

} // verus!
