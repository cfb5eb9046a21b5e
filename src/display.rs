use vstd::prelude::*;
use crate::{Core, SyncModes};
use crate::keymap::{KeyCode, Keymap, KeyOverrideSet};

verus! {

/// What physical polling reports of one key during an input batch.
#[derive(PartialEq, Eq, Structural, Clone, Copy, Debug)]
pub struct KeyPoll {
    /// The key went down during this batch.
    pub just_pressed: bool,
    /// The key is being held down.
    pub held: bool,
}

/// A change of a logical key's pressed state, seen during one input batch.
#[derive(PartialEq, Eq, Structural, Clone, Copy, Debug)]
pub enum KeyEdge {
    Pressed(usize),
    Released(usize),
}

/// Whether logical key `i` is to be down: its physical key is forced down,
/// or polling saw it go down or held.
pub open spec fn key_wanted(
    overrides: Set<KeyCode>,
    keymap: Seq<KeyCode>,
    polls: Seq<KeyPoll>,
    i: int,
) -> bool {
    overrides.contains(keymap[i]) || polls[i].just_pressed || polls[i].held
}

/// The wanted state of every logical key.
pub open spec fn wanted_keys(overrides: Set<KeyCode>, keymap: Seq<KeyCode>, polls: Seq<KeyPoll>) -> Seq<bool> {
    Seq::new(keymap.len(), |i: int| key_wanted(overrides, keymap, polls, i))
}

/// The pressed state of the first `n` logical keys of `c`.
pub open spec fn key_states<C: Core>(c: C, n: nat) -> Seq<bool> {
    Seq::new(n, |i: int| c.key_state(i))
}

/// The edge, if any, of key `i` going from `before` to `after`.
pub open spec fn edge_of(before: bool, after: bool, i: int) -> Seq<KeyEdge> {
    if after && !before {
        seq![KeyEdge::Pressed(i as usize)]
    } else if before && !after {
        seq![KeyEdge::Released(i as usize)]
    } else {
        Seq::empty()
    }
}

/// The edges of the keys going from `before` to `after`, by ascending index.
pub open spec fn key_edges(before: Seq<bool>, after: Seq<bool>) -> Seq<KeyEdge>
    decreases before.len(),
{
    if before.len() == 0 {
        Seq::empty()
    } else {
        let last = before.len() - 1;
        key_edges(before.drop_last(), after.take(last)) + edge_of(before[last], after[last], last)
    }
}

/// The logical key index that an edge is about.
pub open spec fn edge_index(e: KeyEdge) -> int {
    match e {
        KeyEdge::Pressed(i) => i as int,
        KeyEdge::Released(i) => i as int,
    }
}

/// Over one input batch, a key that went from up to down is reported pressed
/// exactly once, a key that went from down to up is reported released exactly
/// once, and a key whose state did not change is not reported at all.
pub proof fn edges_match_transitions(before: Seq<bool>, after: Seq<bool>)
    requires
        before.len() == after.len(),
        before.len() <= usize::MAX,
    ensures
        key_edges(before, after).no_duplicates(),
        forall|k: int| 0 <= k < key_edges(before, after).len() ==>
            0 <= #[trigger] edge_index(key_edges(before, after)[k]) < before.len(),
        forall|i: int| 0 <= i < before.len() ==>
            (key_edges(before, after).contains(KeyEdge::Pressed(i as usize)) <==> !before[i] && after[i]),
        forall|i: int| 0 <= i < before.len() ==>
            (key_edges(before, after).contains(KeyEdge::Released(i as usize)) <==> before[i] && !after[i]),
    decreases before.len(),
{
    if before.len() > 0 {
        let last = before.len() - 1;
        let b = before.drop_last();
        let a = after.take(last);
        edges_match_transitions(b, a);
        let prefix = key_edges(b, a);
        let tail = edge_of(before[last], after[last], last);
        let all = key_edges(before, after);
        assert(all == prefix + tail);
        assert forall|k: int| 0 <= k < all.len() implies 0 <= #[trigger] edge_index(all[k]) < before.len() by {
            if k >= prefix.len() {
                assert(all[k] == tail[k - prefix.len()]);
            } else {
                assert(all[k] == prefix[k]);
            }
        };
        assert forall|j: int, k: int| 0 <= j < all.len() && 0 <= k < all.len() && j != k implies all[j] != all[k] by {
            if j < prefix.len() && k >= prefix.len() {
                assert(all[j] == prefix[j]);
                assert(edge_index(prefix[j]) < last);
                assert(all[k] == tail[k - prefix.len()]);
            } else if k < prefix.len() && j >= prefix.len() {
                assert(all[k] == prefix[k]);
                assert(edge_index(prefix[k]) < last);
                assert(all[j] == tail[j - prefix.len()]);
            } else if j < prefix.len() && k < prefix.len() {
                assert(all[j] == prefix[j]);
                assert(all[k] == prefix[k]);
            }
        };
        assert forall|e: KeyEdge| all.contains(e) <==> (prefix.contains(e) || tail.contains(e)) by {
            if all.contains(e) {
                let k = all.index_of(e);
                if k < prefix.len() {
                    assert(prefix[k] == e);
                } else {
                    assert(tail[k - prefix.len()] == e);
                }
            }
            if prefix.contains(e) {
                let k = prefix.index_of(e);
                assert(all[k] == e);
            }
            if tail.contains(e) {
                let k = tail.index_of(e);
                assert(all[k + prefix.len()] == e);
            }
        };
        assert forall|i: int| 0 <= i < before.len() implies
            (all.contains(KeyEdge::Pressed(i as usize)) <==> !before[i] && after[i])
            && (all.contains(KeyEdge::Released(i as usize)) <==> before[i] && !after[i]) by {
            if i < last {
                assert(b[i] == before[i]);
                assert(a[i] == after[i]);
                if tail.contains(KeyEdge::Pressed(i as usize)) {
                    assert(tail[0] == KeyEdge::Pressed(i as usize));
                }
                if tail.contains(KeyEdge::Released(i as usize)) {
                    assert(tail[0] == KeyEdge::Released(i as usize));
                }
            } else {
                if prefix.contains(KeyEdge::Pressed(i as usize)) {
                    let k = prefix.index_of(KeyEdge::Pressed(i as usize));
                    assert(edge_index(prefix[k]) < last);
                }
                if prefix.contains(KeyEdge::Released(i as usize)) {
                    let k = prefix.index_of(KeyEdge::Released(i as usize));
                    assert(edge_index(prefix[k]) < last);
                }
                if !before[i] && after[i] {
                    assert(tail[0] == KeyEdge::Pressed(i as usize));
                }
                if before[i] && !after[i] {
                    assert(tail[0] == KeyEdge::Released(i as usize));
                }
                if tail.contains(KeyEdge::Pressed(i as usize)) {
                    assert(tail[0] == KeyEdge::Pressed(i as usize));
                }
                if tail.contains(KeyEdge::Released(i as usize)) {
                    assert(tail[0] == KeyEdge::Released(i as usize));
                }
            }
        };
    }
}

/// The edges that an input batch reports are exactly the changes of the
/// core's key states over the batch: one `Pressed(i)` where key `i` went
/// down, one `Released(i)` where it went up, none where it stayed.
pub proof fn input_edges_match_key_changes<C: Core>(before: C, after: C, wanted: Seq<bool>)
    requires
        keys_applied(before, after, wanted),
        wanted.len() <= usize::MAX,
    ensures
        ({
            let edges = key_edges(key_states(before, wanted.len()), wanted);
            &&& edges.no_duplicates()
            &&& forall|k: int| 0 <= k < edges.len() ==> 0 <= #[trigger] edge_index(edges[k]) < wanted.len()
            &&& forall|i: int| 0 <= i < wanted.len() ==>
                (edges.contains(KeyEdge::Pressed(i as usize)) <==> !before.key_state(i) && after.key_state(i))
            &&& forall|i: int| 0 <= i < wanted.len() ==>
                (edges.contains(KeyEdge::Released(i as usize)) <==> before.key_state(i) && !after.key_state(i))
        }),
{
    let states = key_states(before, wanted.len());
    edges_match_transitions(states, wanted);
    let edges = key_edges(states, wanted);
    assert forall|i: int| 0 <= i < wanted.len() implies
        (edges.contains(KeyEdge::Pressed(i as usize)) <==> !before.key_state(i) && after.key_state(i))
        && (edges.contains(KeyEdge::Released(i as usize)) <==> before.key_state(i) && !after.key_state(i)) by {
        assert(states[i] == before.key_state(i));
        assert(wanted[i] == after.key_state(i));
        assert(edges.contains(KeyEdge::Pressed(i as usize)) <==> !states[i] && wanted[i]);
        assert(edges.contains(KeyEdge::Released(i as usize)) <==> states[i] && !wanted[i]);
    };
}

/// A logical key whose physical key has been forced down is wanted down,
/// whatever polling reports; once the forced press is lifted, a key that
/// polling sees neither go down nor held is wanted up.
pub proof fn override_precedence(overrides: Set<KeyCode>, keymap: Seq<KeyCode>, polls: Seq<KeyPoll>, i: int)
    requires
        0 <= i < keymap.len(),
        polls.len() == keymap.len(),
    ensures
        wanted_keys(overrides.insert(keymap[i]), keymap, polls)[i],
        !polls[i].just_pressed && !polls[i].held ==> !wanted_keys(overrides.remove(keymap[i]), keymap, polls)[i],
{
}

/// `after` is `before` with the first `wanted.len()` logical keys set as
/// `wanted` says, and nothing else changed that keys may change.
pub open spec fn keys_applied<C: Core>(before: C, after: C, wanted: Seq<bool>) -> bool {
    &&& forall|i: int| 0 <= i < wanted.len() ==> after.key_state(i) == wanted[i]
    &&& forall|i: int| !(0 <= i < wanted.len()) ==> after.key_state(i) == before.key_state(i)
    &&& after.sample_queue() == before.sample_queue()
}

/// The size of the display surface, in physical pixels.
#[derive(PartialEq, Eq, Structural, Clone, Copy, Debug)]
pub struct SurfaceSize {
    pub width: u32,
    pub height: u32,
}

/// What the display loop is told.
#[derive(PartialEq, Eq, Structural, Clone, Copy, Debug)]
pub enum LoopEvent {
    /// The platform asks for the screen to be drawn.
    RedrawRequested,
    /// The drawn frame was presented, or presenting it failed.
    Presented { ok: bool },
    /// A batch of input has been collected.
    InputBatch { close_requested: bool, exit_key_pressed: bool, resized: Option<SurfaceSize> },
    /// The surface was resized, or resizing it failed.
    SurfaceResized { ok: bool },
}

/// What the display loop does next.
#[derive(PartialEq, Eq, Structural, Clone, Copy, Debug)]
pub enum LoopAction {
    /// Draw the core's screen into the frame buffer and present it.
    Render,
    /// Resize the surface to this size.
    ResizeSurface(SurfaceSize),
    /// Apply the batch's key states to the core, then ask for a redraw.
    ApplyInput,
    /// Nothing more for this event.
    Wait,
    /// Leave the loop.
    Exit,
}

/// The loop's answer to each event.
pub open spec fn action_for(event: LoopEvent) -> LoopAction {
    match event {
        LoopEvent::RedrawRequested => LoopAction::Render,
        LoopEvent::Presented { ok } => if ok { LoopAction::Wait } else { LoopAction::Exit },
        LoopEvent::InputBatch { close_requested, exit_key_pressed, resized } =>
            if close_requested || exit_key_pressed {
                LoopAction::Exit
            } else {
                match resized {
                    Some(size) => LoopAction::ResizeSurface(size),
                    None => LoopAction::ApplyInput,
                }
            },
        LoopEvent::SurfaceResized { ok } => if ok { LoopAction::ApplyInput } else { LoopAction::Exit },
    }
}

/// Decides what the display loop does on `event`.
pub fn next_action(event: LoopEvent) -> (r: LoopAction)
    ensures
        r == action_for(event),
{
    match event {
        LoopEvent::RedrawRequested => LoopAction::Render,
        LoopEvent::Presented { ok } => if ok { LoopAction::Wait } else { LoopAction::Exit },
        LoopEvent::InputBatch { close_requested, exit_key_pressed, resized } => {
            if close_requested || exit_key_pressed {
                LoopAction::Exit
            } else {
                match resized {
                    Some(size) => LoopAction::ResizeSurface(size),
                    None => LoopAction::ApplyInput,
                }
            }
        },
        LoopEvent::SurfaceResized { ok } => if ok { LoopAction::ApplyInput } else { LoopAction::Exit },
    }
}

/// The display loop's settings: the core's screen size, the keymap and the
/// sync mode.
pub struct Display {
    pub width: usize,
    pub height: usize,
    pub keymap: Keymap,
    pub sync_mode: SyncModes,
}

impl Display {
    /// Settings for a loop that shows `core`, which the caller holds locked.
    pub fn new<C: Core>(core: &C, keymap: Keymap, sync_mode: SyncModes) -> (r: Display)
        ensures
            r.width == core.screen_width(),
            r.height == core.screen_height(),
            r.keymap@ == keymap@,
            r.sync_mode == sync_mode,
    {
        let width = core.get_width();
        let height = core.get_height();
        Display { width, height, keymap, sync_mode }
    }

    /// One input batch: sets each logical key down or up on `core`, which the
    /// caller holds locked, and returns the keys whose state changed. With
    /// `VSync`, one frame runs after all keys are set.
    pub fn apply_input<C: Core>(
        &self,
        core: &mut C,
        overrides: &KeyOverrideSet,
        polls: &Vec<KeyPoll>,
    ) -> (edges: Vec<KeyEdge>)
        requires
            polls@.len() == self.keymap@.len(),
        ensures
            ({
                let wanted = wanted_keys(overrides@, self.keymap@, polls@);
                &&& edges@ == key_edges(key_states(*old(core), wanted.len()), wanted)
                &&& self.sync_mode == SyncModes::AudioCallback ==> keys_applied(*old(core), *final(core), wanted)
                &&& self.sync_mode == SyncModes::VSync ==> exists|mid: C|
                    #[trigger] keys_applied(*old(core), mid, wanted) && mid.frame_step(*final(core))
            }),
    {
        let ghost wanted = wanted_keys(overrides@, self.keymap@, polls@);
        let ghost before = key_states(*old(core), wanted.len());
        let n = self.keymap.length();
        let mut edges: Vec<KeyEdge> = Vec::new();
        let mut i: usize = 0;
        while i < n
            invariant
                n == self.keymap@.len() == wanted.len() == polls@.len() == before.len(),
                wanted == wanted_keys(overrides@, self.keymap@, polls@),
                before == key_states(*old(core), wanted.len()),
                i <= n,
                forall|j: int| 0 <= j < i ==> core.key_state(j) == wanted[j],
                forall|j: int| !(0 <= j < i) ==> core.key_state(j) == old(core).key_state(j),
                core.sample_queue() == old(core).sample_queue(),
                edges@ == key_edges(before.take(i as int), wanted.take(i as int)),
            decreases n - i,
        {
            let was_pressed = core.get_key_pressed(i);
            let poll = polls[i];
            if overrides.contains(self.keymap.at(i)) || poll.just_pressed || poll.held {
                core.press_key(i);
            } else {
                core.release_key(i);
            }
            let is_pressed = core.get_key_pressed(i);
            proof {
                assert(before.take(i + 1).drop_last() =~= before.take(i as int));
                assert(wanted.take(i + 1).take(i as int) =~= wanted.take(i as int));
            }
            if is_pressed && !was_pressed {
                edges.push(KeyEdge::Pressed(i));
            } else if was_pressed && !is_pressed {
                edges.push(KeyEdge::Released(i));
            }
            i = i + 1;
        }
        proof {
            assert(before.take(n as int) =~= before);
            assert(wanted.take(n as int) =~= wanted);
        }
        if self.sync_mode == SyncModes::VSync {
            let ghost mid = *core;
            core.run_frame();
            assert(keys_applied(*old(core), mid, wanted));
        }
        edges
    }
}

} // verus!
