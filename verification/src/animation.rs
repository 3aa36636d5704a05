//! The animation library: a plain configuration record mapping animation
//! names to frame sequences, plus the playback cursor.
//!
//! Frames are indices into a sprite sheet.  The playback layer owns the
//! clock; this type owns which animation is current, which frame is next
//! and how long a frame lasts, and advances deterministically:
//! `advance_frame` hands out the current frame's sheet index and steps the
//! cursor, wrapping at the end of the sequence.

use vstd::prelude::*;

verus! {

/// Frame duration, in milliseconds, that a fresh library starts with.
pub const DEFAULT_FRAME_MILLIS: u64 = 200;

/// Whether some entry carries this animation name.
pub open spec fn spec_seq_has(entries: Seq<(String, Vec<usize>)>, name: Seq<char>) -> bool {
    exists|i: int| 0 <= i < entries.len() && entries[i].0@ == name
}

/// The frame sequence of the entry carrying this name (meaningful only
/// when such an entry exists).
pub open spec fn spec_seq_frames(entries: Seq<(String, Vec<usize>)>, name: Seq<char>) -> Seq<
    usize,
> {
    entries[choose|i: int| 0 <= i < entries.len() && entries[i].0@ == name].1@
}

/// Named frame sequences with a current animation, current frame and frame
/// duration.
pub struct AnimationLibrary {
    animations: Vec<(String, Vec<usize>)>,
    current_animation: String,
    current_frame: usize,
    frame_millis: u64,
}

impl AnimationLibrary {
    /// The name-to-frames entries, in insertion order.
    pub closed spec fn spec_entries(self) -> Seq<(String, Vec<usize>)> {
        self.animations@
    }

    /// The current animation's name.
    pub closed spec fn spec_current(self) -> Seq<char> {
        self.current_animation@
    }

    /// The current frame cursor, relative to the current animation.
    pub closed spec fn spec_frame(self) -> int {
        self.current_frame as int
    }

    /// The frame duration in milliseconds.
    pub closed spec fn spec_frame_millis(self) -> int {
        self.frame_millis as int
    }

    /// Whether an animation of this name exists.
    pub open spec fn spec_has(self, name: Seq<char>) -> bool {
        spec_seq_has(self.spec_entries(), name)
    }

    /// The frame sequence registered under a name (meaningful only when
    /// `spec_has(name)`).
    pub open spec fn spec_frames(self, name: Seq<char>) -> Seq<usize> {
        spec_seq_frames(self.spec_entries(), name)
    }

    /// Animation names are unique.
    pub open spec fn wf(self) -> bool {
        forall|i: int, j: int|
            0 <= i < j < self.spec_entries().len() ==> self.spec_entries()[i].0@
                != self.spec_entries()[j].0@
    }

    /// A fresh library: a one-frame `idle` animation, current, at frame 0,
    /// with the default frame duration.
    pub fn new() -> (r: AnimationLibrary)
        ensures
            r.wf(),
            r.spec_has("idle"@),
            r.spec_frames("idle"@) == seq![0usize],
            r.spec_current() == "idle"@,
            r.spec_frame() == 0,
            r.spec_frame_millis() == DEFAULT_FRAME_MILLIS,
    {
        let mut animations: Vec<(String, Vec<usize>)> = Vec::new();
        let mut idle_frames: Vec<usize> = Vec::new();
        idle_frames.push(0);
        animations.push((String::from_str("idle"), idle_frames));
        let r = AnimationLibrary {
            animations,
            current_animation: String::from_str("idle"),
            current_frame: 0,
            frame_millis: DEFAULT_FRAME_MILLIS,
        };
        proof {
            assert(r.spec_entries()[0].0@ == "idle"@);
            assert(r.spec_frames("idle"@) =~= seq![0usize]);
        }
        r
    }

    /// Looks an animation up by name.
    pub fn lookup(&self, name: &String) -> (r: Option<&Vec<usize>>)
        requires
            self.wf(),
        ensures
            match r {
                Some(f) => self.spec_has(name@) && f@ == self.spec_frames(name@),
                None => !self.spec_has(name@),
            },
    {
        let mut i: usize = 0;
        while i < self.animations.len()
            invariant
                self.wf(),
                0 <= i <= self.spec_entries().len(),
                forall|k: int| 0 <= k < i ==> self.spec_entries()[k].0@ != name@,
            decreases self.animations.len() - i,
        {
            if self.animations[i].0.eq(name) {
                proof {
                    assert(self.spec_entries()[i as int].0@ == name@);
                    let j = choose|j: int|
                        0 <= j < self.spec_entries().len() && self.spec_entries()[j].0@ == name@;
                    assert(j == i as int);
                }
                return Some(&self.animations[i].1);
            }
            i += 1;
        }
        None
    }

    /// Registers or replaces the frame sequence under a name; every other
    /// entry keeps its frames.
    #[verifier::loop_isolation(false)]
    pub fn insert_animation(&mut self, name: String, frames: Vec<usize>)
        requires
            old(self).wf(),
        ensures
            final(self).wf(),
            final(self).spec_has(name@),
            final(self).spec_frames(name@) == frames@,
            forall|n: Seq<char>|
                n != name@ ==> #[trigger] final(self).spec_has(n) == old(self).spec_has(n),
            forall|n: Seq<char>|
                n != name@ && old(self).spec_has(n) ==> #[trigger] final(self).spec_frames(n)
                    == old(self).spec_frames(n),
            final(self).spec_current() == old(self).spec_current(),
            final(self).spec_frame() == old(self).spec_frame(),
            final(self).spec_frame_millis() == old(self).spec_frame_millis(),
    {
        let mut i: usize = 0;
        while i < self.animations.len()
            invariant
                self.spec_entries() == old(self).spec_entries(),
                self.spec_current() == old(self).spec_current(),
                self.spec_frame() == old(self).spec_frame(),
                self.spec_frame_millis() == old(self).spec_frame_millis(),
                self.wf(),
                0 <= i <= self.spec_entries().len(),
                forall|k: int| 0 <= k < i ==> self.spec_entries()[k].0@ != name@,
            decreases self.animations.len() - i,
        {
            if self.animations[i].0.eq(&name) {
                self.animations[i] = (name, frames);
                proof {
                    let pre = old(self).spec_entries();
                    assert forall|k: int| 0 <= k < pre.len() && k != i as int implies pre[k].0@
                        != name@ by {
                        if k > i as int {
                            assert(pre[i as int].0@ != pre[k].0@);
                        }
                    }
                    lemma_entry_observations(pre, self.spec_entries(), i as int, name@);
                }
                return ;
            }
            i += 1;
        }
        self.animations.push((name, frames));
        proof {
            lemma_entry_observations(
                old(self).spec_entries(),
                self.spec_entries(),
                self.spec_entries().len() - 1,
                name@,
            );
        }
    }

    /// Makes the named animation current (the cursor is kept, as the
    /// playback wraps it into range on the next advance).
    pub fn set_animation(&mut self, animation: String)
        ensures
            final(self).spec_current() == animation@,
            final(self).spec_entries() == old(self).spec_entries(),
            final(self).spec_frame() == old(self).spec_frame(),
            final(self).spec_frame_millis() == old(self).spec_frame_millis(),
    {
        self.current_animation = animation;
    }

    /// Sets the frame cursor of the current animation.
    pub fn set_frame(&mut self, frame: usize)
        ensures
            final(self).spec_frame() == frame,
            final(self).spec_entries() == old(self).spec_entries(),
            final(self).spec_current() == old(self).spec_current(),
            final(self).spec_frame_millis() == old(self).spec_frame_millis(),
    {
        self.current_frame = frame;
    }

    /// Sets the frame duration in milliseconds.
    pub fn set_timer(&mut self, millsec: u64)
        ensures
            final(self).spec_frame_millis() == millsec,
            final(self).spec_entries() == old(self).spec_entries(),
            final(self).spec_current() == old(self).spec_current(),
            final(self).spec_frame() == old(self).spec_frame(),
    {
        self.frame_millis = millsec;
    }

    /// Sets the frame duration as frames per second.
    pub fn set_frames_per(&mut self, frames_per: u16)
        requires
            frames_per > 0,
        ensures
            final(self).spec_frame_millis() == 1000int / frames_per as int,
            final(self).spec_entries() == old(self).spec_entries(),
            final(self).spec_current() == old(self).spec_current(),
            final(self).spec_frame() == old(self).spec_frame(),
    {
        let convert: u16 = 1000 / frames_per;
        self.frame_millis = convert as u64;
    }

    /// The frame duration in milliseconds.
    pub fn frame_millis(&self) -> (r: u64)
        ensures
            r == self.spec_frame_millis(),
    {
        self.frame_millis
    }

    /// The frame cursor, relative to the current animation.
    pub fn current_frame(&self) -> (r: usize)
        ensures
            r == self.spec_frame(),
    {
        self.current_frame
    }

    /// Advances playback by one frame: hands out the sprite-sheet index at
    /// the cursor and steps the cursor, wrapping at the end of the current
    /// animation.  Returns `None` — and changes nothing — when the current
    /// animation is missing or the cursor is out of its range; the caller
    /// treats a missing animation as fatal.
    pub fn advance_frame(&mut self) -> (r: Option<usize>)
        requires
            old(self).wf(),
        ensures
            final(self).wf(),
            ({
                let cur = old(self).spec_current();
                if old(self).spec_has(cur) && 0 <= old(self).spec_frame() < old(self).spec_frames(
                    cur,
                ).len() {
                    let frames = old(self).spec_frames(cur);
                    &&& r == Some(frames[old(self).spec_frame()])
                    &&& final(self).spec_frame() == (old(self).spec_frame() + 1) % (
                    frames.len() as int)
                    &&& final(self).spec_entries() == old(self).spec_entries()
                    &&& final(self).spec_current() == old(self).spec_current()
                    &&& final(self).spec_frame_millis() == old(self).spec_frame_millis()
                } else {
                    r is None && *final(self) == *old(self)
                }
            }),
    {
        let frame = self.current_frame;
        let (index, len): (usize, usize) = match self.lookup(&self.current_animation) {
            Some(frames) => {
                if frame < frames.len() {
                    (frames[frame], frames.len())
                } else {
                    return None;
                }
            },
            None => {
                return None;
            },
        };
        self.current_frame = (frame + 1) % len;
        Some(index)
    }
}

/// After writing `(name, frames)` at index `i` of `pre` (either replacing
/// the entry that held `name` or appending one past the end), every
/// lookup-style observation of `post` follows: `name` maps to the new
/// frames, every other name to what it mapped to before.
proof fn lemma_entry_observations(
    pre: Seq<(String, Vec<usize>)>,
    post: Seq<(String, Vec<usize>)>,
    i: int,
    name: Seq<char>,
)
    requires
        forall|a: int, b: int| 0 <= a < b < pre.len() ==> pre[a].0@ != pre[b].0@,
        0 <= i < post.len(),
        (i < pre.len() && post.len() == pre.len()) || (i == pre.len() && post.len() == pre.len()
            + 1),
        post[i].0@ == name,
        i < pre.len() ==> pre[i].0@ == name,
        forall|k: int| 0 <= k < post.len() && k != i ==> post[k] == pre[k],
        forall|k: int| 0 <= k < pre.len() && k != i ==> pre[k].0@ != name,
    ensures
        forall|a: int, b: int| 0 <= a < b < post.len() ==> post[a].0@ != post[b].0@,
        spec_seq_has(post, name),
        spec_seq_frames(post, name) == post[i].1@,
        forall|n: Seq<char>|
            n != name ==> #[trigger] spec_seq_has(post, n) == spec_seq_has(pre, n),
        forall|n: Seq<char>|
            n != name && spec_seq_has(pre, n) ==> #[trigger] spec_seq_frames(post, n)
                == spec_seq_frames(pre, n),
{
    assert forall|a: int, b: int| 0 <= a < b < post.len() implies post[a].0@ != post[b].0@ by {
        if a != i && b != i {
            assert(post[a] == pre[a]);
            assert(post[b] == pre[b]);
        }
    }
    assert(post[i].0@ == name);
    assert(spec_seq_has(post, name));
    let w = choose|k: int| 0 <= k < post.len() && post[k].0@ == name;
    assert(w == i);
    assert forall|n: Seq<char>| n != name implies #[trigger] spec_seq_has(post, n)
        == spec_seq_has(pre, n) by {
        if spec_seq_has(pre, n) {
            let kp = choose|k: int| 0 <= k < pre.len() && pre[k].0@ == n;
            assert(post[kp].0@ == n);
            assert(spec_seq_has(post, n));
        }
        if spec_seq_has(post, n) {
            let kq = choose|k: int| 0 <= k < post.len() && post[k].0@ == n;
            assert(kq != i);
            assert(pre[kq].0@ == n);
            assert(spec_seq_has(pre, n));
        }
    }
    assert forall|n: Seq<char>|
        n != name && spec_seq_has(pre, n) implies #[trigger] spec_seq_frames(post, n)
        == spec_seq_frames(pre, n) by {
        let kp = choose|k: int| 0 <= k < pre.len() && pre[k].0@ == n;
        assert(post[kp].0@ == n);
        let kq = choose|k: int| 0 <= k < post.len() && post[k].0@ == n;
        assert(kq == kp);
    }
}

} // verus!
