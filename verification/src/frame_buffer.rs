use vstd::prelude::*;

use crate::constants::GAME_BOY_FRAME_BUFFER_BYTES;
use crate::memory::{zeroed_bytes, zeros};

verus! {

/// Number of frames in the ring that the emulator writes and the screen reads.
pub const GAME_BOY_FRAME_RING_LEN: usize = 3;

/// The number of a published frame; each publication counts one up.
#[derive(Clone, Copy, Debug, PartialEq, Eq, Structural)]
pub struct GameBoyFrameSequence(pub u64);

impl Default for GameBoyFrameSequence {
    fn default() -> (sequence: Self)
        ensures
            sequence.0 == 0,
    {
        GameBoyFrameSequence(0)
    }
}

/// One RGB frame of the ring and the number it was written under.
#[derive(Debug)]
pub struct GameBoyFrame {
    pub sequence: GameBoyFrameSequence,
    pub pixels: Vec<u8>,
}

impl GameBoyFrame {
    /// The number the frame was last written under.
    pub fn sequence(&self) -> (sequence: GameBoyFrameSequence)
        ensures
            sequence == self.sequence,
    {
        self.sequence
    }

    /// The frame's RGB bytes.
    pub fn pixels(&self) -> (pixels: &[u8])
        ensures
            pixels@ == self.pixels@,
    {
        self.pixels.as_slice()
    }
}

impl Default for GameBoyFrame {
    fn default() -> (frame: Self)
        ensures
            frame.sequence.0 == 0,
            frame.pixels@ == zeros(GAME_BOY_FRAME_BUFFER_BYTES as nat, 0u8),
    {
        GameBoyFrame { sequence: GameBoyFrameSequence(0), pixels: zeroed_bytes(GAME_BOY_FRAME_BUFFER_BYTES) }
    }
}

/// A ring of frames: the emulator writes the next one and publishes it as the latest.
#[derive(Debug)]
pub struct GameBoyFrameRing {
    pub frames: Vec<GameBoyFrame>,
    pub next_write_index: usize,
    pub latest_written_index: Option<usize>,
    pub latest_sequence: GameBoyFrameSequence,
}

/// The number after `sequence`, staying at the largest.
pub open spec fn next_sequence(sequence: GameBoyFrameSequence) -> GameBoyFrameSequence {
    GameBoyFrameSequence(if sequence.0 < u64::MAX { (sequence.0 + 1) as u64 } else { u64::MAX })
}

/// What writing `pixels` into the next frame of the ring does: the frame takes the next number;
/// when the sizes match (`published`) it takes the pixels, becomes the latest, and the ring
/// moves on; otherwise nothing else changes.
pub open spec fn pixels_published(
    before: &GameBoyFrameRing,
    after: &GameBoyFrameRing,
    pixels: Seq<u8>,
    published: bool,
) -> bool {
    let index = before.next_write_index as int;
    let sequence = next_sequence(before.latest_sequence);
    &&& after.frames@.len() == before.frames@.len()
    &&& forall|i: int|
        0 <= i < before.frames@.len() && i != index ==> #[trigger] after.frames@[i] == before.frames@[i]
    &&& after.frames@[index].sequence == sequence
    &&& published == (before.frames@[index].pixels@.len() == pixels.len())
    &&& if published {
        &&& after.frames@[index].pixels@ == pixels
        &&& after.latest_written_index == Some(index as usize)
        &&& after.latest_sequence == sequence
        &&& after.next_write_index == (index + 1) % GAME_BOY_FRAME_RING_LEN as int
    } else {
        &&& after.frames@[index].pixels@ == before.frames@[index].pixels@
        &&& after.latest_written_index == before.latest_written_index
        &&& after.latest_sequence == before.latest_sequence
        &&& after.next_write_index == before.next_write_index
    }
}

impl GameBoyFrameRing {
    /// The ring holds its frames, and both indices point into it.
    pub open spec fn wf(&self) -> bool {
        &&& self.frames@.len() == GAME_BOY_FRAME_RING_LEN
        &&& self.next_write_index < GAME_BOY_FRAME_RING_LEN
        &&& (self.latest_written_index matches Some(index) ==> index < GAME_BOY_FRAME_RING_LEN)
        &&& forall|i: int|
            0 <= i < self.frames@.len() ==> (#[trigger] self.frames@[i]).pixels@.len() == GAME_BOY_FRAME_BUFFER_BYTES
    }

    /// Whether the ring is well formed, as `wf` says.
    pub fn is_well_formed(&self) -> (ok: bool)
        ensures
            ok == self.wf(),
    {
        if self.frames.len() != GAME_BOY_FRAME_RING_LEN || self.next_write_index >= GAME_BOY_FRAME_RING_LEN {
            return false;
        }
        match self.latest_written_index {
            Some(index) => {
                if index >= GAME_BOY_FRAME_RING_LEN {
                    return false;
                }
            },
            None => {},
        }
        let mut i: usize = 0;
        while i < self.frames.len()
            invariant
                i <= self.frames@.len(),
                forall|j: int| 0 <= j < i ==> (#[trigger] self.frames@[j]).pixels@.len() == GAME_BOY_FRAME_BUFFER_BYTES,
            decreases self.frames@.len() - i,
        {
            if self.frames[i].pixels.len() != GAME_BOY_FRAME_BUFFER_BYTES {
                return false;
            }
            i += 1;
        }
        true
    }

    /// Blacks out every frame and forgets what was published.
    pub fn clear_to_black(&mut self)
        requires
            old(self).wf(),
        ensures
            final(self).wf(),
            final(self).frames@.len() == old(self).frames@.len(),
            forall|i: int|
                0 <= i < final(self).frames@.len() ==> #[trigger] final(self).frames@[i].pixels@ == zeros(
                    old(self).frames@[i].pixels@.len(),
                    0u8,
                ) && final(self).frames@[i].sequence == old(self).frames@[i].sequence,
            final(self).next_write_index == 0,
            final(self).latest_written_index is None,
            final(self).latest_sequence.0 == 0,
    {
        let count = self.frames.len();
        for i in 0..count
            invariant
                count == old(self).frames@.len(),
                self.frames@.len() == count,
                forall|j: int|
                    #![trigger self.frames@[j]]
                    0 <= j < i ==> self.frames@[j].pixels@ == zeros(old(self).frames@[j].pixels@.len(), 0u8)
                        && self.frames@[j].sequence == old(self).frames@[j].sequence,
                forall|j: int| #![trigger self.frames@[j]] i <= j < count ==> self.frames@[j] == old(self).frames@[j],
        {
            let len = self.frames[i].pixels.len();
            let sequence = self.frames[i].sequence;
            let blank = GameBoyFrame { sequence, pixels: zeroed_bytes(len) };
            self.frames.set(i, blank);
            assert(self.frames@[i as int] == blank);
        }
        self.next_write_index = 0;
        self.latest_written_index = None;
        self.latest_sequence = GameBoyFrameSequence(0);
    }

    /// The frame published last, if any.
    pub fn latest_written_frame(&self) -> (frame: Option<&GameBoyFrame>)
        ensures
            frame == match self.latest_written_index {
                Some(index) => if index < self.frames@.len() {
                    Some(&self.frames@[index as int])
                } else {
                    None
                },
                None => None,
            },
    {
        match self.latest_written_index {
            Some(index) => {
                if index < self.frames.len() {
                    Some(&self.frames[index])
                } else {
                    None
                }
            },
            None => None,
        }
    }

    /// Writes `pixels` into the next frame of the ring and publishes it, when the sizes match.
    /// The next frame takes the next number even when nothing is published.
    pub fn publish_pixels(&mut self, pixels: &[u8]) -> (published: bool)
        requires
            old(self).wf(),
        ensures
            final(self).wf(),
            pixels_published(old(self), final(self), pixels@, published),
    {
        let index = self.next_write_index;
        let sequence = GameBoyFrameSequence(self.latest_sequence.0.saturating_add(1));
        let ring_len = self.frames.len();
        let matches = self.frames[index].pixels.len() == pixels.len();
        if !matches {
            let kept = GameBoyFrame { sequence, pixels: copy_bytes(self.frames[index].pixels.as_slice()) };
            self.frames.set(index, kept);
            return false;
        }
        self.frames.set(index, GameBoyFrame { sequence, pixels: copy_bytes(pixels) });
        self.latest_written_index = Some(index);
        self.latest_sequence = sequence;
        self.next_write_index = (index + 1) % ring_len;
        true
    }
}

impl Default for GameBoyFrameRing {
    fn default() -> (ring: Self)
        ensures
            ring.wf(),
            forall|i: int|
                0 <= i < GAME_BOY_FRAME_RING_LEN ==> #[trigger] ring.frames@[i].pixels@ == zeros(
                    GAME_BOY_FRAME_BUFFER_BYTES as nat,
                    0u8,
                ) && ring.frames@[i].sequence.0 == 0,
            ring.next_write_index == 0,
            ring.latest_written_index is None,
            ring.latest_sequence.0 == 0,
    {
        let mut frames: Vec<GameBoyFrame> = Vec::new();
        for i in 0..GAME_BOY_FRAME_RING_LEN
            invariant
                frames@.len() == i,
                forall|j: int|
                    #![trigger frames@[j]]
                    0 <= j < i ==> frames@[j].pixels@ == zeros(GAME_BOY_FRAME_BUFFER_BYTES as nat, 0u8)
                        && frames@[j].sequence.0 == 0,
        {
            let frame = GameBoyFrame { sequence: GameBoyFrameSequence(0), pixels: zeroed_bytes(GAME_BOY_FRAME_BUFFER_BYTES) };
            frames.push(frame);
            assert(frames@[i as int] == frame);
        }
        GameBoyFrameRing {
            frames,
            next_write_index: 0,
            latest_written_index: None,
            latest_sequence: GameBoyFrameSequence(0),
        }
    }
}

/// A copy of `bytes`.
fn copy_bytes(bytes: &[u8]) -> (copy: Vec<u8>)
    ensures
        copy@ == bytes@,
{
    let mut copy: Vec<u8> = Vec::with_capacity(bytes.len());
    for i in 0..bytes.len()
        invariant
            copy@ == bytes@.subrange(0, i as int),
    {
        copy.push(bytes[i]);
    }
    copy
}

} // verus!
