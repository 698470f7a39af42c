//! Single-slot store of the most recently produced video frame.
//!
//! The engine-stepping context publishes at most one fresh frame per step,
//! replacing the previous one wholesale; the renderer consumes an independent
//! copy of whatever is current. A reader never sees a partially written
//! buffer, and a snapshot already handed out is unaffected by later
//! publishes.

use vstd::prelude::*;

verus! {

/// An owned copy of one video frame: a byte buffer with its width, height,
/// and row stride in bytes. The stride may exceed `width` times the bytes per
/// pixel because of row padding, so it is carried alongside the buffer and
/// never re-derived from the width.
pub struct Snapshot {
    pub data: Vec<u8>,
    pub width: u32,
    pub height: u32,
    pub stride: usize,
}

/// Mathematical image of a snapshot: the bytes as a sequence plus the
/// dimensions.
pub struct SnapshotModel {
    pub data: Seq<u8>,
    pub width: u32,
    pub height: u32,
    pub stride: usize,
}

impl View for Snapshot {
    type V = SnapshotModel;

    open spec fn view(&self) -> SnapshotModel {
        SnapshotModel {
            data: self.data@,
            width: self.width,
            height: self.height,
            stride: self.stride,
        }
    }
}

/// A snapshot buffer covers exactly `height` rows of `stride` bytes each.
pub open spec fn snapshot_sized(m: SnapshotModel) -> bool {
    m.data.len() == (m.stride as int) * (m.height as int)
}

/// The slot holding the current frame, if any has ever been published.
pub struct FrameRelay {
    slot: Option<Snapshot>,
}

impl View for FrameRelay {
    type V = Option<SnapshotModel>;

    closed spec fn view(&self) -> Option<SnapshotModel> {
        match self.slot {
            None => None,
            Some(ref s) => Some(s@),
        }
    }
}

/// Copy a byte buffer into a fresh owned vector.
fn copy_bytes(src: &Vec<u8>) -> (copy: Vec<u8>)
    ensures
        copy@ == src@,
{
    let mut copy: Vec<u8> = Vec::new();
    let mut i: usize = 0;
    while i < src.len()
        invariant
            i <= src@.len(),
            copy@ == src@.take(i as int),
        decreases src@.len() - i,
    {
        proof {
            assert(src@.take(i + 1) =~= src@.take(i as int).push(src@[i as int]));
        }
        copy.push(src[i]);
        i = i + 1;
    }
    proof {
        assert(src@.take(src@.len() as int) =~= src@);
    }
    copy
}

impl FrameRelay {
    /// An empty slot: nothing has been published yet.
    pub fn new() -> (relay: FrameRelay)
        ensures
            relay@ is None,
    {
        FrameRelay { slot: None }
    }

    /// Store a fresh snapshot of the given buffer and dimensions, replacing
    /// whatever was stored before; the previous snapshot's storage is
    /// released.
    pub fn publish(&mut self, data: &Vec<u8>, width: u32, height: u32, stride: usize)
        requires
            data@.len() == (stride as int) * (height as int),
        ensures
            final(self)@ == Some(
                SnapshotModel { data: data@, width, height, stride },
            ),
    {
        let copied = copy_bytes(data);
        self.slot = Some(Snapshot { data: copied, width, height, stride });
    }

    /// The video-callback entry: an absent pixel buffer — the engine handing
    /// the callback an invalid reference — is a recoverable no-op; a present
    /// one is published as the new current frame.
    pub fn on_video_refresh(
        &mut self,
        data: Option<&Vec<u8>>,
        width: u32,
        height: u32,
        pitch: usize,
    )
        requires
            data matches Some(d) ==> d@.len() == (pitch as int) * (height as int),
        ensures
            match data {
                Some(d) => final(self)@ == Some(
                    SnapshotModel { data: d@, width, height, stride: pitch },
                ),
                None => final(self)@ == old(self)@,
            },
    {
        match data {
            None => (),
            Some(d) => self.publish(d, width, height, pitch),
        }
    }

    /// Hand out an independent copy of the most recently published snapshot,
    /// or nothing if none has ever been published. The copy's backing storage
    /// is owned by the caller, so no later publish can affect it.
    pub fn consume(&self) -> (snapshot: Option<Snapshot>)
        ensures
            match snapshot {
                None => self@ is None,
                Some(s) => self@ == Some(s@),
            },
    {
        match &self.slot {
            None => None,
            Some(s) => Some(
                Snapshot {
                    data: copy_bytes(&s.data),
                    width: s.width,
                    height: s.height,
                    stride: s.stride,
                },
            ),
        }
    }
}

} // verus!
