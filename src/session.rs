use vstd::prelude::*;

use crate::types::Size;

verus! {

/// Commands the caller sends to an encode thread.
#[derive(Clone, Copy, Debug, PartialEq, Eq, Structural)]
pub enum EncodeThreadInput {
    /// (Re)build the encoder for frames of this size.
    Init { size: Size },
    /// Make the next encoded frame a keyframe.
    ForceKeyframe,
    /// Encode the current frame.
    SendFrame,
}

/// The picture type stamped on a frame before it is sent to the codec.
#[derive(Clone, Copy, Debug, PartialEq, Eq, Structural)]
pub enum PictureType {
    /// Let the codec choose.
    Unspecified,
    /// An intra-coded picture.
    I,
}

/// The frame flag bit that marks a keyframe (`AV_FRAME_FLAG_KEY`).
pub const FRAME_FLAG_KEY: i32 = 2;

/// Metadata the encode thread stamps on a frame before sending it.
#[derive(Clone, Copy, Debug, PartialEq, Eq, Structural)]
pub struct FrameStamp {
    pub pts: u64,
    pub picture_type: PictureType,
    pub flags: i32,
    pub key_frame: i32,
}

impl FrameStamp {
    pub open spec fn is_keyframe(self) -> bool {
        self.picture_type == PictureType::I && self.flags == FRAME_FLAG_KEY && self.key_frame == 1
    }
}

pub open spec fn stamp_spec(pts: u64, force_keyframe: bool) -> FrameStamp {
    if force_keyframe {
        FrameStamp { pts, picture_type: PictureType::I, flags: FRAME_FLAG_KEY, key_frame: 1 }
    } else {
        FrameStamp { pts, picture_type: PictureType::Unspecified, flags: 0, key_frame: 0 }
    }
}

/// Computes the stamp for a frame with timestamp `pts`: a forced keyframe is
/// an I picture with the key flag set, any other frame leaves the picture
/// type to the codec and clears the flags.
pub fn frame_stamp(pts: u64, force_keyframe: bool) -> (r: FrameStamp)
    ensures
        r == stamp_spec(pts, force_keyframe),
        r.pts == pts,
        r.is_keyframe() <==> force_keyframe,
{
    if force_keyframe {
        FrameStamp { pts, picture_type: PictureType::I, flags: FRAME_FLAG_KEY, key_frame: 1 }
    } else {
        FrameStamp { pts, picture_type: PictureType::Unspecified, flags: 0, key_frame: 0 }
    }
}

/// What the owner of the session must do after a command.
#[derive(Clone, Copy, Debug, PartialEq, Eq, Structural)]
pub enum SessionAction {
    /// Discard any encoder and build a new one for this size.
    Rebuild { size: Size },
    /// Nothing to do.
    Idle,
    /// Stamp the frame, send it and poll for a packet, then report back
    /// through `EncodeSession::finish_frame`.
    Encode { stamp: FrameStamp },
}

/// The decisions of an encode thread: the frame counter, the pending
/// forced-keyframe flag and the size of the current encoder, if any.
#[derive(Clone, Copy, Debug, PartialEq, Eq, Structural)]
pub struct EncodeSession {
    pub frame_number: u64,
    pub force_keyframe: bool,
    pub size: Option<Size>,
}

impl EncodeSession {
    pub open spec fn after_command(self, cmd: EncodeThreadInput) -> EncodeSession {
        match cmd {
            EncodeThreadInput::Init { size } => EncodeSession {
                frame_number: 0,
                force_keyframe: false,
                size: Some(size),
            },
            EncodeThreadInput::ForceKeyframe => EncodeSession { force_keyframe: true, ..self },
            EncodeThreadInput::SendFrame => self,
        }
    }

    pub open spec fn action_for(self, cmd: EncodeThreadInput) -> SessionAction {
        match cmd {
            EncodeThreadInput::Init { size } => SessionAction::Rebuild { size },
            EncodeThreadInput::ForceKeyframe => SessionAction::Idle,
            EncodeThreadInput::SendFrame => if self.size is Some {
                SessionAction::Encode { stamp: stamp_spec(self.frame_number, self.force_keyframe) }
            } else {
                SessionAction::Idle
            },
        }
    }

    pub open spec fn after_frame(self, emitted: bool) -> EncodeSession {
        EncodeSession {
            frame_number: if emitted { (self.frame_number + 1) as u64 } else { self.frame_number },
            force_keyframe: false,
            ..self
        }
    }

    /// A full `SendFrame` cycle on an initialized session.
    pub open spec fn cycle(self, emitted: bool) -> EncodeSession {
        self.after_command(EncodeThreadInput::SendFrame).after_frame(emitted)
    }

    /// A session with no encoder yet.
    pub fn new() -> (r: EncodeSession)
        ensures
            r.frame_number == 0,
            !r.force_keyframe,
            r.size is None,
    {
        EncodeSession { frame_number: 0, force_keyframe: false, size: None }
    }

    /// Applies a command: `Init` resets the counter and the keyframe flag and
    /// asks for a new encoder; `ForceKeyframe` sets the flag; `SendFrame` on
    /// an initialized session asks for the frame to be encoded with the
    /// current counter as its timestamp.
    pub fn handle(&mut self, cmd: EncodeThreadInput) -> (r: SessionAction)
        ensures
            *final(self) == old(self).after_command(cmd),
            r == old(self).action_for(cmd),
    {
        match cmd {
            EncodeThreadInput::Init { size } => {
                self.frame_number = 0;
                self.force_keyframe = false;
                self.size = Some(size);
                SessionAction::Rebuild { size }
            },
            EncodeThreadInput::ForceKeyframe => {
                self.force_keyframe = true;
                SessionAction::Idle
            },
            EncodeThreadInput::SendFrame => {
                if self.size.is_some() {
                    SessionAction::Encode { stamp: frame_stamp(self.frame_number, self.force_keyframe) }
                } else {
                    SessionAction::Idle
                }
            },
        }
    }

    /// Closes an encode cycle: the counter advances when a packet came out,
    /// and the forced-keyframe flag is cleared either way. Returns whether the
    /// packet is to be forwarded.
    pub fn finish_frame(&mut self, emitted: bool) -> (r: bool)
        requires
            old(self).frame_number < u64::MAX,
        ensures
            *final(self) == old(self).after_frame(emitted),
            r == emitted,
            !final(self).force_keyframe,
    {
        if emitted {
            self.frame_number = self.frame_number + 1;
        }
        self.force_keyframe = false;
        emitted
    }
}

/// Number of cycles, among `outcomes`, that emitted a packet.
pub open spec fn count_emitted(outcomes: Seq<bool>) -> nat
    decreases outcomes.len(),
{
    if outcomes.len() == 0 {
        0
    } else {
        count_emitted(outcomes.drop_last()) + if outcomes.last() { 1nat } else { 0nat }
    }
}

/// The session after one `SendFrame` cycle per entry of `outcomes`, each entry
/// telling whether that cycle emitted a packet.
pub open spec fn run_cycles(s: EncodeSession, outcomes: Seq<bool>) -> EncodeSession
    decreases outcomes.len(),
{
    if outcomes.len() == 0 {
        s
    } else {
        run_cycles(s, outcomes.drop_last()).cycle(outcomes.last())
    }
}

proof fn lemma_run_cycles_counts(s: EncodeSession, outcomes: Seq<bool>)
    requires
        s.frame_number == 0,
        !s.force_keyframe,
        outcomes.len() < u64::MAX,
    ensures
        run_cycles(s, outcomes).frame_number == count_emitted(outcomes),
        count_emitted(outcomes) <= outcomes.len(),
        !run_cycles(s, outcomes).force_keyframe,
        run_cycles(s, outcomes).size == s.size,
    decreases outcomes.len(),
{
    if outcomes.len() > 0 {
        lemma_run_cycles_counts(s, outcomes.drop_last());
    }
}

/// After `Init`, every `SendFrame` with no forced keyframe is stamped with the
/// number of packets emitted by the cycles before it since that `Init`: the
/// timestamps start at zero, follow the order of submission, never decrease,
/// and rise by exactly one after each emitted packet, so they have no gaps.
pub proof fn lemma_timestamps_without_gaps(s: EncodeSession, size: Size, outcomes: Seq<bool>)
    requires
        outcomes.len() < u64::MAX,
    ensures
        forall|i: int|
            0 <= i <= outcomes.len() ==> #[trigger] run_cycles(
                s.after_command(EncodeThreadInput::Init { size }),
                outcomes.take(i),
            ).action_for(EncodeThreadInput::SendFrame) == (SessionAction::Encode {
                stamp: stamp_spec(count_emitted(outcomes.take(i)) as u64, false),
            }),
        count_emitted(outcomes.take(0)) == 0,
        forall|i: int|
            0 <= i < outcomes.len() ==> #[trigger] count_emitted(outcomes.take(i + 1))
                == count_emitted(outcomes.take(i)) + if outcomes[i] { 1nat } else { 0nat },
{
    let s0 = s.after_command(EncodeThreadInput::Init { size });
    assert forall|i: int| 0 <= i <= outcomes.len() implies #[trigger] run_cycles(
        s0,
        outcomes.take(i),
    ).action_for(EncodeThreadInput::SendFrame) == (SessionAction::Encode {
        stamp: stamp_spec(count_emitted(outcomes.take(i)) as u64, false),
    }) by {
        lemma_run_cycles_counts(s0, outcomes.take(i));
    }
    assert(outcomes.take(0).len() == 0);
    assert forall|i: int| 0 <= i < outcomes.len() implies #[trigger] count_emitted(
        outcomes.take(i + 1),
    ) == count_emitted(outcomes.take(i)) + if outcomes[i] { 1nat } else { 0nat } by {
        assert(outcomes.take(i + 1).drop_last() =~= outcomes.take(i));
    }
}

/// A `ForceKeyframe` followed by a `SendFrame` on an initialized session
/// stamps that frame as a keyframe, and the flag is cleared after the cycle
/// whether or not a packet came out.
pub proof fn lemma_forced_keyframe_is_consumed(s: EncodeSession, emitted: bool)
    requires
        s.size is Some,
    ensures
        s.after_command(EncodeThreadInput::ForceKeyframe).action_for(EncodeThreadInput::SendFrame)
            == (SessionAction::Encode { stamp: stamp_spec(s.frame_number, true) }),
        stamp_spec(s.frame_number, true).is_keyframe(),
        !s.after_command(EncodeThreadInput::ForceKeyframe).cycle(emitted).force_keyframe,
{
}

} // verus!
