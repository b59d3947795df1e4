use vstd::prelude::*;
use crate::geometry::{Rect, Matrix, identity_matrix};

verus! {

/// A paint operation that a caller draws onto a surface.
#[derive(Clone, Copy, Debug, PartialEq, Eq, Structural)]
pub enum Paint {
    /// Fill the whole clip with a color.
    Clear(u32),
    FillRect(Rect, u32),
    StrokeRect(Rect, u32),
}

/// One entry of a recorded command list.
#[derive(Clone, Copy, Debug, PartialEq, Eq, Structural)]
pub enum Command {
    /// Unwind to the base level: identity transform, no clip.
    Reset,
    /// Intersect the clip with a rectangle (antialiased).
    ClipRect(Rect),
    /// Replace the transform.
    SetMatrix(Matrix),
    Draw(Paint),
}

/// An immutable, replayable command list bounded by a rectangle.
pub struct Picture {
    pub commands: Vec<Command>,
    pub bounds: Rect,
}

pub struct PictureView {
    pub commands: Seq<Command>,
    pub bounds: Rect,
}

impl View for Picture {
    type V = PictureView;

    open spec fn view(&self) -> PictureView {
        PictureView { commands: self.commands@, bounds: self.bounds }
    }
}

/// The drawing state in force at some point of a command list.
pub struct Frame {
    pub matrix: Matrix,
    pub clips: Seq<Rect>,
}

/// A paint operation together with the transform and clips it was drawn under.
pub struct Mark {
    pub paint: Paint,
    pub matrix: Matrix,
    pub clips: Seq<Rect>,
}

pub open spec fn base_frame() -> Frame {
    Frame { matrix: identity_matrix(), clips: Seq::empty() }
}

pub open spec fn step(f: Frame, c: Command) -> Frame {
    match c {
        Command::Reset => base_frame(),
        Command::ClipRect(r) => Frame { matrix: f.matrix, clips: f.clips.push(r) },
        Command::SetMatrix(m) => Frame { matrix: m, clips: f.clips },
        Command::Draw(_) => f,
    }
}

/// The state after running `cmds` from `f`.
pub open spec fn frame_after(cmds: Seq<Command>, f: Frame) -> Frame
    decreases cmds.len(),
{
    if cmds.len() == 0 {
        f
    } else {
        step(frame_after(cmds.drop_last(), f), cmds.last())
    }
}

/// What running `cmds` from `f` paints, in order.
pub open spec fn marks(cmds: Seq<Command>, f: Frame) -> Seq<Mark>
    decreases cmds.len(),
{
    if cmds.len() == 0 {
        Seq::empty()
    } else {
        let prev = marks(cmds.drop_last(), f);
        let at = frame_after(cmds.drop_last(), f);
        match cmds.last() {
            Command::Draw(p) => prev.push(Mark { paint: p, matrix: at.matrix, clips: at.clips }),
            _ => prev,
        }
    }
}

pub proof fn lemma_run_concat(a: Seq<Command>, b: Seq<Command>, f: Frame)
    ensures
        frame_after(a + b, f) == frame_after(b, frame_after(a, f)),
        marks(a + b, f) == marks(a, f) + marks(b, frame_after(a, f)),
    decreases b.len(),
{
    if b.len() == 0 {
        assert(a + b =~= a);
        assert(marks(a, f) + marks(b, frame_after(a, f)) =~= marks(a, f));
    } else {
        lemma_run_concat(a, b.drop_last(), f);
        assert((a + b).drop_last() =~= a + b.drop_last());
        assert((a + b).last() == b.last());
        let prev = marks(a, f) + marks(b.drop_last(), frame_after(a, f));
        assert(marks(a, f) + marks(b, frame_after(a, f)) =~= match b.last() {
            Command::Draw(p) => prev.push(
                Mark {
                    paint: p,
                    matrix: frame_after(b.drop_last(), frame_after(a, f)).matrix,
                    clips: frame_after(b.drop_last(), frame_after(a, f)).clips,
                },
            ),
            _ => prev,
        });
    }
}

/// The commands that bring a fresh or reset recording to a transform and clip.
pub open spec fn restore_commands(matrix: Matrix, clip: Option<Rect>) -> Seq<Command> {
    match clip {
        Some(c) => seq![Command::Reset, Command::ClipRect(c), Command::SetMatrix(matrix)],
        None => seq![Command::Reset, Command::SetMatrix(matrix)],
    }
}

/// The state that a transform and an optional clip stand for.
pub open spec fn state_frame(matrix: Matrix, clip: Option<Rect>) -> Frame {
    match clip {
        Some(c) => Frame { matrix, clips: seq![c] },
        None => Frame { matrix, clips: Seq::empty() },
    }
}

pub proof fn lemma_restore_commands(matrix: Matrix, clip: Option<Rect>, f: Frame)
    ensures
        frame_after(restore_commands(matrix, clip), f) == state_frame(matrix, clip),
        marks(restore_commands(matrix, clip), f) == Seq::<Mark>::empty(),
{
    let cmds = restore_commands(matrix, clip);
    reveal_with_fuel(frame_after, 4);
    reveal_with_fuel(marks, 4);
    match clip {
        Some(c) => {
            assert(cmds.drop_last().drop_last().drop_last() =~= Seq::<Command>::empty());
            assert(frame_after(cmds, f).clips =~= seq![c]);
        },
        None => {
            assert(cmds.drop_last().drop_last() =~= Seq::<Command>::empty());
            assert(frame_after(cmds, f).clips =~= Seq::<Rect>::empty());
        },
    }
}

} // verus!
