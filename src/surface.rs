use vstd::prelude::*;
use std::rc::Rc;
use crate::geometry::{Rect, Matrix, identity_matrix};
use crate::recording::{
    Command, Paint, Picture, PictureView, Mark, base_frame, frame_after, marks, restore_commands,
    state_frame, lemma_run_concat, lemma_restore_commands,
};
use crate::page::{
    Page, PageView, layers_view, composite_spec, painted, layer_marks, share_layers,
    lemma_painted_push,
};

verus! {

/// A drawing surface that records instead of rasterizing. Drawing goes into the open
/// recording; a snapshot finalizes it into a layer and opens a new one that starts
/// with the same transform and clip.
pub struct PageRecorder {
    current: Vec<Command>,
    layers: Vec<Rc<Picture>>,
    cache: Option<Rc<Picture>>,
    bounds: Rect,
    matrix: Matrix,
    clip: Option<Rect>,
    changed: bool,
}

pub struct RecorderView {
    /// The open recording.
    pub current: Seq<Command>,
    /// The finalized layers, oldest first.
    pub layers: Seq<PictureView>,
    pub bounds: Rect,
    pub matrix: Matrix,
    pub clip: Option<Rect>,
    /// Whether anything was drawn since the last finalize.
    pub changed: bool,
}

impl View for PageRecorder {
    type V = RecorderView;

    closed spec fn view(&self) -> RecorderView {
        RecorderView {
            current: self.current@,
            layers: layers_view(self.layers@),
            bounds: self.bounds,
            matrix: self.matrix,
            clip: self.clip,
            changed: self.changed,
        }
    }
}

/// The open recording is in the state that the active transform and clip stand for.
pub open spec fn recorder_wf(v: RecorderView) -> bool {
    frame_after(v.current, base_frame()) == state_frame(v.matrix, v.clip)
}

pub open spec fn fresh_recorder(bounds: Rect) -> RecorderView {
    RecorderView {
        current: Seq::empty(),
        layers: Seq::empty(),
        bounds,
        matrix: identity_matrix(),
        clip: None,
        changed: false,
    }
}

pub open spec fn appended(v: RecorderView, p: Paint) -> RecorderView {
    RecorderView { current: v.current.push(Command::Draw(p)), changed: true, ..v }
}

pub open spec fn with_matrix(v: RecorderView, m: Matrix) -> RecorderView {
    RecorderView { current: v.current.push(Command::SetMatrix(m)), matrix: m, ..v }
}

pub open spec fn restored(v: RecorderView) -> RecorderView {
    RecorderView { current: v.current + restore_commands(v.matrix, v.clip), ..v }
}

pub open spec fn with_clip(v: RecorderView, clip: Option<Rect>) -> RecorderView {
    restored(RecorderView { clip, ..v })
}

pub open spec fn with_bounds(v: RecorderView, bounds: Rect) -> RecorderView {
    RecorderView { bounds, ..v }
}

pub open spec fn page_of(v: RecorderView) -> PageView {
    PageView { layers: v.layers, bounds: v.bounds }
}

/// The surface after a snapshot: the open recording, if anything was drawn into it,
/// becomes the newest layer and a new recording starts with the same transform and clip.
pub open spec fn snapshotted(v: RecorderView) -> RecorderView {
    if v.changed {
        RecorderView {
            current: restore_commands(v.matrix, v.clip),
            layers: v.layers.push(PictureView { commands: v.current, bounds: v.bounds }),
            changed: false,
            ..v
        }
    } else {
        v
    }
}

/// The page a snapshot returns.
pub open spec fn snapshot_page(v: RecorderView) -> PageView {
    page_of(snapshotted(v))
}

impl PageRecorder {
    /// The cached composite, if any, is that of the current layers and bounds.
    pub closed spec fn cache_wf(&self) -> bool {
        match self.cache {
            Some(c) => c@ == composite_spec(page_of(self@), None, None),
            None => true,
        }
    }

    pub open spec fn wf(&self) -> bool {
        recorder_wf(self@) && self.cache_wf()
    }

    /// Opens a surface over `bounds` with nothing drawn, no transform and no clip.
    pub fn new(bounds: Rect) -> (r: PageRecorder)
        ensures
            r.wf(),
            r@ == fresh_recorder(bounds),
    {
        let r = PageRecorder {
            current: Vec::new(),
            layers: Vec::new(),
            cache: None,
            bounds,
            matrix: Matrix::identity(),
            clip: None,
            changed: false,
        };
        assert(r.current@ =~= Seq::<Command>::empty());
        assert(layers_view(r.layers@) =~= Seq::<PictureView>::empty());
        assert(state_frame(identity_matrix(), None) == base_frame()) by {
            assert(state_frame(identity_matrix(), None).clips =~= base_frame().clips);
        }
        r
    }

    /// Draws into the open recording.
    pub fn append(&mut self, paint: Paint)
        requires
            old(self).wf(),
        ensures
            final(self).wf(),
            final(self)@ == appended(old(self)@, paint),
    {
        let ghost before = self.current@;
        self.current.push(Command::Draw(paint));
        self.changed = true;
        proof {
            reveal_with_fuel(frame_after, 1);
            assert(self.current@.drop_last() =~= before);
            assert(self@ =~= appended(old(self)@, paint));
        }
    }

    /// Discards everything and starts over at `bounds`.
    pub fn set_bounds(&mut self, bounds: Rect)
        ensures
            final(self).wf(),
            final(self)@ == fresh_recorder(bounds),
    {
        *self = PageRecorder::new(bounds);
    }

    /// Changes the bounds used for later snapshots, keeping what was drawn.
    pub fn update_bounds(&mut self, bounds: Rect)
        requires
            old(self).wf(),
        ensures
            final(self).wf(),
            final(self)@ == with_bounds(old(self)@, bounds),
    {
        self.bounds = bounds;
        self.cache = None;
    }

    /// Replaces the transform and applies it to the open recording.
    pub fn set_matrix(&mut self, matrix: Matrix)
        requires
            old(self).wf(),
        ensures
            final(self).wf(),
            final(self)@ == with_matrix(old(self)@, matrix),
    {
        let ghost before = self.current@;
        self.matrix = matrix;
        self.current.push(Command::SetMatrix(matrix));
        proof {
            reveal_with_fuel(frame_after, 1);
            assert(self.current@.drop_last() =~= before);
            assert(self@ =~= with_matrix(old(self)@, matrix));
            assert(frame_after(self.current@, base_frame()).clips =~= state_frame(
                matrix,
                self.clip,
            ).clips);
        }
    }

    /// Replaces the clip and brings the open recording back to the transform and clip.
    pub fn set_clip(&mut self, clip: &Option<Rect>)
        requires
            old(self).wf(),
        ensures
            final(self).wf(),
            final(self)@ == with_clip(old(self)@, *clip),
    {
        self.clip = *clip;
        self.restore();
    }

    /// Unwinds the open recording to its base level, then applies the clip, if any,
    /// and the transform again.
    pub fn restore(&mut self)
        requires
            old(self).cache_wf(),
        ensures
            final(self).wf(),
            final(self)@ == restored(old(self)@),
    {
        let ghost before = self.current@;
        self.current.push(Command::Reset);
        match self.clip {
            Some(c) => self.current.push(Command::ClipRect(c)),
            None => {},
        }
        self.current.push(Command::SetMatrix(self.matrix));
        proof {
            let rc = restore_commands(self.matrix, self.clip);
            assert(self.current@ =~= before + rc);
            lemma_run_concat(before, rc, base_frame());
            lemma_restore_commands(self.matrix, self.clip, frame_after(before, base_frame()));
            assert(self@ =~= restored(old(self)@));
        }
    }

    /// Returns the canvas as it stands. If anything was drawn since the last snapshot,
    /// the open recording first becomes the newest layer and a new one is opened with
    /// the same transform and clip; otherwise nothing changes.
    pub fn get_page(&mut self) -> (r: Page)
        requires
            old(self).wf(),
        ensures
            final(self).wf(),
            final(self)@ == snapshotted(old(self)@),
            r@ == snapshot_page(old(self)@),
    {
        if self.changed {
            let ghost old_layers = self.layers@;
            let mut recorded: Vec<Command> = Vec::new();
            std::mem::swap(&mut recorded, &mut self.current);
            let layer = Picture { commands: recorded, bounds: self.bounds };
            self.layers.push(Rc::new(layer));
            self.changed = false;
            self.cache = None;
            assert(self.current@ =~= Seq::<Command>::empty());
            proof {
                assert(layers_view(self.layers@) =~= layers_view(old_layers).push(
                    PictureView { commands: old(self).current@, bounds: self.bounds },
                ));
            }
            self.restore();
            assert(Seq::<Command>::empty() + restore_commands(self.matrix, self.clip)
                =~= restore_commands(self.matrix, self.clip));
            assert(self@ =~= snapshotted(old(self)@));
        }
        Page { layers: share_layers(&self.layers), bounds: self.bounds }
    }

    /// The composite of the current page without matte or crop, built once and kept
    /// until the next snapshot that finalizes a layer or the next change of bounds.
    pub fn get_image(&mut self) -> (r: Rc<Picture>)
        requires
            old(self).wf(),
        ensures
            final(self).wf(),
            final(self)@ == snapshotted(old(self)@),
            r@ == composite_spec(snapshot_page(old(self)@), None, None),
    {
        let page = self.get_page();
        match &self.cache {
            Some(c) => c.clone(),
            None => {
                let c = Rc::new(page.get_picture(None, None));
                self.cache = Some(c.clone());
                c
            },
        }
    }
}

/// Snapshotting twice with no drawing in between changes nothing the second time and
/// gives the same page both times.
pub proof fn lemma_snapshot_idempotent(v: RecorderView)
    ensures
        snapshotted(snapshotted(v)) == snapshotted(v),
        snapshot_page(snapshotted(v)) == snapshot_page(v),
        !v.changed ==> snapshotted(v) == v,
{
}

/// Snapshots keep the open recording in the state of the active transform and clip.
pub proof fn lemma_snapshot_keeps_state(v: RecorderView)
    requires
        recorder_wf(v),
    ensures
        recorder_wf(snapshotted(v)),
        snapshotted(v).matrix == v.matrix,
        snapshotted(v).clip == v.clip,
{
    if v.changed {
        lemma_restore_commands(v.matrix, v.clip, base_frame());
    }
}

/// The surface after `n` snapshots in a row.
pub open spec fn snapshotted_times(v: RecorderView, n: nat) -> RecorderView
    decreases n,
{
    if n == 0 {
        v
    } else {
        snapshotted(snapshotted_times(v, (n - 1) as nat))
    }
}

/// The mark that a paint operation leaves on a surface in state `v`.
pub open spec fn mark_on(v: RecorderView, p: Paint) -> Mark {
    Mark { paint: p, matrix: v.matrix, clips: state_frame(v.matrix, v.clip).clips }
}

/// Drawing on a surface and then snapshotting shows, after what the page showed,
/// whatever was pending and then the new paint under the active transform and clip.
pub proof fn lemma_draw_then_snapshot(v: RecorderView, p: Paint)
    requires
        recorder_wf(v),
    ensures
        painted(snapshot_page(appended(v, p))) == painted(page_of(v)) + marks(v.current, base_frame())
            + seq![mark_on(v, p)],
{
    let w = appended(v, p);
    let lay = PictureView { commands: w.current, bounds: w.bounds };
    lemma_painted_push(v.layers, lay, base_frame());
    reveal_with_fuel(marks, 1);
    assert(w.current.drop_last() =~= v.current);
    assert(layer_marks(lay) =~= marks(v.current, base_frame()).push(mark_on(v, p)));
}

/// Drawing A and snapshotting, then drawing B and snapshotting: the second page shows
/// what the first showed and then B, under the same transform and clip. On a new
/// surface the first page shows A alone.
pub proof fn lemma_incremental(v: RecorderView, a: Paint, b: Paint)
    requires
        recorder_wf(v),
    ensures
        ({
            let first = snapshot_page(appended(v, a));
            let second = snapshot_page(appended(snapshotted(appended(v, a)), b));
            &&& painted(second) == painted(first) + seq![mark_on(v, b)]
            &&& painted(first) == painted(page_of(v)) + marks(v.current, base_frame()) + seq![
                mark_on(v, a),
            ]
            &&& v == fresh_recorder(v.bounds) ==> painted(first) == seq![
                Mark { paint: a, matrix: identity_matrix(), clips: Seq::empty() },
            ]
        }),
{
    let s1 = appended(v, a);
    let s2 = snapshotted(s1);
    lemma_draw_then_snapshot(v, a);
    assert(recorder_wf(s1)) by {
        reveal_with_fuel(frame_after, 1);
        assert(s1.current.drop_last() =~= v.current);
    }
    lemma_snapshot_keeps_state(s1);
    lemma_draw_then_snapshot(s2, b);
    lemma_restore_commands(v.matrix, v.clip, base_frame());
    assert(page_of(s2) == snapshot_page(s1));
    assert(painted(snapshot_page(s1)) + Seq::<Mark>::empty() =~= painted(snapshot_page(s1)));
    if v == fresh_recorder(v.bounds) {
        reveal_with_fuel(marks, 1);
        assert(painted(page_of(v)) =~= Seq::<Mark>::empty());
        assert(Seq::<Mark>::empty() + Seq::<Mark>::empty() + seq![mark_on(v, a)] =~= seq![
            mark_on(v, a),
        ]);
        assert(mark_on(v, a).clips =~= Seq::<Rect>::empty());
    }
}

/// After a clip and a transform are set, any number of snapshots later a drawing is
/// still made under that transform and that clip alone.
pub proof fn lemma_clip_and_transform_persist(
    v: RecorderView,
    m: Matrix,
    clip: Rect,
    n: nat,
    p: Paint,
)
    requires
        recorder_wf(v),
    ensures
        ({
            let t = snapshotted_times(with_clip(with_matrix(v, m), Some(clip)), n);
            let shown = painted(snapshot_page(appended(t, p)));
            &&& shown.len() > 0
            &&& shown.last() == (Mark { paint: p, matrix: m, clips: seq![clip] })
        }),
    decreases n,
{
    let s = with_clip(with_matrix(v, m), Some(clip));
    lemma_run_concat(with_matrix(v, m).current, restore_commands(m, Some(clip)), base_frame());
    lemma_restore_commands(m, Some(clip), frame_after(with_matrix(v, m).current, base_frame()));
    assert(s.current =~= with_matrix(v, m).current + restore_commands(m, Some(clip)));
    lemma_persist_times(s, n);
    let t = snapshotted_times(s, n);
    lemma_draw_then_snapshot(t, p);
}

proof fn lemma_persist_times(v: RecorderView, n: nat)
    requires
        recorder_wf(v),
    ensures
        recorder_wf(snapshotted_times(v, n)),
        snapshotted_times(v, n).matrix == v.matrix,
        snapshotted_times(v, n).clip == v.clip,
    decreases n,
{
    if n > 0 {
        lemma_persist_times(v, (n - 1) as nat);
        lemma_snapshot_keeps_state(snapshotted_times(v, (n - 1) as nat));
    }
}

} // verus!
