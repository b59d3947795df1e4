use vstd::prelude::*;
use std::rc::Rc;
use crate::geometry::Rect;
use crate::recording::{
    Command, Paint, Picture, PictureView, Frame, Mark, base_frame, frame_after, marks,
    lemma_run_concat,
};

verus! {

/// The canvas at a point in time: finalized layers, oldest first, and the bounds.
pub struct Page {
    pub layers: Vec<Rc<Picture>>,
    pub bounds: Rect,
}

pub struct PageView {
    pub layers: Seq<PictureView>,
    pub bounds: Rect,
}

pub open spec fn layers_view(layers: Seq<Rc<Picture>>) -> Seq<PictureView> {
    layers.map_values(|p: Rc<Picture>| p@)
}

impl View for Page {
    type V = PageView;

    open spec fn view(&self) -> PageView {
        PageView { layers: layers_view(self.layers@), bounds: self.bounds }
    }
}

/// The layers replayed one after another, each from the base state.
pub open spec fn layered(layers: Seq<PictureView>) -> Seq<Command>
    decreases layers.len(),
{
    if layers.len() == 0 {
        Seq::empty()
    } else {
        layered(layers.drop_last()) + seq![Command::Reset] + layers.last().commands
    }
}

/// The single flattened picture of a page: cleared to the matte if one is given,
/// then every layer on top, bottom to top, bounded by `crop` or by the page.
pub open spec fn composite_spec(page: PageView, matte: Option<u32>, crop: Option<Rect>) -> PictureView {
    PictureView {
        commands: match matte {
            Some(c) => seq![Command::Draw(Paint::Clear(c))],
            None => Seq::empty(),
        } + layered(page.layers),
        bounds: match crop {
            Some(r) => r,
            None => page.bounds,
        },
    }
}

/// What the page shows: every layer's marks, each layer run from the base state.
pub open spec fn painted(page: PageView) -> Seq<Mark> {
    marks(layered(page.layers), base_frame())
}

/// The marks of a single layer played from the base state.
pub open spec fn layer_marks(p: PictureView) -> Seq<Mark> {
    marks(p.commands, base_frame())
}

/// Adding a layer adds exactly its own marks after those already shown.
pub proof fn lemma_painted_push(layers: Seq<PictureView>, p: PictureView, f: Frame)
    ensures
        marks(layered(layers.push(p)), f) == marks(layered(layers), f) + layer_marks(p),
{
    let l = layers.push(p);
    assert(l.drop_last() =~= layers);
    let pre = layered(layers);
    lemma_run_concat(pre, seq![Command::Reset], f);
    lemma_run_concat(pre + seq![Command::Reset], p.commands, f);
    let g = frame_after(pre, f);
    reveal_with_fuel(frame_after, 2);
    reveal_with_fuel(marks, 2);
    assert(seq![Command::Reset].drop_last() =~= Seq::<Command>::empty());
    assert(frame_after(seq![Command::Reset], g) == base_frame());
    assert(marks(seq![Command::Reset], g) =~= Seq::<Mark>::empty());
    assert(marks(pre, f) + Seq::<Mark>::empty() =~= marks(pre, f));
}

/// With a matte, the composite first clears to it; then it shows what the page shows.
pub proof fn lemma_composite_marks(page: PageView, matte: Option<u32>, crop: Option<Rect>)
    ensures
        marks(composite_spec(page, matte, crop).commands, base_frame()) == match matte {
            Some(c) => seq![
                Mark { paint: Paint::Clear(c), matrix: base_frame().matrix, clips: Seq::empty() },
            ] + painted(page),
            None => painted(page),
        },
{
    let head: Seq<Command> = match matte {
        Some(c) => seq![Command::Draw(Paint::Clear(c))],
        None => Seq::empty(),
    };
    lemma_run_concat(head, layered(page.layers), base_frame());
    reveal_with_fuel(frame_after, 2);
    reveal_with_fuel(marks, 2);
    assert(head.len() > 0 ==> head.drop_last() =~= Seq::<Command>::empty());
    assert(frame_after(head, base_frame()) == base_frame());
    match matte {
        Some(c) => {},
        None => {
            assert(Seq::<Mark>::empty() + painted(page) =~= painted(page));
        },
    }
}

/// A copy of the layer list that shares every layer.
pub fn share_layers(layers: &Vec<Rc<Picture>>) -> (r: Vec<Rc<Picture>>)
    ensures
        r@ == layers@,
{
    let mut r: Vec<Rc<Picture>> = Vec::new();
    let mut i: usize = 0;
    while i < layers.len()
        invariant
            i <= layers.len(),
            r@ == layers@.subrange(0, i as int),
        decreases layers.len() - i,
    {
        r.push(layers[i].clone());
        i = i + 1;
        assert(r@ =~= layers@.subrange(0, i as int));
    }
    assert(layers@.subrange(0, layers.len() as int) =~= layers@);
    r
}

impl Page {
    /// Flattens the layers into one picture, bounded by `crop` or by the page: cleared
    /// to `matte` first if one is given, then every layer, oldest first.
    pub fn get_picture(&self, matte: Option<u32>, crop: Option<Rect>) -> (r: Picture)
        ensures
            r@ == composite_spec(self@, matte, crop),
    {
        let mut cmds: Vec<Command> = Vec::new();
        match matte {
            Some(c) => cmds.push(Command::Draw(Paint::Clear(c))),
            None => {},
        }
        let ghost head = cmds@;
        let ghost all = layers_view(self.layers@);
        let mut i: usize = 0;
        while i < self.layers.len()
            invariant
                i <= self.layers.len(),
                all == layers_view(self.layers@),
                cmds@ == head + layered(all.subrange(0, i as int)),
            decreases self.layers.len() - i,
        {
            let layer: &Picture = &*self.layers[i];
            cmds.push(Command::Reset);
            let mut j: usize = 0;
            let ghost mid = cmds@;
            while j < layer.commands.len()
                invariant
                    j <= layer.commands.len(),
                    cmds@ == mid + layer.commands@.subrange(0, j as int),
                decreases layer.commands.len() - j,
            {
                cmds.push(layer.commands[j]);
                j = j + 1;
                assert(cmds@ =~= mid + layer.commands@.subrange(0, j as int));
            }
            proof {
                let next = all.subrange(0, i + 1);
                assert(next.drop_last() =~= all.subrange(0, i as int));
                assert(next.last() == layer@);
                assert(layer.commands@.subrange(0, j as int) =~= layer.commands@);
                assert(cmds@ =~= head + layered(next));
            }
            i = i + 1;
        }
        assert(all.subrange(0, self.layers.len() as int) =~= all);
        Picture { commands: cmds, bounds: match crop { Some(r) => r, None => self.bounds } }
    }
}

} // verus!
