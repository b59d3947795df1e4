use std::rc::Rc;
use page_recorder::geometry::{Matrix, Rect};
use page_recorder::recording::{Command, Paint};
use page_recorder::surface::PageRecorder;

fn square() -> Rect {
    Rect::new(0, 0, 100, 100)
}

fn draws(cmds: &[Command]) -> Vec<Paint> {
    cmds.iter()
        .filter_map(|c| match c {
            Command::Draw(p) => Some(*p),
            _ => None,
        })
        .collect()
}

#[test]
fn snapshot_twice_without_drawing_shares_layers() {
    let mut rec = PageRecorder::new(square());
    rec.append(Paint::FillRect(Rect::new(10, 10, 20, 20), 0xff0000ff));
    let first = rec.get_page();
    let second = rec.get_page();
    assert_eq!(first.layers.len(), 1);
    assert_eq!(second.layers.len(), 1);
    assert!(Rc::ptr_eq(&first.layers[0], &second.layers[0]));
    assert_eq!(first.bounds, second.bounds);
}

#[test]
fn snapshot_of_untouched_surface_is_empty() {
    let mut rec = PageRecorder::new(square());
    let page = rec.get_page();
    assert!(page.layers.is_empty());
    assert_eq!(page.bounds, square());
}

#[test]
fn incremental_drawing_adds_layers_in_order() {
    let a = Paint::FillRect(Rect::new(0, 0, 10, 10), 1);
    let b = Paint::StrokeRect(Rect::new(5, 5, 50, 50), 2);
    let mut rec = PageRecorder::new(square());
    rec.append(a);
    let page1 = rec.get_page();
    rec.append(b);
    let page2 = rec.get_page();
    let p1 = page1.get_picture(None, None);
    let p2 = page2.get_picture(None, None);
    assert_eq!(draws(&p1.commands), vec![a]);
    assert_eq!(draws(&p2.commands), vec![a, b]);
    assert_eq!(page1.layers.len(), 1);
    assert_eq!(draws(&page1.get_picture(None, None).commands), vec![a]);
}

#[test]
fn clip_and_matrix_survive_snapshots() {
    let m = Matrix { scale_x: 2, skew_x: 0, trans_x: 5, skew_y: 0, scale_y: 2, trans_y: 7 };
    let clip = Rect::new(10, 10, 60, 60);
    let mut rec = PageRecorder::new(square());
    rec.set_matrix(m);
    rec.set_clip(&Some(clip));
    rec.append(Paint::Clear(3));
    rec.get_page();
    rec.get_page();
    rec.append(Paint::FillRect(Rect::new(1, 1, 2, 2), 4));
    let page = rec.get_page();
    let last = &page.layers[page.layers.len() - 1].commands;
    assert_eq!(
        last[..],
        [
            Command::Reset,
            Command::ClipRect(clip),
            Command::SetMatrix(m),
            Command::Draw(Paint::FillRect(Rect::new(1, 1, 2, 2), 4)),
        ]
    );
}

#[test]
fn set_bounds_discards_layers() {
    let mut rec = PageRecorder::new(square());
    rec.append(Paint::Clear(1));
    rec.get_page();
    rec.set_bounds(Rect::new(0, 0, 10, 10));
    let page = rec.get_page();
    assert!(page.layers.is_empty());
    assert_eq!(page.bounds, Rect::new(0, 0, 10, 10));
}

#[test]
fn update_bounds_keeps_layers() {
    let mut rec = PageRecorder::new(square());
    rec.append(Paint::Clear(1));
    rec.get_page();
    rec.update_bounds(Rect::new(0, 0, 10, 10));
    let page = rec.get_page();
    assert_eq!(page.layers.len(), 1);
    assert_eq!(page.bounds, Rect::new(0, 0, 10, 10));
}

#[test]
fn composite_with_matte_clears_first() {
    let mut rec = PageRecorder::new(square());
    rec.append(Paint::FillRect(Rect::new(0, 0, 5, 5), 9));
    let page = rec.get_page();
    let crop = Rect::new(1, 1, 4, 4);
    let pic = page.get_picture(Some(0xffffffff), Some(crop));
    assert_eq!(pic.bounds, crop);
    assert_eq!(pic.commands[0], Command::Draw(Paint::Clear(0xffffffff)));
    assert_eq!(draws(&pic.commands), vec![Paint::Clear(0xffffffff), Paint::FillRect(Rect::new(0, 0, 5, 5), 9)]);
}

#[test]
fn cached_image_is_reused_until_drawing() {
    let mut rec = PageRecorder::new(square());
    rec.append(Paint::Clear(1));
    let a = rec.get_image();
    let b = rec.get_image();
    assert!(Rc::ptr_eq(&a, &b));
    rec.append(Paint::Clear(2));
    let c = rec.get_image();
    assert!(!Rc::ptr_eq(&a, &c));
    assert_eq!(draws(&c.commands), vec![Paint::Clear(1), Paint::Clear(2)]);
}
