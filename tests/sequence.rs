use page_recorder::geometry::Rect;
use page_recorder::export::ExportError;
use page_recorder::recording::Paint;
use page_recorder::sequence::{
    count_digits, decimal_text, fill_pattern, folio, padding_width, sequence_filenames, PageSequence,
};
use page_recorder::surface::PageRecorder;
use page_recorder::page::Page;

fn page(bounds: Rect) -> Page {
    let mut rec = PageRecorder::new(bounds);
    rec.append(Paint::Clear(1));
    rec.get_page()
}

#[test]
fn auto_padding_widths() {
    assert_eq!(padding_width(-1, 1), 1);
    assert_eq!(padding_width(-1, 9), 1);
    assert_eq!(padding_width(-1, 10), 2);
    assert_eq!(padding_width(-1, 99), 2);
    assert_eq!(padding_width(-1, 100), 3);
}

#[test]
fn explicit_padding_widths() {
    assert_eq!(padding_width(4, 3), 4);
    assert_eq!(padding_width(0, 300), 0);
    assert_eq!(padding_width(-7, 300), 0);
}

#[test]
fn digit_counts() {
    assert_eq!(count_digits(0), 1);
    assert_eq!(count_digits(9), 1);
    assert_eq!(count_digits(10), 2);
    assert_eq!(count_digits(u64::MAX), 20);
    assert_eq!(decimal_text(0), "0");
    assert_eq!(decimal_text(1234567890), "1234567890");
}

#[test]
fn folios_are_zero_padded() {
    assert_eq!(folio(7, 3), "007");
    assert_eq!(folio(123, 2), "123");
    assert_eq!(folio(5, 0), "5");
}

#[test]
fn placeholders_are_replaced() {
    assert_eq!(fill_pattern("frame-{}.png", "01"), "frame-01.png");
    assert_eq!(fill_pattern("{}/{}", "2"), "2/2");
    assert_eq!(fill_pattern("plain.png", "2"), "plain.png");
    assert_eq!(fill_pattern("a{b}{", "9"), "a{b}{");
    assert_eq!(fill_pattern("", "9"), "");
}

#[test]
fn three_frames_auto_padding() {
    assert_eq!(
        sequence_filenames("frame-{}.png", 3, -1),
        vec!["frame-1.png".to_string(), "frame-2.png".to_string(), "frame-3.png".to_string()]
    );
}

#[test]
fn ten_frames_auto_padding() {
    let names = sequence_filenames("p{}.svg", 10, -1);
    assert_eq!(names.len(), 10);
    assert_eq!(names[0], "p01.svg");
    assert_eq!(names[9], "p10.svg");
}

#[test]
fn document_sizes_in_order() {
    let seq = PageSequence::from(vec![page(Rect::new(0, 0, 10, 20)), page(Rect::new(0, 0, 30, 40))]);
    assert_eq!(seq.len(), 2);
    assert_eq!(seq.first().bounds, Rect::new(0, 0, 10, 20));
    assert_eq!(seq.document_sizes(), Ok(vec![(10, 20), (30, 40)]));
}

#[test]
fn document_with_empty_page_fails() {
    let seq = PageSequence::from(vec![page(Rect::new(0, 0, 10, 20)), page(Rect::new(0, 0, 0, 40))]);
    assert_eq!(seq.document_sizes(), Err(ExportError::EmptyPage));
}

#[test]
fn rect_geometry() {
    let a = Rect::new(0, 0, 10, 10);
    assert!(a.intersects(&Rect::new(5, 5, 15, 15)));
    assert!(!a.intersects(&Rect::new(10, 0, 20, 10)));
    assert!(Rect::new(3, 3, 3, 9).is_empty());
    assert_eq!(Rect::from_size(4, 5).width(), 4);
    assert_eq!(Rect::new(-5, 2, 5, 7).height(), 5);
}
