use pager::{Direction, Frame, FrameAction, ImageBuffer, Pager, PagerError, Position};

fn png(width: u32, height: u32, pixels: Vec<u8>) -> Vec<u8> {
    let img = image::RgbaImage::from_raw(width, height, pixels).unwrap();
    let mut out = std::io::Cursor::new(Vec::new());
    img.write_to(&mut out, image::ImageOutputFormat::Png).unwrap();
    out.into_inner()
}

fn solid(width: u32, height: u32, value: u8) -> ImageBuffer {
    ImageBuffer::new(width, height, vec![value; (4 * width * height) as usize]).unwrap()
}

fn ready() -> Pager<u32> {
    let mut p: Pager<u32> = Pager::new();
    p.initialize(1, 100, 50);
    p
}

fn drawn(a: FrameAction) -> (Frame, bool) {
    match a {
        FrameAction::Draw { frame, more } => (frame, more),
        FrameAction::Idle => panic!("expected a frame to draw"),
    }
}

#[test]
fn transition_before_initialize_is_refused() {
    let mut p: Pager<u32> = Pager::new();
    assert!(!p.is_initialized());
    let r = p.transition(Direction::Right, 10, solid(1, 1, 0), solid(1, 1, 1));
    assert_eq!(r, Err(PagerError::NotInitialized));
    assert!(p.image(Position::Before).is_none());
}

#[test]
fn initialize_twice_keeps_first_context() {
    let mut p: Pager<u32> = Pager::new();
    p.initialize(11, 100, 50);
    p.initialize(22, 300, 200);
    assert!(p.is_initialized());
    assert_eq!(p.context(), Some(&11));
    assert_eq!((p.width(), p.height()), (100, 50));
}

#[test]
fn transition_runs_to_the_end_and_stops() {
    let mut p = ready();
    let ticket = p.transition(Direction::Right, 10, solid(1, 1, 0), solid(1, 1, 9)).unwrap();
    let mut progress = Vec::new();
    loop {
        let (frame, more) = drawn(p.on_frame(ticket));
        progress.push(frame.progress);
        if !more {
            break;
        }
    }
    assert_eq!(progress, vec![0, 10, 20, 30, 40, 50, 60, 70, 80, 90, 100]);
    assert_eq!(p.on_frame(ticket), FrameAction::Idle);
    assert_eq!(p.image(Position::After).unwrap().pixels(), &[9, 9, 9, 9]);
}

#[test]
fn invalid_step_count_leaves_state() {
    let mut p = ready();
    let ticket = p.transition(Direction::Up, 5, solid(1, 1, 0), solid(1, 1, 1)).unwrap();
    assert_eq!(
        p.transition(Direction::Up, 0, solid(1, 1, 2), solid(1, 1, 3)),
        Err(PagerError::InvalidParameter)
    );
    let (frame, more) = drawn(p.on_frame(ticket));
    assert_eq!(frame.progress, 0);
    assert!(more);
    assert_eq!(p.image(Position::Before).unwrap().pixels(), &[0, 0, 0, 0]);
}

#[test]
fn more_steps_than_canvas_pixels_is_accepted() {
    let img = png(1, 1, vec![0, 0, 0, 255]);
    let mut p = ready();
    let ticket = p.up(60, &img, &img).unwrap();
    let mut last = None;
    let mut count = 0;
    loop {
        let (frame, more) = drawn(p.on_frame(ticket));
        count += 1;
        last = Some(frame);
        if !more {
            break;
        }
    }
    assert_eq!(count, 61);
    let last = last.unwrap();
    assert_eq!((last.progress, last.before_y, last.after_y), (50, -50, 0));
}

#[test]
fn new_transition_preempts_running_one() {
    let mut p = ready();
    let first = p.transition(Direction::Right, 10, solid(1, 1, 0), solid(1, 1, 1)).unwrap();
    drawn(p.on_frame(first));
    drawn(p.on_frame(first));
    let second = p.transition(Direction::Up, 5, solid(1, 1, 2), solid(1, 1, 3)).unwrap();
    assert_ne!(first, second);
    assert_eq!(p.on_frame(first), FrameAction::Idle);
    let (frame, more) = drawn(p.on_frame(second));
    assert_eq!((frame.progress, frame.after_y), (0, 50));
    assert!(more);
    assert_eq!(p.on_frame(first), FrameAction::Idle);
    let (frame, _) = drawn(p.on_frame(second));
    assert_eq!((frame.progress, frame.before_y, frame.after_y), (10, -10, 40));
}

#[test]
fn up_decodes_both_images() {
    let mut p = ready();
    let before = png(2, 1, vec![1, 2, 3, 255, 4, 5, 6, 255]);
    let after = png(1, 2, vec![7, 8, 9, 255, 10, 11, 12, 255]);
    let ticket = p.up(5, &before, &after).unwrap();
    let b = p.image(Position::Before).unwrap();
    assert_eq!((b.width(), b.height()), (2, 1));
    assert_eq!(b.pixels(), &[1, 2, 3, 255, 4, 5, 6, 255]);
    let a = p.image(Position::After).unwrap();
    assert_eq!((a.width(), a.height()), (1, 2));
    assert_eq!(a.pixels(), &[7, 8, 9, 255, 10, 11, 12, 255]);
    let (frame, _) = drawn(p.on_frame(ticket));
    assert_eq!((frame.before_y, frame.after_y), (0, 50));
}

#[test]
fn each_direction_entry_point() {
    let img = png(1, 1, vec![0, 0, 0, 255]);
    let mut p = ready();
    let t = p.right(10, &img, &img).unwrap();
    let (f, _) = drawn(p.on_frame(t));
    assert_eq!((f.after_x, f.after_y), (-100, 0));
    let t = p.down(10, &img, &img).unwrap();
    let (f, _) = drawn(p.on_frame(t));
    assert_eq!((f.after_x, f.after_y), (0, -50));
    let t = p.left(10, &img, &img).unwrap();
    let (f, _) = drawn(p.on_frame(t));
    assert_eq!((f.after_x, f.after_y), (100, 0));
}

#[test]
fn undecodable_before_image() {
    let mut p = ready();
    let good = png(1, 1, vec![0, 0, 0, 255]);
    assert_eq!(p.up(5, b"not an image", &good), Err(PagerError::Decode(Position::Before)));
    assert!(p.image(Position::Before).is_none());
}

#[test]
fn undecodable_after_image() {
    let mut p = ready();
    let good = png(1, 1, vec![0, 0, 0, 255]);
    assert_eq!(p.left(5, &good, &[]), Err(PagerError::Decode(Position::After)));
}

#[test]
fn decoding_comes_before_initialization_check() {
    let mut p: Pager<u32> = Pager::new();
    let good = png(1, 1, vec![0, 0, 0, 255]);
    assert_eq!(p.down(5, &good, &good), Err(PagerError::NotInitialized));
}
