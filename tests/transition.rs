use pager::{Direction, Frame, PagerError, Transition};

fn run(mut t: Transition) -> Vec<Frame> {
    let mut frames = Vec::new();
    loop {
        let (frame, more) = t.tick();
        frames.push(frame);
        if !more {
            return frames;
        }
    }
}

#[test]
fn right_ten_steps_over_hundred() {
    let t = Transition::start(Direction::Right, 10, 100, 50).unwrap();
    let frames = run(t);
    let progress: Vec<u32> = frames.iter().map(|f| f.progress).collect();
    assert_eq!(progress, vec![0, 10, 20, 30, 40, 50, 60, 70, 80, 90, 100]);
    let at30 = frames[3];
    assert_eq!((at30.before_x, at30.before_y, at30.after_x, at30.after_y), (30, 0, -70, 0));
    let last = frames[10];
    assert_eq!((last.before_x, last.before_y, last.after_x, last.after_y), (100, 0, 0, 0));
}

#[test]
fn up_five_steps_over_fifty() {
    let t = Transition::start(Direction::Up, 5, 100, 50).unwrap();
    let frames = run(t);
    let progress: Vec<u32> = frames.iter().map(|f| f.progress).collect();
    assert_eq!(progress, vec![0, 10, 20, 30, 40, 50]);
    let at20 = frames[2];
    assert_eq!((at20.before_x, at20.before_y, at20.after_x, at20.after_y), (0, -20, 0, 30));
}

#[test]
fn uneven_step_lands_on_extent() {
    let t = Transition::start(Direction::Left, 3, 100, 50).unwrap();
    let frames = run(t);
    let progress: Vec<u32> = frames.iter().map(|f| f.progress).collect();
    assert_eq!(progress, vec![0, 33, 66, 100]);
    let last = frames[3];
    assert_eq!((last.before_x, last.before_y, last.after_x, last.after_y), (-100, 0, 0, 0));
}

#[test]
fn advances_until_finished_equal_steps() {
    for (extent, steps) in [(100u32, 10u32), (100, 3), (50, 7), (7, 7), (1, 1), (99, 2), (5, 12)] {
        let t = Transition::start(Direction::Right, steps, extent, 1).unwrap();
        let frames = run(t);
        let advances = (frames.len() - 1) as u32;
        assert_eq!(advances, steps);
        for (k, frame) in frames.iter().enumerate() {
            assert_eq!(frame.progress as u64, (k as u64 * extent as u64 / steps as u64).min(extent as u64));
        }
        assert_eq!(frames.last().unwrap().progress, extent);
    }
}

#[test]
fn vertical_slides_use_height() {
    let t = Transition::start(Direction::Down, 5, 100, 50).unwrap();
    let frames = run(t);
    assert_eq!(frames.len(), 6);
    let last = frames[5];
    assert_eq!((last.before_x, last.before_y, last.after_x, last.after_y), (0, 50, 0, 0));
}

#[test]
fn zero_steps_is_invalid() {
    assert_eq!(
        Transition::start(Direction::Right, 0, 100, 50).err(),
        Some(PagerError::InvalidParameter)
    );
}

#[test]
fn more_steps_than_pixels_still_finishes() {
    let t = Transition::start(Direction::Up, 60, 100, 50).unwrap();
    let frames = run(t);
    assert_eq!(frames.len(), 61);
    assert!(frames.windows(2).all(|w| w[0].progress <= w[1].progress));
    assert_eq!(frames[6].progress, 5);
    let last = frames[60];
    assert_eq!((last.progress, last.before_y, last.after_y), (50, -50, 0));
}

#[test]
fn zero_extent_finishes_at_first_frame() {
    let t = Transition::start(Direction::Right, 4, 0, 50).unwrap();
    let frames = run(t);
    assert_eq!(frames.len(), 1);
    assert_eq!((frames[0].progress, frames[0].before_x, frames[0].after_x), (0, 0, 0));
}

#[test]
fn finished_after_last_tick() {
    let mut t = Transition::start(Direction::Right, 1, 4, 4).unwrap();
    assert!(!t.is_finished());
    assert_eq!(t.frame().progress, 0);
    let (_, more) = t.tick();
    assert!(more);
    assert!(t.is_finished());
    let (frame, more) = t.tick();
    assert!(!more);
    assert_eq!(frame.progress, 4);
}
