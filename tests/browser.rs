use image_browser::browser::{Browser, Clicks, Shown};
use image_browser::geometry::ImageSize;
use image_browser::selection::Selection;

const BACK: Clicks = Clicks { back: true, forward: false, quit: false };
const FORWARD: Clicks = Clicks { back: false, forward: true, quit: false };
const QUIT: Clicks = Clicks { back: false, forward: false, quit: true };
const NONE: Clicks = Clicks { back: false, forward: false, quit: false };

fn browser(n: usize) -> Browser<u32> {
    let images = (0..n).map(|i| format!("{}.png", i)).collect();
    Browser::new("/pics/".to_string(), images)
}

#[test]
fn back_never_goes_below_zero() {
    for start in 0..4 {
        let mut s = Selection::new(4);
        for _ in 0..start {
            s.step_forward();
        }
        assert_eq!(s.index(), start);
        for k in 1..10 {
            s.step_back();
            assert_eq!(s.index(), start.saturating_sub(k));
        }
    }
}

#[test]
fn forward_never_reaches_the_length() {
    for start in 0..4 {
        let mut s = Selection::new(4);
        for _ in 0..start {
            s.step_forward();
        }
        for k in 1..10 {
            s.step_forward();
            assert_eq!(s.index(), (start + k).min(3));
            assert!(s.index() < s.len());
        }
    }
}

#[test]
fn stepping_an_empty_selection_stays_at_zero() {
    let mut s = Selection::new(0);
    s.step_forward();
    assert_eq!(s.index(), 0);
    s.step_back();
    assert_eq!(s.index(), 0);
}

#[test]
fn new_browser_shows_nothing() {
    let b = browser(3);
    assert_eq!(b.selected(), 0);
    assert!(b.display().data.is_none());
    assert!(b.frame().is_none());
    assert!(!b.exit_requested());
}

#[test]
fn forward_click_asks_for_the_next_file() {
    let mut b = browser(3);
    let step = b.on_clicks(FORWARD);
    assert_eq!(b.selected(), 1);
    assert_eq!(step.load.as_deref(), Some("/pics/1.png"));
    assert!(!step.exit);
}

#[test]
fn click_at_the_edge_reloads_the_same_file() {
    let mut b = browser(3);
    let step = b.on_clicks(BACK);
    assert_eq!(b.selected(), 0);
    assert_eq!(step.load.as_deref(), Some("/pics/0.png"));
}

#[test]
fn frame_without_clicks_loads_nothing() {
    let mut b = browser(3);
    let step = b.on_clicks(NONE);
    assert!(step.load.is_none());
    assert!(!step.exit);
}

#[test]
fn clicks_on_an_empty_list_load_nothing() {
    let mut b = browser(0);
    let step = b.on_clicks(FORWARD);
    assert!(step.load.is_none());
    assert_eq!(b.selected(), 0);
}

#[test]
fn failed_load_clears_the_display_and_keeps_the_selection() {
    let mut b = browser(3);
    b.on_clicks(FORWARD);
    b.finish_load(Some(Shown { size: ImageSize { width: 2, height: 1 }, texture: 7 }));
    assert!(b.frame().is_some());
    b.on_clicks(FORWARD);
    b.finish_load(None);
    assert!(b.display().data.is_none());
    assert!(b.frame().is_none());
    assert_eq!(b.selected(), 2);
}

#[test]
fn successful_load_draws_the_image_aspect_ratio() {
    let mut b = browser(3);
    b.on_clicks(FORWARD);
    b.finish_load(Some(Shown { size: ImageSize { width: 640, height: 480 }, texture: 9 }));
    assert_eq!(b.display().data.as_ref().map(|s| s.texture), Some(9));
    let shape = b.frame().unwrap();
    for v in shape.vertices() {
        assert_eq!(v.x_den, 480);
        assert_eq!(v.x_num.abs(), 640);
    }
    assert!(shape.vertices().iter().any(|v| v.x_num == 640));
    assert!(shape.vertices().iter().any(|v| v.x_num == -640));
}

#[test]
fn quit_ends_the_loop_in_the_same_frame() {
    let mut b = browser(3);
    b.on_clicks(FORWARD);
    b.finish_load(Some(Shown { size: ImageSize { width: 1, height: 1 }, texture: 1 }));
    let step = b.on_clicks(QUIT);
    assert!(step.exit);
    assert!(b.exit_requested());
    assert!(b.frame().is_none());
    let later = b.on_clicks(FORWARD);
    assert!(later.exit);
    assert!(later.load.is_none());
    assert_eq!(b.selected(), 1);
    assert!(b.frame().is_none());
}

#[test]
fn back_and_forward_in_one_frame_apply_back_first() {
    let mut b = browser(3);
    let step = b.on_clicks(Clicks { back: true, forward: true, quit: false });
    assert_eq!(b.selected(), 1);
    assert_eq!(step.load.as_deref(), Some("/pics/1.png"));
}
