use gallery_viewer::slideshow::{CurrentView, Slideshow, SWAP_INTERVAL_MS};

fn loaded(n: u32) -> Slideshow<u32> {
    let mut s = Slideshow::new(SWAP_INTERVAL_MS, 0);
    let images: Vec<u32> = (0..n).collect();
    s.on_images_loaded(images);
    s
}

fn index_of(v: CurrentView) -> usize {
    match v {
        CurrentView::Image { index, .. } => index,
        CurrentView::Placeholder => panic!("expected an image"),
    }
}

fn countdown_of(v: CurrentView) -> u64 {
    match v {
        CurrentView::Image { countdown_secs, .. } => countdown_secs,
        CurrentView::Placeholder => panic!("expected an image"),
    }
}

#[test]
fn full_cycle_returns_to_start() {
    // As many full-interval ticks as there are images bring the index back.
    let mut s = loaded(4);
    assert_eq!(index_of(s.current_view(0)), 0);
    let mut now = 0;
    for step in 1..=4u64 {
        now += SWAP_INTERVAL_MS;
        s.on_tick(now);
        assert_eq!(index_of(s.current_view(now)) as u64, step % 4);
    }
    assert_eq!(index_of(s.current_view(now)), 0);
}

#[test]
fn tick_never_moves_single_image() {
    // One image: any number of ticks leaves the index at 0.
    let mut s = loaded(1);
    for k in 1..50u64 {
        s.on_tick(k * SWAP_INTERVAL_MS);
        assert_eq!(index_of(s.current_view(k * SWAP_INTERVAL_MS)), 0);
    }
}

#[test]
fn tick_on_empty_keeps_placeholder() {
    let mut s = Slideshow::<u32>::new(SWAP_INTERVAL_MS, 0);
    for k in 1..10u64 {
        s.on_tick(k * SWAP_INTERVAL_MS);
        assert_eq!(s.current_view(k * SWAP_INTERVAL_MS), CurrentView::Placeholder);
        assert!(s.current_image().is_none());
    }
}

#[test]
fn load_keeps_index_when_still_valid() {
    let mut s = loaded(3);
    s.on_tick(SWAP_INTERVAL_MS);
    assert_eq!(index_of(s.current_view(SWAP_INTERVAL_MS)), 1);
    // A new list of the same length: the index stays where it was.
    s.on_images_loaded(vec![7, 8, 9]);
    assert_eq!(index_of(s.current_view(SWAP_INTERVAL_MS)), 1);
    assert_eq!(s.current_image(), Some(&8));
}

#[test]
fn load_clamps_index_when_out_of_range() {
    let mut s = loaded(3);
    s.on_tick(SWAP_INTERVAL_MS);
    s.on_tick(2 * SWAP_INTERVAL_MS);
    assert_eq!(index_of(s.current_view(2 * SWAP_INTERVAL_MS)), 2);
    // A shorter list: index 2 no longer exists, so it clamps to the front.
    s.on_images_loaded(vec![7, 8]);
    assert_eq!(index_of(s.current_view(2 * SWAP_INTERVAL_MS)), 0);
    assert_eq!(s.current_image(), Some(&7));
}

#[test]
fn load_empty_reenters_placeholder() {
    let mut s = loaded(3);
    s.on_images_loaded(Vec::new());
    assert_eq!(s.current_view(0), CurrentView::Placeholder);
    assert!(s.current_image().is_none());
}

#[test]
fn countdown_counts_whole_seconds_down() {
    let s = loaded(2);
    // Ceiling of the remaining time, in whole seconds.
    assert_eq!(countdown_of(s.current_view(0)), 5);
    assert_eq!(countdown_of(s.current_view(1)), 5);
    assert_eq!(countdown_of(s.current_view(4000)), 1);
    assert_eq!(countdown_of(s.current_view(4001)), 1);
    assert_eq!(countdown_of(s.current_view(4999)), 1);
    assert_eq!(countdown_of(s.current_view(5000)), 0);
    assert_eq!(countdown_of(s.current_view(9999)), 0);
}

#[test]
fn countdown_never_increases_within_interval() {
    let s = loaded(2);
    let mut last = countdown_of(s.current_view(0));
    for t in 1..=SWAP_INTERVAL_MS {
        let c = countdown_of(s.current_view(t));
        assert!(c <= last);
        last = c;
    }
    // A whole second more elapsed, still within the interval: strictly less.
    assert!(countdown_of(s.current_view(1500)) < countdown_of(s.current_view(500)));
}

#[test]
fn scenario_three_images() {
    // Swap interval 5 s; three images loaded at time zero.
    let mut s = loaded(3);
    s.on_tick(4900);
    assert_eq!(index_of(s.current_view(4900)), 0);
    s.on_tick(5100);
    assert_eq!(index_of(s.current_view(5100)), 1);
    s.on_tick(5100 + 5100);
    assert_eq!(index_of(s.current_view(5100 + 5100)), 2);
    s.on_tick(5100 + 5100 + 5100);
    assert_eq!(index_of(s.current_view(5100 + 5100 + 5100)), 0);
}

#[test]
fn early_ticks_do_not_swap() {
    let mut s = loaded(3);
    // Ticks fire every 100 ms, far more often than the swap interval.
    for t in (100..SWAP_INTERVAL_MS).step_by(100) {
        s.on_tick(t);
        assert_eq!(index_of(s.current_view(t)), 0);
    }
    s.on_tick(SWAP_INTERVAL_MS);
    assert_eq!(index_of(s.current_view(SWAP_INTERVAL_MS)), 1);
}

#[test]
fn tick_resets_countdown_on_swap() {
    let mut s = loaded(2);
    s.on_tick(5000);
    assert_eq!(index_of(s.current_view(5000)), 1);
    assert_eq!(countdown_of(s.current_view(5000)), 5);
    assert_eq!(countdown_of(s.current_view(7500)), 3);
    assert_eq!(s.last_swap_time_ms(), 5000);
}
