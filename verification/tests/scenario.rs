use health_bar::{
    activate_bars, countdown_bars, update_bars, Activation, DisplayHealthBar, BAR_HEIGHT,
    BAR_WIDTH,
};

const SECOND: u64 = 1_000_000_000;

#[test]
fn bar_is_shown_on_the_first_change_and_removed_ten_seconds_later() {
    let max_val: f32 = 100.0;
    let cur_val: f32 = 50.0;

    // The entity has no children yet when its health drops from 100 to 50.
    let mut children: Vec<Option<DisplayHealthBar>> = vec![];
    assert_eq!(activate_bars(&mut children), Activation::Spawn);
    assert_eq!(children.len(), 1);
    let bar = children[0].unwrap();
    assert_eq!(bar.time_left_ns(), 10 * SECOND);
    assert_eq!((cur_val / max_val) * BAR_WIDTH as f32, 25.0);
    assert_eq!(BAR_HEIGHT as f32, 5.0);

    // Once the child exists, a change of health resizes it and nothing else.
    assert_eq!(update_bars(&children), vec![0]);

    // No further change: only time passes. Half a second a tick, the bar is
    // there for nineteen ticks and goes on the twentieth.
    let mut bars = vec![bar];
    for _ in 0..19 {
        assert_eq!(countdown_bars(&mut bars, SECOND / 2), Vec::<usize>::new());
    }
    assert_eq!(bars[0].elapsed_ns, 9 * SECOND + SECOND / 2);
    assert_eq!(countdown_bars(&mut bars, SECOND / 2), vec![0]);
    assert_eq!(bars[0].elapsed_ns, 10 * SECOND);
    assert!(bars[0].finished());
}

#[test]
fn repeated_changes_keep_one_bar_alive() {
    let mut children: Vec<Option<DisplayHealthBar>> = vec![None];
    assert_eq!(activate_bars(&mut children), Activation::Spawn);

    for _ in 0..3 {
        // Six seconds pass, then the health changes again.
        let mut bars = vec![children[1].unwrap()];
        assert_eq!(countdown_bars(&mut bars, 6 * SECOND), Vec::<usize>::new());
        children[1] = Some(bars[0]);
        assert_eq!(activate_bars(&mut children), Activation::Reset(1));
        assert_eq!(update_bars(&children), vec![1]);
        assert_eq!(children.len(), 2);
    }

    // Left alone, the bar goes ten seconds after the last change.
    let mut bars = vec![children[1].unwrap()];
    assert_eq!(countdown_bars(&mut bars, 9 * SECOND), Vec::<usize>::new());
    assert_eq!(countdown_bars(&mut bars, SECOND), vec![0]);
}
