use health_bar::{activate_bars, find_display_bar, Activation, DisplayHealthBar};

const SECOND: u64 = 1_000_000_000;

fn running(seconds: u64) -> Option<DisplayHealthBar> {
    Some(DisplayHealthBar { elapsed_ns: seconds * SECOND })
}

#[test]
fn find_display_bar_in_no_children() {
    assert_eq!(find_display_bar(&vec![]), None);
}

#[test]
fn find_display_bar_among_other_children() {
    assert_eq!(find_display_bar(&vec![None, None, None]), None);
    assert_eq!(find_display_bar(&vec![None, running(1), None]), Some(1));
    assert_eq!(find_display_bar(&vec![running(1)]), Some(0));
}

#[test]
fn find_display_bar_takes_the_last_of_several() {
    assert_eq!(find_display_bar(&vec![running(1), None, running(2), None]), Some(2));
    assert_eq!(find_display_bar(&vec![running(1), running(2), running(3)]), Some(2));
}

#[test]
fn entity_without_children_gets_a_bar() {
    let mut children = vec![];
    assert_eq!(activate_bars(&mut children), Activation::Spawn);
    assert_eq!(children, vec![Some(DisplayHealthBar::new())]);
}

#[test]
fn entity_with_other_children_gets_a_bar_behind_them() {
    let mut children = vec![None, None];
    assert_eq!(activate_bars(&mut children), Activation::Spawn);
    assert_eq!(children, vec![None, None, Some(DisplayHealthBar::new())]);
}

#[test]
fn existing_bar_is_reset_and_none_is_added() {
    let mut children = vec![None, running(4), None];
    assert_eq!(activate_bars(&mut children), Activation::Reset(1));
    assert_eq!(children, vec![None, running(0), None]);
}

#[test]
fn expired_bar_that_is_still_a_child_is_reset() {
    let mut children = vec![running(10)];
    assert_eq!(activate_bars(&mut children), Activation::Reset(0));
    assert_eq!(children, vec![running(0)]);
}

#[test]
fn only_the_last_of_several_bars_is_reset() {
    let mut children = vec![running(3), None, running(7), None];
    assert_eq!(activate_bars(&mut children), Activation::Reset(2));
    assert_eq!(children, vec![running(3), None, running(0), None]);
}

#[test]
fn second_activation_creates_no_second_bar() {
    let mut children = vec![None];
    assert_eq!(activate_bars(&mut children), Activation::Spawn);
    let after_first = children.clone();
    assert_eq!(activate_bars(&mut children), Activation::Reset(1));
    assert_eq!(children, after_first);
    assert_eq!(children.iter().filter(|child| child.is_some()).count(), 1);
}

#[test]
fn second_activation_of_an_existing_bar_changes_nothing() {
    let mut children = vec![running(6), None];
    assert_eq!(activate_bars(&mut children), Activation::Reset(0));
    let after_first = children.clone();
    assert_eq!(activate_bars(&mut children), Activation::Reset(0));
    assert_eq!(children, after_first);
}

#[test]
fn activation_leaves_exactly_one_bar() {
    for mut children in [vec![], vec![None], vec![running(2)], vec![None, running(9), None]] {
        activate_bars(&mut children);
        assert_eq!(children.iter().filter(|child| child.is_some()).count(), 1);
    }
}

#[test]
fn activation_gives_the_bar_ten_more_seconds() {
    let mut children = vec![running(9)];
    activate_bars(&mut children);
    let mut bar = children[0].unwrap();
    assert!(!bar.tick(9 * SECOND));
    assert!(bar.tick(SECOND));
}
