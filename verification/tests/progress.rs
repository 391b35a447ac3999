use randfill::progress::{progress_bar_filled, progress_percent, render_progress_bar, PROGRESS_BAR_LENGTH};

#[test]
fn percent_is_rounded_up() {
    assert_eq!(progress_percent(1, 1000000), 1);
    assert_eq!(progress_percent(1, 3), 34);
    assert_eq!(progress_percent(2, 3), 67);
}

#[test]
fn percent_of_exact_fractions() {
    assert_eq!(progress_percent(1, 2), 50);
    assert_eq!(progress_percent(250000, 1000000), 25);
    assert_eq!(progress_percent(1, 100), 1);
}

#[test]
fn percent_reaches_one_hundred_only_near_the_end() {
    assert_eq!(progress_percent(1000000, 1000000), 100);
    assert_eq!(progress_percent(999999, 1000000), 100);
    assert_eq!(progress_percent(990000, 1000000), 99);
}

#[test]
fn percent_of_the_largest_size() {
    assert_eq!(progress_percent(usize::MAX, usize::MAX), 100);
    assert_eq!(progress_percent(1, usize::MAX), 1);
}

#[test]
fn filled_cells_are_rounded_up() {
    assert_eq!(progress_bar_filled(1, 1000000), 1);
    assert_eq!(progress_bar_filled(1, 20), 1);
    assert_eq!(progress_bar_filled(1, 40), 1);
    assert_eq!(progress_bar_filled(3, 40), 2);
    assert_eq!(progress_bar_filled(20, 20), 20);
}

#[test]
fn the_bar_has_a_fixed_width() {
    for current in [1usize, 5, 11, 20] {
        assert_eq!(render_progress_bar(current, 20).chars().count(), PROGRESS_BAR_LENGTH);
    }
}

#[test]
fn the_bar_fills_from_the_left() {
    assert_eq!(render_progress_bar(5, 20), "*****               ");
    assert_eq!(render_progress_bar(1, 1000000), "*                   ");
    assert_eq!(render_progress_bar(20, 20), "********************");
}
