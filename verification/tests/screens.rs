use rust_mentor::ui::{filled_width, level_description, progress_bar};

#[test]
fn levels_have_names_on_the_screen() {
    assert_eq!(level_description(1), "Absolute Beginner");
    assert_eq!(level_description(2), "Beginner");
    assert_eq!(level_description(3), "Early Intermediate");
    assert_eq!(level_description(4), "Intermediate");
    assert_eq!(level_description(5), "Solid Intermediate");
    assert_eq!(level_description(6), "Advanced Intermediate");
    assert_eq!(level_description(7), "Early Advanced");
    assert_eq!(level_description(8), "Advanced");
    assert_eq!(level_description(9), "Very Advanced");
    assert_eq!(level_description(10), "Expert");
    assert_eq!(level_description(0), "Unknown");
    assert_eq!(level_description(11), "Unknown");
}

#[test]
fn the_bar_shows_the_share_of_answered_questions() {
    assert_eq!(progress_bar(10, 0, 4), "[          ] 0/4 answered");
    assert_eq!(progress_bar(10, 1, 4), "[==        ] 1/4 answered");
    assert_eq!(progress_bar(10, 2, 4), "[=====     ] 2/4 answered");
    assert_eq!(progress_bar(10, 3, 4), "[=======   ] 3/4 answered");
    assert_eq!(progress_bar(10, 4, 4), "[==========] 4/4 answered");
    assert_eq!(progress_bar(3, 0, 0), "[   ] 0/0 answered");
    assert_eq!(progress_bar(0, 1, 2), "[] 1/2 answered");
    assert_eq!(progress_bar(4, 9, 5), "[====] 9/5 answered");
}

#[test]
fn the_filled_cells_never_exceed_the_width() {
    assert_eq!(filled_width(76, 3, 7), 32);
    assert_eq!(filled_width(u16::MAX, usize::MAX - 1, usize::MAX), u16::MAX - 1);
    assert_eq!(filled_width(u16::MAX, usize::MAX, usize::MAX), u16::MAX);
    assert_eq!(filled_width(100, 1, usize::MAX), 0);
    assert_eq!(filled_width(100, 5, 0), 0);
}
