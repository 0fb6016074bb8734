use pelican_installer::ui::layout::{centered_card, Rect};

#[test]
fn card_is_centered() {
    let area = Rect { x: 0, y: 0, width: 80, height: 24 };
    assert_eq!(
        centered_card(area, 40, 10),
        Rect { x: 20, y: 7, width: 40, height: 10 }
    );
}

#[test]
fn card_is_offset_by_the_area() {
    let area = Rect { x: 5, y: 3, width: 80, height: 24 };
    assert_eq!(
        centered_card(area, 40, 10),
        Rect { x: 25, y: 10, width: 40, height: 10 }
    );
}

#[test]
fn card_larger_than_the_area_is_cut_to_it() {
    let area = Rect { x: 2, y: 1, width: 30, height: 8 };
    assert_eq!(centered_card(area, 100, 100), area);
    assert_eq!(
        centered_card(area, 100, 4),
        Rect { x: 2, y: 3, width: 30, height: 4 }
    );
}

#[test]
fn odd_room_goes_to_the_right_and_bottom() {
    let area = Rect { x: 0, y: 0, width: 11, height: 7 };
    assert_eq!(centered_card(area, 4, 2), Rect { x: 3, y: 2, width: 4, height: 2 });
}

#[test]
fn empty_card_and_empty_area() {
    let area = Rect { x: 0, y: 0, width: 10, height: 10 };
    assert_eq!(centered_card(area, 0, 0), Rect { x: 5, y: 5, width: 0, height: 0 });
    let none = Rect { x: 7, y: 9, width: 0, height: 0 };
    assert_eq!(centered_card(none, 3, 3), none);
}

#[test]
fn card_at_the_edge_of_the_terminal() {
    let area = Rect { x: 65000, y: 65000, width: 535, height: 535 };
    assert_eq!(
        centered_card(area, 1, 1),
        Rect { x: 65267, y: 65267, width: 1, height: 1 }
    );
}

#[test]
fn card_of_an_area_beyond_the_terminal_stays_on_it() {
    let area = Rect { x: 65535, y: 65000, width: 100, height: 2000 };
    assert_eq!(
        centered_card(area, 10, 10),
        Rect { x: 65535, y: 65535, width: 10, height: 10 }
    );
    assert_eq!(
        centered_card(area, 100, 1980),
        Rect { x: 65535, y: 65010, width: 100, height: 1980 }
    );
}
