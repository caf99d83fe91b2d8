use tempchat::tabs::{SelectedTab, TAB_COUNT};

#[test]
fn previous_at_first_tab_stays() {
    assert_eq!(SelectedTab::Tab1.previous(), SelectedTab::Tab1);
}

#[test]
fn two_tabs_clamp_at_both_ends() {
    let t = SelectedTab::Tab1;
    let t = t.previous();
    assert_eq!(t.index(), 0);
    let t = t.next();
    assert_eq!(t.index(), 1);
    let t = t.next();
    assert_eq!(t.index(), 1);
    assert_eq!(t, SelectedTab::Tab2);
}

#[test]
fn previous_from_second_tab() {
    assert_eq!(SelectedTab::Tab2.previous(), SelectedTab::Tab1);
}

#[test]
fn any_step_sequence_stays_in_range() {
    let steps = [true, true, false, false, false, true, true, true, false];
    let mut t = SelectedTab::Tab1;
    for s in steps {
        t = if s { t.next() } else { t.previous() };
        assert!(t.index() < TAB_COUNT);
    }
    assert_eq!(t, SelectedTab::Tab1);
}

#[test]
fn from_repr_maps_indices() {
    assert_eq!(SelectedTab::from_repr(0), Some(SelectedTab::Tab1));
    assert_eq!(SelectedTab::from_repr(1), Some(SelectedTab::Tab2));
    assert_eq!(SelectedTab::from_repr(2), None);
    assert_eq!(SelectedTab::from_repr(usize::MAX), None);
}

#[test]
fn labels_and_order() {
    assert_eq!(SelectedTab::Tab1.label(), "Channel");
    assert_eq!(SelectedTab::Tab2.label(), "Account");
    assert_eq!(SelectedTab::all(), vec![SelectedTab::Tab1, SelectedTab::Tab2]);
}
