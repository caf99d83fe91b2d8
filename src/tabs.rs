//! The ordered, fixed set of panels and saturating steps between them.
use vstd::prelude::*;

verus! {

/// Number of panels in the tab bar.
pub const TAB_COUNT: usize = 2;

/// One selectable panel of the tab bar, in display order.
#[derive(Clone, Copy, Debug, PartialEq, Eq, Structural)]
pub enum SelectedTab {
    /// The channel panel (shown first).
    Tab1,
    /// The account panel, which holds the text field.
    Tab2,
}

impl SelectedTab {
    /// Position of the panel in the tab bar, counting from zero.
    pub open spec fn spec_index(self) -> int {
        match self {
            SelectedTab::Tab1 => 0,
            SelectedTab::Tab2 => 1,
        }
    }

    /// The panel at `i`, if there is one.
    pub open spec fn spec_from_index(i: int) -> Option<SelectedTab> {
        if i == 0 {
            Some(SelectedTab::Tab1)
        } else if i == 1 {
            Some(SelectedTab::Tab2)
        } else {
            None
        }
    }

    /// The panel one step to the right, or `self` at the last one.
    pub open spec fn spec_next(self) -> SelectedTab {
        if self.spec_index() + 1 < TAB_COUNT {
            SelectedTab::spec_from_index(self.spec_index() + 1).unwrap()
        } else {
            self
        }
    }

    /// The panel one step to the left, or `self` at the first one.
    pub open spec fn spec_previous(self) -> SelectedTab {
        if self.spec_index() > 0 {
            SelectedTab::spec_from_index(self.spec_index() - 1).unwrap()
        } else {
            self
        }
    }

    /// Position of the panel in the tab bar.
    pub fn index(self) -> (r: usize)
        ensures
            r == self.spec_index(),
            r < TAB_COUNT,
    {
        match self {
            SelectedTab::Tab1 => 0,
            SelectedTab::Tab2 => 1,
        }
    }

    /// The panel at position `i`, or `None` past the last one.
    pub fn from_repr(i: usize) -> (r: Option<SelectedTab>)
        ensures
            r == SelectedTab::spec_from_index(i as int),
            r is Some <==> i < TAB_COUNT,
            r matches Some(t) ==> t.spec_index() == i,
    {
        if i == 0 {
            Some(SelectedTab::Tab1)
        } else if i == 1 {
            Some(SelectedTab::Tab2)
        } else {
            None
        }
    }

    /// The name shown for the panel in the tab bar.
    pub open spec fn spec_label(self) -> Seq<char> {
        match self {
            SelectedTab::Tab1 => "Channel"@,
            SelectedTab::Tab2 => "Account"@,
        }
    }

    /// The name shown for the panel in the tab bar.
    pub fn label(self) -> (r: &'static str)
        ensures
            r@ == self.spec_label(),
    {
        match self {
            SelectedTab::Tab1 => "Channel",
            SelectedTab::Tab2 => "Account",
        }
    }

    /// Every panel, in display order.
    pub fn all() -> (r: Vec<SelectedTab>)
        ensures
            r@ == seq![SelectedTab::Tab1, SelectedTab::Tab2],
            r@.len() == TAB_COUNT,
            forall|i: int| 0 <= i < r@.len() ==> (#[trigger] r@[i]).spec_index() == i,
    {
        let mut r: Vec<SelectedTab> = Vec::new();
        r.push(SelectedTab::Tab1);
        r.push(SelectedTab::Tab2);
        assert(r@ =~= seq![SelectedTab::Tab1, SelectedTab::Tab2]);
        r
    }

    /// Steps one panel to the left; the first panel stays where it is.
    pub fn previous(self) -> (r: SelectedTab)
        ensures
            r == self.spec_previous(),
            r.spec_index() == if self.spec_index() == 0 { 0 } else { self.spec_index() - 1 },
    {
        let current_index: usize = self.index();
        let previous_index: usize = current_index.saturating_sub(1);
        match SelectedTab::from_repr(previous_index) {
            Some(t) => t,
            None => self,
        }
    }

    /// Steps one panel to the right; the last panel stays where it is.
    pub fn next(self) -> (r: SelectedTab)
        ensures
            r == self.spec_next(),
            r.spec_index() == if self.spec_index() + 1 == TAB_COUNT {
                self.spec_index()
            } else {
                self.spec_index() + 1
            },
    {
        let current_index: usize = self.index();
        let next_index: usize = current_index.saturating_add(1);
        match SelectedTab::from_repr(next_index) {
            Some(t) => t,
            None => self,
        }
    }
}

/// The panel reached from `t` by the steps in `forward`, first to last: a
/// `true` step goes right, a `false` step goes left.
pub open spec fn run_steps(t: SelectedTab, forward: Seq<bool>) -> SelectedTab
    decreases forward.len(),
{
    if forward.len() == 0 {
        t
    } else {
        let s = if forward[0] { t.spec_next() } else { t.spec_previous() };
        run_steps(s, forward.drop_first())
    }
}

/// Any sequence of steps keeps the selection on a panel of the bar: its
/// index stays within `0 .. TAB_COUNT`, and a step past either end stays put
/// rather than wrapping round.
pub proof fn lemma_steps_stay_in_range(t: SelectedTab, forward: Seq<bool>)
    ensures
        0 <= run_steps(t, forward).spec_index() < TAB_COUNT,
        t.spec_index() == TAB_COUNT - 1 ==> t.spec_next() == t,
        t.spec_index() == 0 ==> t.spec_previous() == t,
    decreases forward.len(),
{
    if forward.len() > 0 {
        let s = if forward[0] { t.spec_next() } else { t.spec_previous() };
        lemma_steps_stay_in_range(s, forward.drop_first());
    }
}

} // verus!
