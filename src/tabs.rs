//! The views the operator switches between.

use vstd::prelude::*;

verus! {

/// The tab on show: processes, CPU, or memory and I/O.
#[derive(Clone, Copy, Debug, PartialEq, Eq, Structural)]
pub enum SelectedTab {
    Tab1,
    Tab2,
    Tab3,
}

/// Position of a tab in the tab bar, from 0.
pub open spec fn tab_index(t: SelectedTab) -> int {
    match t {
        SelectedTab::Tab1 => 0,
        SelectedTab::Tab2 => 1,
        SelectedTab::Tab3 => 2,
    }
}

/// The tab to the right of `t`, or `t` itself if it is the last.
pub open spec fn tab_after(t: SelectedTab) -> SelectedTab {
    match t {
        SelectedTab::Tab1 => SelectedTab::Tab2,
        _ => SelectedTab::Tab3,
    }
}

/// The tab to the left of `t`, or `t` itself if it is the first.
pub open spec fn tab_before(t: SelectedTab) -> SelectedTab {
    match t {
        SelectedTab::Tab3 => SelectedTab::Tab2,
        _ => SelectedTab::Tab1,
    }
}

pub open spec fn tab_title(t: SelectedTab) -> Seq<char> {
    match t {
        SelectedTab::Tab1 => "Processes"@,
        SelectedTab::Tab2 => "CPU"@,
        SelectedTab::Tab3 => "Memory/IO"@,
    }
}

impl Default for SelectedTab {
    fn default() -> (r: SelectedTab)
        ensures
            r == SelectedTab::Tab1,
    {
        SelectedTab::Tab1
    }
}

impl SelectedTab {
    /// The tab to the left, or this one if it is the first.
    pub fn previous(self) -> (r: SelectedTab)
        ensures
            r == tab_before(self),
            tab_index(r) == if tab_index(self) == 0 { 0 } else { tab_index(self) - 1 },
    {
        match self {
            SelectedTab::Tab1 => SelectedTab::Tab1,
            SelectedTab::Tab2 => SelectedTab::Tab1,
            SelectedTab::Tab3 => SelectedTab::Tab2,
        }
    }

    /// The tab to the right, or this one if it is the last.
    pub fn next(self) -> (r: SelectedTab)
        ensures
            r == tab_after(self),
            tab_index(r) == if tab_index(self) == 2 { 2 } else { tab_index(self) + 1 },
    {
        match self {
            SelectedTab::Tab1 => SelectedTab::Tab2,
            SelectedTab::Tab2 => SelectedTab::Tab3,
            SelectedTab::Tab3 => SelectedTab::Tab3,
        }
    }

    /// The tab's position in the tab bar.
    pub fn index(self) -> (r: usize)
        ensures
            r == tab_index(self),
    {
        match self {
            SelectedTab::Tab1 => 0,
            SelectedTab::Tab2 => 1,
            SelectedTab::Tab3 => 2,
        }
    }

    /// The name shown on the tab.
    pub fn title(self) -> (r: &'static str)
        ensures
            r@ == tab_title(self),
    {
        match self {
            SelectedTab::Tab1 => {
                proof {
                    reveal_strlit("Processes");
                }
                "Processes"
            },
            SelectedTab::Tab2 => {
                proof {
                    reveal_strlit("CPU");
                }
                "CPU"
            },
            SelectedTab::Tab3 => {
                proof {
                    reveal_strlit("Memory/IO");
                }
                "Memory/IO"
            },
        }
    }
}

} // verus!
