//! The pages of the vitals window and how the sidebar selects them.

use vstd::prelude::*;

verus! {

/// A page of the vitals window.
#[derive(Debug, Clone, Copy, PartialEq, Eq, Structural)]
pub enum NavigationPage {
    Dashboard,
    Cpu,
    Gpu,
    Memory,
    Disk,
    Network,
    Processes,
}

/// The page that the sidebar row at `index` stands for.
pub open spec fn page_at(index: i32) -> NavigationPage {
    if index == 1 {
        NavigationPage::Cpu
    } else if index == 2 {
        NavigationPage::Gpu
    } else if index == 3 {
        NavigationPage::Memory
    } else if index == 4 {
        NavigationPage::Disk
    } else if index == 5 {
        NavigationPage::Network
    } else if index == 6 {
        NavigationPage::Processes
    } else {
        NavigationPage::Dashboard
    }
}

/// The name under which the window keeps `page`.
pub open spec fn name_of(page: NavigationPage) -> Seq<char> {
    match page {
        NavigationPage::Dashboard => "dashboard"@,
        NavigationPage::Cpu => "cpu"@,
        NavigationPage::Gpu => "gpu"@,
        NavigationPage::Memory => "memory"@,
        NavigationPage::Disk => "disk"@,
        NavigationPage::Network => "network"@,
        NavigationPage::Processes => "processes"@,
    }
}

impl NavigationPage {
    /// The page that the sidebar row at `index` selects; a row that is none
    /// of the known ones selects the dashboard.
    pub fn from_row(index: i32) -> (page: NavigationPage)
        ensures
            page == page_at(index),
    {
        match index {
            1 => NavigationPage::Cpu,
            2 => NavigationPage::Gpu,
            3 => NavigationPage::Memory,
            4 => NavigationPage::Disk,
            5 => NavigationPage::Network,
            6 => NavigationPage::Processes,
            _ => NavigationPage::Dashboard,
        }
    }

    /// The name under which the window keeps this page.
    pub fn page_name(self) -> (name: &'static str)
        ensures
            name@ == name_of(self),
    {
        match self {
            NavigationPage::Dashboard => "dashboard",
            NavigationPage::Cpu => "cpu",
            NavigationPage::Gpu => "gpu",
            NavigationPage::Memory => "memory",
            NavigationPage::Disk => "disk",
            NavigationPage::Network => "network",
            NavigationPage::Processes => "processes",
        }
    }
}

} // verus!
