//! The fixed option lists of the selection pages and the maps between a
//! list position and the answer it stands for.
use vstd::prelude::*;

use crate::config::{DesktopEnv, GpuDriver, KernelSelection, Page};

verus! {

/// The labels offered on page `p`, in display order; empty on pages that
/// offer no list.
pub open spec fn page_options(p: Page) -> Seq<Seq<char>> {
    match p {
        Page::GrubInstall => seq!["Yes"@, "No"@],
        Page::RootFormat => seq!["Yes"@, "No"@],
        Page::Filesystem => seq!["ext4"@, "btrfs"@, "xfs"@],
        Page::Kernel => seq!["linux"@, "linux-lts"@, "both"@],
        Page::GpuDriver => seq!["Intel"@, "AMD"@, "NVIDIA"@, "None"@],
        Page::DesktopEnv => seq!["None"@, "KDE Plasma"@, "GNOME"@, "GNOME lock screen + KDE"@],
        _ => seq![],
    }
}

/// Whether page `p` asks the user to pick from a list.
pub open spec fn is_choice_page(p: Page) -> bool {
    page_options(p).len() > 0
}

/// The number of options page `p` offers.
pub fn option_count(p: Page) -> (n: usize)
    ensures
        n == page_options(p).len(),
{
    match p {
        Page::GrubInstall | Page::RootFormat => 2,
        Page::Filesystem | Page::Kernel => 3,
        Page::GpuDriver | Page::DesktopEnv => 4,
        _ => 0,
    }
}

/// The label at position `i` of page `p`'s list, if there is one.
pub fn option_label(p: Page, i: usize) -> (r: Option<&'static str>)
    ensures
        i < page_options(p).len() <==> r is Some,
        r matches Some(s) ==> s@ == page_options(p)[i as int],
{
    match (p, i) {
        (Page::GrubInstall, 0) | (Page::RootFormat, 0) => Some("Yes"),
        (Page::GrubInstall, 1) | (Page::RootFormat, 1) => Some("No"),
        (Page::Filesystem, 0) => Some("ext4"),
        (Page::Filesystem, 1) => Some("btrfs"),
        (Page::Filesystem, 2) => Some("xfs"),
        (Page::Kernel, 0) => Some("linux"),
        (Page::Kernel, 1) => Some("linux-lts"),
        (Page::Kernel, 2) => Some("both"),
        (Page::GpuDriver, 0) => Some("Intel"),
        (Page::GpuDriver, 1) => Some("AMD"),
        (Page::GpuDriver, 2) => Some("NVIDIA"),
        (Page::GpuDriver, 3) => Some("None"),
        (Page::DesktopEnv, 0) => Some("None"),
        (Page::DesktopEnv, 1) => Some("KDE Plasma"),
        (Page::DesktopEnv, 2) => Some("GNOME"),
        (Page::DesktopEnv, 3) => Some("GNOME lock screen + KDE"),
        _ => None,
    }
}

/// The kernel choice at list position `i`.
pub open spec fn kernel_choice(i: int) -> Option<KernelSelection> {
    if i == 0 {
        Some(KernelSelection::Linux)
    } else if i == 1 {
        Some(KernelSelection::LinuxLTS)
    } else if i == 2 {
        Some(KernelSelection::Both)
    } else {
        None
    }
}

/// The driver choice at list position `i`.
pub open spec fn gpu_choice(i: int) -> Option<GpuDriver> {
    if i == 0 {
        Some(GpuDriver::Intel)
    } else if i == 1 {
        Some(GpuDriver::AMD)
    } else if i == 2 {
        Some(GpuDriver::Nvidia)
    } else if i == 3 {
        Some(GpuDriver::NoDriver)
    } else {
        None
    }
}

/// The desktop choice at list position `i`.
pub open spec fn desktop_choice(i: int) -> Option<DesktopEnv> {
    if i == 0 {
        Some(DesktopEnv::NoDesktop)
    } else if i == 1 {
        Some(DesktopEnv::KDE)
    } else if i == 2 {
        Some(DesktopEnv::GNOME)
    } else if i == 3 {
        Some(DesktopEnv::GnomeLockKDE)
    } else {
        None
    }
}

/// Where a stored kernel answer sits in the list; an unset one counts as `Both`.
pub open spec fn kernel_index(k: Option<KernelSelection>) -> nat {
    match k {
        Some(KernelSelection::Linux) => 0,
        Some(KernelSelection::LinuxLTS) => 1,
        _ => 2,
    }
}

/// Where a stored driver answer sits in the list; an unset one counts as no driver.
pub open spec fn gpu_index(g: Option<GpuDriver>) -> nat {
    match g {
        Some(GpuDriver::Intel) => 0,
        Some(GpuDriver::AMD) => 1,
        Some(GpuDriver::Nvidia) => 2,
        _ => 3,
    }
}

/// Where a stored desktop answer sits in the list; an unset one counts as no desktop.
pub open spec fn desktop_index(d: Option<DesktopEnv>) -> nat {
    match d {
        Some(DesktopEnv::KDE) => 1,
        Some(DesktopEnv::GNOME) => 2,
        Some(DesktopEnv::GnomeLockKDE) => 3,
        _ => 0,
    }
}

/// The first position whose label equals the stored filesystem, or 0 where
/// none does (an unset answer included).
pub open spec fn filesystem_index(f: Option<Seq<char>>) -> nat {
    let opts = page_options(Page::Filesystem);
    if f == Some(opts[0]) {
        0
    } else if f == Some(opts[1]) {
        1
    } else if f == Some(opts[2]) {
        2
    } else {
        0
    }
}

/// The kernel choice at list position `i`.
pub fn kernel_for_index(i: usize) -> (r: Option<KernelSelection>)
    ensures
        r == kernel_choice(i as int),
{
    match i {
        0 => Some(KernelSelection::Linux),
        1 => Some(KernelSelection::LinuxLTS),
        2 => Some(KernelSelection::Both),
        _ => None,
    }
}

/// The driver choice at list position `i`.
pub fn gpu_for_index(i: usize) -> (r: Option<GpuDriver>)
    ensures
        r == gpu_choice(i as int),
{
    match i {
        0 => Some(GpuDriver::Intel),
        1 => Some(GpuDriver::AMD),
        2 => Some(GpuDriver::Nvidia),
        3 => Some(GpuDriver::NoDriver),
        _ => None,
    }
}

/// The desktop choice at list position `i`.
pub fn desktop_for_index(i: usize) -> (r: Option<DesktopEnv>)
    ensures
        r == desktop_choice(i as int),
{
    match i {
        0 => Some(DesktopEnv::NoDesktop),
        1 => Some(DesktopEnv::KDE),
        2 => Some(DesktopEnv::GNOME),
        3 => Some(DesktopEnv::GnomeLockKDE),
        _ => None,
    }
}

/// The list position of a stored kernel answer.
pub fn kernel_position(k: Option<KernelSelection>) -> (r: usize)
    ensures
        r == kernel_index(k),
{
    match k {
        Some(KernelSelection::Linux) => 0,
        Some(KernelSelection::LinuxLTS) => 1,
        _ => 2,
    }
}

/// The list position of a stored driver answer.
pub fn gpu_position(g: Option<GpuDriver>) -> (r: usize)
    ensures
        r == gpu_index(g),
{
    match g {
        Some(GpuDriver::Intel) => 0,
        Some(GpuDriver::AMD) => 1,
        Some(GpuDriver::Nvidia) => 2,
        _ => 3,
    }
}

/// The list position of a stored desktop answer.
pub fn desktop_position(d: Option<DesktopEnv>) -> (r: usize)
    ensures
        r == desktop_index(d),
{
    match d {
        Some(DesktopEnv::KDE) => 1,
        Some(DesktopEnv::GNOME) => 2,
        Some(DesktopEnv::GnomeLockKDE) => 3,
        _ => 0,
    }
}

/// The list position of a stored filesystem answer.
pub fn filesystem_position(f: &Option<String>) -> (r: usize)
    ensures
        r == filesystem_index(crate::config::text_of(*f)),
{
    match f {
        Some(s) => {
            if *s == "ext4".to_string() {
                0
            } else if *s == "btrfs".to_string() {
                1
            } else if *s == "xfs".to_string() {
                2
            } else {
                0
            }
        },
        None => 0,
    }
}

/// Storing the answer at position `i` of a list and coming back to that
/// page shows position `i` again.
pub proof fn lemma_positions_round_trip(i: int)
    ensures
        0 <= i < 3 ==> kernel_index(kernel_choice(i)) == i,
        0 <= i < 4 ==> gpu_index(gpu_choice(i)) == i,
        0 <= i < 4 ==> desktop_index(desktop_choice(i)) == i,
        0 <= i < 3 ==> filesystem_index(Some(page_options(Page::Filesystem)[i])) == i,
{
    reveal_strlit("ext4");
    reveal_strlit("btrfs");
    reveal_strlit("xfs");
    let opts = page_options(Page::Filesystem);
    assert(opts[0].len() == 4 && opts[1].len() == 5 && opts[2].len() == 3);
}

} // verus!
