//! The collected installation choices and the fixed order of wizard pages.
use vstd::prelude::*;

verus! {

/// Which kernel packages to install.
#[derive(Debug, Clone, Copy, PartialEq, Eq, Structural)]
pub enum KernelSelection {
    Linux,
    LinuxLTS,
    Both,
}

/// Which graphics driver to install.
#[derive(Debug, Clone, Copy, PartialEq, Eq, Structural)]
pub enum GpuDriver {
    Intel,
    AMD,
    Nvidia,
    NoDriver,
}

/// Which desktop environment to install.
#[derive(Debug, Clone, Copy, PartialEq, Eq, Structural)]
pub enum DesktopEnv {
    NoDesktop,
    KDE,
    GNOME,
    GnomeLockKDE,
}

/// One step of the wizard, in the order the user walks through them.
#[derive(Debug, Clone, Copy, PartialEq, Eq, Structural)]
pub enum Page {
    Welcome,
    GrubInstall,
    EfiPartition,
    RootPartition,
    RootFormat,
    Filesystem,
    Locale,
    Hostname,
    Username,
    UserPassword,
    RootPassword,
    Kernel,
    GpuDriver,
    DesktopEnv,
    Summary,
    Finished,
}

/// The page that follows `p`; `Finished` is its own successor.
pub open spec fn next_of(p: Page) -> Page {
    match p {
        Page::Welcome => Page::GrubInstall,
        Page::GrubInstall => Page::EfiPartition,
        Page::EfiPartition => Page::RootPartition,
        Page::RootPartition => Page::RootFormat,
        Page::RootFormat => Page::Filesystem,
        Page::Filesystem => Page::Locale,
        Page::Locale => Page::Hostname,
        Page::Hostname => Page::Username,
        Page::Username => Page::UserPassword,
        Page::UserPassword => Page::RootPassword,
        Page::RootPassword => Page::Kernel,
        Page::Kernel => Page::GpuDriver,
        Page::GpuDriver => Page::DesktopEnv,
        Page::DesktopEnv => Page::Summary,
        Page::Summary => Page::Finished,
        Page::Finished => Page::Finished,
    }
}

/// The page that precedes `p`; `Welcome` is its own predecessor.
pub open spec fn prev_of(p: Page) -> Page {
    match p {
        Page::Welcome => Page::Welcome,
        Page::GrubInstall => Page::Welcome,
        Page::EfiPartition => Page::GrubInstall,
        Page::RootPartition => Page::EfiPartition,
        Page::RootFormat => Page::RootPartition,
        Page::Filesystem => Page::RootFormat,
        Page::Locale => Page::Filesystem,
        Page::Hostname => Page::Locale,
        Page::Username => Page::Hostname,
        Page::UserPassword => Page::Username,
        Page::RootPassword => Page::UserPassword,
        Page::Kernel => Page::RootPassword,
        Page::GpuDriver => Page::Kernel,
        Page::DesktopEnv => Page::GpuDriver,
        Page::Summary => Page::DesktopEnv,
        Page::Finished => Page::Summary,
    }
}

/// The characters of an optional text field.
pub open spec fn text_of(o: Option<String>) -> Option<Seq<char>> {
    match o {
        Some(s) => Some(s@),
        None => None,
    }
}

/// The current page together with every answer collected so far.
pub struct AppState {
    pub page: Page,
    pub install_grub: Option<bool>,
    pub efi_partition: Option<String>,
    pub root_partition: Option<String>,
    pub format_root: Option<bool>,
    pub filesystem: Option<String>,
    pub locale: Option<String>,
    pub hostname: Option<String>,
    pub username: Option<String>,
    pub user_password: Option<String>,
    pub root_password: Option<String>,
    pub kernel: Option<KernelSelection>,
    pub gpu_driver: Option<GpuDriver>,
    pub desktop_env: Option<DesktopEnv>,
}

/// The answers a fresh wizard starts from.
pub open spec fn is_initial(s: AppState) -> bool {
    &&& s.page == Page::Welcome
    &&& s.install_grub is None
    &&& s.efi_partition is None
    &&& s.root_partition is None
    &&& s.format_root is None
    &&& text_of(s.filesystem) == Some("ext4"@)
    &&& text_of(s.locale) == Some("en_US.UTF-8"@)
    &&& text_of(s.hostname) == Some("archlinux"@)
    &&& text_of(s.username) == Some("user"@)
    &&& s.user_password is None
    &&& s.root_password is None
    &&& s.kernel == Some(KernelSelection::Both)
    &&& s.gpu_driver == Some(GpuDriver::NoDriver)
    &&& s.desktop_env == Some(DesktopEnv::NoDesktop)
}

impl Default for AppState {
    fn default() -> (r: Self)
        ensures
            is_initial(r),
    {
        AppState {
            page: Page::Welcome,
            install_grub: None,
            efi_partition: None,
            root_partition: None,
            format_root: None,
            filesystem: Some("ext4".to_string()),
            locale: Some("en_US.UTF-8".to_string()),
            hostname: Some("archlinux".to_string()),
            username: Some("user".to_string()),
            user_password: None,
            root_password: None,
            kernel: Some(KernelSelection::Both),
            gpu_driver: Some(GpuDriver::NoDriver),
            desktop_env: Some(DesktopEnv::NoDesktop),
        }
    }
}

impl AppState {
    /// Moves to the following page; stays put on `Finished`.
    pub fn next_page(&mut self)
        ensures
            *final(self) == (AppState { page: next_of(old(self).page), ..*old(self) }),
    {
        self.page = match self.page {
            Page::Welcome => Page::GrubInstall,
            Page::GrubInstall => Page::EfiPartition,
            Page::EfiPartition => Page::RootPartition,
            Page::RootPartition => Page::RootFormat,
            Page::RootFormat => Page::Filesystem,
            Page::Filesystem => Page::Locale,
            Page::Locale => Page::Hostname,
            Page::Hostname => Page::Username,
            Page::Username => Page::UserPassword,
            Page::UserPassword => Page::RootPassword,
            Page::RootPassword => Page::Kernel,
            Page::Kernel => Page::GpuDriver,
            Page::GpuDriver => Page::DesktopEnv,
            Page::DesktopEnv => Page::Summary,
            Page::Summary => Page::Finished,
            Page::Finished => Page::Finished,
        };
    }

    /// Moves to the preceding page; stays put on `Welcome`.
    pub fn prev_page(&mut self)
        ensures
            *final(self) == (AppState { page: prev_of(old(self).page), ..*old(self) }),
    {
        self.page = match self.page {
            Page::Welcome => Page::Welcome,
            Page::GrubInstall => Page::Welcome,
            Page::EfiPartition => Page::GrubInstall,
            Page::RootPartition => Page::EfiPartition,
            Page::RootFormat => Page::RootPartition,
            Page::Filesystem => Page::RootFormat,
            Page::Locale => Page::Filesystem,
            Page::Hostname => Page::Locale,
            Page::Username => Page::Hostname,
            Page::UserPassword => Page::Username,
            Page::RootPassword => Page::UserPassword,
            Page::Kernel => Page::RootPassword,
            Page::GpuDriver => Page::Kernel,
            Page::DesktopEnv => Page::GpuDriver,
            Page::Summary => Page::DesktopEnv,
            Page::Finished => Page::Summary,
        };
    }
}

/// Stepping back undoes stepping forward everywhere but on `Finished`, and
/// stepping forward undoes stepping back everywhere but on `Welcome`.
pub proof fn lemma_steps_are_inverse(p: Page)
    ensures
        p != Page::Finished ==> prev_of(next_of(p)) == p,
        p != Page::Welcome ==> next_of(prev_of(p)) == p,
{
}

/// Stepping forward from `Finished` and stepping back from `Welcome` change
/// nothing, however often it is done.
pub proof fn lemma_ends_are_fixed()
    ensures
        next_of(Page::Finished) == Page::Finished,
        next_of(next_of(Page::Finished)) == next_of(Page::Finished),
        prev_of(Page::Welcome) == Page::Welcome,
        prev_of(prev_of(Page::Welcome)) == prev_of(Page::Welcome),
{
}

} // verus!
