use archinstall_tui::{
    option_count, option_label, Action, AppState, DesktopEnv, GpuDriver, Key, KernelSelection,
    Page, Wizard,
};

const ALL_PAGES: [Page; 16] = [
    Page::Welcome,
    Page::GrubInstall,
    Page::EfiPartition,
    Page::RootPartition,
    Page::RootFormat,
    Page::Filesystem,
    Page::Locale,
    Page::Hostname,
    Page::Username,
    Page::UserPassword,
    Page::RootPassword,
    Page::Kernel,
    Page::GpuDriver,
    Page::DesktopEnv,
    Page::Summary,
    Page::Finished,
];

fn at(page: Page) -> Wizard {
    let mut w = Wizard::new();
    while w.state.page != page {
        match w.state.page {
            Page::UserPassword | Page::RootPassword => {
                w.record_password(String::new());
            }
            _ => {
                w.handle_key(Key::Enter);
            }
        }
    }
    w
}

fn type_text(w: &mut Wizard, text: &str) {
    for c in text.chars() {
        assert_eq!(w.handle_key(Key::Char(c)), Action::Stay);
    }
}

#[test]
fn default_state_holds_the_documented_defaults() {
    let s = AppState::default();
    assert_eq!(s.page, Page::Welcome);
    assert_eq!(s.filesystem.as_deref(), Some("ext4"));
    assert_eq!(s.locale.as_deref(), Some("en_US.UTF-8"));
    assert_eq!(s.hostname.as_deref(), Some("archlinux"));
    assert_eq!(s.username.as_deref(), Some("user"));
    assert_eq!(s.kernel, Some(KernelSelection::Both));
    assert_eq!(s.gpu_driver, Some(GpuDriver::NoDriver));
    assert_eq!(s.desktop_env, Some(DesktopEnv::NoDesktop));
    assert_eq!(s.install_grub, None);
    assert_eq!(s.format_root, None);
    assert_eq!(s.efi_partition, None);
    assert_eq!(s.root_partition, None);
    assert_eq!(s.user_password, None);
    assert_eq!(s.root_password, None);
}

#[test]
fn next_and_prev_are_inverse_along_the_chain() {
    for (i, &p) in ALL_PAGES.iter().enumerate() {
        let mut s = AppState::default();
        s.page = p;
        s.next_page();
        if i + 1 < ALL_PAGES.len() {
            assert_eq!(s.page, ALL_PAGES[i + 1]);
            s.prev_page();
            assert_eq!(s.page, p);
        }
        let mut s = AppState::default();
        s.page = p;
        s.prev_page();
        if i > 0 {
            assert_eq!(s.page, ALL_PAGES[i - 1]);
            s.next_page();
            assert_eq!(s.page, p);
        }
    }
}

#[test]
fn ends_of_the_chain_are_fixed() {
    let mut s = AppState::default();
    s.page = Page::Finished;
    s.next_page();
    assert_eq!(s.page, Page::Finished);
    s.next_page();
    assert_eq!(s.page, Page::Finished);
    let mut s = AppState::default();
    s.prev_page();
    assert_eq!(s.page, Page::Welcome);
    s.prev_page();
    assert_eq!(s.page, Page::Welcome);
}

#[test]
fn paging_keeps_the_answers() {
    let mut s = AppState::default();
    s.hostname = Some("box".to_string());
    s.next_page();
    s.prev_page();
    assert_eq!(s.hostname.as_deref(), Some("box"));
    assert_eq!(s.page, Page::Welcome);
}

#[test]
fn down_cycles_back_on_every_list_page() {
    for &p in &[
        Page::GrubInstall,
        Page::RootFormat,
        Page::Filesystem,
        Page::Kernel,
        Page::GpuDriver,
        Page::DesktopEnv,
    ] {
        let mut w = at(p);
        let n = option_count(p);
        let start = w.select_idx;
        for _ in 0..n {
            w.handle_key(Key::Down);
        }
        assert_eq!(w.select_idx, start, "{:?}", p);
        for _ in 0..n {
            w.handle_key(Key::Up);
        }
        assert_eq!(w.select_idx, start, "{:?}", p);
    }
}

#[test]
fn up_wraps_from_first_to_last() {
    let mut w = at(Page::GpuDriver);
    assert_eq!(w.select_idx, 3);
    w.handle_key(Key::Down);
    assert_eq!(w.select_idx, 0);
    w.handle_key(Key::Up);
    assert_eq!(w.select_idx, 3);
    w.handle_key(Key::Up);
    assert_eq!(w.select_idx, 2);
}

#[test]
fn option_counts_and_labels() {
    assert_eq!(option_count(Page::GrubInstall), 2);
    assert_eq!(option_count(Page::Filesystem), 3);
    assert_eq!(option_count(Page::Kernel), 3);
    assert_eq!(option_count(Page::GpuDriver), 4);
    assert_eq!(option_count(Page::DesktopEnv), 4);
    assert_eq!(option_count(Page::Hostname), 0);
    assert_eq!(option_label(Page::Filesystem, 1), Some("btrfs"));
    assert_eq!(option_label(Page::Kernel, 1), Some("linux-lts"));
    assert_eq!(option_label(Page::DesktopEnv, 3), Some("GNOME lock screen + KDE"));
    assert_eq!(option_label(Page::Filesystem, 3), None);
    assert_eq!(option_label(Page::Welcome, 0), None);
}

#[test]
fn grub_and_format_pages_start_at_zero_after_a_commit() {
    let mut w = at(Page::GrubInstall);
    w.handle_key(Key::Down);
    w.handle_key(Key::Enter);
    assert_eq!(w.state.install_grub, Some(false));
    assert_eq!(w.state.page, Page::EfiPartition);
    w.handle_key(Key::Esc);
    assert_eq!(w.state.page, Page::GrubInstall);
    assert_eq!(w.select_idx, 0);

    let mut w = at(Page::RootFormat);
    w.handle_key(Key::Down);
    w.handle_key(Key::Enter);
    assert_eq!(w.state.format_root, Some(false));
    assert_eq!(w.state.page, Page::Filesystem);
    w.handle_key(Key::Esc);
    assert_eq!(w.state.page, Page::RootFormat);
    assert_eq!(w.select_idx, 0);
}

#[test]
fn list_pages_reopen_at_the_stored_answer() {
    let mut w = at(Page::Filesystem);
    assert_eq!(w.select_idx, 0);
    w.handle_key(Key::Down);
    w.handle_key(Key::Enter);
    assert_eq!(w.state.filesystem.as_deref(), Some("btrfs"));
    assert_eq!(w.state.page, Page::Locale);
    w.handle_key(Key::Esc);
    assert_eq!(w.state.page, Page::Filesystem);
    assert_eq!(w.select_idx, 1);

    let mut w = at(Page::Kernel);
    assert_eq!(w.select_idx, 2);
    w.handle_key(Key::Down);
    w.handle_key(Key::Enter);
    assert_eq!(w.state.kernel, Some(KernelSelection::Linux));
    assert_eq!(w.select_idx, 3);
    w.handle_key(Key::Up);
    w.handle_key(Key::Enter);
    assert_eq!(w.state.gpu_driver, Some(GpuDriver::Nvidia));
    assert_eq!(w.state.page, Page::DesktopEnv);
    assert_eq!(w.select_idx, 0);
    w.handle_key(Key::Up);
    w.handle_key(Key::Enter);
    assert_eq!(w.state.desktop_env, Some(DesktopEnv::GnomeLockKDE));
    assert_eq!(w.state.page, Page::Summary);
    w.handle_key(Key::Esc);
    assert_eq!(w.select_idx, 3);
    w.handle_key(Key::Esc);
    assert_eq!(w.state.page, Page::GpuDriver);
    assert_eq!(w.select_idx, 2);
    w.handle_key(Key::Esc);
    assert_eq!(w.state.page, Page::Kernel);
    assert_eq!(w.select_idx, 0);
}

#[test]
fn hostname_commit_trims_whitespace() {
    let mut w = at(Page::Hostname);
    type_text(&mut w, " foo ");
    assert_eq!(w.handle_key(Key::Enter), Action::Stay);
    assert_eq!(w.state.hostname.as_deref(), Some("foo"));
    assert_eq!(w.state.page, Page::Username);
    assert!(w.input.is_empty());
}

#[test]
fn empty_text_is_accepted() {
    let mut w = at(Page::Locale);
    w.handle_key(Key::Enter);
    assert_eq!(w.state.locale.as_deref(), Some(""));
    assert_eq!(w.state.page, Page::Hostname);
}

#[test]
fn commit_text_stores_the_value_as_given() {
    let mut w = at(Page::Username);
    w.commit_text(" alice ".to_string());
    assert_eq!(w.state.username.as_deref(), Some(" alice "));
    assert_eq!(w.state.page, Page::UserPassword);
    let mut w = at(Page::Welcome);
    w.commit_text("x".to_string());
    assert_eq!(w.state.page, Page::Welcome);
}

#[test]
fn welcome_enter_then_grub_yes() {
    let mut w = Wizard::new();
    assert_eq!(w.state.page, Page::Welcome);
    assert_eq!(w.handle_key(Key::Enter), Action::Stay);
    assert_eq!(w.state.page, Page::GrubInstall);
    assert_eq!(w.select_idx, 0);
    w.handle_key(Key::Enter);
    assert_eq!(w.state.install_grub, Some(true));
    assert_eq!(w.state.page, Page::EfiPartition);
}

#[test]
fn efi_partition_typed_then_enter() {
    let mut w = at(Page::EfiPartition);
    type_text(&mut w, "/dev/sda1");
    w.handle_key(Key::Enter);
    assert_eq!(w.state.efi_partition.as_deref(), Some("/dev/sda1"));
    assert_eq!(w.state.page, Page::RootPartition);
}

#[test]
fn efi_partition_escape_returns_to_grub() {
    let mut w = at(Page::EfiPartition);
    w.handle_key(Key::Esc);
    assert_eq!(w.state.page, Page::GrubInstall);
    assert_eq!(w.state.efi_partition, None);
}

#[test]
fn backspace_edits_then_retreats_when_empty() {
    let mut w = at(Page::RootPartition);
    type_text(&mut w, "ab");
    w.handle_key(Key::Backspace);
    assert_eq!(w.input, vec!['a']);
    assert_eq!(w.state.page, Page::RootPartition);
    w.handle_key(Key::Backspace);
    assert!(w.input.is_empty());
    assert_eq!(w.state.page, Page::RootPartition);
    w.handle_key(Key::Backspace);
    assert_eq!(w.state.page, Page::EfiPartition);
}

#[test]
fn escape_with_typed_text_retreats_and_clears() {
    let mut w = at(Page::Hostname);
    type_text(&mut w, "abc");
    w.handle_key(Key::Esc);
    assert_eq!(w.state.page, Page::Locale);
    assert!(w.input.is_empty());
    assert_eq!(w.state.hostname.as_deref(), Some("archlinux"));
}

#[test]
fn password_pages_ask_then_store() {
    let mut w = at(Page::UserPassword);
    assert_eq!(w.handle_key(Key::Enter), Action::PromptUserPassword);
    assert_eq!(w.state.page, Page::UserPassword);
    w.record_password("secret".to_string());
    assert_eq!(w.state.user_password.as_deref(), Some("secret"));
    assert_eq!(w.state.root_password, None);
    assert_eq!(w.state.page, Page::RootPassword);
    assert_eq!(w.handle_key(Key::Enter), Action::PromptRootPassword);
    w.record_password(String::new());
    assert_eq!(w.state.root_password.as_deref(), Some(""));
    assert_eq!(w.state.page, Page::Kernel);
    assert_eq!(w.select_idx, 2);
}

#[test]
fn record_password_elsewhere_changes_nothing() {
    let mut w = at(Page::Summary);
    w.record_password("pw".to_string());
    assert_eq!(w.state.page, Page::Summary);
    assert_eq!(w.state.user_password.as_deref(), Some(""));
}

#[test]
fn finished_quits_on_escape_or_q() {
    let mut w = at(Page::Finished);
    assert_eq!(w.handle_key(Key::Enter), Action::Stay);
    assert_eq!(w.handle_key(Key::Char('x')), Action::Stay);
    assert_eq!(w.handle_key(Key::Esc), Action::Quit);
    assert_eq!(w.handle_key(Key::Char('q')), Action::Quit);
    assert_eq!(w.state.page, Page::Finished);
}

#[test]
fn summary_moves_both_ways() {
    let mut w = at(Page::Summary);
    w.handle_key(Key::Esc);
    assert_eq!(w.state.page, Page::DesktopEnv);
    w.handle_key(Key::Enter);
    assert_eq!(w.state.page, Page::Summary);
    w.handle_key(Key::Enter);
    assert_eq!(w.state.page, Page::Finished);
}

#[test]
fn other_keys_change_nothing() {
    let mut w = at(Page::Kernel);
    w.handle_key(Key::Other);
    w.handle_key(Key::Char('z'));
    assert_eq!(w.state.page, Page::Kernel);
    assert_eq!(w.select_idx, 2);
    let mut w = Wizard::new();
    w.handle_key(Key::Esc);
    w.handle_key(Key::Down);
    assert_eq!(w.state.page, Page::Welcome);
}
