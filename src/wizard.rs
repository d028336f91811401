//! The wizard's reaction to one key press: which answer it records, which
//! page it shows next, and what the surrounding loop has to do.
use vstd::prelude::*;
use vstd::arithmetic::div_mod::{lemma_add_mod_noop, lemma_small_mod};

use crate::config::{next_of, prev_of, text_of, AppState, Page};
use crate::options::{
    desktop_choice, desktop_for_index, desktop_index, desktop_position, filesystem_index,
    filesystem_position, gpu_choice, gpu_for_index, gpu_index, gpu_position, is_choice_page,
    kernel_choice, kernel_for_index, kernel_index, kernel_position, lemma_positions_round_trip,
    option_count, option_label, page_options,
};

verus! {

/// A key press, as far as the wizard tells keys apart.
#[derive(Debug, Clone, Copy, PartialEq, Eq, Structural)]
pub enum Key {
    Char(char),
    Enter,
    Esc,
    Backspace,
    Up,
    Down,
    Other,
}

/// What the loop around the wizard has to do after a key press.
#[derive(Debug, Clone, Copy, PartialEq, Eq, Structural)]
pub enum Action {
    /// Redraw and wait for the next key.
    Stay,
    /// Ask for the user's password, then hand it to `record_password`.
    PromptUserPassword,
    /// Ask for the root password, then hand it to `record_password`.
    PromptRootPassword,
    /// Leave the wizard.
    Quit,
}

/// The answers together with what the current page holds on screen: the
/// text typed so far and the highlighted list position.
pub struct Wizard {
    pub state: AppState,
    pub input: Vec<char>,
    pub select_idx: usize,
}

/// What `str::trim` makes of a text: the text without leading and trailing
/// whitespace.
pub uninterp spec fn trim_of(s: Seq<char>) -> Seq<char>;

/// Relies on `str::trim`, which drops the leading and trailing whitespace of
/// its argument; collecting the characters first and copying the slice
/// afterwards only convert.
#[verifier::external_body]
fn trimmed(chars: &Vec<char>) -> (r: String)
    ensures
        r@ == trim_of(chars@),
{
    let s: String = chars.iter().collect();
    s.trim().to_string()
}

/// Whether page `p` takes typed text.
pub open spec fn is_text_page(p: Page) -> bool {
    p is EfiPartition || p is RootPartition || p is Locale || p is Hostname || p is Username
}

/// The list position highlighted when page `s.page` is entered: the stored
/// answer's position on the filesystem, kernel, driver and desktop pages,
/// and 0 elsewhere.
pub open spec fn entry_index(s: AppState) -> nat {
    match s.page {
        Page::Filesystem => filesystem_index(text_of(s.filesystem)),
        Page::Kernel => kernel_index(s.kernel),
        Page::GpuDriver => gpu_index(s.gpu_driver),
        Page::DesktopEnv => desktop_index(s.desktop_env),
        _ => 0,
    }
}

/// The highlight sits inside the current list (at 0 where there is none),
/// and only a text page holds typed text.
pub open spec fn wf(w: Wizard) -> bool {
    &&& if is_choice_page(w.state.page) {
        w.select_idx < page_options(w.state.page).len()
    } else {
        w.select_idx == 0
    }
    &&& !is_text_page(w.state.page) ==> w.input@.len() == 0
}

/// One step down a list of `n` entries, wrapping from the last to the first.
pub open spec fn cycle_down(i: int, n: int) -> int {
    (i + 1) % n
}

/// One step up a list of `n` entries, wrapping from the first to the last.
pub open spec fn cycle_up(i: int, n: int) -> int {
    (i + n - 1) % n
}

/// `k` steps down from `i`.
pub open spec fn downs(i: int, n: int, k: nat) -> int
    decreases k,
{
    if k == 0 {
        i
    } else {
        cycle_down(downs(i, n, (k - 1) as nat), n)
    }
}

/// `k` steps up from `i`.
pub open spec fn ups(i: int, n: int, k: nat) -> int
    decreases k,
{
    if k == 0 {
        i
    } else {
        cycle_up(ups(i, n, (k - 1) as nat), n)
    }
}

/// The answers `w` holds, read as if it still showed page `p`.
pub open spec fn answers_of(w: Wizard, p: Page) -> AppState {
    AppState { page: p, ..w.state }
}

/// `w` has just entered page `q`: no typed text, and the highlight at the
/// entry position of `q`.
pub open spec fn lands_on(w: Wizard, q: Page) -> bool {
    &&& w.state.page == q
    &&& w.input@.len() == 0
    &&& w.select_idx == entry_index(w.state)
}

/// `s2` is `s` with list position `i` of page `s.page` stored as its answer.
pub open spec fn chosen(s: AppState, s2: AppState, i: int) -> bool {
    match s.page {
        Page::GrubInstall => s2 == AppState { install_grub: Some(i == 0), ..s },
        Page::RootFormat => s2 == AppState { format_root: Some(i == 0), ..s },
        Page::Filesystem => {
            &&& s2 == AppState { filesystem: s2.filesystem, ..s }
            &&& text_of(s2.filesystem) == if 0 <= i < page_options(Page::Filesystem).len() {
                Some(page_options(Page::Filesystem)[i])
            } else {
                None
            }
        },
        Page::Kernel => s2 == AppState { kernel: kernel_choice(i), ..s },
        Page::GpuDriver => s2 == AppState { gpu_driver: gpu_choice(i), ..s },
        Page::DesktopEnv => s2 == AppState { desktop_env: desktop_choice(i), ..s },
        _ => s2 == s,
    }
}

/// `s2` is `s` with `v` stored as the answer of the text page `s.page`.
pub open spec fn text_set(s: AppState, s2: AppState, v: Seq<char>) -> bool {
    match s.page {
        Page::EfiPartition => s2 == AppState { efi_partition: s2.efi_partition, ..s }
            && text_of(s2.efi_partition) == Some(v),
        Page::RootPartition => s2 == AppState { root_partition: s2.root_partition, ..s }
            && text_of(s2.root_partition) == Some(v),
        Page::Locale => s2 == AppState { locale: s2.locale, ..s } && text_of(s2.locale) == Some(v),
        Page::Hostname => s2 == AppState { hostname: s2.hostname, ..s } && text_of(s2.hostname)
            == Some(v),
        Page::Username => s2 == AppState { username: s2.username, ..s } && text_of(s2.username)
            == Some(v),
        _ => s2 == s,
    }
}

/// `w2` shows the page before `w`'s, with the same answers.
pub open spec fn retreated(w: Wizard, w2: Wizard) -> bool {
    lands_on(w2, prev_of(w.state.page)) && answers_of(w2, w.state.page) == w.state
}

/// `w2` shows the page after `w`'s, with the same answers.
pub open spec fn advanced(w: Wizard, w2: Wizard) -> bool {
    lands_on(w2, next_of(w.state.page)) && answers_of(w2, w.state.page) == w.state
}

/// How the wizard moves from `w` to `w2` on key `key`.
pub open spec fn key_step(w: Wizard, key: Key, w2: Wizard) -> bool {
    let p = w.state.page;
    let n = page_options(p).len() as int;
    if p is Welcome || p is Summary {
        if key is Enter {
            advanced(w, w2)
        } else if key is Esc {
            retreated(w, w2)
        } else {
            w2 == w
        }
    } else if is_choice_page(p) {
        match key {
            Key::Up => w2 == Wizard { select_idx: cycle_up(w.select_idx as int, n) as usize, ..w },
            Key::Down => w2 == Wizard {
                select_idx: cycle_down(w.select_idx as int, n) as usize,
                ..w
            },
            Key::Enter => lands_on(w2, next_of(p)) && chosen(
                w.state,
                answers_of(w2, p),
                w.select_idx as int,
            ),
            Key::Esc | Key::Backspace => retreated(w, w2),
            _ => w2 == w,
        }
    } else if is_text_page(p) {
        match key {
            Key::Char(c) => w2.state == w.state && w2.select_idx == w.select_idx && w2.input@
                == w.input@.push(c),
            Key::Backspace => if w.input@.len() > 0 {
                w2.state == w.state && w2.select_idx == w.select_idx && w2.input@
                    == w.input@.drop_last()
            } else {
                retreated(w, w2)
            },
            Key::Enter => lands_on(w2, next_of(p)) && text_set(
                w.state,
                answers_of(w2, p),
                trim_of(w.input@),
            ),
            Key::Esc => retreated(w, w2),
            _ => w2 == w,
        }
    } else if p is UserPassword || p is RootPassword {
        if key is Esc {
            retreated(w, w2)
        } else {
            w2 == w
        }
    } else {
        w2 == w
    }
}

/// What the loop has to do after key `key` on page `p`.
pub open spec fn key_action(p: Page, key: Key) -> Action {
    if p is UserPassword && key is Enter {
        Action::PromptUserPassword
    } else if p is RootPassword && key is Enter {
        Action::PromptRootPassword
    } else if p is Finished && (key is Esc || key == Key::Char('q')) {
        Action::Quit
    } else {
        Action::Stay
    }
}

/// The list position highlighted on entering page `s.page`.
pub fn entry_position(s: &AppState) -> (r: usize)
    ensures
        r == entry_index(*s),
{
    match s.page {
        Page::Filesystem => filesystem_position(&s.filesystem),
        Page::Kernel => kernel_position(s.kernel),
        Page::GpuDriver => gpu_position(s.gpu_driver),
        Page::DesktopEnv => desktop_position(s.desktop_env),
        _ => 0,
    }
}

impl Wizard {
    /// A wizard on the welcome page with the default answers.
    pub fn new() -> (r: Wizard)
        ensures
            crate::config::is_initial(r.state),
            r.input@.len() == 0,
            r.select_idx == 0,
            wf(r),
    {
        Wizard { state: AppState::default(), input: Vec::new(), select_idx: 0 }
    }

    /// Sets up the screen of the page the answers now point at: no typed
    /// text and the highlight at its entry position.
    fn enter_page(&mut self)
        ensures
            final(self).state == old(self).state,
            lands_on(*final(self), old(self).state.page),
    {
        self.input = Vec::new();
        self.select_idx = entry_position(&self.state);
    }

    /// Steps forward, keeping every answer.
    fn advance(&mut self)
        ensures
            advanced(*old(self), *final(self)),
    {
        self.state.next_page();
        self.enter_page();
    }

    /// Steps back, keeping every answer.
    fn retreat(&mut self)
        ensures
            retreated(*old(self), *final(self)),
    {
        self.state.prev_page();
        self.enter_page();
    }

    /// Stores `value` as the answer of the current text page and steps
    /// forward; on any other page nothing changes.
    pub fn commit_text(&mut self, value: String)
        ensures
            is_text_page(old(self).state.page) ==> lands_on(*final(self), next_of(old(self).state.page))
                && text_set(old(self).state, answers_of(*final(self), old(self).state.page), value@),
            !is_text_page(old(self).state.page) ==> *final(self) == *old(self),
    {
        match self.state.page {
            Page::EfiPartition => self.state.efi_partition = Some(value),
            Page::RootPartition => self.state.root_partition = Some(value),
            Page::Locale => self.state.locale = Some(value),
            Page::Hostname => self.state.hostname = Some(value),
            Page::Username => self.state.username = Some(value),
            _ => return ,
        }
        self.advance();
    }

    /// Stores the highlighted option of the current list page as its answer
    /// and steps forward; on any other page nothing changes.
    pub fn commit_choice(&mut self)
        ensures
            is_choice_page(old(self).state.page) ==> lands_on(*final(self), next_of(old(self).state.page))
                && chosen(old(self).state, answers_of(*final(self), old(self).state.page), old(self).select_idx as int),
            !is_choice_page(old(self).state.page) ==> *final(self) == *old(self),
    {
        let i = self.select_idx;
        match self.state.page {
            Page::GrubInstall => self.state.install_grub = Some(i == 0),
            Page::RootFormat => self.state.format_root = Some(i == 0),
            Page::Filesystem => {
                self.state.filesystem = match option_label(Page::Filesystem, i) {
                    Some(label) => Some(label.to_string()),
                    None => None,
                };
            },
            Page::Kernel => self.state.kernel = kernel_for_index(i),
            Page::GpuDriver => self.state.gpu_driver = gpu_for_index(i),
            Page::DesktopEnv => self.state.desktop_env = desktop_for_index(i),
            _ => return ,
        }
        self.advance();
    }

    /// Stores a password read for the current password page and steps
    /// forward; on any other page nothing changes.
    pub fn record_password(&mut self, pw: String)
        ensures
            old(self).state.page is UserPassword ==> lands_on(*final(self), Page::RootPassword)
                && answers_of(*final(self), Page::UserPassword) == (AppState {
                user_password: Some(pw),
                ..old(self).state
            }),
            old(self).state.page is RootPassword ==> lands_on(*final(self), Page::Kernel)
                && answers_of(*final(self), Page::RootPassword) == (AppState {
                root_password: Some(pw),
                ..old(self).state
            }),
            !(old(self).state.page is UserPassword || old(self).state.page is RootPassword)
                ==> *final(self) == *old(self),
    {
        match self.state.page {
            Page::UserPassword => self.state.user_password = Some(pw),
            Page::RootPassword => self.state.root_password = Some(pw),
            _ => return ,
        }
        self.advance();
    }

    /// Reacts to one key press and says what the surrounding loop has to do.
    pub fn handle_key(&mut self, key: Key) -> (act: Action)
        ensures
            key_step(*old(self), key, *final(self)),
            act == key_action(old(self).state.page, key),
            wf(*old(self)) ==> wf(*final(self)),
    {
        let p = self.state.page;
        let n = option_count(p);
        match p {
            Page::Welcome | Page::Summary => {
                match key {
                    Key::Enter => self.advance(),
                    Key::Esc => self.retreat(),
                    _ => {},
                }
                Action::Stay
            },
            Page::GrubInstall | Page::RootFormat | Page::Filesystem | Page::Kernel
            | Page::GpuDriver | Page::DesktopEnv => {
                match key {
                    Key::Up => {
                        let i = self.select_idx;
                        self.select_idx = (i % n + (n - 1)) % n;
                        proof {
                            lemma_small_mod((n - 1) as nat, n as nat);
                            lemma_add_mod_noop(i as int, n - 1, n as int);
                        }
                    },
                    Key::Down => {
                        let i = self.select_idx;
                        self.select_idx = (i % n + 1) % n;
                        proof {
                            lemma_small_mod(1, n as nat);
                            lemma_add_mod_noop(i as int, 1, n as int);
                        }
                    },
                    Key::Enter => self.commit_choice(),
                    Key::Esc | Key::Backspace => self.retreat(),
                    _ => {},
                }
                Action::Stay
            },
            Page::EfiPartition | Page::RootPartition | Page::Locale | Page::Hostname
            | Page::Username => {
                match key {
                    Key::Char(c) => self.input.push(c),
                    Key::Backspace => {
                        if self.input.len() > 0 {
                            self.input.pop();
                        } else {
                            self.retreat();
                        }
                    },
                    Key::Enter => {
                        let v = trimmed(&self.input);
                        self.commit_text(v);
                    },
                    Key::Esc => self.retreat(),
                    _ => {},
                }
                Action::Stay
            },
            Page::UserPassword | Page::RootPassword => {
                match key {
                    Key::Enter => if p == Page::UserPassword {
                        Action::PromptUserPassword
                    } else {
                        Action::PromptRootPassword
                    },
                    Key::Esc => {
                        self.retreat();
                        Action::Stay
                    },
                    _ => Action::Stay,
                }
            },
            Page::Finished => {
                match key {
                    Key::Esc | Key::Char('q') => Action::Quit,
                    _ => Action::Stay,
                }
            },
        }
    }
}

/// `k` steps down from `i` in a list of `n` entries land on `(i + k) % n`.
proof fn lemma_downs_offset(i: int, n: int, k: nat)
    requires
        1 < n,
        0 <= i < n,
    ensures
        downs(i, n, k) == (i + k) % n,
    decreases k,
{
    if k == 0 {
        lemma_small_mod(i as nat, n as nat);
    } else {
        lemma_downs_offset(i, n, (k - 1) as nat);
        lemma_small_mod(1, n as nat);
        lemma_add_mod_noop(i + k - 1, 1, n);
    }
}

/// `k` steps up from `i` in a list of `n` entries land on `(i + k * (n - 1)) % n`.
proof fn lemma_ups_offset(i: int, n: int, k: nat)
    requires
        1 < n,
        0 <= i < n,
    ensures
        ups(i, n, k) == (i + k * (n - 1)) % n,
    decreases k,
{
    if k == 0 {
        lemma_small_mod(i as nat, n as nat);
    } else {
        lemma_ups_offset(i, n, (k - 1) as nat);
        lemma_small_mod((n - 1) as nat, n as nat);
        lemma_add_mod_noop(i + (k - 1) * (n - 1), n - 1, n);
        assert(i + (k - 1) * (n - 1) + (n - 1) == i + k * (n - 1)) by (nonlinear_arith);
    }
}

/// On every list page, pressing Down as many times as the list has entries
/// brings the highlight back to where it started, and so does pressing Up
/// that many times.
pub proof fn lemma_full_cycle(p: Page, i: int)
    requires
        is_choice_page(p),
        0 <= i < page_options(p).len(),
    ensures
        downs(i, page_options(p).len() as int, page_options(p).len()) == i,
        ups(i, page_options(p).len() as int, page_options(p).len()) == i,
{
    let n = page_options(p).len() as int;
    lemma_downs_offset(i, n, n as nat);
    lemma_ups_offset(i, n, n as nat);
    vstd::arithmetic::div_mod::lemma_mod_add_multiples_vanish(i, n);
    assert(i + n * (n - 1) == i + (n - 1) * n) by (nonlinear_arith);
    vstd::arithmetic::div_mod::lemma_mod_multiples_vanish(n - 1, i, n);
    lemma_small_mod(i as nat, n as nat);
}

/// Committing list position `i` and then stepping back shows the same page
/// again, highlighted at 0 on the GRUB and root-format pages and at `i` on
/// the filesystem, kernel, driver and desktop pages.
pub proof fn lemma_commit_then_back(w: Wizard, w2: Wizard, w3: Wizard)
    requires
        wf(w),
        is_choice_page(w.state.page),
        key_step(w, Key::Enter, w2),
        key_step(w2, Key::Esc, w3),
    ensures
        w3.state.page == w.state.page,
        (w.state.page is GrubInstall || w.state.page is RootFormat) ==> w3.select_idx == 0,
        !(w.state.page is GrubInstall || w.state.page is RootFormat) ==> w3.select_idx
            == w.select_idx,
{
    lemma_positions_round_trip(w.select_idx as int);
}

} // verus!
