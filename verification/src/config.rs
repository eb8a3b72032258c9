//! User preferences (no secrets are stored here).
use vstd::prelude::*;

verus! {

/// Application configuration persisted to `~/.config/krypton/config.json`.
#[derive(Debug)]
pub struct KryptonConfig {
    /// When true, title/username/url are encrypted inside the entry blob
    /// instead of stored as plaintext columns.
    pub encrypt_metadata: bool,
    /// When true, title/username/url are shown as "[hidden]" in the list.
    pub hide_metadata: bool,
    /// Seconds before the clipboard is automatically cleared after a copy.
    pub clipboard_timeout_secs: u32,
    /// Ask for a second press before deleting an entry.
    pub confirm_before_delete: bool,
    /// Length of generated passwords.
    pub password_length: usize,
    pub password_uppercase: bool,
    pub password_lowercase: bool,
    pub password_digits: bool,
    pub password_symbols: bool,
    /// Relative timestamps in the entry list ("2m ago") vs absolute.
    pub relative_timestamps: bool,
    /// Accent colour name: Cyan, Green, Yellow, Blue, Magenta or White.
    pub accent_color: String,
    /// Show row numbers in the entry list.
    pub show_row_numbers: bool,
    /// Show the preview sidebar next to the entry list.
    pub sidebar_enabled: bool,
    /// Accept j/k for moving in lists.
    pub vim_keybinds: bool,
    /// Clipboard tool: auto, wl-copy, xclip or arboard.
    pub clipboard_tool: String,
}

/// The abstract value of a [`KryptonConfig`].
pub struct ConfigView {
    pub encrypt_metadata: bool,
    pub hide_metadata: bool,
    pub clipboard_timeout_secs: u32,
    pub confirm_before_delete: bool,
    pub password_length: usize,
    pub password_uppercase: bool,
    pub password_lowercase: bool,
    pub password_digits: bool,
    pub password_symbols: bool,
    pub relative_timestamps: bool,
    pub accent_color: Seq<char>,
    pub show_row_numbers: bool,
    pub sidebar_enabled: bool,
    pub vim_keybinds: bool,
    pub clipboard_tool: Seq<char>,
}

impl View for KryptonConfig {
    type V = ConfigView;

    open spec fn view(&self) -> ConfigView {
        ConfigView {
            encrypt_metadata: self.encrypt_metadata,
            hide_metadata: self.hide_metadata,
            clipboard_timeout_secs: self.clipboard_timeout_secs,
            confirm_before_delete: self.confirm_before_delete,
            password_length: self.password_length,
            password_uppercase: self.password_uppercase,
            password_lowercase: self.password_lowercase,
            password_digits: self.password_digits,
            password_symbols: self.password_symbols,
            relative_timestamps: self.relative_timestamps,
            accent_color: self.accent_color@,
            show_row_numbers: self.show_row_numbers,
            sidebar_enabled: self.sidebar_enabled,
            vim_keybinds: self.vim_keybinds,
            clipboard_tool: self.clipboard_tool@,
        }
    }
}

impl Clone for KryptonConfig {
    fn clone(&self) -> (r: Self)
        ensures
            r@ == self@,
    {
        KryptonConfig {
            encrypt_metadata: self.encrypt_metadata,
            hide_metadata: self.hide_metadata,
            clipboard_timeout_secs: self.clipboard_timeout_secs,
            confirm_before_delete: self.confirm_before_delete,
            password_length: self.password_length,
            password_uppercase: self.password_uppercase,
            password_lowercase: self.password_lowercase,
            password_digits: self.password_digits,
            password_symbols: self.password_symbols,
            relative_timestamps: self.relative_timestamps,
            accent_color: self.accent_color.clone(),
            show_row_numbers: self.show_row_numbers,
            sidebar_enabled: self.sidebar_enabled,
            vim_keybinds: self.vim_keybinds,
            clipboard_tool: self.clipboard_tool.clone(),
        }
    }
}

/// The configuration used when no file exists.
pub open spec fn default_config() -> ConfigView {
    ConfigView {
        encrypt_metadata: false,
        hide_metadata: false,
        clipboard_timeout_secs: 30,
        confirm_before_delete: false,
        password_length: 20,
        password_uppercase: true,
        password_lowercase: true,
        password_digits: true,
        password_symbols: true,
        relative_timestamps: true,
        accent_color: "Cyan"@,
        show_row_numbers: false,
        sidebar_enabled: true,
        vim_keybinds: true,
        clipboard_tool: "auto"@,
    }
}

impl Default for KryptonConfig {
    fn default() -> (r: Self)
        ensures
            r@ == default_config(),
    {
        KryptonConfig {
            encrypt_metadata: false,
            hide_metadata: false,
            clipboard_timeout_secs: default_clipboard_timeout(),
            confirm_before_delete: false,
            password_length: default_pw_length(),
            password_uppercase: default_true(),
            password_lowercase: default_true(),
            password_digits: default_true(),
            password_symbols: default_true(),
            relative_timestamps: default_true(),
            accent_color: default_accent(),
            show_row_numbers: false,
            sidebar_enabled: default_true(),
            vim_keybinds: default_true(),
            clipboard_tool: default_clipboard_tool(),
        }
    }
}

/// Default for a missing `clipboard_timeout_secs`: 30 seconds.
pub fn default_clipboard_timeout() -> (r: u32)
    ensures
        r == 30,
{
    30
}

/// Default for a missing `password_length`: 20 characters.
pub fn default_pw_length() -> (r: usize)
    ensures
        r == 20,
{
    20
}

/// Default for a missing boolean that is on unless turned off.
pub fn default_true() -> (r: bool)
    ensures
        r,
{
    true
}

/// Default for a missing `accent_color`: "Cyan".
pub fn default_accent() -> (r: String)
    ensures
        r@ == "Cyan"@,
{
    String::from_str("Cyan")
}

/// Default for a missing `clipboard_tool`: "auto".
pub fn default_clipboard_tool() -> (r: String)
    ensures
        r@ == "auto"@,
{
    String::from_str("auto")
}

/// The accent colours the interface can use.
#[derive(Debug, Clone, Copy, PartialEq, Eq, Structural)]
pub enum Accent {
    Cyan,
    Green,
    Yellow,
    Blue,
    Magenta,
    White,
}

/// The accent a configured colour name selects; unknown names give Cyan.
pub open spec fn accent_for(name: Seq<char>) -> Accent {
    if name == "Green"@ {
        Accent::Green
    } else if name == "Yellow"@ {
        Accent::Yellow
    } else if name == "Blue"@ {
        Accent::Blue
    } else if name == "Magenta"@ {
        Accent::Magenta
    } else if name == "White"@ {
        Accent::White
    } else {
        Accent::Cyan
    }
}

/// Whether two strings hold the same characters.
pub fn same_text(a: &str, b: &str) -> (r: bool)
    ensures
        r == (a@ == b@),
{
    let n = a.unicode_len();
    if n != b.unicode_len() {
        return false;
    }
    let mut i: usize = 0;
    while i < n
        invariant
            n == a@.len(),
            n == b@.len(),
            i <= n,
            forall|k: int| 0 <= k < i ==> a@[k] == b@[k],
        decreases n - i,
    {
        if a.get_char(i) != b.get_char(i) {
            return false;
        }
        i = i + 1;
    }
    assert(a@ =~= b@);
    true
}

impl KryptonConfig {
    /// The accent colour this configuration selects.
    pub fn accent(&self) -> (r: Accent)
        ensures
            r == accent_for(self.accent_color@),
    {
        let name = self.accent_color.as_str();
        if same_text(name, "Green") {
            Accent::Green
        } else if same_text(name, "Yellow") {
            Accent::Yellow
        } else if same_text(name, "Blue") {
            Accent::Blue
        } else if same_text(name, "Magenta") {
            Accent::Magenta
        } else if same_text(name, "White") {
            Accent::White
        } else {
            Accent::Cyan
        }
    }
}

/// A way of reaching the system clipboard.
#[derive(Debug, Clone, Copy, PartialEq, Eq, Structural)]
pub enum ClipboardBackend {
    /// The arboard library.
    Arboard,
    /// The `wl-copy` command (Wayland).
    WlCopy,
    /// The `xclip` command (X11).
    Xclip,
}

/// The backends that setting the clipboard tries, in order, for the
/// configured tool; the first that succeeds ends the attempt. A named tool
/// is tried alone; any other setting ("auto") tries arboard, then wl-copy,
/// then xclip.
pub open spec fn set_order(tool: Seq<char>) -> Seq<ClipboardBackend> {
    if tool == "arboard"@ {
        seq![ClipboardBackend::Arboard]
    } else if tool == "wl-copy"@ {
        seq![ClipboardBackend::WlCopy]
    } else if tool == "xclip"@ {
        seq![ClipboardBackend::Xclip]
    } else {
        seq![ClipboardBackend::Arboard, ClipboardBackend::WlCopy, ClipboardBackend::Xclip]
    }
}

/// The backends that clearing the clipboard uses, all of them in turn; with
/// xclip there is nothing to clear, and "auto" clears through arboard and
/// wl-copy.
pub open spec fn clear_order(tool: Seq<char>) -> Seq<ClipboardBackend> {
    if tool == "arboard"@ {
        seq![ClipboardBackend::Arboard]
    } else if tool == "wl-copy"@ {
        seq![ClipboardBackend::WlCopy]
    } else if tool == "xclip"@ {
        Seq::empty()
    } else {
        seq![ClipboardBackend::Arboard, ClipboardBackend::WlCopy]
    }
}

/// The backends to try, in order, when setting the clipboard with `tool`.
pub fn clipboard_set_order(tool: &str) -> (r: Vec<ClipboardBackend>)
    ensures
        r@ == set_order(tool@),
{
    let mut v: Vec<ClipboardBackend> = Vec::new();
    if same_text(tool, "arboard") {
        v.push(ClipboardBackend::Arboard);
    } else if same_text(tool, "wl-copy") {
        v.push(ClipboardBackend::WlCopy);
    } else if same_text(tool, "xclip") {
        v.push(ClipboardBackend::Xclip);
    } else {
        v.push(ClipboardBackend::Arboard);
        v.push(ClipboardBackend::WlCopy);
        v.push(ClipboardBackend::Xclip);
    }
    assert(v@ =~= set_order(tool@));
    v
}

/// The backends to clear the clipboard through when `tool` is configured.
pub fn clipboard_clear_order(tool: &str) -> (r: Vec<ClipboardBackend>)
    ensures
        r@ == clear_order(tool@),
{
    let mut v: Vec<ClipboardBackend> = Vec::new();
    if same_text(tool, "arboard") {
        v.push(ClipboardBackend::Arboard);
    } else if same_text(tool, "wl-copy") {
        v.push(ClipboardBackend::WlCopy);
    } else if same_text(tool, "xclip") {
    } else {
        v.push(ClipboardBackend::Arboard);
        v.push(ClipboardBackend::WlCopy);
    }
    assert(v@ =~= clear_order(tool@));
    v
}

} // verus!
