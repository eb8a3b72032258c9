//! The settings screen: a list of rows over a working copy of the
//! configuration, with toggles and in-place editing of the numeric rows.
use vstd::prelude::*;
use crate::config::{ConfigView, KryptonConfig};
use crate::text::{decimal, parse_u32, parse_u32_spec, push_char, u64_to_decimal};

verus! {

/// The number of rows on the settings screen.
pub const SETTING_ROWS: usize = 12;

/// The settings screen.
#[derive(Debug)]
pub struct SettingsState {
    /// Working copy of the config being edited.
    pub config: KryptonConfig,
    /// Index of the currently selected setting row.
    pub selected: usize,
    /// When true, a numeric row (clipboard timeout or password length) is
    /// being edited.
    pub editing_number: bool,
    /// Buffer for numeric input.
    pub number_buffer: String,
}

/// `"[x]"` for true, `"[ ]"` for false.
pub open spec fn bool_text(b: bool) -> Seq<char> {
    if b {
        "[x]"@
    } else {
        "[ ]"@
    }
}

/// The checkbox text of a boolean setting.
pub fn fmt_bool(b: bool) -> (r: String)
    ensures
        r@ == bool_text(b),
{
    if b {
        String::from_str("[x]")
    } else {
        String::from_str("[ ]")
    }
}

/// The label of row `i` (empty past the last row).
pub open spec fn row_label(i: int) -> Seq<char> {
    if i == 0 {
        "Hide metadata in list"@
    } else if i == 1 {
        "Clipboard timeout (s)"@
    } else if i == 2 {
        "Confirm before delete"@
    } else if i == 3 {
        "Password length"@
    } else if i == 4 {
        "Uppercase"@
    } else if i == 5 {
        "Lowercase"@
    } else if i == 6 {
        "Digits"@
    } else if i == 7 {
        "Symbols"@
    } else if i == 8 {
        "Relative timestamps"@
    } else if i == 9 {
        "Sidebar enabled"@
    } else if i == 10 {
        "Vim keybinds (j/k)"@
    } else if i == 11 {
        "Clipboard tool"@
    } else {
        Seq::empty()
    }
}

/// The value text of row `i` for the given state.
pub open spec fn row_value(c: ConfigView, selected: usize, editing: bool, buffer: Seq<char>, i: int) -> Seq<char> {
    if i == 0 {
        bool_text(c.hide_metadata)
    } else if i == 1 {
        if editing && selected == 1 {
            buffer.push('_')
        } else {
            decimal(c.clipboard_timeout_secs as nat)
        }
    } else if i == 2 {
        bool_text(c.confirm_before_delete)
    } else if i == 3 {
        decimal(c.password_length as nat)
    } else if i == 4 {
        bool_text(c.password_uppercase)
    } else if i == 5 {
        bool_text(c.password_lowercase)
    } else if i == 6 {
        bool_text(c.password_digits)
    } else if i == 7 {
        bool_text(c.password_symbols)
    } else if i == 8 {
        bool_text(c.relative_timestamps)
    } else if i == 9 {
        bool_text(c.sidebar_enabled)
    } else if i == 10 {
        bool_text(c.vim_keybinds)
    } else if i == 11 {
        c.clipboard_tool
    } else {
        Seq::empty()
    }
}

/// The clipboard tool that follows `t` in the cycle
/// auto → wl-copy → xclip → arboard → auto (anything else → auto).
pub open spec fn next_tool(t: Seq<char>) -> Seq<char> {
    if t == "auto"@ {
        "wl-copy"@
    } else if t == "wl-copy"@ {
        "xclip"@
    } else if t == "xclip"@ {
        "arboard"@
    } else {
        "auto"@
    }
}

/// The configuration after toggling row `i`; rows that are not toggles
/// leave it unchanged.
pub open spec fn toggled(c: ConfigView, i: int) -> ConfigView {
    if i == 0 {
        ConfigView { hide_metadata: !c.hide_metadata, ..c }
    } else if i == 2 {
        ConfigView { confirm_before_delete: !c.confirm_before_delete, ..c }
    } else if i == 4 {
        ConfigView { password_uppercase: !c.password_uppercase, ..c }
    } else if i == 5 {
        ConfigView { password_lowercase: !c.password_lowercase, ..c }
    } else if i == 6 {
        ConfigView { password_digits: !c.password_digits, ..c }
    } else if i == 7 {
        ConfigView { password_symbols: !c.password_symbols, ..c }
    } else if i == 8 {
        ConfigView { relative_timestamps: !c.relative_timestamps, ..c }
    } else if i == 9 {
        ConfigView { sidebar_enabled: !c.sidebar_enabled, ..c }
    } else if i == 10 {
        ConfigView { vim_keybinds: !c.vim_keybinds, ..c }
    } else if i == 11 {
        ConfigView { clipboard_tool: next_tool(c.clipboard_tool), ..c }
    } else {
        c
    }
}

/// `v` limited to the range `lo..=hi`.
pub open spec fn clamp(v: int, lo: int, hi: int) -> int {
    if v < lo {
        lo
    } else if v > hi {
        hi
    } else {
        v
    }
}

/// The configuration after committing the number buffer `buffer` while row
/// `selected` is edited: a buffer that does not parse changes nothing; row
/// 1 takes the value clamped to 5..=300, row 3 clamped to 4..=128.
pub open spec fn committed(c: ConfigView, selected: usize, buffer: Seq<char>) -> ConfigView {
    match parse_u32_spec(buffer) {
        Some(v) => if selected == 1 {
            ConfigView { clipboard_timeout_secs: clamp(v as int, 5, 300) as u32, ..c }
        } else if selected == 3 {
            ConfigView { password_length: clamp(v as int, 4, 128) as usize, ..c }
        } else {
            c
        },
        None => c,
    }
}

fn clamp_u32(v: u32, lo: u32, hi: u32) -> (r: u32)
    requires
        lo <= hi,
    ensures
        r == clamp(v as int, lo as int, hi as int),
{
    if v < lo {
        lo
    } else if v > hi {
        hi
    } else {
        v
    }
}

impl SettingsState {
    /// A settings screen over `config`, with the first row selected.
    pub fn with_config(config: KryptonConfig) -> (r: Self)
        ensures
            r.config@ == config@,
            r.selected == 0,
            !r.editing_number,
            r.number_buffer@.len() == 0,
    {
        SettingsState { config, selected: 0, editing_number: false, number_buffer: String::new() }
    }

    /// The settings screen over the default configuration.
    pub fn new() -> (r: Self)
        ensures
            r.config@ == crate::config::default_config(),
            r.selected == 0,
            !r.editing_number,
            r.number_buffer@.len() == 0,
    {
        Self::with_config(KryptonConfig::default())
    }

    /// Number of setting rows.
    pub fn len(&self) -> (r: usize)
        ensures
            r == SETTING_ROWS,
    {
        SETTING_ROWS
    }

    /// The display label and value of row `i`.
    pub fn row(&self, i: usize) -> (r: (String, String))
        ensures
            r.0@ == row_label(i as int),
            r.1@ == row_value(self.config@, self.selected, self.editing_number, self.number_buffer@, i as int),
    {
        let c = &self.config;
        if i == 0 {
            (String::from_str("Hide metadata in list"), fmt_bool(c.hide_metadata))
        } else if i == 1 {
            let v = if self.editing_number && self.selected == 1 {
                let mut b = self.number_buffer.clone();
                push_char(&mut b, '_');
                b
            } else {
                u64_to_decimal(c.clipboard_timeout_secs as u64)
            };
            (String::from_str("Clipboard timeout (s)"), v)
        } else if i == 2 {
            (String::from_str("Confirm before delete"), fmt_bool(c.confirm_before_delete))
        } else if i == 3 {
            (String::from_str("Password length"), u64_to_decimal(c.password_length as u64))
        } else if i == 4 {
            (String::from_str("Uppercase"), fmt_bool(c.password_uppercase))
        } else if i == 5 {
            (String::from_str("Lowercase"), fmt_bool(c.password_lowercase))
        } else if i == 6 {
            (String::from_str("Digits"), fmt_bool(c.password_digits))
        } else if i == 7 {
            (String::from_str("Symbols"), fmt_bool(c.password_symbols))
        } else if i == 8 {
            (String::from_str("Relative timestamps"), fmt_bool(c.relative_timestamps))
        } else if i == 9 {
            (String::from_str("Sidebar enabled"), fmt_bool(c.sidebar_enabled))
        } else if i == 10 {
            (String::from_str("Vim keybinds (j/k)"), fmt_bool(c.vim_keybinds))
        } else if i == 11 {
            (String::from_str("Clipboard tool"), c.clipboard_tool.clone())
        } else {
            (String::new(), String::new())
        }
    }

    /// Toggles the boolean at row `i` (row 11 cycles the clipboard tool);
    /// other rows are left alone.
    pub fn toggle(&mut self, i: usize)
        ensures
            final(self).config@ == toggled(old(self).config@, i as int),
            final(self).selected == old(self).selected,
            final(self).editing_number == old(self).editing_number,
            final(self).number_buffer@ == old(self).number_buffer@,
    {
        if i == 0 {
            self.config.hide_metadata = !self.config.hide_metadata;
        } else if i == 2 {
            self.config.confirm_before_delete = !self.config.confirm_before_delete;
        } else if i == 4 {
            self.config.password_uppercase = !self.config.password_uppercase;
        } else if i == 5 {
            self.config.password_lowercase = !self.config.password_lowercase;
        } else if i == 6 {
            self.config.password_digits = !self.config.password_digits;
        } else if i == 7 {
            self.config.password_symbols = !self.config.password_symbols;
        } else if i == 8 {
            self.config.relative_timestamps = !self.config.relative_timestamps;
        } else if i == 9 {
            self.config.sidebar_enabled = !self.config.sidebar_enabled;
        } else if i == 10 {
            self.config.vim_keybinds = !self.config.vim_keybinds;
        } else if i == 11 {
            let tool = self.config.clipboard_tool.as_str();
            let next = if crate::config::same_text(tool, "auto") {
                String::from_str("wl-copy")
            } else if crate::config::same_text(tool, "wl-copy") {
                String::from_str("xclip")
            } else if crate::config::same_text(tool, "xclip") {
                String::from_str("arboard")
            } else {
                String::from_str("auto")
            };
            self.config.clipboard_tool = next;
        }
    }

    /// Starts editing the selected row if it is a numeric row (1 or 3),
    /// with the buffer holding the current value.
    pub fn start_edit(&mut self)
        ensures
            final(self).config@ == old(self).config@,
            final(self).selected == old(self).selected,
            old(self).selected == 1 ==> final(self).editing_number
                && final(self).number_buffer@ == decimal(old(self).config.clipboard_timeout_secs as nat),
            old(self).selected == 3 ==> final(self).editing_number
                && final(self).number_buffer@ == decimal(old(self).config.password_length as nat),
            old(self).selected != 1 && old(self).selected != 3 ==>
                final(self).editing_number == old(self).editing_number
                && final(self).number_buffer@ == old(self).number_buffer@,
    {
        if self.selected == 1 {
            self.editing_number = true;
            self.number_buffer = u64_to_decimal(self.config.clipboard_timeout_secs as u64);
        } else if self.selected == 3 {
            self.editing_number = true;
            self.number_buffer = u64_to_decimal(self.config.password_length as u64);
        }
    }

    /// Commits the number being edited to the configuration and leaves
    /// editing mode with an empty buffer.
    pub fn commit_number(&mut self)
        ensures
            final(self).config@ == committed(old(self).config@, old(self).selected, old(self).number_buffer@),
            final(self).selected == old(self).selected,
            !final(self).editing_number,
            final(self).number_buffer@ == Seq::<char>::empty(),
    {
        match parse_u32(self.number_buffer.as_str()) {
            Some(v) => {
                if self.selected == 1 {
                    self.config.clipboard_timeout_secs = clamp_u32(v, 5, 300);
                } else if self.selected == 3 {
                    self.config.password_length = clamp_u32(v, 4, 128) as usize;
                }
            },
            None => {},
        }
        self.editing_number = false;
        self.number_buffer = String::new();
        assert(self.number_buffer@ =~= Seq::<char>::empty());
    }
}

/// Whether row `i` is flipped by a toggle rather than edited as a number.
pub open spec fn is_toggle_row(i: int) -> bool {
    0 <= i < 12 && i != 1 && i != 3
}

/// Toggling row `i` changes the value that row shows and no other row's
/// value; the settings that no row shows (metadata encryption, accent
/// colour, row numbers) stay as they were.
pub proof fn lemma_toggle_changes_only_its_row(c: ConfigView, i: int, selected: usize, editing: bool, buffer: Seq<char>)
    requires
        is_toggle_row(i),
    ensures
        row_value(toggled(c, i), selected, editing, buffer, i) != row_value(c, selected, editing, buffer, i),
        forall|j: int| 0 <= j < 12 && j != i ==> #[trigger] row_value(toggled(c, i), selected, editing, buffer, j)
            == row_value(c, selected, editing, buffer, j),
        toggled(c, i).encrypt_metadata == c.encrypt_metadata,
        toggled(c, i).accent_color == c.accent_color,
        toggled(c, i).show_row_numbers == c.show_row_numbers,
{
    reveal_strlit("[x]");
    reveal_strlit("[ ]");
    reveal_strlit("auto");
    reveal_strlit("wl-copy");
    reveal_strlit("xclip");
    reveal_strlit("arboard");
    assert(bool_text(true) != bool_text(false)) by {
        assert(bool_text(true)[1] != bool_text(false)[1]);
    }
    if i == 11 {
        let t = c.clipboard_tool;
        if t == "auto"@ {
            assert(next_tool(t).len() != t.len());
        } else if t == "wl-copy"@ {
            assert(next_tool(t).len() != t.len());
        } else if t == "xclip"@ {
            assert(next_tool(t)[0] != t[0]);
        } else {
            assert(next_tool(t) == "auto"@);
        }
    }
}

/// Toggling a boolean row twice restores the configuration.
pub proof fn lemma_toggle_twice(c: ConfigView, i: int)
    requires
        0 <= i <= 10,
        i != 1 && i != 3,
    ensures
        toggled(toggled(c, i), i) == c,
{
}

/// Toggling the clipboard-tool row four times from any of the four tools
/// comes back to it.
pub proof fn lemma_tool_cycle(c: ConfigView)
    requires
        c.clipboard_tool == "auto"@ || c.clipboard_tool == "wl-copy"@ || c.clipboard_tool == "xclip"@
            || c.clipboard_tool == "arboard"@,
    ensures
        toggled(toggled(toggled(toggled(c, 11), 11), 11), 11) == c,
{
    reveal_strlit("auto");
    reveal_strlit("wl-copy");
    reveal_strlit("xclip");
    reveal_strlit("arboard");
    assert("auto"@.len() != "wl-copy"@.len());
    assert("auto"@ != "xclip"@) by {
        assert("auto"@[0] != "xclip"@[0]);
    }
    assert("auto"@.len() != "arboard"@.len());
    assert("wl-copy"@.len() != "xclip"@.len());
    assert("wl-copy"@ != "arboard"@) by {
        assert("wl-copy"@[0] != "arboard"@[0]);
    }
    assert("xclip"@.len() != "arboard"@.len());
    let t = c.clipboard_tool;
    assert(next_tool(next_tool(next_tool(next_tool(t)))) == t);
}

/// Committing the number that editing started with leaves a value that is
/// already within its range unchanged.
pub proof fn lemma_edit_commit_unchanged(c: ConfigView, selected: usize)
    requires
        selected == 1 ==> 5 <= c.clipboard_timeout_secs <= 300,
        selected == 3 ==> 4 <= c.password_length <= 128,
        selected == 1 || selected == 3,
    ensures
        committed(
            c,
            selected,
            if selected == 1 {
                decimal(c.clipboard_timeout_secs as nat)
            } else {
                decimal(c.password_length as nat)
            },
        ) == c,
{
    if selected == 1 {
        crate::text::lemma_parse_decimal(c.clipboard_timeout_secs);
    } else {
        crate::text::lemma_parse_decimal(c.password_length as u32);
    }
}

/// After committing an edit of row 1 or row 3 with a number, the value lies
/// within its range: 5..=300 seconds, 4..=128 characters.
pub proof fn lemma_commit_in_range(c: ConfigView, selected: usize, buffer: Seq<char>)
    requires
        parse_u32_spec(buffer) is Some,
    ensures
        selected == 1 ==> 5 <= committed(c, selected, buffer).clipboard_timeout_secs <= 300,
        selected == 3 ==> 4 <= committed(c, selected, buffer).password_length <= 128,
{
}

} // verus!
