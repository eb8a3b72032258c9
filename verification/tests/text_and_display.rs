use krypton::display::{
    bullet_string, first_line_of, format_time, locked_input_display, password_strength, preview_lines,
    relative_time_at, render_password, search_item, strength_bar, tags_display, totp_code, truncate,
    StrengthColor,
};
use krypton::models::{Entry, EntryId, EntrySummary};
use krypton::config::{clipboard_clear_order, clipboard_set_order, ClipboardBackend};
use krypton::text::{is_blank, parse_u32};

#[test]
fn parse_u32_accepts_plain_and_plus() {
    assert_eq!(parse_u32("0"), Some(0));
    assert_eq!(parse_u32("42"), Some(42));
    assert_eq!(parse_u32("+7"), Some(7));
    assert_eq!(parse_u32("007"), Some(7));
    assert_eq!(parse_u32("4294967295"), Some(u32::MAX));
}

#[test]
fn parse_u32_rejects_malformed() {
    assert_eq!(parse_u32(""), None);
    assert_eq!(parse_u32("+"), None);
    assert_eq!(parse_u32("-1"), None);
    assert_eq!(parse_u32("12a"), None);
    assert_eq!(parse_u32(" 12"), None);
    assert_eq!(parse_u32("4294967296"), None);
}

#[test]
fn parse_u32_agrees_with_std() {
    for s in ["1", "99", "+300", "x", "", "65536", "99999999999", "3_0"] {
        assert_eq!(parse_u32(s), s.parse::<u32>().ok(), "{s}");
    }
}

#[test]
fn decimal_round_trips() {
    for n in [0u32, 5, 30, 128, 300, 65535, u32::MAX] {
        assert_eq!(parse_u32(&n.to_string()), Some(n));
    }
}

#[test]
fn blank_titles() {
    assert!(is_blank(""));
    assert!(is_blank("  \t\n"));
    assert!(!is_blank(" a "));
}

#[test]
fn masked_password_counts_bytes() {
    assert_eq!(render_password(""), "");
    assert_eq!(render_password("abc"), "\u{2022}\u{2022}\u{2022}");
    assert_eq!(render_password("\u{e9}"), "\u{2022}\u{2022}");
    assert_eq!(bullet_string(4).chars().count(), 4);
}

#[test]
fn strength_scores() {
    assert_eq!(password_strength(""), 1);
    assert_eq!(password_strength("abcdefgh"), 2);
    assert_eq!(password_strength("abcdefgh1234"), 3);
    assert_eq!(password_strength("Abcdefgh1234!xyz"), 4);
    assert_eq!(password_strength("abcdefghijklmnop"), 2);
    assert_eq!(password_strength("short1A!"), 2);
}

#[test]
fn strength_bar_words() {
    let (bar, color) = strength_bar(1);
    assert_eq!(bar, "\u{2588}\u{2591}\u{2591}\u{2591}\u{2591}\u{2591}\u{2591}\u{2591}\u{2591}\u{2591} Weak");
    assert_eq!(color, StrengthColor::Red);
    let (bar, color) = strength_bar(4);
    assert_eq!(bar, "\u{2588}\u{2588}\u{2588}\u{2588}\u{2588}\u{2588}\u{2588}\u{2588}\u{2588}\u{2588} Strong");
    assert_eq!(color, StrengthColor::Green);
    assert!(strength_bar(3).0.ends_with(" Good"));
    assert!(strength_bar(2).0.ends_with(" Fair"));
}

#[test]
fn truncate_cuts_with_ellipsis() {
    assert_eq!(truncate("hello", 10), "hello");
    assert_eq!(truncate("hello", 5), "hello");
    assert_eq!(truncate("hello world", 5), "hell\u{2026}");
    assert_eq!(truncate("hello", 0), "\u{2026}");
    assert_eq!(truncate("h\u{e9}llo", 3), "h\u{e9}\u{2026}");
}

#[test]
fn relative_ages() {
    assert_eq!(relative_time_at(1000, 990), "just now");
    assert_eq!(relative_time_at(1000, 2000), "just now");
    assert_eq!(relative_time_at(1000, 1000 - 120), "2m ago");
    assert_eq!(relative_time_at(10_000, 10_000 - 7200), "2h ago");
    assert_eq!(relative_time_at(1_000_000, 1_000_000 - 3 * 86400), "3d ago");
    assert_eq!(relative_time_at(i64::MAX, i64::MIN), format!("{}d ago", (i64::MAX as i128 - i64::MIN as i128) / 86400));
}

#[test]
fn absolute_times() {
    assert_eq!(format_time(0), "\u{2014}");
    assert_eq!(format_time(-5), "\u{2014}");
    assert_eq!(format_time(86400), "1970-01-02 00:00");
    assert_eq!(format_time(i64::MAX), "\u{2014}");
}

#[test]
fn totp_placeholder() {
    assert_eq!(totp_code("JBSWY3DPEHPK3PXP"), "------");
}

#[test]
fn first_lines() {
    assert_eq!(first_line_of(""), None);
    assert_eq!(first_line_of("one"), Some("one".to_string()));
    assert_eq!(first_line_of("one\ntwo"), Some("one".to_string()));
    assert_eq!(first_line_of("one\r\ntwo"), Some("one".to_string()));
    assert_eq!(first_line_of("\nx"), Some(String::new()));
    assert_eq!(first_line_of("a\n").as_deref(), "a\n".lines().next());
    assert_eq!(first_line_of("abc\r"), Some("abc\r".to_string()));
    for t in ["abc\r", "x\r\ny", "\r", "\r\n", "p\rq\n"] {
        assert_eq!(first_line_of(t).as_deref(), t.lines().next(), "{t:?}");
    }
}

#[test]
fn locked_field_display() {
    assert_eq!(locked_input_display("", true), "Enter master password...");
    assert_eq!(locked_input_display("", false), "Enter master password...");
    assert_eq!(locked_input_display("ab", true), "\u{2022}\u{2022}");
    assert_eq!(locked_input_display("ab", false), "ab");
}

#[test]
fn tag_lists() {
    assert_eq!(tags_display(&vec![]), "\u{2014}");
    assert_eq!(tags_display(&vec!["a".to_string()]), "a");
    assert_eq!(tags_display(&vec!["a".to_string(), "b".to_string(), "c".to_string()]), "a, b, c");
}

#[test]
fn search_lines() {
    let s = EntrySummary {
        id: EntryId(1),
        title: "Mail".to_string(),
        username: Some("me".to_string()),
        url: None,
        tags: vec![],
        updated_at: 0,
    };
    assert_eq!(search_item(&s), "Mail  (me)");
    let t = EntrySummary { username: None, ..s };
    assert_eq!(search_item(&t), "Mail  ()");
}

#[test]
fn preview_panel_lines() {
    let mut e = Entry::new("A very long title that goes on and on".to_string(), String::new());
    e.notes = Some("first\nsecond".to_string());
    e.tags = vec!["x".to_string(), "y".to_string()];
    let p = preview_lines(&e);
    assert_eq!(p.title.chars().count(), 28);
    assert!(p.title.ends_with('\u{2026}'));
    assert_eq!(p.username, "\u{2014}");
    assert_eq!(p.password, "\u{2022}");
    assert_eq!(p.url, "\u{2014}");
    assert_eq!(p.notes, "first");
    assert_eq!(p.tags, "x, y");
}

#[test]
fn appending_never_lowers_strength() {
    let words = ["", "a", "abcdefgh", "Abc1", "Abcdefgh1234!xyz", "ü", "ééééé", "short1A!"];
    for s in words {
        for t in words {
            let joined = format!("{s}{t}");
            assert!(password_strength(&joined) >= password_strength(s), "{s:?} + {t:?}");
        }
    }
}

#[test]
fn clipboard_orders() {
    assert_eq!(clipboard_set_order("auto"), vec![ClipboardBackend::Arboard, ClipboardBackend::WlCopy, ClipboardBackend::Xclip]);
    assert_eq!(clipboard_set_order("xclip"), vec![ClipboardBackend::Xclip]);
    assert_eq!(clipboard_set_order("wl-copy"), vec![ClipboardBackend::WlCopy]);
    assert_eq!(clipboard_set_order("arboard"), vec![ClipboardBackend::Arboard]);
    assert_eq!(clipboard_clear_order("auto"), vec![ClipboardBackend::Arboard, ClipboardBackend::WlCopy]);
    assert!(clipboard_clear_order("xclip").is_empty());
}
