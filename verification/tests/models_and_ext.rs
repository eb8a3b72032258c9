use krypton::config::{Accent, KryptonConfig};
use krypton::error::VaultError;
use krypton::ext::{charset, DefaultGenerator, Extension, GeneratorConfig, GeneratorExt};
use krypton::models::{CustomField, Entry, EntryData, EntryId, EntrySummary, FieldValue};

#[test]
fn ids_print_and_parse() {
    let id = EntryId(0x0123456789abcdef0011223344556677);
    let text = id.to_text();
    assert_eq!(text, "01234567-89ab-cdef-0011-223344556677");
    assert_eq!(EntryId::parse(&text), Some(id));
    assert_eq!(EntryId::parse("nope"), None);
}

#[test]
fn fresh_ids_differ() {
    assert_ne!(EntryId::new(), EntryId::new());
}

#[test]
fn fresh_ids_are_version_four() {
    for _ in 0..20 {
        let text = EntryId::new().to_text();
        let chars: Vec<char> = text.chars().collect();
        assert_eq!(chars[14], '4');
        assert!("89ab".contains(chars[19]));
    }
}

#[test]
fn new_entry_has_matching_timestamps() {
    let e = Entry::new("t".into(), "p".into());
    assert_eq!(e.title, "t");
    assert_eq!(e.password, "p");
    assert_eq!(e.created_at, e.updated_at);
    assert!(e.username.is_none() && e.tags.is_empty() && e.custom_fields.is_empty());
}

#[test]
fn entry_data_round_trip() {
    let mut e = Entry::new("t".into(), "p".into());
    e.username = Some("u".into());
    e.custom_fields = vec![CustomField { label: "pin".into(), value: FieldValue::Secret("1234".into()) }];
    let back = EntryData::from_entry(&e).into_entry();
    assert_eq!(back.id, e.id);
    assert_eq!(back.username, e.username);
    assert_eq!(back.password, e.password);
    assert_eq!(back.custom_fields[0].label, "pin");
    let s = EntrySummary::from_entry(&e);
    assert_eq!(s.title, "t");
    assert_eq!(s.updated_at, e.updated_at);
}

#[test]
fn error_messages() {
    assert_eq!(VaultError::WrongPassword.message(), "wrong master password");
    assert_eq!(VaultError::Locked.message(), "vault is locked");
    assert_eq!(VaultError::NotFound("x".into()).message(), "entry not found: x");
    assert_eq!(VaultError::Crypto("c".into()).message(), "crypto error: c");
    assert_eq!(VaultError::Storage("s".into()).message(), "storage error: s");
    assert_eq!(
        VaultError::Extension { name: "n".into(), reason: "r".into() }.message(),
        "extension 'n' error: r"
    );
}

#[test]
fn generated_password_has_length_and_charset() {
    let g = DefaultGenerator;
    let cfg = GeneratorConfig { length: 64, uppercase: false, lowercase: false, digits: true, symbols: false };
    let pw = g.generate(&cfg).unwrap();
    assert_eq!(pw.len(), 64);
    assert!(pw.chars().all(|c| c.is_ascii_digit()));
    let pw = g.generate(&GeneratorConfig { length: 0, ..cfg }).unwrap();
    assert_eq!(pw, "");
}

#[test]
fn generator_falls_back_to_lowercase() {
    let cfg = GeneratorConfig { length: 30, uppercase: false, lowercase: false, digits: false, symbols: false };
    let pw = DefaultGenerator.generate(&cfg).unwrap();
    assert_eq!(pw.len(), 30);
    assert!(pw.chars().all(|c| c.is_ascii_lowercase()));
}

#[test]
fn charsets_by_class() {
    let all = GeneratorConfig::default();
    assert_eq!(all.length, 20);
    let set = charset(&all);
    assert_eq!(set.len(), 26 + 26 + 10 + 25);
    assert_eq!(&set[..3], b"abc");
    assert_eq!(&set[set.len() - 25..], b"!@#$%^&*()-_=+[]{};:,.<>?");
    let upper = charset(&GeneratorConfig { length: 1, uppercase: true, lowercase: false, digits: false, symbols: false });
    assert_eq!(upper, b"ABCDEFGHIJKLMNOPQRSTUVWXYZ".to_vec());
    assert_eq!(DefaultGenerator.generator_id(), "default");
    assert_eq!(DefaultGenerator.meta().id, "builtin.default");
}

#[test]
fn config_defaults_and_accent() {
    let c = KryptonConfig::default();
    assert_eq!(c.clipboard_timeout_secs, 30);
    assert_eq!(c.password_length, 20);
    assert_eq!(c.accent_color, "Cyan");
    assert_eq!(c.clipboard_tool, "auto");
    assert!(!c.confirm_before_delete);
    assert_eq!(c.accent(), Accent::Cyan);
    let g = KryptonConfig { accent_color: "Magenta".into(), ..KryptonConfig::default() };
    assert_eq!(g.accent(), Accent::Magenta);
    let h = KryptonConfig { accent_color: "magenta".into(), ..KryptonConfig::default() };
    assert_eq!(h.accent(), Accent::Cyan);
}
