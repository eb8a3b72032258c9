//! Extension points (hooks, generators, importers, exporters) and the
//! built-in password generator.
use vstd::prelude::*;
use crate::error::Result;
use crate::models::{Entry, EntryId};
use crate::text::push_char;
use rand::Rng;

verus! {

/// Static metadata describing an extension.
pub struct ExtMeta {
    pub id: &'static str,
    pub name: &'static str,
    pub version: &'static str,
    pub description: &'static str,
}

/// Marker trait that every extension must implement.
pub trait Extension {
    fn meta(&self) -> ExtMeta;
}

/// Lifecycle hooks that fire on vault and entry events.
///
/// Every method has a default no-op implementation so implementors only
/// override the events they care about.
pub trait HookExt: Extension {
    fn on_entry_created(&self, entry: &Entry) -> (r: Result<()>)
        default_ensures
            r is Ok,
    {
        Ok(())
    }

    fn on_entry_updated(&self, entry: &Entry) -> (r: Result<()>)
        default_ensures
            r is Ok,
    {
        Ok(())
    }

    fn on_entry_accessed(&self, entry: &Entry) -> (r: Result<()>)
        default_ensures
            r is Ok,
    {
        Ok(())
    }

    fn on_entry_deleted(&self, id: &EntryId) -> (r: Result<()>)
        default_ensures
            r is Ok,
    {
        Ok(())
    }

    fn on_unlock(&self) -> (r: Result<()>)
        default_ensures
            r is Ok,
    {
        Ok(())
    }

    fn on_lock(&self) -> (r: Result<()>)
        default_ensures
            r is Ok,
    {
        Ok(())
    }
}

/// Import entries from external formats (CSV, Bitwarden JSON, etc.).
pub trait ImportExt: Extension {
    /// The format identifiers this importer supports.
    fn formats(&self) -> &[&str];

    /// Parses `data` in the given `format` into entries ready to be stored.
    fn import(&self, format: &str, data: &[u8]) -> Result<Vec<Entry>>;
}

/// Export entries to external formats.
pub trait ExportExt: Extension {
    /// The format identifiers this exporter supports.
    fn export_formats(&self) -> &[&str];

    /// Serialises `entries` in the given `format`.
    fn export(&self, format: &str, entries: &[Entry]) -> Result<Vec<u8>>;
}

/// Configuration for password generation.
#[derive(Debug, Clone, Copy, PartialEq, Eq, Structural)]
pub struct GeneratorConfig {
    pub length: usize,
    pub uppercase: bool,
    pub lowercase: bool,
    pub digits: bool,
    pub symbols: bool,
}

impl Default for GeneratorConfig {
    /// Twenty characters drawn from all four classes.
    fn default() -> (r: Self)
        ensures
            r.length == 20,
            r.uppercase && r.lowercase && r.digits && r.symbols,
    {
        GeneratorConfig { length: 20, uppercase: true, lowercase: true, digits: true, symbols: true }
    }
}

/// Pluggable password generator.
pub trait GeneratorExt: Extension {
    /// Unique identifier for this generator (used as a lookup key).
    fn generator_id(&self) -> &'static str;

    /// Generates a password matching the given configuration.
    fn generate(&self, config: &GeneratorConfig) -> Result<String>;
}

// ── Default password generator ───────────────────────────────────────────

/// The bytes `a`..`z`.
pub open spec fn lowercase_set() -> Seq<u8> {
    Seq::new(26, |i: int| (97 + i) as u8)
}

/// The bytes `A`..`Z`.
pub open spec fn uppercase_set() -> Seq<u8> {
    Seq::new(26, |i: int| (65 + i) as u8)
}

/// The bytes `0`..`9`.
pub open spec fn digit_set() -> Seq<u8> {
    Seq::new(10, |i: int| (48 + i) as u8)
}

/// The symbol bytes `!@#$%^&*()-_=+[]{};:,.<>?`.
pub open spec fn symbol_set() -> Seq<u8> {
    seq![
        33u8, 64u8, 35u8, 36u8, 37u8, 94u8, 38u8, 42u8, 40u8, 41u8, 45u8, 95u8, 61u8, 43u8,
        91u8, 93u8, 123u8, 125u8, 59u8, 58u8, 44u8, 46u8, 60u8, 62u8, 63u8,
    ]
}

/// The characters a password may be drawn from: the enabled classes in the
/// order lowercase, uppercase, digits, symbols; lowercase alone when no
/// class is enabled.
pub open spec fn charset_for(c: GeneratorConfig) -> Seq<u8> {
    let s = (if c.lowercase { lowercase_set() } else { Seq::empty() })
        + (if c.uppercase { uppercase_set() } else { Seq::empty() })
        + (if c.digits { digit_set() } else { Seq::empty() })
        + (if c.symbols { symbol_set() } else { Seq::empty() });
    if s.len() == 0 {
        lowercase_set()
    } else {
        s
    }
}

/// Appends the `n` consecutive bytes starting at `first`.
fn push_range(v: &mut Vec<u8>, first: u8, n: u8)
    requires
        first as int + n as int <= 256,
    ensures
        final(v)@ == old(v)@ + Seq::new(n as nat, |i: int| (first + i) as u8),
{
    let mut i: u8 = 0;
    while i < n
        invariant
            i <= n,
            first as int + n as int <= 256,
            v@ == old(v)@ + Seq::new(i as nat, |k: int| (first + k) as u8),
        decreases n - i,
    {
        v.push(first + i);
        i = i + 1;
        assert(v@ =~= old(v)@ + Seq::new(i as nat, |k: int| (first + k) as u8));
    }
}

/// Appends the symbol bytes.
fn push_symbols(v: &mut Vec<u8>)
    ensures
        final(v)@ == old(v)@ + symbol_set(),
{
    let symbols: [u8; 25] = [
        33u8, 64u8, 35u8, 36u8, 37u8, 94u8, 38u8, 42u8, 40u8, 41u8, 45u8, 95u8, 61u8, 43u8,
        91u8, 93u8, 123u8, 125u8, 59u8, 58u8, 44u8, 46u8, 60u8, 62u8, 63u8,
    ];
    assert(symbols@ =~= symbol_set());
    let mut i: usize = 0;
    while i < 25
        invariant
            i <= 25,
            symbols@ == symbol_set(),
            v@ == old(v)@ + symbol_set().subrange(0, i as int),
        decreases 25 - i,
    {
        v.push(symbols[i]);
        i = i + 1;
        assert(v@ =~= old(v)@ + symbol_set().subrange(0, i as int));
    }
    assert(symbol_set().subrange(0, 25) =~= symbol_set());
}

/// The characters the built-in generator draws from for `config`.
pub fn charset(config: &GeneratorConfig) -> (r: Vec<u8>)
    ensures
        r@ == charset_for(*config),
        r@.len() > 0,
{
    let mut v: Vec<u8> = Vec::new();
    if config.lowercase {
        push_range(&mut v, 97, 26);
    }
    assert(v@ =~= (if config.lowercase { lowercase_set() } else { Seq::empty() }));
    if config.uppercase {
        push_range(&mut v, 65, 26);
    }
    assert(v@ =~= (if config.lowercase { lowercase_set() } else { Seq::empty() })
        + (if config.uppercase { uppercase_set() } else { Seq::empty() }));
    if config.digits {
        push_range(&mut v, 48, 10);
    }
    assert(v@ =~= (if config.lowercase { lowercase_set() } else { Seq::empty() })
        + (if config.uppercase { uppercase_set() } else { Seq::empty() })
        + (if config.digits { digit_set() } else { Seq::empty() }));
    if config.symbols {
        push_symbols(&mut v);
    }
    assert(v@ =~= (if config.lowercase { lowercase_set() } else { Seq::empty() })
        + (if config.uppercase { uppercase_set() } else { Seq::empty() })
        + (if config.digits { digit_set() } else { Seq::empty() })
        + (if config.symbols { symbol_set() } else { Seq::empty() }));
    if v.len() == 0 {
        push_range(&mut v, 97, 26);
        assert(v@ =~= lowercase_set());
    }
    v
}

/// Trusted: `rand::Rng::gen_range(0..n)` on `OsRng`, a uniformly random
/// index below `n` (it panics on an empty range, which `requires` rules
/// out).
#[verifier::external_body]
fn random_below(n: usize) -> (r: usize)
    requires
        n > 0,
    ensures
        r < n,
{
    rand::rngs::OsRng.gen_range(0..n)
}

/// The built-in password generator, drawing from the operating system's
/// random source.
pub struct DefaultGenerator;

impl Extension for DefaultGenerator {
    fn meta(&self) -> (r: ExtMeta)
        ensures
            r.id@ == "builtin.default"@,
            r.name@ == "Default Generator"@,
            r.version@ == "0.1.0"@,
            r.description@ == "Built-in password generator using OsRng"@,
    {
        ExtMeta {
            id: "builtin.default",
            name: "Default Generator",
            version: "0.1.0",
            description: "Built-in password generator using OsRng",
        }
    }
}

/// Whether `pw` is a password the built-in generator can produce for `c`:
/// exactly `c.length` characters, each taken from the character set.
pub open spec fn generated_for(c: GeneratorConfig, pw: Seq<char>) -> bool {
    &&& pw.len() == c.length
    &&& forall|i: int| 0 <= i < pw.len() ==> charset_for(c).contains(#[trigger] pw[i] as u8)
        && (pw[i] as u32) < 128
}

impl DefaultGenerator {
    /// Draws `config.length` characters from the configured character set.
    pub fn generate_password(&self, config: &GeneratorConfig) -> (r: String)
        ensures
            generated_for(*config, r@),
    {
        let set = charset(config);
        let mut pw = String::new();
        let mut i: usize = 0;
        while i < config.length
            invariant
                i <= config.length,
                set@ == charset_for(*config),
                set@.len() > 0,
                pw@.len() == i,
                forall|k: int| 0 <= k < i ==> charset_for(*config).contains(#[trigger] pw@[k] as u8)
                    && (pw@[k] as u32) < 128,
            decreases config.length - i,
        {
            let idx = random_below(set.len());
            let b = set[idx];
            proof {
                assert(set@.contains(b));
                lemma_charset_ascii(*config, idx as int);
            }
            let c = b as char;
            push_char(&mut pw, c);
            i = i + 1;
        }
        pw
    }
}

/// Every byte of a character set is ASCII.
pub proof fn lemma_charset_ascii(c: GeneratorConfig, i: int)
    requires
        0 <= i < charset_for(c).len(),
    ensures
        charset_for(c)[i] < 128,
{
    let l = if c.lowercase { lowercase_set() } else { Seq::<u8>::empty() };
    let u = if c.uppercase { uppercase_set() } else { Seq::<u8>::empty() };
    let d = if c.digits { digit_set() } else { Seq::<u8>::empty() };
    let s = if c.symbols { symbol_set() } else { Seq::<u8>::empty() };
    assert(forall|k: int| 0 <= k < l.len() ==> l[k] < 128);
    assert(forall|k: int| 0 <= k < u.len() ==> u[k] < 128);
    assert(forall|k: int| 0 <= k < d.len() ==> d[k] < 128);
    assert(forall|k: int| 0 <= k < s.len() ==> s[k] < 128);
    assert(forall|k: int| 0 <= k < lowercase_set().len() ==> lowercase_set()[k] < 128);
}

impl GeneratorExt for DefaultGenerator {
    fn generator_id(&self) -> (r: &'static str)
        ensures
            r@ == "default"@,
    {
        "default"
    }

    fn generate(&self, config: &GeneratorConfig) -> (r: Result<String>)
        ensures
            r matches Ok(pw) && generated_for(*config, pw@),
    {
        Ok(self.generate_password(config))
    }
}

} // verus!
