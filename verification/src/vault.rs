//! The vault's own rules around its storage: the master-password check,
//! hiding metadata in listings, the full-text query, and reading summary
//! rows back.
use vstd::prelude::*;
use vstd::string::StringSliceAdditionalSpecFns;
use crate::crypto::{cipher_from_password, framed_open, Cipher, ChaCha20Cipher, KeyDeriver};
use crate::error::{Result, VaultError};
use crate::models::{clone_opt, EntryId, EntrySummary, EntrySummaryView, summaries_view, uuid_parsed};
use crate::text::{push_char, unicode_whitespace, char_is_whitespace};

verus! {

// ── Storage ──────────────────────────────────────────────────────────────

/// Persistence layer for vault entries. What each method returns depends
/// on what is stored, so nothing is stated of it here.
pub trait Store {
    /// Initialise the store (create tables, run migrations, etc.).
    fn init(&self) -> Result<()>;

    /// Metadata for every entry, most recently updated first.
    fn list_entries(&self) -> Result<Vec<EntrySummary>>;

    /// The full (decrypted) entry for `id`.
    fn get_entry(&self, id: &EntryId) -> Result<crate::models::Entry>;

    /// Persists a new entry.
    fn create_entry(&self, entry: &crate::models::Entry) -> Result<()>;

    /// Overwrites an existing entry.
    fn update_entry(&self, entry: &crate::models::Entry) -> Result<()>;

    /// Removes an entry by id.
    fn delete_entry(&self, id: &EntryId) -> Result<()>;

    /// Full-text search across title, username, url, and tags.
    fn search(&self, query: &str) -> Result<Vec<EntrySummary>>;
}

// ── Master password ──────────────────────────────────────────────────────

/// The plaintext encrypted into the vault's metadata so that a wrong master
/// password can be told apart on unlock: `vault-check-ok`.
pub open spec fn verify_plaintext() -> Seq<u8> {
    seq![118u8, 97u8, 117u8, 108u8, 116u8, 45u8, 99u8, 104u8, 101u8, 99u8, 107u8, 45u8, 111u8, 107u8]
}

/// The bytes `vault-check-ok`.
pub fn verify_plaintext_bytes() -> (r: Vec<u8>)
    ensures
        r@ == verify_plaintext(),
{
    let r: Vec<u8> = vec![118u8, 97u8, 117u8, 108u8, 116u8, 45u8, 99u8, 104u8, 101u8, 99u8, 107u8, 45u8, 111u8, 107u8];
    assert(r@ =~= verify_plaintext());
    r
}

/// What a new vault stores: the salt, the cipher derived from the master
/// password and salt, and the encrypted check value.
pub struct VaultKeys {
    pub salt: [u8; 32],
    pub cipher: ChaCha20Cipher,
    pub verify_blob: Vec<u8>,
}

/// Derives the keys of a new vault from its master password.
pub fn create_vault_keys<D: KeyDeriver>(deriver: &D, password: &str) -> (r: Result<VaultKeys>)
    ensures
        r matches Ok(k) ==> deriver.derived(password.spec_bytes(), k.salt@) == Some(k.cipher.key())
            && framed_open(k.cipher.key(), k.verify_blob@) == Some(verify_plaintext()),
        r matches Err(e) ==> e is Crypto
            && exists|salt: Seq<u8>| salt.len() == 32 && #[trigger] deriver.derived(password.spec_bytes(), salt) is None,
{
    let salt = deriver.generate_salt();
    let cipher = cipher_from_password(deriver, password.as_bytes(), &salt)?;
    let check = verify_plaintext_bytes();
    let verify_blob = cipher.seal(check.as_slice())?;
    Ok(VaultKeys { salt, cipher, verify_blob })
}

/// How an unlock attempt ends.
pub enum UnlockOutcome {
    /// The stored salt is not 32 bytes.
    BadSalt,
    /// Key derivation failed.
    KeyFailed,
    /// The vault holds no check value.
    NoVerifyBlob,
    /// The check value does not decrypt to the expected plaintext.
    WrongPassword,
    /// The vault opens with this key.
    Opened(Seq<u8>),
}

/// The outcome of unlocking with `password` a vault that stores `salt` and,
/// when present, the check value `blob`.
pub open spec fn unlock_outcome<D: KeyDeriver>(d: D, password: Seq<u8>, salt: Seq<u8>, blob: Option<Seq<u8>>) -> UnlockOutcome {
    if salt.len() != 32 {
        UnlockOutcome::BadSalt
    } else {
        match d.derived(password, salt) {
            None => UnlockOutcome::KeyFailed,
            Some(key) => match blob {
                None => UnlockOutcome::NoVerifyBlob,
                Some(b) => if framed_open(key, b) == Some(verify_plaintext()) {
                    UnlockOutcome::Opened(key)
                } else {
                    UnlockOutcome::WrongPassword
                },
            },
        }
    }
}

/// Checks a master password against the vault's salt and check value and,
/// when it matches, gives the cipher for the vault's entries.
pub fn open_vault<D: KeyDeriver>(deriver: &D, password: &str, salt: &[u8], verify_blob: Option<&[u8]>) -> (r: Result<ChaCha20Cipher>)
    ensures
        match unlock_outcome(*deriver, password.spec_bytes(), salt@, match verify_blob {
            Some(b) => Some(b@),
            None => None,
        }) {
            UnlockOutcome::BadSalt => r matches Err(VaultError::Storage(m)) && m@ == "salt is wrong length"@,
            UnlockOutcome::KeyFailed => r matches Err(e) && e is Crypto,
            UnlockOutcome::NoVerifyBlob => r matches Err(VaultError::Storage(m)) && m@ == "no verify blob in vault_meta"@,
            UnlockOutcome::WrongPassword => r matches Err(e) && e is WrongPassword,
            UnlockOutcome::Opened(key) => r matches Ok(c) && c.key() == key,
        },
{
    if salt.len() != 32 {
        return Err(VaultError::Storage(String::from_str("salt is wrong length")));
    }
    let cipher = cipher_from_password(deriver, password.as_bytes(), salt)?;
    let blob = match verify_blob {
        Some(b) => b,
        None => return Err(VaultError::Storage(String::from_str("no verify blob in vault_meta"))),
    };
    let plain = match cipher.decrypt(blob) {
        Ok(p) => p,
        Err(_) => return Err(VaultError::WrongPassword),
    };
    let expected = verify_plaintext_bytes();
    if !bytes_equal(plain.as_slice(), expected.as_slice()) {
        return Err(VaultError::WrongPassword);
    }
    Ok(cipher)
}

/// Whether two byte strings are equal.
pub fn bytes_equal(a: &[u8], b: &[u8]) -> (r: bool)
    ensures
        r == (a@ == b@),
{
    if a.len() != b.len() {
        return false;
    }
    let mut i: usize = 0;
    while i < a.len()
        invariant
            a@.len() == b@.len(),
            i <= a@.len(),
            forall|k: int| 0 <= k < i ==> a@[k] == b@[k],
        decreases a@.len() - i,
    {
        if a[i] != b[i] {
            return false;
        }
        i = i + 1;
    }
    assert(a@ =~= b@);
    true
}

/// A vault created with a master password opens with that same password:
/// the stored check value decrypts under the key the password and stored
/// salt derive.
pub proof fn lemma_created_vault_opens<D: KeyDeriver>(d: D, password: Seq<u8>, salt: Seq<u8>, key: Seq<u8>, blob: Seq<u8>)
    requires
        salt.len() == 32,
        d.derived(password, salt) == Some(key),
        framed_open(key, blob) == Some(verify_plaintext()),
    ensures
        unlock_outcome(d, password, salt, Some(blob)) == UnlockOutcome::Opened(key),
{
}

// ── Listings ─────────────────────────────────────────────────────────────

/// A summary with its title, username and url hidden.
pub open spec fn hidden_summary(s: EntrySummaryView) -> EntrySummaryView {
    EntrySummaryView { title: "[hidden]"@, username: None, url: None, ..s }
}

/// Replaces title, username and url of every summary with "[hidden]", none
/// and none when `hide` is set; otherwise leaves the list alone.
pub fn hide_metadata(entries: Vec<EntrySummary>, hide: bool) -> (r: Vec<EntrySummary>)
    ensures
        !hide ==> summaries_view(r@) == summaries_view(entries@),
        hide ==> r@.len() == entries@.len() && forall|i: int| 0 <= i < r@.len() ==> (#[trigger] r@[i])@ == hidden_summary(entries@[i]@),
{
    if !hide {
        return entries;
    }
    let mut out: Vec<EntrySummary> = Vec::new();
    let mut rest = entries;
    let ghost original = rest@;
    let mut i: usize = 0;
    let n = rest.len();
    while i < n
        invariant
            n == original.len(),
            i <= n,
            rest@.len() == n,
            forall|k: int| i <= k < n ==> (#[trigger] rest@[k])@ == original[k]@,
            out@.len() == i,
            forall|k: int| 0 <= k < i ==> (#[trigger] out@[k])@ == hidden_summary(original[k]@),
        decreases n - i,
    {
        let s = &rest[i];
        out.push(EntrySummary {
            id: s.id,
            title: String::from_str("[hidden]"),
            username: None,
            url: None,
            tags: crate::models::clone_strings(&s.tags),
            updated_at: s.updated_at,
        });
        i = i + 1;
    }
    out
}

// ── Full-text search query ───────────────────────────────────────────────

/// `s` with every double quote doubled.
pub open spec fn escape_quotes(s: Seq<char>) -> Seq<char>
    decreases s.len(),
{
    if s.len() == 0 {
        Seq::empty()
    } else {
        escape_quotes(s.drop_last()) + if s.last() == '"' {
            seq!['"', '"']
        } else {
            seq![s.last()]
        }
    }
}

/// The state of splitting on whitespace after reading `s`: the finished
/// words and the word being read.
pub open spec fn word_scan(s: Seq<char>) -> (Seq<Seq<char>>, Seq<char>)
    decreases s.len(),
{
    if s.len() == 0 {
        (Seq::empty(), Seq::empty())
    } else {
        let (done, cur) = word_scan(s.drop_last());
        let c = s.last();
        if unicode_whitespace(c) {
            if cur.len() > 0 {
                (done.push(cur), Seq::empty())
            } else {
                (done, cur)
            }
        } else {
            (done, cur.push(c))
        }
    }
}

/// The maximal runs of non-whitespace characters of `s`, in order (what
/// `str::split_whitespace` yields).
pub open spec fn words(s: Seq<char>) -> Seq<Seq<char>> {
    let (done, cur) = word_scan(s);
    if cur.len() > 0 {
        done.push(cur)
    } else {
        done
    }
}

/// `words` with a `*` after each, separated by single spaces.
pub open spec fn prefix_terms(ws: Seq<Seq<char>>) -> Seq<char>
    decreases ws.len(),
{
    if ws.len() == 0 {
        Seq::empty()
    } else if ws.len() == 1 {
        ws[0].push('*')
    } else {
        prefix_terms(ws.drop_last()) + seq![' '] + ws.last().push('*')
    }
}

/// The FTS5 query for a search text: each whitespace-separated word of the
/// text (double quotes doubled) becomes a prefix term `word*`, and the terms
/// are joined by spaces (implicit AND). `None` when the text has no words.
pub open spec fn fts_query_spec(q: Seq<char>) -> Option<Seq<char>> {
    let ws = words(escape_quotes(q));
    if ws.len() == 0 {
        None
    } else {
        Some(prefix_terms(ws))
    }
}

/// Doubles every double quote of `s`.
fn escape(s: &str) -> (r: String)
    ensures
        r@ == escape_quotes(s@),
{
    let n = s.unicode_len();
    let mut out = String::new();
    let mut i: usize = 0;
    while i < n
        invariant
            n == s@.len(),
            i <= n,
            out@ == escape_quotes(s@.subrange(0, i as int)),
        decreases n - i,
    {
        let c = s.get_char(i);
        let ghost next = s@.subrange(0, i + 1);
        assert(next.drop_last() =~= s@.subrange(0, i as int));
        push_char(&mut out, c);
        if c == '"' {
            push_char(&mut out, '"');
        }
        i = i + 1;
        assert(out@ =~= escape_quotes(next));
    }
    assert(s@.subrange(0, n as int) =~= s@);
    out
}

/// Builds the FTS5 prefix query for a search text; `None` when the text
/// holds no words (no search is run then).
pub fn fts_query(query: &str) -> (r: Option<String>)
    ensures
        match r {
            Some(q) => fts_query_spec(query@) == Some(q@),
            None => fts_query_spec(query@) is None,
        },
{
    let escaped = escape(query);
    let s = escaped.as_str();
    let n = s.unicode_len();
    let mut out = String::new();
    let mut count: usize = 0;
    let mut cur = String::new();
    let mut i: usize = 0;
    while i < n
        invariant
            n == s@.len(),
            i <= n,
            ({
                let (done, c) = word_scan(s@.subrange(0, i as int));
                &&& cur@ == c
                &&& count == done.len()
                &&& out@ == prefix_terms(done)
            }),
            count + (if cur@.len() > 0 { 1int } else { 0int }) <= i,
        decreases n - i,
    {
        let c = s.get_char(i);
        let ghost prev = s@.subrange(0, i as int);
        let ghost next = s@.subrange(0, i + 1);
        assert(next.drop_last() =~= prev);
        assert(next.last() == c);
        let ghost (done0, cur0) = word_scan(prev);
        if char_is_whitespace(c) {
            if cur.unicode_len() > 0 {
                if count > 0 {
                    push_char(&mut out, ' ');
                }
                append_word_star(&mut out, cur.as_str());
                proof {
                    let d1 = done0.push(cur0);
                    assert(d1.drop_last() =~= done0);
                    assert(out@ =~= prefix_terms(d1));
                }
                count = count + 1;
                cur = String::new();
            }
        } else {
            push_char(&mut cur, c);
        }
        i = i + 1;
    }
    assert(s@.subrange(0, n as int) =~= s@);
    if cur.unicode_len() > 0 {
        let ghost (done0, cur0) = word_scan(s@);
        if count > 0 {
            push_char(&mut out, ' ');
        }
        append_word_star(&mut out, cur.as_str());
        proof {
            let d1 = done0.push(cur0);
            assert(d1.drop_last() =~= done0);
            assert(out@ =~= prefix_terms(d1));
        }
        count = count + 1;
    }
    if count == 0 {
        None
    } else {
        Some(out)
    }
}

/// Appends `word` followed by `*`.
fn append_word_star(out: &mut String, word: &str)
    ensures
        final(out)@ == old(out)@ + word@.push('*'),
{
    out.append(word);
    push_char(out, '*');
    assert(final(out)@ =~= old(out)@ + word@.push('*'));
}

// ── Summary rows ─────────────────────────────────────────────────────────

/// What `serde_json::from_str::<Vec<String>>` reads from a text.
pub uninterp spec fn json_string_list(s: Seq<char>) -> Option<Seq<Seq<char>>>;

/// What `serde_json::to_string` writes for a list of strings.
pub uninterp spec fn json_of_strings(v: Seq<Seq<char>>) -> Seq<char>;

/// Trusted: `serde_json::from_str::<Vec<String>>`; the error's text is not
/// stated.
#[verifier::external_body]
fn strings_from_json(s: &str) -> (r: std::result::Result<Vec<String>, String>)
    ensures
        match r {
            Ok(v) => json_string_list(s@) == Some(v.deep_view()),
            Err(_) => json_string_list(s@) is None,
        },
{
    match serde_json::from_str::<Vec<String>>(s) {
        Ok(v) => Ok(v),
        Err(e) => Err(e.to_string()),
    }
}

/// Trusted: `serde_json::to_string` of a list of strings, a JSON array that
/// `serde_json::from_str` reads back as the same list. Its documentation
/// names only a failing `Serialize` impl or a map with non-string keys as
/// causes of failure, neither of which a list of strings has, so it
/// succeeds.
#[verifier::external_body]
fn strings_to_json(v: &Vec<String>) -> (r: Option<String>)
    ensures
        r is Some,
        r matches Some(s) ==> s@ == json_of_strings(v.deep_view()) && json_string_list(s@) == Some(v.deep_view()),
{
    match serde_json::to_string(v) {
        Ok(s) => Some(s),
        Err(_) => None,
    }
}

/// The JSON text stored in the `tags` column: the tags as a JSON array,
/// which reads back as the same tags.
pub fn tags_json(tags: &Vec<String>) -> (r: String)
    ensures
        r@ == json_of_strings(tags.deep_view()),
        json_string_list(r@) == Some(tags.deep_view()),
{
    match strings_to_json(tags) {
        Some(s) => s,
        None => String::from_str("[]"),
    }
}

/// Builds a summary from the columns of a stored row; fails with a storage
/// error when the tags are not a JSON list of strings or the id is not a
/// UUID (the tags are checked first).
pub fn summary_from_row(
    id_text: &str,
    title: String,
    username: Option<String>,
    url: Option<String>,
    tags_text: &str,
    updated_at: i64,
) -> (r: Result<EntrySummary>)
    ensures
        json_string_list(tags_text@) is None ==> r matches Err(VaultError::Storage(_)),
        json_string_list(tags_text@) is Some && uuid_parsed(id_text@) is None ==> (r matches Err(
            VaultError::Storage(m),
        ) && m@ == "invalid uuid: "@ + id_text@),
        r matches Ok(s) ==> json_string_list(tags_text@) == Some(s.tags.deep_view())
            && uuid_parsed(id_text@) == Some(s.id.0) && s.title@ == title@
            && s.username.deep_view() == username.deep_view() && s.url.deep_view() == url.deep_view()
            && s.updated_at == updated_at,
        json_string_list(tags_text@) is Some && uuid_parsed(id_text@) is Some ==> r is Ok,
{
    let tags = match strings_from_json(tags_text) {
        Ok(t) => t,
        Err(e) => return Err(VaultError::Storage(String::from_str("tags deserialize: ").concat(e.as_str()))),
    };
    let id = match EntryId::parse(id_text) {
        Some(id) => id,
        None => return Err(VaultError::Storage(String::from_str("invalid uuid: ").concat(id_text))),
    };
    Ok(EntrySummary { id, title, username, url, tags, updated_at })
}

/// The columns of a stored summary row: id, title, username, url, tags
/// (JSON) and update time.
pub type SummaryRow = (String, String, Option<String>, Option<String>, String, i64);

/// Whether a stored row can be read back: its tags are a JSON list of
/// strings and its id is a UUID.
pub open spec fn row_readable(row: SummaryRow) -> bool {
    json_string_list(row.4@) is Some && uuid_parsed(row.0@) is Some
}

/// The summary `s` is what row `row` holds.
pub open spec fn read_from_row(s: EntrySummary, row: SummaryRow) -> bool {
    &&& uuid_parsed(row.0@) == Some(s.id.0)
    &&& s.title@ == row.1@
    &&& s.username.deep_view() == row.2.deep_view()
    &&& s.url.deep_view() == row.3.deep_view()
    &&& json_string_list(row.4@) == Some(s.tags.deep_view())
    &&& s.updated_at == row.5
}

/// Reads every row back in order; fails with a storage error at the first
/// row that cannot be read.
pub fn summaries_from_rows(rows: &Vec<SummaryRow>) -> (r: Result<Vec<EntrySummary>>)
    ensures
        (r is Ok) == (forall|i: int| 0 <= i < rows@.len() ==> row_readable(#[trigger] rows@[i])),
        r matches Ok(v) ==> v@.len() == rows@.len()
            && forall|i: int| 0 <= i < v@.len() ==> read_from_row(#[trigger] v@[i], rows@[i]),
        r matches Err(e) ==> e is Storage,
{
    let mut out: Vec<EntrySummary> = Vec::new();
    let mut i: usize = 0;
    while i < rows.len()
        invariant
            i <= rows@.len(),
            out@.len() == i,
            forall|k: int| 0 <= k < i ==> row_readable(#[trigger] rows@[k]),
            forall|k: int| 0 <= k < i ==> read_from_row(#[trigger] out@[k], rows@[k]),
        decreases rows@.len() - i,
    {
        let row = &rows[i];
        let title = row.1.clone();
        let username = clone_opt(&row.2);
        let url = clone_opt(&row.3);
        match summary_from_row(row.0.as_str(), title, username, url, row.4.as_str(), row.5) {
            Ok(s) => {
                out.push(s);
            },
            Err(e) => {
                assert(!row_readable(rows@[i as int]));
                return Err(e);
            },
        }
        i = i + 1;
    }
    Ok(out)
}

} // verus!
