//! Vault entries and their identifiers.
use vstd::prelude::*;
use vstd::arithmetic::power::pow;
use crate::text::digit_char;

verus! {

// ── Identifiers ──────────────────────────────────────────────────────────

/// The lower-case hexadecimal digit for `d` (`0 <= d < 16`).
pub open spec fn hex_char(d: int) -> char {
    if d < 10 {
        digit_char(d)
    } else {
        ((d - 10 + 97) as u8) as char
    }
}

/// The `k`-th hexadecimal digit of `x`, counting from the most significant.
pub open spec fn nibble(x: u128, k: int) -> int {
    (x as int / pow(16, (31 - k) as nat)) % 16
}

/// Position among the 32 hexadecimal digits of the character at position
/// `i` of the hyphenated form.
pub open spec fn hex_position(i: int) -> int {
    if i < 8 {
        i
    } else if i < 13 {
        i - 1
    } else if i < 18 {
        i - 2
    } else if i < 23 {
        i - 3
    } else {
        i - 4
    }
}

/// The hyphenated lower-case form of a UUID, `xxxxxxxx-xxxx-xxxx-xxxx-xxxxxxxxxxxx`.
pub open spec fn uuid_text(x: u128) -> Seq<char> {
    Seq::new(
        36,
        |i: int|
            if i == 8 || i == 13 || i == 18 || i == 23 {
                '-'
            } else {
                hex_char(nibble(x, hex_position(i)))
            },
    )
}

/// What `uuid::Uuid::parse_str` reads from a text, as the 128-bit value.
pub uninterp spec fn uuid_parsed(s: Seq<char>) -> Option<u128>;

/// Whether `x` carries the version (4) and RFC 4122 variant of a random
/// UUID: the thirteenth hexadecimal digit is `4` and the seventeenth is one
/// of `8`, `9`, `a`, `b`.
pub open spec fn is_v4(x: u128) -> bool {
    nibble(x, 12) == 4 && 8 <= nibble(x, 16) < 12
}

/// Trusted: `uuid::Uuid::new_v4`, a random UUID taken as its 128-bit value.
/// Per the crate's source the random bits are masked so that the version
/// and variant are set; nothing else is stated of the value.
#[verifier::external_body]
fn uuid_v4() -> (r: u128)
    ensures
        is_v4(r),
{
    uuid::Uuid::new_v4().as_u128()
}

/// Trusted: the `Display` form of `uuid::Uuid::from_u128(x)`, which is the
/// hyphenated lower-case form; `Uuid::parse_str` reads that form back.
#[verifier::external_body]
fn uuid_to_text(x: u128) -> (r: String)
    ensures
        r@ == uuid_text(x),
        uuid_parsed(r@) == Some(x),
{
    uuid::Uuid::from_u128(x).to_string()
}

/// Trusted: `uuid::Uuid::parse_str`, as the 128-bit value on success.
#[verifier::external_body]
fn uuid_from_text(s: &str) -> (r: Option<u128>)
    ensures
        r == uuid_parsed(s@),
{
    match uuid::Uuid::parse_str(s) {
        Ok(u) => Some(u.as_u128()),
        Err(_) => None,
    }
}

/// Unique identifier for a vault entry: the 128-bit value of a UUID.
#[derive(Debug, Clone, Copy, PartialEq, Eq, Structural, Hash)]
pub struct EntryId(pub u128);

impl EntryId {
    /// A fresh random (version 4) identifier.
    pub fn new() -> (r: EntryId)
        ensures
            is_v4(r.0),
    {
        EntryId(uuid_v4())
    }

    /// The hyphenated text of the identifier, as it is stored and shown.
    pub fn to_text(&self) -> (r: String)
        ensures
            r@ == uuid_text(self.0),
            uuid_parsed(r@) == Some(self.0),
    {
        uuid_to_text(self.0)
    }

    /// Reads an identifier from its text; `None` when it is not a UUID.
    pub fn parse(s: &str) -> (r: Option<EntryId>)
        ensures
            r == (match uuid_parsed(s@) {
                Some(x) => Some(EntryId(x)),
                None => None::<EntryId>,
            }),
    {
        match uuid_from_text(s) {
            Some(x) => Some(EntryId(x)),
            None => None,
        }
    }
}

// ── Entries ──────────────────────────────────────────────────────────────

/// Typed value of a custom field.
pub enum FieldValue {
    Text(String),
    /// A secret value, stored as plaintext only within the encrypted blob.
    Secret(String),
    Totp(String),
}

/// The abstract value of a [`FieldValue`].
pub enum FieldValueView {
    Text(Seq<char>),
    Secret(Seq<char>),
    Totp(Seq<char>),
}

impl View for FieldValue {
    type V = FieldValueView;

    open spec fn view(&self) -> FieldValueView {
        match self {
            FieldValue::Text(s) => FieldValueView::Text(s@),
            FieldValue::Secret(s) => FieldValueView::Secret(s@),
            FieldValue::Totp(s) => FieldValueView::Totp(s@),
        }
    }
}

impl Clone for FieldValue {
    fn clone(&self) -> (r: Self)
        ensures
            r@ == self@,
    {
        match self {
            FieldValue::Text(s) => FieldValue::Text(s.clone()),
            FieldValue::Secret(s) => FieldValue::Secret(s.clone()),
            FieldValue::Totp(s) => FieldValue::Totp(s.clone()),
        }
    }
}

/// A user-defined extra field attached to an entry.
pub struct CustomField {
    pub label: String,
    pub value: FieldValue,
}

/// The abstract value of a [`CustomField`].
pub struct CustomFieldView {
    pub label: Seq<char>,
    pub value: FieldValueView,
}

impl View for CustomField {
    type V = CustomFieldView;

    open spec fn view(&self) -> CustomFieldView {
        CustomFieldView { label: self.label@, value: self.value@ }
    }
}

impl Clone for CustomField {
    fn clone(&self) -> (r: Self)
        ensures
            r@ == self@,
    {
        CustomField { label: self.label.clone(), value: self.value.clone() }
    }
}

/// The views of a list of custom fields.
pub open spec fn fields_view(v: Seq<CustomField>) -> Seq<CustomFieldView> {
    v.map_values(|f: CustomField| f@)
}

/// Clones a list of custom fields.
pub fn clone_fields(v: &Vec<CustomField>) -> (r: Vec<CustomField>)
    ensures
        fields_view(r@) == fields_view(v@),
{
    let mut r: Vec<CustomField> = Vec::new();
    let mut i: usize = 0;
    while i < v.len()
        invariant
            i <= v.len(),
            r@.len() == i,
            forall|k: int| 0 <= k < i ==> (#[trigger] r@[k])@ == v@[k]@,
        decreases v.len() - i,
    {
        r.push(v[i].clone());
        i = i + 1;
    }
    assert(fields_view(r@) =~= fields_view(v@));
    r
}

/// Clones a list of strings.
pub fn clone_strings(v: &Vec<String>) -> (r: Vec<String>)
    ensures
        r.deep_view() == v.deep_view(),
{
    let mut r: Vec<String> = Vec::new();
    let mut i: usize = 0;
    while i < v.len()
        invariant
            i <= v.len(),
            r@.len() == i,
            forall|k: int| 0 <= k < i ==> (#[trigger] r@[k])@ == v@[k]@,
        decreases v.len() - i,
    {
        r.push(v[i].clone());
        i = i + 1;
    }
    assert(r.deep_view() =~= v.deep_view());
    r
}

/// Clones an optional string.
pub fn clone_opt(s: &Option<String>) -> (r: Option<String>)
    ensures
        r.deep_view() == s.deep_view(),
{
    match s {
        Some(t) => Some(t.clone()),
        None => None,
    }
}

/// The full decrypted entry held in memory during an unlocked session.
/// It has no `Debug` form, so its password never reaches debug output.
pub struct Entry {
    pub id: EntryId,
    pub title: String,
    pub username: Option<String>,
    pub password: String,
    pub url: Option<String>,
    pub notes: Option<String>,
    pub tags: Vec<String>,
    pub custom_fields: Vec<CustomField>,
    pub created_at: i64,
    pub updated_at: i64,
}

/// The abstract value of an [`Entry`] (and of an [`EntryData`]).
pub struct EntryView {
    pub id: EntryId,
    pub title: Seq<char>,
    pub username: Option<Seq<char>>,
    pub password: Seq<char>,
    pub url: Option<Seq<char>>,
    pub notes: Option<Seq<char>>,
    pub tags: Seq<Seq<char>>,
    pub custom_fields: Seq<CustomFieldView>,
    pub created_at: i64,
    pub updated_at: i64,
}

impl View for Entry {
    type V = EntryView;

    open spec fn view(&self) -> EntryView {
        EntryView {
            id: self.id,
            title: self.title@,
            username: self.username.deep_view(),
            password: self.password@,
            url: self.url.deep_view(),
            notes: self.notes.deep_view(),
            tags: self.tags.deep_view(),
            custom_fields: fields_view(self.custom_fields@),
            created_at: self.created_at,
            updated_at: self.updated_at,
        }
    }
}

impl Clone for Entry {
    fn clone(&self) -> (r: Self)
        ensures
            r@ == self@,
    {
        Entry {
            id: self.id,
            title: self.title.clone(),
            username: clone_opt(&self.username),
            password: self.password.clone(),
            url: clone_opt(&self.url),
            notes: clone_opt(&self.notes),
            tags: clone_strings(&self.tags),
            custom_fields: clone_fields(&self.custom_fields),
            created_at: self.created_at,
            updated_at: self.updated_at,
        }
    }
}

/// Trusted: `chrono::Utc::now().timestamp()`, the current Unix time in
/// seconds. It depends on the clock, so nothing is stated of it.
#[verifier::external_body]
pub(crate) fn now_timestamp() -> i64 {
    chrono::Utc::now().timestamp()
}

impl Entry {
    /// A new entry with a fresh identifier, the given title and password,
    /// no other fields, and both timestamps set to the current time.
    pub fn new(title: String, password: String) -> (r: Entry)
        ensures
            r.title@ == title@,
            r.password@ == password@,
            r.username is None,
            r.url is None,
            r.notes is None,
            r.tags@.len() == 0,
            r.custom_fields@.len() == 0,
            r.created_at == r.updated_at,
    {
        let now = now_timestamp();
        Entry {
            id: EntryId::new(),
            title,
            username: None,
            password,
            url: None,
            notes: None,
            tags: Vec::new(),
            custom_fields: Vec::new(),
            created_at: now,
            updated_at: now,
        }
    }
}

/// Metadata-only view of an entry, safe for list rendering (no secrets).
#[derive(Debug)]
pub struct EntrySummary {
    pub id: EntryId,
    pub title: String,
    pub username: Option<String>,
    pub url: Option<String>,
    pub tags: Vec<String>,
    pub updated_at: i64,
}

/// The abstract value of an [`EntrySummary`].
pub struct EntrySummaryView {
    pub id: EntryId,
    pub title: Seq<char>,
    pub username: Option<Seq<char>>,
    pub url: Option<Seq<char>>,
    pub tags: Seq<Seq<char>>,
    pub updated_at: i64,
}

impl View for EntrySummary {
    type V = EntrySummaryView;

    open spec fn view(&self) -> EntrySummaryView {
        EntrySummaryView {
            id: self.id,
            title: self.title@,
            username: self.username.deep_view(),
            url: self.url.deep_view(),
            tags: self.tags.deep_view(),
            updated_at: self.updated_at,
        }
    }
}

impl Clone for EntrySummary {
    fn clone(&self) -> (r: Self)
        ensures
            r@ == self@,
    {
        EntrySummary {
            id: self.id,
            title: self.title.clone(),
            username: clone_opt(&self.username),
            url: clone_opt(&self.url),
            tags: clone_strings(&self.tags),
            updated_at: self.updated_at,
        }
    }
}

/// The summary that describes an entry.
pub open spec fn summary_of(e: EntryView) -> EntrySummaryView {
    EntrySummaryView {
        id: e.id,
        title: e.title,
        username: e.username,
        url: e.url,
        tags: e.tags,
        updated_at: e.updated_at,
    }
}

impl EntrySummary {
    /// The metadata of `entry` (what `EntrySummary::from(&entry)` gives).
    pub fn from_entry(entry: &Entry) -> (r: EntrySummary)
        ensures
            r@ == summary_of(entry@),
    {
        EntrySummary {
            id: entry.id,
            title: entry.title.clone(),
            username: clone_opt(&entry.username),
            url: clone_opt(&entry.url),
            tags: clone_strings(&entry.tags),
            updated_at: entry.updated_at,
        }
    }
}

/// The views of a list of summaries.
pub open spec fn summaries_view(v: Seq<EntrySummary>) -> Seq<EntrySummaryView> {
    v.map_values(|s: EntrySummary| s@)
}

/// Clones a list of summaries.
pub fn clone_summaries(v: &Vec<EntrySummary>) -> (r: Vec<EntrySummary>)
    ensures
        summaries_view(r@) == summaries_view(v@),
{
    let mut r: Vec<EntrySummary> = Vec::new();
    let mut i: usize = 0;
    while i < v.len()
        invariant
            i <= v.len(),
            r@.len() == i,
            forall|k: int| 0 <= k < i ==> (#[trigger] r@[k])@ == v@[k]@,
        decreases v.len() - i,
    {
        r.push(v[i].clone());
        i = i + 1;
    }
    assert(summaries_view(r@) =~= summaries_view(v@));
    r
}

/// The mirror of [`Entry`] that is serialised to JSON inside encrypted blobs.
pub struct EntryData {
    pub id: EntryId,
    pub title: String,
    pub username: Option<String>,
    pub password: String,
    pub url: Option<String>,
    pub notes: Option<String>,
    pub tags: Vec<String>,
    pub custom_fields: Vec<CustomField>,
    pub created_at: i64,
    pub updated_at: i64,
}

impl View for EntryData {
    type V = EntryView;

    open spec fn view(&self) -> EntryView {
        EntryView {
            id: self.id,
            title: self.title@,
            username: self.username.deep_view(),
            password: self.password@,
            url: self.url.deep_view(),
            notes: self.notes.deep_view(),
            tags: self.tags.deep_view(),
            custom_fields: fields_view(self.custom_fields@),
            created_at: self.created_at,
            updated_at: self.updated_at,
        }
    }
}

impl EntryData {
    /// The serialisable copy of `entry` (what `EntryData::from(&entry)` gives).
    pub fn from_entry(entry: &Entry) -> (r: EntryData)
        ensures
            r@ == entry@,
    {
        EntryData {
            id: entry.id,
            title: entry.title.clone(),
            username: clone_opt(&entry.username),
            password: entry.password.clone(),
            url: clone_opt(&entry.url),
            notes: clone_opt(&entry.notes),
            tags: clone_strings(&entry.tags),
            custom_fields: clone_fields(&entry.custom_fields),
            created_at: entry.created_at,
            updated_at: entry.updated_at,
        }
    }

    /// Reconstructs the runtime [`Entry`].
    pub fn into_entry(self) -> (r: Entry)
        ensures
            r@ == self@,
    {
        Entry {
            id: self.id,
            title: self.title,
            username: self.username,
            password: self.password,
            url: self.url,
            notes: self.notes,
            tags: self.tags,
            custom_fields: self.custom_fields,
            created_at: self.created_at,
            updated_at: self.updated_at,
        }
    }
}

} // verus!
