//! The text the screens show: masked passwords, password strength,
//! truncated cells, timestamps and the lines of the preview panel.
use vstd::prelude::*;
use vstd::string::StringSliceAdditionalSpecFns;
use vstd::utf8::encode_utf8;
use crate::models::{Entry, EntrySummary, FieldValue, FieldValueView, CustomFieldView, now_timestamp};
use crate::text::{
    decimal, push_char, append_str, is_ascii_digit, is_ascii_punctuation, unicode_lowercase,
    unicode_uppercase, char_is_lowercase, char_is_uppercase, u64_to_decimal,
};

verus! {

/// The bullet that stands for one hidden character.
pub open spec fn bullet() -> char {
    '\u{2022}'
}

/// The dash shown for an absent value.
pub open spec fn dash() -> Seq<char> {
    seq!['\u{2014}']
}

/// `n` bullets.
pub open spec fn bullets(n: nat) -> Seq<char> {
    Seq::new(n, |i: int| bullet())
}

/// A string of `n` bullets.
pub fn bullet_string(n: usize) -> (r: String)
    ensures
        r@ == bullets(n as nat),
{
    let mut s = String::new();
    let mut i: usize = 0;
    while i < n
        invariant
            i <= n,
            s@ == bullets(i as nat),
        decreases n - i,
    {
        push_char(&mut s, '\u{2022}');
        i = i + 1;
        assert(s@ =~= bullets(i as nat));
    }
    s
}

/// The dash shown for an absent value.
pub fn dash_string() -> (r: String)
    ensures
        r@ == dash(),
{
    let mut s = String::new();
    push_char(&mut s, '\u{2014}');
    assert(s@ =~= dash());
    s
}

/// How the password field of the editor is shown: nothing when empty,
/// otherwise one bullet per byte of the password.
pub open spec fn masked_password(pw: &str) -> Seq<char> {
    if pw@.len() == 0 {
        Seq::empty()
    } else {
        bullets(pw.spec_bytes().len())
    }
}

/// The masked form of a password in the editor.
pub fn render_password(pw: &str) -> (r: String)
    ensures
        r@ == masked_password(pw),
{
    if pw.is_empty() {
        String::new()
    } else {
        bullet_string(pw.as_bytes().len())
    }
}

/// Whether `s` holds an upper-case character.
pub open spec fn has_upper(s: Seq<char>) -> bool {
    exists|i: int| 0 <= i < s.len() && unicode_uppercase(#[trigger] s[i])
}

/// Whether `s` holds a lower-case character.
pub open spec fn has_lower(s: Seq<char>) -> bool {
    exists|i: int| 0 <= i < s.len() && unicode_lowercase(#[trigger] s[i])
}

/// Whether `s` holds an ASCII digit.
pub open spec fn has_digit(s: Seq<char>) -> bool {
    exists|i: int| 0 <= i < s.len() && is_ascii_digit(#[trigger] s[i])
}

/// Whether `s` holds ASCII punctuation.
pub open spec fn has_symbol(s: Seq<char>) -> bool {
    exists|i: int| 0 <= i < s.len() && is_ascii_punctuation(#[trigger] s[i])
}

/// How many of the four character classes (upper case, lower case, digit,
/// symbol) occur in `s`.
pub open spec fn class_count(s: Seq<char>) -> int {
    (if has_upper(s) { 1int } else { 0int }) + (if has_lower(s) { 1int } else { 0int }) + (if has_digit(
        s,
    ) { 1int } else { 0int }) + (if has_symbol(s) { 1int } else { 0int })
}

/// Password strength from 1 (weak) to 4 (strong), from the length in bytes
/// and the number of character classes.
pub open spec fn strength(byte_len: nat, classes: int) -> u8 {
    if byte_len >= 16 && classes >= 3 {
        4
    } else if byte_len >= 12 && classes >= 2 {
        3
    } else if byte_len >= 8 && classes >= 1 {
        2
    } else {
        1
    }
}

/// The UTF-8 encoding of two texts one after the other is the two
/// encodings one after the other.
proof fn lemma_encode_append(s: Seq<char>, t: Seq<char>)
    ensures
        vstd::utf8::encode_utf8(s + t) == vstd::utf8::encode_utf8(s) + vstd::utf8::encode_utf8(t),
    decreases s.len(),
{
    if s.len() == 0 {
        assert(s + t =~= t);
        assert(vstd::utf8::encode_utf8(s) + vstd::utf8::encode_utf8(t) =~= vstd::utf8::encode_utf8(t));
    } else {
        assert((s + t).drop_first() =~= s.drop_first() + t);
        assert((s + t)[0] == s[0]);
        lemma_encode_append(s.drop_first(), t);
        let h = vstd::utf8::encode_scalar(s[0] as u32);
        assert(h + (vstd::utf8::encode_utf8(s.drop_first()) + vstd::utf8::encode_utf8(t))
            =~= (h + vstd::utf8::encode_utf8(s.drop_first())) + vstd::utf8::encode_utf8(t));
    }
}

/// Appending characters to a password never lowers its strength: the byte
/// length only grows and every class present stays present.
pub proof fn lemma_strength_never_drops(s: Seq<char>, t: Seq<char>)
    ensures
        strength(vstd::utf8::encode_utf8(s + t).len(), class_count(s + t))
            >= strength(vstd::utf8::encode_utf8(s).len(), class_count(s)),
{
    lemma_encode_append(s, t);
    let u = s + t;
    if has_upper(s) {
        let i = choose|i: int| 0 <= i < s.len() && unicode_uppercase(#[trigger] s[i]);
        assert(u[i] == s[i]);
    }
    if has_lower(s) {
        let i = choose|i: int| 0 <= i < s.len() && unicode_lowercase(#[trigger] s[i]);
        assert(u[i] == s[i]);
    }
    if has_digit(s) {
        let i = choose|i: int| 0 <= i < s.len() && is_ascii_digit(#[trigger] s[i]);
        assert(u[i] == s[i]);
    }
    if has_symbol(s) {
        let i = choose|i: int| 0 <= i < s.len() && is_ascii_punctuation(#[trigger] s[i]);
        assert(u[i] == s[i]);
    }
}

/// Rates a password: 4 needs 16 bytes and three classes, 3 needs 12 bytes
/// and two, 2 needs 8 bytes and one; anything else is 1.
pub fn password_strength(pw: &str) -> (r: u8)
    ensures
        r == strength(pw.spec_bytes().len(), class_count(pw@)),
        1 <= r <= 4,
{
    let n = pw.unicode_len();
    let mut upper = false;
    let mut lower = false;
    let mut digit = false;
    let mut sym = false;
    let mut i: usize = 0;
    while i < n
        invariant
            n == pw@.len(),
            i <= n,
            upper == has_upper(pw@.subrange(0, i as int)),
            lower == has_lower(pw@.subrange(0, i as int)),
            digit == has_digit(pw@.subrange(0, i as int)),
            sym == has_symbol(pw@.subrange(0, i as int)),
        decreases n - i,
    {
        let c = pw.get_char(i);
        let ghost old_prefix = pw@.subrange(0, i as int);
        let ghost next = pw@.subrange(0, i + 1);
        assert(next =~= old_prefix.push(c));
        assert(forall|k: int| 0 <= k < old_prefix.len() ==> next[k] == old_prefix[k]);
        assert(next[i as int] == c);
        if char_is_uppercase(c) {
            upper = true;
        }
        if char_is_lowercase(c) {
            lower = true;
        }
        if '0' <= c && c <= '9' {
            digit = true;
        }
        if ('!' <= c && c <= '/') || (':' <= c && c <= '@') || ('[' <= c && c <= '`') || ('{' <= c
            && c <= '~') {
            sym = true;
        }
        i = i + 1;
    }
    assert(pw@.subrange(0, n as int) =~= pw@);
    let classes: u8 = (if upper { 1u8 } else { 0u8 }) + (if lower { 1u8 } else { 0u8 }) + (if digit {
        1u8
    } else {
        0u8
    }) + (if sym { 1u8 } else { 0u8 });
    let len = pw.as_bytes().len();
    if len >= 16 && classes >= 3 {
        4
    } else if len >= 12 && classes >= 2 {
        3
    } else if len >= 8 && classes >= 1 {
        2
    } else {
        1
    }
}

/// The colour of a strength bar.
#[derive(Debug, Clone, Copy, PartialEq, Eq, Structural)]
pub enum StrengthColor {
    Red,
    Yellow,
    Cyan,
    Green,
}

/// The strength bar's word and colour for a score: Weak (red) up to 1, Fair
/// (yellow) at 2, Good (cyan) at 3, Strong (green) above.
pub open spec fn strength_word(score: u8) -> (Seq<char>, StrengthColor) {
    if score <= 1 {
        ("Weak"@, StrengthColor::Red)
    } else if score == 2 {
        ("Fair"@, StrengthColor::Yellow)
    } else if score == 3 {
        ("Good"@, StrengthColor::Cyan)
    } else {
        ("Strong"@, StrengthColor::Green)
    }
}

/// The number of filled cells (out of ten) of the strength bar.
pub open spec fn strength_cells(score: u8) -> nat {
    if score <= 1 {
        1
    } else if score == 2 {
        4
    } else if score == 3 {
        7
    } else {
        10
    }
}

/// The full bar text: filled cells, empty cells up to ten, a space, the word.
pub open spec fn strength_bar_text(score: u8) -> Seq<char> {
    Seq::new(strength_cells(score), |i: int| '\u{2588}') + Seq::new(
        (10 - strength_cells(score)) as nat,
        |i: int| '\u{2591}',
    ) + seq![' '] + strength_word(score).0
}

/// The strength bar shown under the password field.
pub fn strength_bar(score: u8) -> (r: (String, StrengthColor))
    ensures
        r.0@ == strength_bar_text(score),
        r.1 == strength_word(score).1,
{
    let (filled, word, color): (usize, &str, StrengthColor) = if score <= 1 {
        (1, "Weak", StrengthColor::Red)
    } else if score == 2 {
        (4, "Fair", StrengthColor::Yellow)
    } else if score == 3 {
        (7, "Good", StrengthColor::Cyan)
    } else {
        (10, "Strong", StrengthColor::Green)
    };
    let mut s = String::new();
    let mut i: usize = 0;
    while i < 10
        invariant
            i <= 10,
            filled == strength_cells(score),
            i <= filled ==> s@ == Seq::new(i as nat, |k: int| '\u{2588}'),
            i > filled ==> s@ == Seq::new(filled as nat, |k: int| '\u{2588}') + Seq::new(
                (i - filled) as nat,
                |k: int| '\u{2591}',
            ),
        decreases 10 - i,
    {
        if i < filled {
            push_char(&mut s, '\u{2588}');
            assert(s@ =~= Seq::new((i + 1) as nat, |k: int| '\u{2588}'));
        } else {
            push_char(&mut s, '\u{2591}');
            assert(s@ =~= Seq::new(filled as nat, |k: int| '\u{2588}') + Seq::new(
                (i + 1 - filled) as nat,
                |k: int| '\u{2591}',
            ));
        }
        i = i + 1;
    }
    push_char(&mut s, ' ');
    append_str(&mut s, word);
    proof {
        if filled == 10 {
            assert(Seq::new(0nat, |k: int| '\u{2591}') =~= Seq::<char>::empty());
            assert(s@ =~= strength_bar_text(score));
        } else {
            assert(s@ =~= strength_bar_text(score));
        }
    }
    (s, color)
}

/// `s` cut to at most `max` characters: longer strings keep their first
/// `max - 1` characters (none when `max` is 0) followed by an ellipsis.
pub open spec fn truncated(s: Seq<char>, max: nat) -> Seq<char> {
    if s.len() > max {
        s.subrange(0, if max == 0 { 0 } else { max - 1 }).push('\u{2026}')
    } else {
        s
    }
}

/// Truncates a string to `max` characters, appending "…" if it was cut.
pub fn truncate(s: &str, max: usize) -> (r: String)
    ensures
        r@ == truncated(s@, max as nat),
{
    let n = s.unicode_len();
    if n > max {
        let keep = if max == 0 { 0 } else { max - 1 };
        let mut r = String::from_str(s.substring_char(0, keep));
        push_char(&mut r, '\u{2026}');
        r
    } else {
        String::from_str(s)
    }
}

/// The relative age of a timestamp `ts` seen at time `now`.
pub open spec fn age_text(now: i64, ts: i64) -> Seq<char> {
    let diff = now - ts;
    if diff < 60 {
        "just now"@
    } else if diff < 3600 {
        decimal((diff / 60) as nat) + "m ago"@
    } else if diff < 86400 {
        decimal((diff / 3600) as nat) + "h ago"@
    } else {
        decimal((diff / 86400) as nat) + "d ago"@
    }
}

/// The age of `ts` at time `now`: "just now" under a minute, then whole
/// minutes, hours or days.
pub fn relative_time_at(now: i64, ts: i64) -> (r: String)
    ensures
        r@ == age_text(now, ts),
{
    let diff: i128 = now as i128 - ts as i128;
    if diff < 60 {
        String::from_str("just now")
    } else if diff < 3600 {
        u64_to_decimal((diff / 60) as u64).concat("m ago")
    } else if diff < 86400 {
        u64_to_decimal((diff / 3600) as u64).concat("h ago")
    } else {
        u64_to_decimal((diff / 86400) as u64).concat("d ago")
    }
}

/// Converts a Unix timestamp to a relative time string, measured from the
/// current time.
pub fn relative_time(ts: i64) -> (r: String)
    ensures
        exists|now: i64| r@ == #[trigger] age_text(now, ts),
{
    let now = now_timestamp();
    let r = relative_time_at(now, ts);
    assert(r@ == age_text(now, ts));
    r
}

/// The text of `chrono::DateTime::from_timestamp(ts, 0)` formatted as
/// `%Y-%m-%d %H:%M` (UTC), or `None` when the timestamp is out of range.
pub uninterp spec fn utc_minute_text(ts: i64) -> Option<Seq<char>>;

/// Trusted: `chrono::DateTime::from_timestamp(ts, 0)` and
/// `format("%Y-%m-%d %H:%M")`, which depend on the timestamp alone (UTC).
#[verifier::external_body]
fn utc_minutes(ts: i64) -> (r: Option<String>)
    ensures
        match r {
            Some(s) => utc_minute_text(ts) == Some(s@),
            None => utc_minute_text(ts) is None,
        },
{
    match chrono::DateTime::from_timestamp(ts, 0) {
        Some(dt) => Some(dt.format("%Y-%m-%d %H:%M").to_string()),
        None => None,
    }
}

/// The absolute form of a timestamp: a dash for non-positive or
/// unrepresentable times, otherwise the UTC date and minute.
pub open spec fn time_text(ts: i64) -> Seq<char> {
    if ts <= 0 {
        dash()
    } else {
        match utc_minute_text(ts) {
            Some(s) => s,
            None => dash(),
        }
    }
}

/// Formats a timestamp for the detail screen.
pub fn format_time(ts: i64) -> (r: String)
    ensures
        r@ == time_text(ts),
{
    if ts <= 0 {
        return dash_string();
    }
    match utc_minutes(ts) {
        Some(s) => s,
        None => dash_string(),
    }
}

/// The code shown for a TOTP field (codes are not computed; six dashes).
pub fn totp_code(secret: &str) -> (r: String)
    ensures
        r@ == "------"@,
{
    String::from_str("------")
}

/// The first line of `s`, or `None` for an empty string. A line ends at
/// a line feed, and a carriage return just before that line feed is
/// dropped; with no line feed the whole text is the line, as it is.
pub open spec fn first_line(s: Seq<char>) -> Option<Seq<char>> {
    if s.len() == 0 {
        None
    } else if exists|i: int| 0 <= i < s.len() && s[i] == '\n' {
        let cut = s.subrange(0, choose|i: int| 0 <= i < s.len() && s[i] == '\n' && forall|j: int| 0 <= j < i ==> s[j] != '\n');
        Some(if cut.len() > 0 && cut.last() == '\r' { cut.drop_last() } else { cut })
    } else {
        Some(s)
    }
}

/// The first line of a text, as `str::lines().next()` gives it.
pub fn first_line_of(s: &str) -> (r: Option<String>)
    ensures
        r matches Some(t) ==> first_line(s@) == Some(t@),
        r is None ==> first_line(s@) is None,
{
    let n = s.unicode_len();
    if n == 0 {
        return None;
    }
    let mut i: usize = 0;
    while i < n
        invariant
            n == s@.len(),
            i <= n,
            forall|j: int| 0 <= j < i ==> s@[j] != '\n',
        ensures
            i <= n,
            forall|j: int| 0 <= j < i ==> s@[j] != '\n',
            i < n ==> s@[i as int] == '\n',
        decreases n - i,
    {
        if s.get_char(i) == '\n' {
            break;
        }
        i = i + 1;
    }
    proof {
        if i < n {
            assert(s@[i as int] == '\n');
            let k = choose|k: int| 0 <= k < s@.len() && s@[k] == '\n' && forall|j: int| 0 <= j < k ==> s@[j] != '\n';
            if k < i {
                assert(s@[k] != '\n');
            }
            if k > i {
                assert(s@[i as int] != '\n');
            }
            assert(k == i);
        } else {
            assert(s@.subrange(0, i as int) =~= s@);
        }
    }
    let cut = s.substring_char(0, i);
    if i < n && i > 0 && cut.get_char(i - 1) == '\r' {
        Some(String::from_str(cut.substring_char(0, i - 1)))
    } else {
        Some(String::from_str(cut))
    }
}

/// How the unlock screen shows the typed password: bullets (one per byte)
/// when hidden, the text otherwise, and a prompt when nothing is typed.
pub open spec fn locked_input_text(input: &str, hidden: bool) -> Seq<char> {
    let shown = if hidden { bullets(input.spec_bytes().len()) } else { input@ };
    if shown.len() == 0 {
        "Enter master password..."@
    } else {
        shown
    }
}

/// The text of the unlock screen's password field.
pub fn locked_input_display(input: &str, hidden: bool) -> (r: String)
    ensures
        r@ == locked_input_text(input, hidden),
{
    let shown = if hidden {
        bullet_string(input.as_bytes().len())
    } else {
        String::from_str(input)
    };
    if shown.unicode_len() == 0 {
        String::from_str("Enter master password...")
    } else {
        shown
    }
}

/// `items` joined by `, `.
pub open spec fn joined(items: Seq<Seq<char>>) -> Seq<char>
    decreases items.len(),
{
    if items.len() == 0 {
        Seq::empty()
    } else if items.len() == 1 {
        items[0]
    } else {
        joined(items.drop_last()) + ", "@ + items.last()
    }
}

/// The tags of an entry as shown: joined by `, `, or a dash when none.
pub open spec fn tags_text(tags: Seq<Seq<char>>) -> Seq<char> {
    if tags.len() == 0 {
        dash()
    } else {
        joined(tags)
    }
}

/// Shows a list of tags.
pub fn tags_display(tags: &Vec<String>) -> (r: String)
    ensures
        r@ == tags_text(tags.deep_view()),
{
    if tags.len() == 0 {
        return dash_string();
    }
    let mut out = tags[0].clone();
    let mut i: usize = 1;
    while i < tags.len()
        invariant
            1 <= i <= tags@.len(),
            out@ == joined(tags.deep_view().subrange(0, i as int)),
        decreases tags@.len() - i,
    {
        let ghost prev = tags.deep_view().subrange(0, i as int);
        let ghost next = tags.deep_view().subrange(0, i + 1);
        assert(next.drop_last() =~= prev);
        out.append(", ");
        out.append(tags[i].as_str());
        i = i + 1;
        assert(out@ =~= joined(next));
    }
    assert(tags.deep_view().subrange(0, tags@.len() as int) =~= tags.deep_view());
    proof {
        if tags@.len() == 1 {
            assert(joined(tags.deep_view().subrange(0, 1)) =~= tags.deep_view()[0]);
        }
    }
    out
}

/// The text of an optional field, or a dash when absent.
pub open spec fn or_dash(o: Option<Seq<char>>) -> Seq<char> {
    match o {
        Some(s) => s,
        None => dash(),
    }
}

/// Shows an optional field.
pub fn or_dash_display(o: &Option<String>) -> (r: String)
    ensures
        r@ == or_dash(o.deep_view()),
{
    match o {
        Some(s) => s.clone(),
        None => dash_string(),
    }
}

/// The value of a custom field as the detail screen shows it: text as is,
/// secrets in clear only when passwords are shown (eight bullets
/// otherwise), TOTP fields as their code.
pub open spec fn custom_value_text(v: FieldValueView, show: bool) -> Seq<char> {
    match v {
        FieldValueView::Text(s) => s,
        FieldValueView::Secret(s) => if show { s } else { bullets(8) },
        FieldValueView::Totp(_) => "------"@ + " (TOTP)"@,
    }
}

/// One custom-field line of the detail screen: `label: value`.
pub fn custom_field_line(label: &String, value: &FieldValue, show: bool) -> (r: String)
    ensures
        r@ == label@ + ": "@ + custom_value_text(value@, show),
{
    let v = match value {
        FieldValue::Text(s) => s.clone(),
        FieldValue::Secret(s) => if show { s.clone() } else { bullet_string(8) },
        FieldValue::Totp(secret) => totp_code(secret.as_str()).concat(" (TOTP)"),
    };
    label.clone().concat(": ").concat(v.as_str())
}

/// The password as the detail screen shows it: in clear when asked,
/// otherwise twelve bullets.
pub fn detail_password(pw: &String, show: bool) -> (r: String)
    ensures
        r@ == if show { pw@ } else { bullets(12) },
{
    if show {
        pw.clone()
    } else {
        bullet_string(12)
    }
}

/// One line of the search results: `title  (username)`.
pub fn search_item(s: &EntrySummary) -> (r: String)
    ensures
        r@ == s.title@ + "  ("@ + (match s.username.deep_view() {
            Some(u) => u,
            None => Seq::empty(),
        }) + ")"@,
{
    let user = match &s.username {
        Some(u) => u.clone(),
        None => String::new(),
    };
    s.title.clone().concat("  (").concat(user.as_str()).concat(")")
}

/// The lines of the preview panel for an entry: title (cut to 28), then
/// username, password bullets (at least one), url, first line of the
/// notes, and tags (each cut to 24).
pub struct PreviewLines {
    pub title: String,
    pub username: String,
    pub password: String,
    pub url: String,
    pub notes: String,
    pub tags: String,
}

/// The preview panel's lines for `e`.
pub fn preview_lines(e: &Entry) -> (r: PreviewLines)
    ensures
        r.title@ == truncated(e.title@, 28),
        r.username@ == or_dash(e.username.deep_view()),
        r.password@ == bullets(if encode_utf8(e.password@).len() > 0 { encode_utf8(e.password@).len() } else { 1 }),
        r.url@ == truncated(or_dash(e.url.deep_view()), 24),
        r.notes@ == truncated(
            match e.notes.deep_view() {
                Some(n) => match first_line(n) {
                    Some(l) => l,
                    None => dash(),
                },
                None => dash(),
            },
            24,
        ),
        r.tags@ == truncated(tags_text(e.tags.deep_view()), 24),
{
    let n = e.password.as_str().as_bytes().len();
    let url = or_dash_display(&e.url);
    let notes = match &e.notes {
        Some(text) => match first_line_of(text.as_str()) {
            Some(l) => l,
            None => dash_string(),
        },
        None => dash_string(),
    };
    let tags = tags_display(&e.tags);
    PreviewLines {
        title: truncate(e.title.as_str(), 28),
        username: or_dash_display(&e.username),
        password: bullet_string(if n > 0 { n } else { 1 }),
        url: truncate(url.as_str(), 24),
        notes: truncate(notes.as_str(), 24),
        tags: truncate(tags.as_str(), 24),
    }
}

/// A truncated string never holds more than `max` characters (for `max` of
/// at least one), and a string that fits is left alone.
pub proof fn lemma_truncated_fits(s: Seq<char>, max: nat)
    requires
        max >= 1,
    ensures
        truncated(s, max).len() <= max,
        s.len() <= max ==> truncated(s, max) == s,
{
}

} // verus!
