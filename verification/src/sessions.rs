//! Session handling of the HTTP service: errors, message roles, the
//! timeline URI of a stored message, and new thread ids.

use crate::text::eq_ignore_ascii_case;
use vstd::prelude::*;
use vstd::string::StringSliceAdditionalSpecFns;

verus! {

/// Errors the service answers with.
#[derive(Debug)]
pub enum AppError {
    /// The request itself is wrong.
    BadRequest(String),
    /// The service failed while handling a correct request.
    Internal(String),
}

/// Who wrote a message.
#[derive(Clone, Copy, Debug, PartialEq, Eq, Structural)]
pub enum MessageRole {
    User,
    Assistant,
    System,
}

/// The role named by `s`, compared without regard to case.
///
/// The service lowercases the role before matching it against `user`,
/// `assistant` and `system`.  No character outside ASCII lowercases to a
/// letter of these words without leaving a character outside ASCII behind,
/// so that comparison is exactly an ASCII case-insensitive one.
pub open spec fn role_named(s: Seq<char>) -> Option<MessageRole> {
    if crate::text::eq_ignoring_ascii_case(s, "user"@) {
        Some(MessageRole::User)
    } else if crate::text::eq_ignoring_ascii_case(s, "assistant"@) {
        Some(MessageRole::Assistant)
    } else if crate::text::eq_ignoring_ascii_case(s, "system"@) {
        Some(MessageRole::System)
    } else {
        None
    }
}

/// A role is read without regard to ASCII case: every spelling of `user`,
/// `assistant` or `system` names that role, and nothing else names a role.
pub proof fn law_roles_ignore_ascii_case(s: Seq<char>)
    ensures
        crate::text::lower_seq(s) == "user"@ ==> role_named(s) == Some(MessageRole::User),
        crate::text::lower_seq(s) == "assistant"@ ==> role_named(s) == Some(MessageRole::Assistant),
        crate::text::lower_seq(s) == "system"@ ==> role_named(s) == Some(MessageRole::System),
        role_named(s) is None <==> (crate::text::lower_seq(s) != "user"@ && crate::text::lower_seq(s)
            != "assistant"@ && crate::text::lower_seq(s) != "system"@),
{
    reveal_strlit("user");
    reveal_strlit("assistant");
    reveal_strlit("system");
    assert(crate::text::lower_seq("user"@) =~= "user"@);
    assert(crate::text::lower_seq("assistant"@) =~= "assistant"@);
    assert(crate::text::lower_seq("system"@) =~= "system"@);
}

/// Parses the role of a message to add; any other role is a bad request.
pub fn parse_role(role: &str) -> (r: Result<MessageRole, AppError>)
    ensures
        match role_named(role@) {
            Some(x) => r == Ok::<MessageRole, AppError>(x),
            None => r matches Err(AppError::BadRequest(m)) && m@ == "Invalid role: "@ + role@,
        },
{
    if eq_ignore_ascii_case(role, "user") {
        Ok(MessageRole::User)
    } else if eq_ignore_ascii_case(role, "assistant") {
        Ok(MessageRole::Assistant)
    } else if eq_ignore_ascii_case(role, "system") {
        Ok(MessageRole::System)
    } else {
        let mut m = String::from_str("Invalid role: ");
        m.append(role);
        Err(AppError::BadRequest(m))
    }
}

/// The instant a message was written: seconds since the Unix epoch and
/// nanoseconds within that second (a leap second counts from 1_000_000_000).
#[derive(Clone, Copy, Debug)]
pub struct MessageTimestamp {
    pub secs: i64,
    pub nanos: u32,
}

/// What chrono renders for the UTC instant `(secs, nanos)` with the strftime
/// pattern `pattern`, or `None` when chrono cannot represent the instant.
pub uninterp spec fn utc_format(secs: i64, nanos: u32, pattern: Seq<char>) -> Option<Seq<char>>;

/// Renders a UTC instant with `chrono::format::DelayedFormat` (through
/// `DateTime::<Utc>::format` and `to_string`), after turning the plain
/// instant into chrono's `DateTime<Utc>` with `DateTime::from_timestamp`.
/// The contract only names the rendered text; the patterns are limited to
/// the three the timeline uses, all of which chrono renders for every
/// representable instant.
#[verifier::external_body]
fn format_utc(secs: i64, nanos: u32, pattern: &str) -> (r: Option<String>)
    requires
        pattern@ == "%Y-%m"@ || pattern@ == "%d"@ || pattern@ == "%H_%M_%S"@,
    ensures
        match r {
            Some(s) => utc_format(secs, nanos, pattern@) == Some(s@),
            None => utc_format(secs, nanos, pattern@) is None,
        },
{
    match chrono::DateTime::from_timestamp(secs, nanos) {
        Some(t) => Some(t.format(pattern).to_string()),
        None => None,
    }
}

/// The timestamp parts of a timeline location: the month directory
/// (`%Y-%m`), the day directory (`%d`) and the time of day (`%H_%M_%S`).
pub struct TimelineParts {
    pub month: String,
    pub day: String,
    pub time: String,
}

/// Renders the timeline parts of `ts`; `None` when the instant cannot be
/// represented.
pub fn timeline_parts(ts: &MessageTimestamp) -> (r: Option<TimelineParts>)
    ensures
        match r {
            Some(p) => {
                &&& utc_format(ts.secs, ts.nanos, "%Y-%m"@) == Some(p.month@)
                &&& utc_format(ts.secs, ts.nanos, "%d"@) == Some(p.day@)
                &&& utc_format(ts.secs, ts.nanos, "%H_%M_%S"@) == Some(p.time@)
            },
            None => {
                ||| utc_format(ts.secs, ts.nanos, "%Y-%m"@) is None
                ||| utc_format(ts.secs, ts.nanos, "%d"@) is None
                ||| utc_format(ts.secs, ts.nanos, "%H_%M_%S"@) is None
            },
        },
{
    let month = match format_utc(ts.secs, ts.nanos, "%Y-%m") {
        Some(s) => s,
        None => return None,
    };
    let day = match format_utc(ts.secs, ts.nanos, "%d") {
        Some(s) => s,
        None => return None,
    };
    let time = match format_utc(ts.secs, ts.nanos, "%H_%M_%S") {
        Some(s) => s,
        None => return None,
    };
    Some(TimelineParts { month, day, time })
}

/// The characters of the first eight bytes of a message id.
pub open spec fn id_prefix(id: &str) -> Seq<char> {
    vstd::utf8::decode_utf8(id.spec_bytes().subrange(0, 8))
}

/// The URI of the day directory of a session's timeline.
pub open spec fn day_dir_uri_of(thread: Seq<char>, month: Seq<char>, day: Seq<char>) -> Seq<char> {
    "cortex://session/"@ + thread + "/timeline/"@ + month + "/"@ + day
}

/// The URI of a stored message within its day directory.
pub open spec fn message_uri_of(
    thread: Seq<char>,
    month: Seq<char>,
    day: Seq<char>,
    time: Seq<char>,
    id8: Seq<char>,
) -> Seq<char> {
    day_dir_uri_of(thread, month, day) + "/"@ + time + "_"@ + id8 + ".md"@
}

/// The day directory of the session timeline that a message written at
/// `parts` belongs to.
pub fn day_dir_uri(thread_id: &str, parts: &TimelineParts) -> (r: String)
    ensures
        r@ == day_dir_uri_of(thread_id@, parts.month@, parts.day@),
{
    let mut r = String::from_str("cortex://session/");
    r.append(thread_id);
    r.append("/timeline/");
    r.append(parts.month.as_str());
    r.append("/");
    r.append(parts.day.as_str());
    r
}

/// The URI under which a message is stored: its day directory, its time of
/// day and the first eight bytes of its id.
pub fn message_uri(thread_id: &str, parts: &TimelineParts, message_id: &str) -> (r: String)
    requires
        vstd::utf8::is_char_boundary(message_id.spec_bytes(), 8),
    ensures
        r@ == message_uri_of(
            thread_id@,
            parts.month@,
            parts.day@,
            parts.time@,
            id_prefix(message_id),
        ),
{
    proof {
        vstd::utf8::encode_utf8_valid_utf8(message_id@);
    }
    let (id8, _) = message_id.split_at(8);
    proof {
        vstd::utf8::encode_utf8_decode_utf8(id8@);
    }
    let mut r = day_dir_uri(thread_id, parts);
    r.append("/");
    r.append(parts.time.as_str());
    r.append("_");
    r.append(id8);
    r.append(".md");
    r
}

/// The answer to a stored message.
pub fn message_saved_text(uri: &str) -> (r: String)
    ensures
        r@ == "Message saved to "@ + uri@,
{
    let mut r = String::from_str("Message saved to ");
    r.append(uri);
    r
}

/// Lowercase hexadecimal digit.
pub open spec fn is_lower_hex(c: char) -> bool {
    ('0' <= c && c <= '9') || ('a' <= c && c <= 'f')
}

/// The hyphenated lowercase text of a random (version 4, RFC 4122 variant) UUID.
pub open spec fn is_v4_uuid_text(s: Seq<char>) -> bool {
    &&& s.len() == 36
    &&& forall|i: int|
        0 <= i < 36 ==> if i == 8 || i == 13 || i == 18 || i == 23 {
            #[trigger] s[i] == '-'
        } else {
            is_lower_hex(s[i])
        }
    &&& s[14] == '4'
    &&& (s[19] == '8' || s[19] == '9' || s[19] == 'a' || s[19] == 'b')
}

/// A fresh random thread id: `uuid::Uuid::new_v4`, rendered by uuid's
/// `Display` (hyphenated, lowercase).  The contract states the shape the
/// uuid source gives every such text; the random bits themselves are
/// unknown.  uuid panics when the operating system gives no random bytes,
/// which no contract can exclude.
#[verifier::external_body]
fn new_uuid_v4_text() -> (r: String)
    ensures
        is_v4_uuid_text(r@),
{
    uuid::Uuid::new_v4().to_string()
}

/// The thread id of a session to create: the given one, or a fresh random UUID.
pub fn resolve_thread_id(given: Option<String>) -> (r: String)
    ensures
        match given {
            Some(s) => r == s,
            None => is_v4_uuid_text(r@),
        },
{
    match given {
        Some(s) => s,
        None => new_uuid_v4_text(),
    }
}

/// A directory entry of the session root is listed as a session unless its
/// name starts with a dot.
pub open spec fn lists_as_session(name: Seq<char>) -> bool {
    name.len() == 0 || name[0] != '.'
}

/// Whether the session directory `name` is listed.
pub fn is_listed_session_dir(name: &str) -> (r: bool)
    ensures
        r == lists_as_session(name@),
{
    name.unicode_len() == 0 || name.get_char(0) != '.'
}

/// Only a directory whose name starts with a dot is hidden from the
/// session listing; in particular every generated UUID thread id is listed.
pub proof fn law_only_dot_names_are_hidden(name: Seq<char>)
    ensures
        lists_as_session(name) <==> !(name.len() > 0 && name[0] == '.'),
        is_v4_uuid_text(name) ==> lists_as_session(name),
{
    if is_v4_uuid_text(name) {
        assert(is_lower_hex(name[0]));
    }
}

} // verus!
