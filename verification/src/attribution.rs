//! Source-app attribution: which application opened a flow.
//!
//! Two sources name a process, tried in order:
//!
//! 1. the application identifier that the framework reports, `<team>.<bundle>`, where the team
//!    half is routinely empty;
//! 2. the executable's path on disk, looked up by the flow's audit token.
//!
//! A flow carries two audit tokens. The one of the *application* is preferred over the one of the
//! *process* that opened the socket: apps built on WebKit connect through a shared system process,
//! so the process token would give all of them one identity.
//!
//! The same application can be reported under two identifiers, with and without its team prefix.
//! [`AppId::matches_rule`] therefore compares a rule with [`AppId::bundle_id`] as well as with the
//! verbatim name.
//!
//! This is not a code-signature check: the name is the identity that the OS associates with the
//! process.

use vstd::prelude::*;
use crate::text::same_text;

verus! {

/// Size of the buffer that a path lookup needs; the lookup fails when the buffer is smaller.
pub const PROC_PIDPATHINFO_MAXSIZE: usize = 4 * 1024;

/// A serialized audit token is eight 32-bit words.
pub const AUDIT_TOKEN_LEN: usize = 32;

/// The error of `String::from_utf8`, carried but never looked into.
#[verifier::external_type_specification]
#[verifier::external_body]
pub struct ExFromUtf8Error(std::string::FromUtf8Error);

/// `String::from_utf8` accepts a byte vector exactly when it is valid UTF-8, and then holds the
/// characters that the bytes encode.
pub assume_specification[ String::from_utf8 ](vec: Vec<u8>) -> (res: Result<
    String,
    std::string::FromUtf8Error,
>)
    ensures
        res is Ok <==> vstd::utf8::valid_utf8(vec@),
        res matches Ok(s) ==> s@ == vstd::utf8::decode_utf8(vec@),
;

/// The name of the app that opened a flow, and where that name came from.
#[derive(Debug, PartialEq, Eq)]
pub struct AppId {
    /// An application identifier or an executable path, exactly as the OS reported it.
    pub name: String,
    /// [`AppId::FROM_IDENTIFIER`] or [`AppId::FROM_PATH`].
    pub source: &'static str,
}

/// The mathematical content of an [`AppId`].
#[verifier::ext_equal]
pub struct AppName {
    pub name: Seq<char>,
    pub source: Seq<char>,
}

impl View for AppId {
    type V = AppName;

    open spec fn view(&self) -> AppName {
        AppName { name: self.name@, source: self.source@ }
    }
}

/// A team identifier is exactly ten ASCII letters and digits.
pub open spec fn is_team(s: Seq<char>) -> bool {
    &&& s.len() == 10
    &&& forall|i: int| 0 <= i < s.len() ==> crate::text::is_ascii_alphanumeric(#[trigger] s[i])
}

impl AppName {
    /// What stands behind the first `.` of an identifier, when what stands before it is empty or
    /// a team identifier.
    pub open spec fn bundle_id(self) -> Option<Seq<char>> {
        match self.name.index_of_first('.') {
            Some(dot) => {
                let team = self.name.take(dot);
                let bundle = self.name.skip(dot + 1);
                if self.source == AppId::FROM_IDENTIFIER@ && bundle.len() > 0 && (team.len() == 0
                    || is_team(team)) {
                    Some(bundle)
                } else {
                    None
                }
            },
            None => None,
        }
    }

    /// A rule names this app by its verbatim name or by its bundle identifier.
    pub open spec fn matches_rule(self, wanted: Seq<char>) -> bool {
        self.name == wanted || self.bundle_id() == Some(wanted)
    }

    /// `name(source)`.
    pub open spec fn log_label(self) -> Seq<char> {
        self.name + "("@ + self.source + ")"@
    }
}

impl Clone for AppId {
    fn clone(&self) -> (res: Self)
        ensures
            res@ == self@,
    {
        AppId { name: self.name.clone(), source: self.source }
    }
}

impl AppId {
    /// [`AppId::source`] of a name that is an application identifier.
    pub const FROM_IDENTIFIER: &'static str = "id";

    /// [`AppId::source`] of a name that is an executable path.
    pub const FROM_PATH: &'static str = "path";

    /// `name(source)`, as it appears in the `app=` column of the log.
    pub fn log_label(&self) -> (label: String)
        ensures
            label@ == self@.log_label(),
    {
        let mut label = self.name.clone();
        label.append("(");
        label.append(self.source);
        label.append(")");
        label
    }

    /// The bundle identifier inside an identifier-form name, with the `<team>.` prefix removed.
    ///
    /// `None` for a path-form name, and `None` when the part before the first `.` is neither empty
    /// nor a team identifier: `com.foo.bar` carries no team, and splitting it would let a rule
    /// written `foo.bar` match an app that it never named.
    pub fn bundle_id(&self) -> (id: Option<&str>)
        ensures
            match id {
                Some(bundle) => self@.bundle_id() == Some(bundle@),
                None => self@.bundle_id() is None,
            },
    {
        if !same_text(self.source, Self::FROM_IDENTIFIER) {
            return None;
        }
        let dot: usize = match first_dot(&self.name) {
            Some(dot) => dot,
            None => {
                return None;
            },
        };
        let len: usize = self.name.as_str().unicode_len();
        let team = self.name.as_str().substring_char(0, dot);
        let bundle = self.name.as_str().substring_char(dot + 1, len);
        proof {
            assert(team@ =~= self.name@.take(dot as int));
            assert(bundle@ =~= self.name@.skip(dot + 1));
        }
        if bundle.is_empty() || !(team.is_empty() || is_team_identifier(team)) {
            return None;
        }
        Some(bundle)
    }

    /// Whether an `app` rule written as `wanted` names this app: by the verbatim name, or by the
    /// bare bundle identifier. Both comparisons are exact.
    pub fn matches_rule(&self, wanted: &str) -> (named: bool)
        ensures
            named == self@.matches_rule(wanted@),
    {
        if same_text(&self.name, wanted) {
            return true;
        }
        match self.bundle_id() {
            Some(bundle) => same_text(bundle, wanted),
            None => false,
        }
    }
}

/// Position of the first `.` in `s`, counted in characters.
fn first_dot(s: &str) -> (dot: Option<usize>)
    ensures
        match dot {
            Some(i) => s@.index_of_first('.') == Some(i as int) && i < s@.len(),
            None => s@.index_of_first('.') is None,
        },
{
    let mut i: usize = 0;
    let len: usize = s.unicode_len();
    proof {
        s@.index_of_first_ensures('.');
    }
    for c in it: s.chars()
        invariant
            it.seq() == s@,
            i == it.index(),
            len == s@.len(),
            forall|j: int| 0 <= j < i ==> s@[j] != '.',
            match s@.index_of_first('.') {
                Some(k) => 0 <= k < s@.len() && s@[k] == '.' && forall|j: int|
                    0 <= j < k ==> s@[j] != '.',
                None => !s@.contains('.'),
            },
    {
        if c == '.' {
            assert(s@[i as int] == '.');
            return Some(i);
        }
        i = i + 1;
    }
    None
}

/// Whether `s` is a team identifier: exactly ten ASCII letters and digits.
pub fn is_team_identifier(s: &str) -> (is: bool)
    ensures
        is == is_team(s@),
{
    if s.unicode_len() != 10 {
        return false;
    }
    for c in it: s.chars()
        invariant
            it.seq() == s@,
            s@.len() == 10,
            forall|j: int| 0 <= j < it.index() ==> crate::text::is_ascii_alphanumeric(#[trigger] s@[j]),
    {
        let digit = '0' <= c && c <= '9';
        let small = 'a' <= c && c <= 'z';
        let large = 'A' <= c && c <= 'Z';
        if !(digit || small || large) {
            assert(!crate::text::is_ascii_alphanumeric(s@[it.index() as int]));
            return false;
        }
    }
    true
}

/// What a flow says of the process behind it.
pub struct FlowSource {
    /// The application identifier, `<team>.<bundle>`, where the framework reports one.
    pub app_identifier: Option<String>,
    /// The audit token of the application that owns the connection.
    pub app_audit_token: Option<Vec<u8>>,
    /// The audit token of the process that opened the socket.
    pub process_audit_token: Option<Vec<u8>>,
}

/// The reply to a path lookup: the buffer, and how many bytes were written into it, or a value
/// that is not positive when the lookup failed.
pub struct PathLookup {
    pub written: i32,
    pub buffer: Vec<u8>,
}

/// `bytes` without the zero bytes at its end.
pub open spec fn without_trailing_nuls(bytes: Seq<u8>) -> Seq<u8>
    decreases bytes.len(),
{
    if bytes.len() > 0 && bytes.last() == 0 {
        without_trailing_nuls(bytes.drop_last())
    } else {
        bytes
    }
}

impl PathLookup {
    /// The path that the reply spells out: the bytes written, without zero bytes at the end, when
    /// they are text and not empty.
    pub open spec fn path(self) -> Option<Seq<char>> {
        let written = if self.written < self.buffer@.len() {
            self.buffer@.take(self.written as int)
        } else {
            self.buffer@
        };
        let bytes = without_trailing_nuls(written);
        if self.written > 0 && bytes.len() > 0 && vstd::utf8::valid_utf8(bytes) {
            Some(vstd::utf8::decode_utf8(bytes))
        } else {
            None
        }
    }
}

/// The process id that an audit token holds: its sixth word, little-endian.
pub open spec fn token_pid(token: Seq<u8>) -> int {
    token[20] + 256 * token[21] + 65536 * token[22] + 16777216 * token[23]
}

/// The process id behind a token, when the token is whole and the id, read as a signed 32-bit
/// number, is positive.
pub open spec fn pid_in_token(token: Seq<u8>) -> Option<i32> {
    if token.len() >= AUDIT_TOKEN_LEN && 0 < token_pid(token) <= i32::MAX {
        Some(token_pid(token) as i32)
    } else {
        None
    }
}

impl FlowSource {
    /// The application's token where there is one, else the process's; nothing when that token is
    /// not whole.
    pub open spec fn audit_token(self) -> Option<Seq<u8>> {
        let token = match self.app_audit_token {
            Some(token) => Some(token@),
            None => match self.process_audit_token {
                Some(token) => Some(token@),
                None => None,
            },
        };
        match token {
            Some(bytes) => if bytes.len() >= AUDIT_TOKEN_LEN {
                Some(bytes)
            } else {
                None
            },
            None => None,
        }
    }

    /// The identifier, when there is one and it is not empty.
    pub open spec fn identifier(self) -> Option<Seq<char>> {
        match self.app_identifier {
            Some(name) => if name@.len() > 0 {
                Some(name@)
            } else {
                None
            },
            None => None,
        }
    }

    /// The token to look a path up by: none when the identifier already names the flow.
    pub open spec fn path_query(self) -> Option<Seq<u8>> {
        match self.identifier() {
            Some(name) => None,
            None => self.audit_token(),
        }
    }

    /// The app behind the flow: its identifier, else the path that the lookup found.
    pub open spec fn app(self, lookup: Option<PathLookup>) -> Option<AppName> {
        match self.identifier() {
            Some(name) => Some(AppName { name, source: AppId::FROM_IDENTIFIER@ }),
            None => match (self.audit_token(), lookup) {
                (Some(token), Some(reply)) => match reply.path() {
                    Some(name) => Some(AppName { name, source: AppId::FROM_PATH@ }),
                    None => None,
                },
                _ => None,
            },
        }
    }

    /// The process id behind the flow.
    pub open spec fn pid(self) -> Option<i32> {
        match self.audit_token() {
            Some(token) => pid_in_token(token),
            None => None,
        }
    }
}

/// Identify the app that opened a flow, or `None` if neither source could name it. `lookup` is the
/// reply to [`path_query`], or `None` when nothing was asked.
pub fn identify(source: &FlowSource, lookup: Option<PathLookup>) -> (app: Option<AppId>)
    ensures
        match app {
            Some(id) => source.app(lookup) == Some(id@),
            None => source.app(lookup) is None,
        },
{
    if let Some(name) = &source.app_identifier {
        if !name.as_str().is_empty() {
            return Some(AppId { name: name.clone(), source: AppId::FROM_IDENTIFIER });
        }
    }
    let token = match source_audit_token(source) {
        Some(token) => token,
        None => {
            return None;
        },
    };
    match lookup {
        Some(reply) => match path_for_audit_token(token, reply) {
            Some(name) => Some(AppId { name, source: AppId::FROM_PATH }),
            None => None,
        },
        None => None,
    }
}

/// The audit token whose executable path has to be looked up before [`identify`] can name the
/// flow. Always a whole token: the lookup reads all of its bytes.
pub fn path_query(source: &FlowSource) -> (token: Option<&Vec<u8>>)
    ensures
        match token {
            Some(bytes) => source.path_query() == Some(bytes@) && bytes@.len() >= AUDIT_TOKEN_LEN,
            None => source.path_query() is None,
        },
{
    if let Some(name) = &source.app_identifier {
        if !name.as_str().is_empty() {
            return None;
        }
    }
    source_audit_token(source)
}

/// Prefer the app's own audit token; fall back to the process token only when there is no app
/// token. A token that is not whole is no token.
pub fn source_audit_token(source: &FlowSource) -> (token: Option<&Vec<u8>>)
    ensures
        match token {
            Some(bytes) => source.audit_token() == Some(bytes@),
            None => source.audit_token() is None,
        },
{
    let data = match &source.app_audit_token {
        Some(bytes) => bytes,
        None => match &source.process_audit_token {
            Some(bytes) => bytes,
            None => {
                return None;
            },
        },
    };
    if data.len() >= AUDIT_TOKEN_LEN {
        Some(data)
    } else {
        None
    }
}

/// Executable path of the process that `token` identifies, read from the reply to its lookup.
pub fn path_for_audit_token(token: &[u8], lookup: PathLookup) -> (path: Option<String>)
    ensures
        token@.len() < AUDIT_TOKEN_LEN ==> path is None,
        token@.len() >= AUDIT_TOKEN_LEN ==> crate::text::opt_text(path) == lookup.path(),
{
    if token.len() < AUDIT_TOKEN_LEN {
        return None;
    }
    if lookup.written <= 0 {
        return None;
    }
    let mut buf = lookup.buffer;
    if (lookup.written as usize) < buf.len() {
        buf.truncate(lookup.written as usize);
    }
    let ghost written = buf@;
    assert(written =~= (if lookup.written < lookup.buffer@.len() {
        lookup.buffer@.take(lookup.written as int)
    } else {
        lookup.buffer@
    }));
    while buf.len() > 0 && buf[buf.len() - 1] == 0
        invariant
            without_trailing_nuls(buf@) == without_trailing_nuls(written),
        decreases buf@.len(),
    {
        let ghost before = buf@;
        let dropped = buf.pop();
        assert(buf@ =~= before.drop_last());
    }
    if buf.len() == 0 {
        return None;
    }
    match String::from_utf8(buf) {
        Ok(path) => Some(path),
        Err(e) => None,
    }
}

/// Extract the process id from a serialized audit token. Used for the `pid=` log column only:
/// identification goes through the token itself.
pub fn pid_from_audit_token(token: &[u8]) -> (pid: Option<i32>)
    ensures
        pid == pid_in_token(token@),
{
    if token.len() < AUDIT_TOKEN_LEN {
        return None;
    }
    let word: u32 = token[20] as u32 + 256 * token[21] as u32 + 65536 * token[22] as u32
        + 16777216 * token[23] as u32;
    if 0 < word && word <= 0x7fff_ffff {
        Some(word as i32)
    } else {
        None
    }
}

/// The process id behind a flow, for logging. `None` when the flow carries no whole audit token.
pub fn pid_for(source: &FlowSource) -> (pid: Option<i32>)
    ensures
        pid == source.pid(),
{
    match source_audit_token(source) {
        Some(token) => pid_from_audit_token(token),
        None => None,
    }
}

} // verus!
