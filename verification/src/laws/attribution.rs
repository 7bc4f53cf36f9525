//! Laws of source-app attribution.

use vstd::prelude::*;
use crate::attribution::{AppId, AppName, FlowSource, PathLookup};

verus! {

/// An identifier as the OS reports it: the team, a dot, the bundle identifier.
pub open spec fn reported(team: Seq<char>, bundle: Seq<char>) -> AppName {
    AppName { name: team + seq!['.'] + bundle, source: "id"@ }
}

/// Ten characters, each an ASCII letter or digit.
pub open spec fn ten_letters_and_digits(s: Seq<char>) -> bool {
    &&& s.len() == 10
    &&& forall|i: int|
        0 <= i < 10 ==> {
            ||| 48 <= (#[trigger] s[i]) as int <= 57
            ||| 65 <= s[i] as int <= 90
            ||| 97 <= s[i] as int <= 122
        }
}

proof fn lemma_team(s: Seq<char>)
    ensures
        crate::attribution::is_team(s) <==> ten_letters_and_digits(s),
{
    if ten_letters_and_digits(s) {
        assert forall|i: int| 0 <= i < s.len() implies crate::text::is_ascii_alphanumeric(
            #[trigger] s[i],
        ) by {}
    }
    if crate::attribution::is_team(s) {
        assert forall|i: int| 0 <= i < 10 implies {
            ||| 48 <= (#[trigger] s[i]) as int <= 57
            ||| 65 <= s[i] as int <= 90
            ||| 97 <= s[i] as int <= 122
        } by {
            assert(crate::text::is_ascii_alphanumeric(s[i]));
        }
    }
}

/// A team identifier is ten ASCII letters and digits, and nothing else is one.
pub proof fn law_a_team_is_ten_letters_and_digits(s: &str, is: bool)
    requires
        call_ensures(crate::attribution::is_team_identifier, (s,), is),
    ensures
        is <==> ten_letters_and_digits(s@),
        crate::attribution::is_team(s@) <==> ten_letters_and_digits(s@),
{
    lemma_team(s@);
}

/// The first dot of `team.bundle` is the one behind the team, when the team holds none.
proof fn lemma_first_dot(team: Seq<char>, bundle: Seq<char>)
    requires
        !team.contains('.'),
    ensures
        (team + seq!['.'] + bundle).index_of_first('.') == Some(team.len() as int),
        (team + seq!['.'] + bundle).take(team.len() as int) == team,
        (team + seq!['.'] + bundle).skip(team.len() as int + 1) == bundle,
{
    let name = team + seq!['.'] + bundle;
    name.index_of_first_ensures('.');
    assert(name[team.len() as int] == '.');
    assert(name.contains('.'));
    let dot = name.index_of_first('.')->0;
    if dot < team.len() {
        assert(team[dot] == name[dot]);
        assert(team.contains('.'));
    }
    assert(name.take(team.len() as int) =~= team);
    assert(name.skip(team.len() as int + 1) =~= bundle);
}

proof fn lemma_team_has_no_dot(team: Seq<char>)
    requires
        team.len() == 0 || crate::attribution::is_team(team),
    ensures
        !team.contains('.'),
{
    if team.contains('.') {
        let i = choose|i: int| 0 <= i < team.len() && team[i] == '.';
        assert(crate::text::is_ascii_alphanumeric(team[i]));
    }
}

/// An identifier is split into team and bundle identifier in exactly one way: it has a bundle
/// identifier when it reads `<team>.<bundle>`, the team being empty or a team identifier and the
/// bundle identifier not empty, and in no other case.
pub proof fn law_bundle_id_splits_off_the_team(app: AppName, bundle: Seq<char>)
    ensures
        app.bundle_id() == Some(bundle) <==> (exists|team: Seq<char>|
            {
                &&& (team.len() == 0 || crate::attribution::is_team(team))
                &&& bundle.len() > 0
                &&& app == #[trigger] reported(team, bundle)
            }),
{
    app.name.index_of_first_ensures('.');
    if app.bundle_id() == Some(bundle) {
        let dot = app.name.index_of_first('.')->0;
        let team = app.name.take(dot);
        assert(app.name =~= team + seq!['.'] + bundle);
        assert(app == reported(team, bundle));
    }
    if exists|team: Seq<char>|
        {
            &&& (team.len() == 0 || crate::attribution::is_team(team))
            &&& bundle.len() > 0
            &&& app == #[trigger] reported(team, bundle)
        } {
        let team = choose|team: Seq<char>|
            {
                &&& (team.len() == 0 || crate::attribution::is_team(team))
                &&& bundle.len() > 0
                &&& app == #[trigger] reported(team, bundle)
            };
        lemma_team_has_no_dot(team);
        lemma_first_dot(team, bundle);
    }
}

/// One rule written as a bundle identifier names an app under both of its reports, with its team
/// prefix and without it.
pub proof fn law_a_bundle_rule_covers_both_reports(team: Seq<char>, bundle: Seq<char>)
    requires
        crate::attribution::is_team(team),
        bundle.len() > 0,
    ensures
        reported(team, bundle).matches_rule(bundle),
        reported(Seq::empty(), bundle).matches_rule(bundle),
{
    law_bundle_id_splits_off_the_team(reported(team, bundle), bundle);
    law_bundle_id_splits_off_the_team(reported(Seq::empty(), bundle), bundle);
}

/// A rule may pin one report verbatim, and does not admit the other one then.
pub proof fn law_pinning_one_report_does_not_admit_the_other(team: Seq<char>, bundle: Seq<char>)
    requires
        crate::attribution::is_team(team),
        bundle.len() > 0,
    ensures
        reported(team, bundle).matches_rule(reported(team, bundle).name),
        reported(Seq::empty(), bundle).matches_rule(reported(Seq::empty(), bundle).name),
        !reported(team, bundle).matches_rule(reported(Seq::empty(), bundle).name),
        !reported(Seq::empty(), bundle).matches_rule(reported(team, bundle).name),
{
    law_bundle_id_splits_off_the_team(reported(team, bundle), bundle);
    law_bundle_id_splits_off_the_team(reported(Seq::empty(), bundle), bundle);
    assert(reported(team, bundle).name.len() == bundle.len() + 11);
    assert(reported(Seq::empty(), bundle).name.len() == bundle.len() + 1);
}

/// A rule names at most two strings of an app: its verbatim name and its bundle identifier. No
/// prefix, suffix or other part of either is ever enough.
pub proof fn law_app_matching_is_exact(app: AppName, wanted: Seq<char>)
    ensures
        app.matches_rule(wanted) <==> (wanted == app.name || (exists|team: Seq<char>|
            {
                &&& (team.len() == 0 || crate::attribution::is_team(team))
                &&& wanted.len() > 0
                &&& app == #[trigger] reported(team, wanted)
            })),
{
    law_bundle_id_splits_off_the_team(app, wanted);
}

/// A prefix that is no team identifier is not split off: an identifier that carries none is named
/// by its verbatim text alone, so no rule is widened.
pub proof fn law_a_prefix_that_is_no_team_is_not_split(
    prefix: Seq<char>,
    rest: Seq<char>,
    wanted: Seq<char>,
)
    requires
        prefix.len() > 0,
        !prefix.contains('.'),
        !crate::attribution::is_team(prefix),
    ensures
        reported(prefix, rest).bundle_id() is None,
        reported(prefix, rest).matches_rule(wanted) <==> wanted == reported(prefix, rest).name,
{
    lemma_first_dot(prefix, rest);
}

/// An identifier without any dot, or with nothing behind its first one, has no bundle identifier.
pub proof fn law_nothing_behind_the_dot_is_no_bundle_id(prefix: Seq<char>, source: Seq<char>)
    requires
        !prefix.contains('.'),
    ensures
        (AppName { name: prefix, source }).bundle_id() is None,
        reported(prefix, Seq::empty()).bundle_id() is None,
{
    prefix.index_of_first_ensures('.');
    lemma_first_dot(prefix, Seq::empty());
}

/// An app named by its path is matched by that path alone, whatever dots the path holds.
pub proof fn law_a_path_matches_only_itself(path: Seq<char>, wanted: Seq<char>)
    ensures
        (AppName { name: path, source: AppId::FROM_PATH@ }).bundle_id() is None,
        (AppName { name: path, source: AppId::FROM_PATH@ }).matches_rule(wanted) <==> wanted
            == path,
{
    reveal_strlit("id");
    reveal_strlit("path");
    assert(AppId::FROM_PATH@.len() != AppId::FROM_IDENTIFIER@.len());
}

/// An empty rule value names no app that has a name.
pub proof fn law_an_empty_rule_names_no_app(app: AppName)
    requires
        app.name.len() > 0,
    ensures
        !app.matches_rule(Seq::empty()),
{
}

/// Attribution never gives an app an empty name, and names it by its identifier whenever there is
/// one.
pub proof fn law_an_identified_app_has_a_name(source: FlowSource, lookup: Option<PathLookup>)
    ensures
        source.app(lookup) matches Some(app) ==> app.name.len() > 0,
        source.identifier() matches Some(name) ==> source.app(lookup) == Some(
            AppName { name, source: AppId::FROM_IDENTIFIER@ },
        ),
{
    if let Some(reply) = lookup {
        let written = if reply.written < reply.buffer@.len() {
            reply.buffer@.take(reply.written as int)
        } else {
            reply.buffer@
        };
        let bytes = crate::attribution::without_trailing_nuls(written);
        if bytes.len() > 0 && vstd::utf8::valid_utf8(bytes) {
            assert(vstd::utf8::decode_utf8(bytes).len() > 0);
        }
    }
}

/// The token of the application decides wherever there is one: what the process token holds then
/// changes neither the name nor the process id.
pub proof fn law_the_app_token_is_preferred(a: FlowSource, b: FlowSource, lookup: Option<PathLookup>)
    requires
        a.app_identifier == b.app_identifier,
        a.app_audit_token is Some,
        a.app_audit_token == b.app_audit_token,
    ensures
        a.audit_token() == b.audit_token(),
        a.path_query() == b.path_query(),
        a.app(lookup) == b.app(lookup),
        a.pid() == b.pid(),
{
}

/// A path is looked up by a whole token, and only for a flow that no identifier names.
pub proof fn law_only_a_whole_token_is_looked_up(source: FlowSource)
    ensures
        source.path_query() matches Some(token) ==> token.len()
            >= crate::attribution::AUDIT_TOKEN_LEN && source.identifier() is None,
{
}

/// The process id of a whole token is its sixth word: tokens that agree there agree on it, whatever
/// their other words hold, and it is never zero or negative.
pub proof fn law_the_pid_is_one_word_of_the_token(a: Seq<u8>, b: Seq<u8>)
    requires
        a.len() >= crate::attribution::AUDIT_TOKEN_LEN,
        b.len() >= crate::attribution::AUDIT_TOKEN_LEN,
        a.subrange(20, 24) == b.subrange(20, 24),
    ensures
        crate::attribution::pid_in_token(a) == crate::attribution::pid_in_token(b),
        crate::attribution::pid_in_token(a) matches Some(pid) ==> pid > 0,
{
    let word = a.subrange(20, 24);
    assert(word[0] == a[20] && word[1] == a[21] && word[2] == a[22] && word[3] == a[23]);
    assert(word[0] == b[20] && word[1] == b[21] && word[2] == b[22] && word[3] == b[23]);
}

/// The label of an app is its name, and behind it the name's source in round brackets.
pub proof fn law_the_label_shows_name_and_source(app: &AppId, label: String)
    requires
        call_ensures(AppId::log_label, (app,), label),
    ensures
        label@.len() == app.name@.len() + app.source@.len() + 2,
        label@.take(app.name@.len() as int) == app.name@,
        label@[app.name@.len() as int] == '(',
        label@.subrange(app.name@.len() as int + 1, label@.len() - 1) == app.source@,
        label@.last() == ')',
{
    reveal_strlit("(");
    reveal_strlit(")");
    assert(label@ == app.name@ + "("@ + app.source@ + ")"@);
    assert(label@.take(app.name@.len() as int) =~= app.name@);
    assert(label@.subrange(app.name@.len() as int + 1, label@.len() - 1) =~= app.source@);
}

/// What an app is called for short: an identifier `before.behind`, cut at its first dot, is called
/// `behind` when that is not empty and `before` is empty or a team; nothing else has a short name.
/// A rule names an app by its whole name or by the short one.
pub proof fn law_an_app_is_named_in_full_or_without_its_team(
    app: &AppId,
    before: Seq<char>,
    behind: Seq<char>,
    wanted: &str,
    id: Option<&str>,
    named: bool,
)
    requires
        app.name@ == before + seq!['.'] + behind,
        !before.contains('.'),
        call_ensures(AppId::bundle_id, (app,), id),
        call_ensures(AppId::matches_rule, (app, wanted), named),
    ensures
        id is Some <==> {
            &&& app.source@ == "id"@
            &&& behind.len() > 0
            &&& before.len() == 0 || ten_letters_and_digits(before)
        },
        id matches Some(short) ==> short@ == behind,
        named <==> wanted@ == app.name@ || (id is Some && wanted@ == behind),
{
    lemma_first_dot(before, behind);
    lemma_team(before);
}

/// An app whose name holds no dot has no short name: a rule names it by its whole name alone.
pub proof fn law_a_name_without_a_dot_is_used_whole(
    app: &AppId,
    wanted: &str,
    id: Option<&str>,
    named: bool,
)
    requires
        !app.name@.contains('.'),
        call_ensures(AppId::bundle_id, (app,), id),
        call_ensures(AppId::matches_rule, (app, wanted), named),
    ensures
        id is None,
        named <==> wanted@ == app.name@,
{
    app.name@.index_of_first_ensures('.');
}

/// An identifier that is not empty names the app, whatever it holds and whatever else is known of
/// the flow; no path is asked for then.
pub proof fn law_an_identifier_names_the_app(
    source: &FlowSource,
    lookup: Option<PathLookup>,
    name: String,
    app: Option<AppId>,
    query: Option<&Vec<u8>>,
)
    requires
        source.app_identifier == Some(name),
        name@.len() > 0,
        call_ensures(crate::attribution::identify, (source, lookup), app),
        call_ensures(crate::attribution::path_query, (source,), query),
    ensures
        app matches Some(id) && id.name@ == name@ && id.source@ == "id"@,
        query is None,
        source.app(lookup) == Some(AppName { name: name@, source: "id"@ }),
        source.path_query() is None,
{
    assert(source.app(lookup) == Some(AppName { name: name@, source: "id"@ }));
}

/// The token behind a flow, by what the flow carries: the application's where there is one, else
/// the process's, and in either case only one of at least 32 bytes.
pub proof fn law_the_token_is_the_apps_else_the_process(
    source: &FlowSource,
    token: Option<&Vec<u8>>,
)
    requires
        call_ensures(crate::attribution::source_audit_token, (source,), token),
    ensures
        source.app_audit_token matches Some(bytes) ==> {
            &&& token is Some <==> bytes@.len() >= 32
            &&& token matches Some(chosen) ==> chosen@ == bytes@
        },
        source.app_audit_token is None ==> (source.process_audit_token matches Some(bytes) ==> {
            &&& token is Some <==> bytes@.len() >= 32
            &&& token matches Some(chosen) ==> chosen@ == bytes@
        }),
        source.app_audit_token is None && source.process_audit_token is None ==> token is None,
{
}

/// A flow without an identifier is looked up by its token, and by nothing else.
pub proof fn law_a_flow_without_an_identifier_is_looked_up_by_its_token(
    source: &FlowSource,
    token: Option<&Vec<u8>>,
    query: Option<&Vec<u8>>,
)
    requires
        source.app_identifier matches Some(name) ==> name@.len() == 0,
        call_ensures(crate::attribution::source_audit_token, (source,), token),
        call_ensures(crate::attribution::path_query, (source,), query),
    ensures
        query is Some <==> token is Some,
        query matches Some(bytes) ==> bytes@ == token->0@,
{
}

/// A flow without an identifier is named by the path of its token: there is no name without a whole
/// token or without a reply, and with both of them the name is the path that the reply holds.
pub proof fn law_a_flow_without_an_identifier_is_named_by_its_path(
    source: &FlowSource,
    lookup: Option<PathLookup>,
    token: Option<&Vec<u8>>,
    bytes: &[u8],
    path: Option<String>,
    app: Option<AppId>,
)
    requires
        source.app_identifier matches Some(name) ==> name@.len() == 0,
        call_ensures(crate::attribution::source_audit_token, (source,), token),
        token is Some ==> bytes@ == token->0@,
        lookup is Some ==> call_ensures(
            crate::attribution::path_for_audit_token,
            (bytes, lookup->0),
            path,
        ),
        call_ensures(crate::attribution::identify, (source, lookup), app),
    ensures
        token is None || lookup is None ==> app is None,
        token is Some && lookup is Some ==> (app is Some <==> path is Some),
        token is Some && lookup is Some ==> (app matches Some(id) ==> id.name@ == path->0@
            && id.source@ == "path"@),
{
}

/// `n` zero bytes.
pub open spec fn zeros(n: nat) -> Seq<u8> {
    Seq::new(n, |i: int| 0u8)
}

/// The bytes that a lookup wrote into its buffer.
pub open spec fn bytes_written(lookup: PathLookup) -> Seq<u8> {
    if lookup.written < lookup.buffer@.len() {
        lookup.buffer@.take(lookup.written as int)
    } else {
        lookup.buffer@
    }
}

proof fn lemma_trailing_nuls_go(bytes: Seq<u8>, n: nat)
    requires
        bytes.len() > 0 ==> bytes.last() != 0,
    ensures
        crate::attribution::without_trailing_nuls(bytes + zeros(n)) == bytes,
    decreases n,
{
    if n > 0 {
        let whole = bytes + zeros(n);
        assert(whole.drop_last() =~= bytes + zeros((n - 1) as nat));
        assert(whole.last() == 0);
        lemma_trailing_nuls_go(bytes, (n - 1) as nat);
    } else {
        assert(bytes + zeros(n) =~= bytes);
    }
}

proof fn lemma_only_trailing_nuls_go(bytes: Seq<u8>) -> (n: nat)
    ensures
        bytes == crate::attribution::without_trailing_nuls(bytes) + zeros(n),
        crate::attribution::without_trailing_nuls(bytes).len() > 0
            ==> crate::attribution::without_trailing_nuls(bytes).last() != 0,
    decreases bytes.len(),
{
    let kept = crate::attribution::without_trailing_nuls(bytes);
    if bytes.len() > 0 && bytes.last() == 0 {
        let m = lemma_only_trailing_nuls_go(bytes.drop_last());
        assert(bytes =~= bytes.drop_last().push(0));
        assert(kept + zeros(m + 1) =~= (kept + zeros(m)).push(0));
        m + 1
    } else {
        assert(bytes =~= kept + zeros(0));
        0
    }
}

/// A lookup gives a path exactly when it was made with a whole token, wrote something, and wrote
/// the UTF-8 form of a text, whose last byte is not zero, with nothing but zero bytes behind it.
/// That text is the path.
pub proof fn law_a_path_is_the_text_that_the_lookup_wrote(
    token: &[u8],
    lookup: PathLookup,
    path: Option<String>,
    text: Seq<char>,
)
    requires
        call_ensures(crate::attribution::path_for_audit_token, (token, lookup), path),
    ensures
        path is Some && path->0@ == text <==> {
            &&& token@.len() >= 32
            &&& lookup.written > 0
            &&& text.len() > 0
            &&& vstd::utf8::encode_utf8(text).last() != 0
            &&& exists|n: nat|
                bytes_written(lookup) == vstd::utf8::encode_utf8(text) + #[trigger] zeros(n)
        },
{
    let written = bytes_written(lookup);
    let kept = crate::attribution::without_trailing_nuls(written);
    assert(token@.len() >= 32 ==> crate::text::opt_text(path) == lookup.path());
    vstd::utf8::encode_utf8_decode_utf8(text);
    vstd::utf8::encode_utf8_valid_utf8(text);
    if path is Some && path->0@ == text {
        let n = lemma_only_trailing_nuls_go(written);
        vstd::utf8::decode_utf8_encode_utf8(kept);
        assert(vstd::utf8::encode_utf8(text) == kept);
        assert(written == vstd::utf8::encode_utf8(text) + zeros(n));
        if text.len() == 0 {
            assert(vstd::utf8::encode_utf8(text).len() == 0);
        }
    }
    if token@.len() >= 32 && lookup.written > 0 && text.len() > 0
        && vstd::utf8::encode_utf8(text).last() != 0 && exists|n: nat|
        written == vstd::utf8::encode_utf8(text) + #[trigger] zeros(n) {
        let n = choose|n: nat| written == vstd::utf8::encode_utf8(text) + #[trigger] zeros(n);
        lemma_trailing_nuls_go(vstd::utf8::encode_utf8(text), n);
        assert(vstd::utf8::encode_utf8(text).len() > 0) by {
            vstd::utf8::encode_utf8_first_scalar(text);
        }
        assert(lookup.path() == Some(text));
    }
}

/// A token has a process id exactly when it is whole and its bytes 20 to 23 are a positive signed
/// number, the lowest byte first. That number is the id.
pub proof fn law_the_pid_is_spelled_lowest_byte_first(token: &[u8], pid: Option<i32>, p: i32)
    requires
        call_ensures(crate::attribution::pid_from_audit_token, (token,), pid),
    ensures
        pid == Some(p) <==> {
            &&& token@.len() >= 32
            &&& p > 0
            &&& p == token@[20] + 0x100 * token@[21] + 0x1_0000 * token@[22] + 0x100_0000
                * token@[23]
        },
{
}

/// The process id behind a flow is the one in its token, and there is none without a whole token.
pub proof fn law_the_pid_of_a_flow_is_in_its_token(
    source: &FlowSource,
    token: Option<&Vec<u8>>,
    bytes: &[u8],
    in_token: Option<i32>,
    pid: Option<i32>,
)
    requires
        call_ensures(crate::attribution::source_audit_token, (source,), token),
        token is Some ==> bytes@ == token->0@,
        call_ensures(crate::attribution::pid_from_audit_token, (bytes,), in_token),
        call_ensures(crate::attribution::pid_for, (source,), pid),
    ensures
        pid == if token is Some {
            in_token
        } else {
            None
        },
{
}

} // verus!
