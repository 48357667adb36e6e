//! Checks made on submitted definitions before they are used: buzzer identifiers and URLs.

use vstd::prelude::*;

use crate::error::AppError;
use vstd::string::*;

use crate::error::joined3;
use crate::game::TeamColor;
use crate::input::{
    LegacySongInput,
    CreateGameRequest, CreateGameWithQuestionsSequenceRequest, LegacyPlaylistInput, QuestionInput,
    QuestionsSequenceInput, TeamInput,
};
use crate::text::{decimal_digits, decimal_text};

verus! {

/// A failed check: a machine-readable code and an optional human-readable message.
#[derive(Debug)]
pub struct ValidationError {
    /// Machine-readable code of the check that failed.
    pub code: String,
    /// Optional explanation.
    pub message: Option<String>,
}

/// A failed check on one field, located by its path (such as `questions[0].url`).
#[derive(Debug)]
pub struct FieldIssue {
    /// Path of the field.
    pub path: String,
    /// The failed check.
    pub error: ValidationError,
}

/// All failed checks of a submitted value, in field order.
#[derive(Debug)]
pub struct ValidationErrors {
    /// The failed checks.
    pub issues: Vec<FieldIssue>,
}

/// Mathematical view of a [`FieldIssue`].
pub struct IssueView {
    pub path: Seq<char>,
    pub code: Seq<char>,
    pub message: Option<Seq<char>>,
}

/// View of an optional message.
pub open spec fn message_view(m: Option<String>) -> Option<Seq<char>> {
    match m {
        Some(s) => Some(s@),
        None => None,
    }
}

impl View for FieldIssue {
    type V = IssueView;

    open spec fn view(&self) -> IssueView {
        IssueView { path: self.path@, code: self.error.code@, message: message_view(self.error.message) }
    }
}

impl ValidationErrors {
    /// The failed checks, viewed.
    pub open spec fn issues_view(&self) -> Seq<IssueView> {
        issue_views(self.issues@)
    }

    /// Text listing the failed checks, one per line, as `path: message` (or `path: code`
    /// when there is no message).
    pub fn describe(&self) -> (s: String)
        ensures
            s@ == issues_text(self.issues_view()),
    {
        let mut out = String::new();
        let mut i: usize = 0;
        while i < self.issues.len()
            invariant
                i <= self.issues@.len(),
                out@ == issues_text(issue_views(self.issues@.take(i as int))),
            decreases self.issues@.len() - i,
        {
            let ghost before = out@;
            if i > 0 {
                out.append("\n");
            }
            let issue = &self.issues[i];
            out.append(issue.path.as_str());
            out.append(": ");
            match &issue.error.message {
                Some(m) => out.append(m.as_str()),
                None => out.append(issue.error.code.as_str()),
            }
            proof {
                let views = issue_views(self.issues@.take(i + 1));
                assert(views.drop_last() =~= issue_views(self.issues@.take(i as int)));
                assert(views.last() == self.issues@[i as int]@);
                assert(out@ =~= issues_text(views));
            }
            i = i + 1;
        }
        assert(self.issues@.take(self.issues@.len() as int) =~= self.issues@);
        out
    }
}

/// Text of one failed check: `path: message`, or `path: code` without a message.
pub open spec fn issue_line(i: IssueView) -> Seq<char> {
    i.path + ": "@ + match i.message {
        Some(m) => m,
        None => i.code,
    }
}

/// Lines of the failed checks, separated by line breaks.
pub open spec fn issues_text(issues: Seq<IssueView>) -> Seq<char>
    decreases issues.len(),
{
    if issues.len() == 0 {
        Seq::empty()
    } else if issues.len() == 1 {
        issue_line(issues[0])
    } else {
        issues_text(issues.drop_last()) + "\n"@ + issue_line(issues.last())
    }
}

/// Views of a list of issues.
pub open spec fn issue_views(v: Seq<FieldIssue>) -> Seq<IssueView> {
    v.map_values(|i: FieldIssue| i@)
}

/// `c` is a lowercase hexadecimal digit (`0-9`, `a-f`): an ASCII hex digit that is not an
/// uppercase letter.
pub open spec fn is_lower_hex(c: char) -> bool {
    ('0' <= c && c <= '9') || ('a' <= c && c <= 'f')
}

/// Length in bytes of the UTF-8 encoding of a text, as `str::len` returns it.
pub open spec fn byte_len(text: Seq<char>) -> usize {
    vstd::utf8::encode_utf8(text).len() as usize
}

/// Buzzer identifiers are exactly 12 bytes long.
pub open spec fn buzzer_id_length_ok(id: Seq<char>) -> bool {
    byte_len(id) == 12
}

/// Every character of a buzzer identifier is a lowercase hexadecimal digit.
pub open spec fn buzzer_id_format_ok(id: Seq<char>) -> bool {
    forall|i: int| 0 <= i < id.len() ==> is_lower_hex(#[trigger] id[i])
}

/// Message of the length check, for an identifier of `got` bytes.
pub open spec fn buzzer_id_length_message(got: nat) -> Seq<char> {
    "Buzzer ID must be exactly 12 characters (got "@ + decimal_digits(got) + ")"@
}

/// Failed check of a buzzer identifier, as its code and message; `None` when it is valid.
pub open spec fn buzzer_id_problem(id: Seq<char>) -> Option<(Seq<char>, Seq<char>)> {
    if !buzzer_id_length_ok(id) {
        Some(("buzzer_id_length"@, buzzer_id_length_message(byte_len(id) as nat)))
    } else if !buzzer_id_format_ok(id) {
        Some(("buzzer_id_format"@, "Buzzer ID must contain only lowercase hexadecimal characters"@))
    } else {
        None
    }
}

/// Check that a buzzer identifier is exactly 12 lowercase hexadecimal characters.
/// The length is checked first, in bytes.
pub fn validate_buzzer_id(id: &str) -> (r: Result<(), ValidationError>)
    ensures
        match buzzer_id_problem(id@) {
            Some(p) => (r matches Err(e) && e.code@ == p.0 && message_view(e.message) == Some(p.1)),
            None => r is Ok,
        },
{
    let len = id.len();
    if len != 12 {
        return Err(ValidationError {
            code: String::from_str("buzzer_id_length"),
            message: Some(joined3("Buzzer ID must be exactly 12 characters (got ", decimal_text(len).as_str(), ")")),
        });
    }
    let n = id.unicode_len();
    let mut i: usize = 0;
    while i < n
        invariant
            n == id@.len(),
            byte_len(id@) == 12,
            i <= n,
            forall|j: int| 0 <= j < i ==> is_lower_hex(#[trigger] id@[j]),
        decreases n - i,
    {
        let c = id.get_char(i);
        if !(('0' <= c && c <= '9') || ('a' <= c && c <= 'f')) {
            return Err(ValidationError {
                code: String::from_str("buzzer_id_format"),
                message: Some(String::from_str("Buzzer ID must contain only lowercase hexadecimal characters")),
            });
        }
        i = i + 1;
    }
    Ok(())
}

/// Whether `validator` accepts a text as a URL (its `ValidateUrl` check, which parses the
/// text with the `url` crate).
pub uninterp spec fn validator_accepts_url(text: Seq<char>) -> bool;

/// `validator::ValidateUrl::validate_url` on a text: whether it parses as a URL. The result is
/// named by `validator_accepts_url`; what parses is not stated here.
#[verifier::external_body]
fn url_is_valid(text: &str) -> (b: bool)
    ensures
        b == validator_accepts_url(text@),
{
    validator::ValidateUrl::validate_url(text)
}

/// The issue raised for an invalid URL field.
pub open spec fn url_issue() -> IssueView {
    IssueView { path: "url"@, code: "url"@, message: None }
}

/// Failed checks of a submitted question: its URL, when present, must be a valid URL.
pub open spec fn question_issues(q: QuestionInput) -> Seq<IssueView> {
    let ok = match q {
        QuestionInput::BlindTest(b) => validator_accepts_url(b.url@),
        QuestionInput::MultipleChoice(m) => match m.url {
            Some(u) => validator_accepts_url(u@),
            None => true,
        },
        QuestionInput::Open(o) => match o.url {
            Some(u) => validator_accepts_url(u@),
            None => true,
        },
    };
    if ok {
        seq![]
    } else {
        seq![url_issue()]
    }
}

/// `issue` placed under the item `index` of the list field `prefix`.
pub open spec fn nested_issue(prefix: Seq<char>, index: nat, issue: IssueView) -> IssueView {
    IssueView {
        path: prefix + "["@ + decimal_digits(index) + "]."@ + issue.path,
        code: issue.code,
        message: issue.message,
    }
}

/// Every issue of `s` placed under the item `index` of the list field `prefix`.
pub open spec fn nest_all(prefix: Seq<char>, index: nat, s: Seq<IssueView>) -> Seq<IssueView> {
    s.map_values(|iv: IssueView| nested_issue(prefix, index, iv))
}

/// Issues of the items of the list field `prefix`, each placed under its item.
pub open spec fn nested_issues(prefix: Seq<char>, per_item: Seq<Seq<IssueView>>) -> Seq<IssueView>
    decreases per_item.len(),
{
    if per_item.len() == 0 {
        seq![]
    } else {
        let index = (per_item.len() - 1) as nat;
        nested_issues(prefix, per_item.drop_last()) + nest_all(prefix, index, per_item.last())
    }
}

/// Move the issues of item `index` of the list field `prefix` onto `out`.
fn push_nested(out: &mut Vec<FieldIssue>, prefix: &str, index: usize, inner: Vec<FieldIssue>)
    ensures
        issue_views(final(out)@) == issue_views(old(out)@) + nest_all(
            prefix@,
            index as nat,
            issue_views(inner@),
        ),
{
    let ghost start = issue_views(out@);
    let ghost added = nest_all(prefix@, index as nat, issue_views(inner@));
    let n = inner.len();
    let mut rest = inner;
    let ghost all = rest@;
    let index_text = decimal_text(index);
    let mut k: usize = 0;
    while k < n
        invariant
            n == all.len(),
            k <= n,
            rest@ == all.skip(k as int),
            index_text@ == decimal_digits(index as nat),
            added == nest_all(prefix@, index as nat, issue_views(all)),
            issue_views(out@) == start + added.take(k as int),
        decreases n - k,
    {
        let issue = rest.remove(0);
        assert(issue == all[k as int]);
        let mut path = String::from_str(prefix);
        path.append("[");
        path.append(index_text.as_str());
        path.append("].");
        path.append(issue.path.as_str());
        let moved = FieldIssue { path, error: issue.error };
        let ghost before = out@;
        out.push(moved);
        assert(issue_views(out@) =~= start + added.take(k + 1)) by {
            assert(out@ == before.push(moved));
            assert(issue_views(out@) =~= issue_views(before).push(moved@));
            assert(added.take(k + 1) =~= added.take(k as int).push(added[k as int]));
            assert(added[k as int] == nested_issue(prefix@, index as nat, issue@));
            assert(moved@ == nested_issue(prefix@, index as nat, issue@));
        }
        assert(rest@ =~= all.skip(k + 1));
        k = k + 1;
    }
    assert(added.take(n as int) =~= added);
}

impl QuestionInput {
    /// Check the question: its URL, when present, must be a valid URL.
    pub fn validate(&self) -> (r: Result<(), ValidationErrors>)
        ensures
            match r {
                Ok(()) => question_issues(*self).len() == 0,
                Err(e) => e.issues_view() == question_issues(*self) && question_issues(*self).len() > 0,
            },
    {
        let ok = match self {
            QuestionInput::BlindTest(b) => url_is_valid(b.url.as_str()),
            QuestionInput::MultipleChoice(m) => match &m.url {
                Some(u) => url_is_valid(u.as_str()),
                None => true,
            },
            QuestionInput::Open(o) => match &o.url {
                Some(u) => url_is_valid(u.as_str()),
                None => true,
            },
        };
        if ok {
            Ok(())
        } else {
            let mut issues = Vec::new();
            issues.push(FieldIssue {
                path: String::from_str("url"),
                error: ValidationError { code: String::from_str("url"), message: None },
            });
            let e = ValidationErrors { issues };
            assert(e.issues_view() =~= question_issues(*self));
            Err(e)
        }
    }
}

/// Issues of each question, in order.
pub open spec fn question_issue_lists(qs: Seq<QuestionInput>) -> Seq<Seq<IssueView>> {
    qs.map_values(|q: QuestionInput| question_issues(q))
}

/// Failed checks of a submitted questions sequence: the URL checks of its questions.
pub open spec fn sequence_issues(input: QuestionsSequenceInput) -> Seq<IssueView> {
    nested_issues("questions"@, question_issue_lists(input.questions@))
}

impl QuestionsSequenceInput {
    /// Check every question of the sequence, collecting the failed checks under
    /// `questions[i]`.
    pub fn validate(&self) -> (r: Result<(), ValidationErrors>)
        ensures
            match r {
                Ok(()) => sequence_issues(*self).len() == 0,
                Err(e) => e.issues_view() == sequence_issues(*self) && sequence_issues(*self).len() > 0,
            },
    {
        let ghost lists = question_issue_lists(self.questions@);
        let mut out: Vec<FieldIssue> = Vec::new();
        let mut i: usize = 0;
        while i < self.questions.len()
            invariant
                i <= self.questions.len(),
                lists == question_issue_lists(self.questions@),
                issue_views(out@) == nested_issues("questions"@, lists.take(i as int)),
            decreases self.questions.len() - i,
        {
            assert(lists.take(i + 1).drop_last() =~= lists.take(i as int));
            let ghost before = issue_views(out@);
            match self.questions[i].validate() {
                Ok(()) => {
                    assert(lists[i as int].len() == 0);
                    assert(nest_all("questions"@, i as nat, lists[i as int]) =~= Seq::<IssueView>::empty());
                    assert(before + Seq::<IssueView>::empty() =~= before);
                },
                Err(e) => {
                    push_nested(&mut out, "questions", i, e.issues);
                },
            }
            i = i + 1;
        }
        assert(lists.take(self.questions.len() as int) =~= lists);
        if out.len() == 0 {
            Ok(())
        } else {
            Err(ValidationErrors { issues: out })
        }
    }
}

/// Failed checks of a song in the older playlist format: its URL must be valid.
pub open spec fn song_issues(song: LegacySongInput) -> Seq<IssueView> {
    if validator_accepts_url(song.url@) {
        seq![]
    } else {
        seq![url_issue()]
    }
}

impl LegacySongInput {
    /// Check the song: its URL must be a valid URL.
    pub fn validate(&self) -> (r: Result<(), ValidationErrors>)
        ensures
            match r {
                Ok(()) => song_issues(*self).len() == 0,
                Err(e) => e.issues_view() == song_issues(*self) && song_issues(*self).len() > 0,
            },
    {
        if url_is_valid(self.url.as_str()) {
            Ok(())
        } else {
            let mut issues = Vec::new();
            issues.push(FieldIssue {
                path: String::from_str("url"),
                error: ValidationError { code: String::from_str("url"), message: None },
            });
            let e = ValidationErrors { issues };
            assert(e.issues_view() =~= song_issues(*self));
            Err(e)
        }
    }
}

/// Issues of each song, in order.
pub open spec fn song_issue_lists(songs: Seq<LegacySongInput>) -> Seq<Seq<IssueView>> {
    songs.map_values(|s: LegacySongInput| song_issues(s))
}

/// Failed checks of a playlist in the older format: the URL checks of its songs.
pub open spec fn playlist_issues(input: LegacyPlaylistInput) -> Seq<IssueView> {
    nested_issues("songs"@, song_issue_lists(input.songs@))
}

impl LegacyPlaylistInput {
    /// Check every song of the playlist, collecting the failed checks under `songs[i]`.
    pub fn validate(&self) -> (r: Result<(), ValidationErrors>)
        ensures
            match r {
                Ok(()) => playlist_issues(*self).len() == 0,
                Err(e) => e.issues_view() == playlist_issues(*self) && playlist_issues(*self).len() > 0,
            },
    {
        let ghost lists = song_issue_lists(self.songs@);
        let mut out: Vec<FieldIssue> = Vec::new();
        let mut i: usize = 0;
        while i < self.songs.len()
            invariant
                i <= self.songs.len(),
                lists == song_issue_lists(self.songs@),
                issue_views(out@) == nested_issues("songs"@, lists.take(i as int)),
            decreases self.songs.len() - i,
        {
            assert(lists.take(i + 1).drop_last() =~= lists.take(i as int));
            let ghost before = issue_views(out@);
            match self.songs[i].validate() {
                Ok(()) => {
                    assert(nest_all("songs"@, i as nat, lists[i as int]) =~= Seq::<IssueView>::empty());
                    assert(before + Seq::<IssueView>::empty() =~= before);
                },
                Err(e) => {
                    push_nested(&mut out, "songs", i, e.issues);
                },
            }
            i = i + 1;
        }
        assert(lists.take(self.songs.len() as int) =~= lists);
        if out.len() == 0 {
            Ok(())
        } else {
            Err(ValidationErrors { issues: out })
        }
    }
}

/// Failed checks of a submitted team: its buzzer identifier, when one is set, must be valid.
/// (The range of its color components is checked where colors are read as numbers.)
pub open spec fn team_issues(team: TeamInput) -> Seq<IssueView> {
    let buzzer = match team.buzzer_id {
        Some(Some(id)) => match buzzer_id_problem(id@) {
            Some(p) => seq![IssueView { path: "buzzer_id"@, code: p.0, message: Some(p.1) }],
            None => seq![],
        },
        _ => seq![],
    };
    match team.color {
        Some(c) => buzzer + color_issues(c),
        None => buzzer,
    }
}

/// The `f32` with bits `b` passes a range check from 0.0 to 1.0: it is neither below 0.0 nor
/// above 1.0. A NaN is neither, and `-0.0` is not below 0.0.
pub open spec fn unit_range_ok(b: u32) -> bool {
    b % 0x8000_0000 > 0x7f80_0000 || b <= 0x3f80_0000 || b == 0x8000_0000
}

/// Range issue of a color component.
pub open spec fn range_issue(path: Seq<char>) -> IssueView {
    IssueView { path, code: "range"@, message: None }
}

/// Failed checks of a color: saturation and value must lie between 0.0 and 1.0.
pub open spec fn color_issues(c: TeamColor) -> Seq<IssueView> {
    (if unit_range_ok(c.s) {
        seq![]
    } else {
        seq![range_issue("color.s"@)]
    }) + (if unit_range_ok(c.v) {
        seq![]
    } else {
        seq![range_issue("color.v"@)]
    })
}

/// Executable form of [`unit_range_ok`].
fn unit_range_ok_bits(b: u32) -> (ok: bool)
    ensures
        ok == unit_range_ok(b),
{
    b % 0x8000_0000 > 0x7f80_0000 || b <= 0x3f80_0000 || b == 0x8000_0000
}

/// Range failure of a color component.
fn range_failure(path: &str) -> (i: FieldIssue)
    ensures
        i@ == range_issue(path@),
{
    FieldIssue { path: String::from_str(path), error: ValidationError { code: String::from_str("range"), message: None } }
}

impl TeamInput {
    /// Check the team: a buzzer identifier, when one is set, must be 12 lowercase hexadecimal
    /// characters; a color, when one is set, must have its saturation and value between 0.0
    /// and 1.0.
    pub fn validate(&self) -> (r: Result<(), ValidationErrors>)
        ensures
            match r {
                Ok(()) => team_issues(*self).len() == 0,
                Err(e) => e.issues_view() == team_issues(*self) && team_issues(*self).len() > 0,
            },
    {
        let mut issues: Vec<FieldIssue> = Vec::new();
        if let Some(Some(id)) = &self.buzzer_id {
            if let Err(error) = validate_buzzer_id(id.as_str()) {
                issues.push(FieldIssue { path: String::from_str("buzzer_id"), error });
            }
        }
        let ghost buzzer_part = issue_views(issues@);
        if let Some(c) = &self.color {
            if !unit_range_ok_bits(c.s) {
                issues.push(range_failure("color.s"));
            }
            if !unit_range_ok_bits(c.v) {
                issues.push(range_failure("color.v"));
            }
            assert(issue_views(issues@) =~= buzzer_part + color_issues(*c));
        }
        assert(issue_views(issues@) =~= team_issues(*self));
        if issues.len() == 0 {
            Ok(())
        } else {
            Err(ValidationErrors { issues })
        }
    }
}

/// Issues of each team, in order.
pub open spec fn team_issue_lists(teams: Seq<TeamInput>) -> Seq<Seq<IssueView>> {
    teams.map_values(|t: TeamInput| team_issues(t))
}

/// Failed checks of a list of teams, each under `teams[i]`.
pub open spec fn teams_issues(teams: Seq<TeamInput>) -> Seq<IssueView> {
    nested_issues("teams"@, team_issue_lists(teams))
}

/// Append the failed checks of `teams` to `out`, each under `teams[i]`.
fn collect_team_issues(out: &mut Vec<FieldIssue>, teams: &Vec<TeamInput>)
    ensures
        issue_views(final(out)@) == issue_views(old(out)@) + teams_issues(teams@),
{
    let ghost start = issue_views(out@);
    let ghost lists = team_issue_lists(teams@);
    let mut i: usize = 0;
    while i < teams.len()
        invariant
            i <= teams.len(),
            lists == team_issue_lists(teams@),
            issue_views(out@) == start + nested_issues("teams"@, lists.take(i as int)),
        decreases teams.len() - i,
    {
        assert(lists.take(i + 1).drop_last() =~= lists.take(i as int));
        let ghost before = issue_views(out@);
        match teams[i].validate() {
            Ok(()) => {
                assert(nest_all("teams"@, i as nat, lists[i as int]) =~= Seq::<IssueView>::empty());
                assert(before + Seq::<IssueView>::empty() =~= before);
                assert(nested_issues("teams"@, lists.take(i + 1)) =~= nested_issues("teams"@, lists.take(i as int)) + Seq::<IssueView>::empty());
            },
            Err(e) => {
                push_nested(out, "teams", i, e.issues);
                assert(issue_views(out@) =~= start + nested_issues("teams"@, lists.take(i + 1)));
            },
        }
        i = i + 1;
    }
    assert(lists.take(teams.len() as int) =~= lists);
}

impl CreateGameRequest {
    /// Check every team of the request, collecting the failed checks under `teams[i]`.
    pub fn validate(&self) -> (r: Result<(), ValidationErrors>)
        ensures
            match r {
                Ok(()) => teams_issues(self.teams@).len() == 0,
                Err(e) => e.issues_view() == teams_issues(self.teams@) && teams_issues(self.teams@).len() > 0,
            },
    {
        let mut out: Vec<FieldIssue> = Vec::new();
        collect_team_issues(&mut out, &self.teams);
        assert(issue_views(out@) =~= teams_issues(self.teams@));
        if out.len() == 0 {
            Ok(())
        } else {
            Err(ValidationErrors { issues: out })
        }
    }
}

/// `issue` placed under the struct field `prefix`.
pub open spec fn prefixed_issue(prefix: Seq<char>, issue: IssueView) -> IssueView {
    IssueView { path: prefix + "."@ + issue.path, code: issue.code, message: issue.message }
}

/// Every issue of `s` placed under the struct field `prefix`.
pub open spec fn prefix_all(prefix: Seq<char>, s: Seq<IssueView>) -> Seq<IssueView> {
    s.map_values(|iv: IssueView| prefixed_issue(prefix, iv))
}

/// Move `inner` onto `out`, each issue placed under the struct field `prefix`.
fn push_prefixed(out: &mut Vec<FieldIssue>, prefix: &str, inner: Vec<FieldIssue>)
    ensures
        issue_views(final(out)@) == issue_views(old(out)@) + prefix_all(prefix@, issue_views(inner@)),
{
    let ghost start = issue_views(out@);
    let ghost added = prefix_all(prefix@, issue_views(inner@));
    let n = inner.len();
    let mut rest = inner;
    let ghost all = rest@;
    let mut k: usize = 0;
    while k < n
        invariant
            n == all.len(),
            k <= n,
            rest@ == all.skip(k as int),
            added == prefix_all(prefix@, issue_views(all)),
            issue_views(out@) == start + added.take(k as int),
        decreases n - k,
    {
        let issue = rest.remove(0);
        assert(issue == all[k as int]);
        let mut path = String::from_str(prefix);
        path.append(".");
        path.append(issue.path.as_str());
        let moved = FieldIssue { path, error: issue.error };
        let ghost before = out@;
        out.push(moved);
        assert(issue_views(out@) =~= start + added.take(k + 1)) by {
            assert(issue_views(out@) =~= issue_views(before).push(moved@));
            assert(added.take(k + 1) =~= added.take(k as int).push(added[k as int]));
            assert(added[k as int] == prefixed_issue(prefix@, issue@));
        }
        assert(rest@ =~= all.skip(k + 1));
        k = k + 1;
    }
    assert(added.take(n as int) =~= added);
}

/// Failed checks of a request creating a game with a new questions sequence: those of its
/// teams, then those of its sequence under `questions_sequence`.
pub open spec fn create_with_sequence_issues(r: CreateGameWithQuestionsSequenceRequest) -> Seq<IssueView> {
    teams_issues(r.teams@) + prefix_all("questions_sequence"@, sequence_issues(r.questions_sequence))
}

impl CreateGameWithQuestionsSequenceRequest {
    /// Check the teams and the questions sequence of the request.
    pub fn validate(&self) -> (r: Result<(), ValidationErrors>)
        ensures
            match r {
                Ok(()) => create_with_sequence_issues(*self).len() == 0,
                Err(e) => e.issues_view() == create_with_sequence_issues(*self)
                    && create_with_sequence_issues(*self).len() > 0,
            },
    {
        let mut out: Vec<FieldIssue> = Vec::new();
        collect_team_issues(&mut out, &self.teams);
        let ghost after_teams = issue_views(out@);
        match self.questions_sequence.validate() {
            Ok(()) => {
                assert(prefix_all("questions_sequence"@, sequence_issues(self.questions_sequence)) =~= Seq::<IssueView>::empty());
            },
            Err(e) => {
                push_prefixed(&mut out, "questions_sequence", e.issues);
            },
        }
        assert(issue_views(out@) =~= create_with_sequence_issues(*self));
        if out.len() == 0 {
            Ok(())
        } else {
            Err(ValidationErrors { issues: out })
        }
    }
}

/// The error holds a `String` built at run time; the conversion states its result in its
/// own `ensures`.
impl vstd::std_specs::convert::FromSpecImpl<ValidationErrors> for AppError {
    open spec fn obeys_from_spec() -> bool {
        false
    }

    open spec fn from_spec(v: ValidationErrors) -> AppError {
        arbitrary()
    }
}

impl From<ValidationErrors> for AppError {
    /// A bad request listing the failed checks.
    fn from(err: ValidationErrors) -> (e: AppError)
        ensures
            e matches AppError::BadRequest(m) && m@ == "validation failed: "@ + issues_text(err.issues_view()),
    {
        let text = err.describe();
        AppError::BadRequest(crate::error::joined("validation failed: ", text.as_str()))
    }
}
} // verus!
