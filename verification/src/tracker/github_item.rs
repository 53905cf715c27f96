//! The items of a GitHub project, and the issues that they are.
use vstd::prelude::*;

use crate::config::GitHubProjectTrackerConfig;
use crate::model::{BlockerView, Issue, IssueView};
use crate::text::{
    all_digits, behind_last_of, cat, chars_of, clone_opt, contains_char, decimal,
    decimal_reads_back, digit, digits_value, eq_ignore_case, find_last, is_digit, lowercase,
    opt_text, parse_unsigned, parsed_unsigned, places_of, same_ignoring_case, same_text,
    signed_decimal, signed_text, text_of, texts, to_lowercase, trim, trimmed, unsigned_digits,
    unsigned_text,
};
use crate::time::{instant_of, parse_rfc3339, Timestamp};
use crate::workspace::{sanitize_workspace_key, workspace_key};

verus! {

/// A number in a field: as it is written, and as it is rounded to a whole number.
#[derive(Debug, Clone)]
pub struct FieldNumber {
    pub text: String,
    pub rounded: i64,
}

/// The value of a field of an item.
#[derive(Debug, Clone)]
pub enum ProjectFieldValue {
    ProjectV2ItemFieldSingleSelectValue { name: Option<String> },
    ProjectV2ItemFieldTextValue { text: Option<String> },
    ProjectV2ItemFieldNumberValue { number: Option<FieldNumber> },
}

/// The repository of an issue.
#[derive(Debug, Clone)]
pub struct ProjectIssueRepository {
    pub name_with_owner: String,
}

/// A label.
#[derive(Debug, Clone)]
pub struct ProjectIssueLabelNode {
    pub name: String,
}

/// The labels of an issue.
#[derive(Debug, Clone)]
pub struct ProjectIssueLabels {
    pub nodes: Vec<ProjectIssueLabelNode>,
}

/// An issue of a repository.
#[derive(Debug, Clone)]
pub struct ProjectIssueContent {
    pub number: i64,
    pub title: String,
    pub body: Option<String>,
    pub url: String,
    pub state: String,
    pub closed: bool,
    pub created_at: String,
    pub updated_at: String,
    pub repository: ProjectIssueRepository,
    pub labels: ProjectIssueLabels,
}

/// A draft, which only the project knows.
#[derive(Debug, Clone)]
pub struct ProjectDraftIssueContent {
    pub title: String,
    pub body: Option<String>,
    pub created_at: String,
    pub updated_at: String,
}

/// What an item of a project holds.
#[derive(Debug, Clone)]
pub enum ProjectItemContent {
    Issue(ProjectIssueContent),
    DraftIssue(ProjectDraftIssueContent),
    PullRequest,
    Unknown,
}

/// An item of a project.
#[derive(Debug, Clone)]
pub struct ProjectItemNode {
    pub id: String,
    pub created_at: String,
    pub updated_at: String,
    pub status: Option<ProjectFieldValue>,
    pub priority: Option<ProjectFieldValue>,
    pub content: Option<ProjectItemContent>,
}

// ---------------------------------------------------------------------------
// Priorities
// ---------------------------------------------------------------------------

/// The digits at the start of a text.
pub open spec fn leading_digits(s: Seq<char>) -> Seq<char>
    decreases s.len(),
{
    if s.len() > 0 && digit(s[0]) {
        seq![s[0]] + leading_digits(s.drop_first())
    } else {
        Seq::empty()
    }
}

/// The first run of digits in a text.
pub open spec fn first_digits(s: Seq<char>) -> Seq<char>
    decreases s.len(),
{
    if s.len() == 0 || digit(s[0]) {
        leading_digits(s)
    } else {
        first_digits(s.drop_first())
    }
}

/// The priority that a text in lower case names: its first number, or that of a word.
pub open spec fn named_priority(s: Seq<char>) -> Option<i64> {
    if first_digits(s).len() > 0 {
        if digits_value(first_digits(s)) <= i64::MAX {
            Some(digits_value(first_digits(s)) as i64)
        } else {
            None
        }
    } else if s == "critical"@ || s == "urgent"@ {
        Some(1)
    } else if s == "high"@ {
        Some(2)
    } else if s == "medium"@ {
        Some(3)
    } else if s == "low"@ {
        Some(4)
    } else {
        None
    }
}

proof fn leading_digits_are_digits(s: Seq<char>)
    ensures
        leading_digits(s).len() > 0 ==> all_digits(leading_digits(s)),
    decreases s.len(),
{
    if s.len() > 0 && digit(s[0]) {
        leading_digits_are_digits(s.drop_first());
        let rest = leading_digits(s.drop_first());
        assert forall|i: int| 0 <= i < leading_digits(s).len() implies digit(
            #[trigger] leading_digits(s)[i],
        ) by {
            if i > 0 {
                assert(leading_digits(s)[i] == rest[i - 1]);
                assert(rest.len() > 0);
                assert(digit(rest[i - 1]));
            }
        }
    }
}

proof fn first_digits_are_digits(s: Seq<char>)
    ensures
        first_digits(s).len() > 0 ==> all_digits(first_digits(s)),
    decreases s.len(),
{
    if s.len() == 0 || digit(s[0]) {
        leading_digits_are_digits(s);
    } else {
        first_digits_are_digits(s.drop_first());
    }
}

fn take_digits(s: &str) -> (r: String)
    ensures
        r@ == first_digits(s@),
{
    let v = chars_of(s);
    let mut i: usize = 0;
    assert(v@.skip(0) =~= v@);
    while i < v.len() && !is_digit(v[i])
        invariant
            i <= v@.len(),
            first_digits(v@.skip(i as int)) == first_digits(v@),
        decreases v@.len() - i,
    {
        assert(v@.skip(i as int).drop_first() =~= v@.skip(i + 1));
        i = i + 1;
    }
    let mut j: usize = i;
    assert(v@.subrange(i as int, i as int) + leading_digits(v@.skip(i as int)) =~= leading_digits(
        v@.skip(i as int),
    ));
    while j < v.len() && is_digit(v[j])
        invariant
            i <= j <= v@.len(),
            v@.subrange(i as int, j as int) + leading_digits(v@.skip(j as int)) == leading_digits(
                v@.skip(i as int),
            ),
        decreases v@.len() - j,
    {
        proof {
            let rest = v@.skip(j as int);
            assert(rest.drop_first() =~= v@.skip(j + 1));
            assert(v@.subrange(i as int, j + 1) =~= v@.subrange(i as int, j as int).push(v@[j as int]));
            assert(v@.subrange(i as int, j as int) + (seq![rest[0]] + leading_digits(v@.skip(j + 1)))
                =~= v@.subrange(i as int, j + 1) + leading_digits(v@.skip(j + 1)));
        }
        j = j + 1;
    }
    assert(leading_digits(v@.skip(j as int)) =~= Seq::<char>::empty());
    assert(v@.subrange(i as int, j as int) =~= leading_digits(v@.skip(i as int)));
    text_of(&v, i, j)
}

/// The priority that a text in lower case names.
pub fn priority_of(lowered: &str) -> (r: Option<i64>)
    ensures
        r == named_priority(lowered@),
{
    let digits = take_digits(lowered);
    if !digits.as_str().is_empty() {
        let n = parse_unsigned(digits.as_str(), 9223372036854775807);
        proof {
            first_digits_are_digits(lowered@);
            assert(digit(digits@[0]));
            assert(unsigned_digits(digits@) == digits@);
        }
        return match n {
            Some(n) => Some(n as i64),
            None => None,
        };
    }
    proof {
        reveal_strlit("critical");
        reveal_strlit("urgent");
        reveal_strlit("high");
        reveal_strlit("medium");
        reveal_strlit("low");
    }
    if same_text(lowered, "critical") || same_text(lowered, "urgent") {
        Some(1)
    } else if same_text(lowered, "high") {
        Some(2)
    } else if same_text(lowered, "medium") {
        Some(3)
    } else if same_text(lowered, "low") {
        Some(4)
    } else {
        None
    }
}

/// The priority that a text names, without regard to case and to space around it.
pub fn parse_priority_string(value: &str) -> (r: Option<i64>)
    ensures
        r == named_priority(lowercase(trimmed(value@))),
        vstd::utf8::is_ascii_chars(trimmed(value@)) ==> r == named_priority(
            crate::text::lower(trimmed(value@)),
        ),
{
    let bare = trim(value);
    let lowered = to_lowercase(bare.as_str());
    priority_of(lowered.as_str())
}

/// The state that a field names.
pub open spec fn field_state(v: ProjectFieldValue) -> Option<Seq<char>> {
    match v {
        ProjectFieldValue::ProjectV2ItemFieldSingleSelectValue { name } => opt_text(name),
        ProjectFieldValue::ProjectV2ItemFieldTextValue { text } => opt_text(text),
        ProjectFieldValue::ProjectV2ItemFieldNumberValue { number } => match number {
            Some(n) => Some(n.text@),
            None => None,
        },
    }
}

/// The priority that a text names, where there is one.
pub open spec fn opt_priority(s: Option<String>) -> Option<i64> {
    match s {
        Some(s) => named_priority(lowercase(trimmed(s@))),
        None => None,
    }
}

/// The priority that a field names.
pub open spec fn field_priority(v: ProjectFieldValue) -> Option<i64> {
    match v {
        ProjectFieldValue::ProjectV2ItemFieldSingleSelectValue { name } => opt_priority(name),
        ProjectFieldValue::ProjectV2ItemFieldTextValue { text } => opt_priority(text),
        ProjectFieldValue::ProjectV2ItemFieldNumberValue { number } => match number {
            Some(n) => Some(n.rounded),
            None => None,
        },
    }
}

fn parse_opt_priority(s: &Option<String>) -> (r: Option<i64>)
    ensures
        r == opt_priority(*s),
{
    match s {
        Some(s) => parse_priority_string(s.as_str()),
        None => None,
    }
}

impl ProjectFieldValue {
    /// The state that the field names.
    pub fn as_state_name(&self) -> (r: Option<String>)
        ensures
            opt_text(r) == field_state(*self),
    {
        match self {
            ProjectFieldValue::ProjectV2ItemFieldSingleSelectValue { name } => clone_opt(name),
            ProjectFieldValue::ProjectV2ItemFieldTextValue { text } => clone_opt(text),
            ProjectFieldValue::ProjectV2ItemFieldNumberValue { number } => match number {
                Some(n) => Some(n.text.clone()),
                None => None,
            },
        }
    }

    /// The priority that the field names.
    pub fn as_priority(&self) -> (r: Option<i64>)
        ensures
            r == field_priority(*self),
    {
        match self {
            ProjectFieldValue::ProjectV2ItemFieldSingleSelectValue { name } => parse_opt_priority(
                name,
            ),
            ProjectFieldValue::ProjectV2ItemFieldTextValue { text } => parse_opt_priority(text),
            ProjectFieldValue::ProjectV2ItemFieldNumberValue { number } => match number {
                Some(n) => Some(n.rounded),
                None => None,
            },
        }
    }
}

// ---------------------------------------------------------------------------
// References
// ---------------------------------------------------------------------------

/// What stands behind the last underscore of an id, or the id where nothing does.
pub open spec fn item_suffix(id: Seq<char>) -> Seq<char> {
    if behind_last_of(id, '_') < id.len() {
        id.skip(behind_last_of(id, '_'))
    } else {
        id
    }
}

/// What stands behind the last underscore of an id, or the id where nothing does.
pub fn short_item_suffix(item_id: &str) -> (r: String)
    ensures
        r@ == item_suffix(item_id@),
{
    let v = chars_of(item_id);
    let k: usize = find_last(&v, '_');
    if k < v.len() {
        assert(v@.subrange(k as int, v@.len() as int) =~= v@.skip(k as int));
        text_of(&v, k, v.len())
    } else {
        item_id.to_owned()
    }
}

/// The repository and the number that an identifier refers to.
pub open spec fn issue_reference(identifier: Seq<char>) -> Option<(Seq<char>, nat)> {
    let k = behind_last_of(identifier, '#');
    let repo = identifier.take(k - 1);
    if k == 0 || !repo.contains('/') {
        None
    } else {
        match parsed_unsigned(identifier.skip(k), u64::MAX as nat) {
            Some(n) => Some((repo, n)),
            None => None,
        }
    }
}

/// The repository and the number that an identifier refers to: a draft has none.
pub fn parse_github_issue_reference(identifier: &str) -> (r: Option<(String, u64)>)
    ensures
        issue_reference(identifier@) == match r {
            Some((repo, n)) => Some((repo@, n as nat)),
            None => None,
        },
{
    let v = chars_of(identifier);
    let k: usize = find_last(&v, '#');
    if k == 0 {
        return None;
    }
    let repo = text_of(&v, 0, k - 1);
    let number = text_of(&v, k, v.len());
    assert(repo@ =~= identifier@.take(k - 1));
    assert(number@ =~= identifier@.skip(k as int));
    if !contains_char(repo.as_str(), '/') {
        return None;
    }
    match parse_unsigned(number.as_str(), u64::MAX) {
        Some(n) => Some((repo, n)),
        None => None,
    }
}

/// How an issue of a repository is identified.
pub open spec fn issue_identifier(repo: Seq<char>, number: int) -> Seq<char> {
    repo + "#"@ + signed_decimal(number)
}

/// How a draft of a project is identified.
pub open spec fn draft_identifier(owner: Seq<char>, project: nat, id: Seq<char>) -> Seq<char> {
    owner + "/projects/"@ + decimal(project) + "#draft-"@ + item_suffix(id)
}

proof fn last_place(s: Seq<char>, c: char, k: int)
    requires
        0 < k <= s.len(),
        s[k - 1] == c,
        forall|i: int| k <= i < s.len() ==> s[i] != c,
    ensures
        behind_last_of(s, c) == k,
{
    places_of(s, c);
}

/// The identifier of an issue of a repository leads back to the repository and the
/// number.
pub proof fn identifier_leads_back(repo: Seq<char>, number: u64)
    requires
        repo.contains('/'),
    ensures
        issue_reference(issue_identifier(repo, number as int)) == Some((repo, number as nat)),
{
    reveal_strlit("#");
    let s = issue_identifier(repo, number as int);
    let k: int = repo.len() as int + 1;
    decimal_reads_back(number as nat);
    let d = decimal(number as nat);
    assert(s.skip(k) =~= d);
    assert(s.take(k - 1) =~= repo);
    assert forall|i: int| k <= i < s.len() implies s[i] != '#' by {
        assert(s[i] == d[i - k]);
        assert(digit(d[i - k]));
    }
    last_place(s, '#', k);
}

/// The identifier of a draft refers to no issue of a repository, where its id holds no
/// hash sign.
pub proof fn draft_refers_to_nothing(owner: Seq<char>, project: nat, id: Seq<char>)
    requires
        !id.contains('#'),
    ensures
        issue_reference(draft_identifier(owner, project, id)) is None,
{
    reveal_strlit("/projects/");
    reveal_strlit("#draft-");
    let s = draft_identifier(owner, project, id);
    let tail = item_suffix(id);
    let k = owner.len() + 11 + decimal(project).len();
    let start = k + 6;
    places_of(id, '_');
    assert(s.len() == start + tail.len());
    assert forall|i: int| k <= i < s.len() implies s[i] != '#' by {
        if i >= start {
            assert(s[i] == tail[i - start]);
            let from: int = if behind_last_of(id, '_') < id.len() {
                behind_last_of(id, '_')
            } else {
                0
            };
            assert(tail[i - start] == id[from + i - start]);
            assert(id.contains(id[from + i - start]));
        }
    }
    last_place(s, '#', k as int);
    let d = unsigned_digits(s.skip(k as int));
    assert(s.skip(k as int)[0] == 'd');
    assert(d[0] == 'd');
    assert(!digit(d[0]));
}

// ---------------------------------------------------------------------------
// Issues
// ---------------------------------------------------------------------------

/// The state of an item whose status is not set.
pub open spec fn fallback_state(content: ProjectItemContent) -> Seq<char> {
    match content {
        ProjectItemContent::Issue(issue) => if issue.closed || same_ignoring_case(
            issue.state@,
            "closed"@,
        ) {
            "Done"@
        } else {
            "Todo"@
        },
        _ => "Todo"@,
    }
}

/// The labels of an issue, in lower case.
pub open spec fn label_names(labels: Seq<ProjectIssueLabelNode>) -> Seq<Seq<char>> {
    Seq::new(labels.len(), |i: int| lowercase(labels[i].name@))
}

/// The instant that the first text names, or else the second.
pub open spec fn either_instant(a: Seq<char>, b: Seq<char>) -> Option<Timestamp> {
    match instant_of(a) {
        Some(t) => Some(t),
        None => instant_of(b),
    }
}

/// The issue that an item with this content is.
pub open spec fn issue_of(
    item: ProjectItemNode,
    content: ProjectItemContent,
    source_data: Option<Seq<char>>,
    project_url: Seq<char>,
    owner: Seq<char>,
    project: nat,
) -> Option<IssueView> {
    let state = match item.status {
        Some(status) => match field_state(status) {
            Some(name) => name,
            None => fallback_state(content),
        },
        None => fallback_state(content),
    };
    let priority = match item.priority {
        Some(priority) => field_priority(priority),
        None => None,
    };
    match content {
        ProjectItemContent::Issue(issue) => Some(
            IssueView {
                id: item.id@,
                identifier: issue_identifier(
                    issue.repository.name_with_owner@,
                    issue.number as int,
                ),
                title: issue.title@,
                description: opt_text(issue.body),
                priority,
                state,
                branch_name: None,
                url: Some(issue.url@),
                labels: label_names(issue.labels.nodes@),
                blocked_by: Seq::<BlockerView>::empty(),
                created_at: either_instant(issue.created_at@, item.created_at@),
                updated_at: either_instant(issue.updated_at@, item.updated_at@),
                project: None,
                source_data,
            },
        ),
        ProjectItemContent::DraftIssue(draft) => Some(
            IssueView {
                id: item.id@,
                identifier: draft_identifier(owner, project, item.id@),
                title: draft.title@,
                description: opt_text(draft.body),
                priority,
                state,
                branch_name: None,
                url: Some(project_url),
                labels: Seq::<Seq<char>>::empty(),
                blocked_by: Seq::<BlockerView>::empty(),
                created_at: either_instant(draft.created_at@, item.created_at@),
                updated_at: either_instant(draft.updated_at@, item.updated_at@),
                project: None,
                source_data,
            },
        ),
        _ => None,
    }
}

/// The issue that an item is: a pull request, and what is not known, is none.
pub open spec fn item_issue(
    item: ProjectItemNode,
    source_data: Option<Seq<char>>,
    project_url: Seq<char>,
    owner: Seq<char>,
    project: nat,
) -> Option<IssueView> {
    match item.content {
        Some(content) => issue_of(item, content, source_data, project_url, owner, project),
        None => None,
    }
}

/// The view of an issue, where there is one.
pub open spec fn opt_issue(o: Option<Issue>) -> Option<IssueView> {
    match o {
        Some(issue) => Some(issue@),
        None => None,
    }
}

/// The instant that a text names.
pub fn parse_datetime(value: Option<&str>) -> (r: Option<Timestamp>)
    ensures
        r == match value {
            Some(s) => instant_of(s@),
            None => None,
        },
{
    match value {
        Some(s) => parse_rfc3339(s),
        None => None,
    }
}

fn either_datetime(a: &str, b: &str) -> (r: Option<Timestamp>)
    ensures
        r == either_instant(a@, b@),
{
    match parse_datetime(Some(a)) {
        Some(t) => Some(t),
        None => parse_datetime(Some(b)),
    }
}

fn lower_labels(labels: &Vec<ProjectIssueLabelNode>) -> (r: Vec<String>)
    ensures
        texts(r@) == label_names(labels@),
{
    let mut out: Vec<String> = Vec::new();
    let mut i: usize = 0;
    while i < labels.len()
        invariant
            i <= labels@.len(),
            texts(out@) == label_names(labels@.take(i as int)),
        decreases labels@.len() - i,
    {
        let name = to_lowercase(labels[i].name.as_str());
        let ghost before = texts(out@);
        let ghost text = name@;
        out.push(name);
        proof {
            assert(texts(out@) =~= before.push(text));
            assert(label_names(labels@.take(i + 1)) =~= before.push(text));
        }
        i = i + 1;
    }
    assert(labels@.take(i as int) =~= labels@);
    out
}

fn state_name(status: &Option<ProjectFieldValue>, fallback: &str) -> (r: String)
    ensures
        r@ == match *status {
            Some(status) => match field_state(status) {
                Some(name) => name,
                None => fallback@,
            },
            None => fallback@,
        },
{
    match status {
        Some(status) => match status.as_state_name() {
            Some(name) => name,
            None => fallback.to_owned(),
        },
        None => fallback.to_owned(),
    }
}

/// The issue that an item is, with the text that the item was read from: a pull
/// request, and what is not known, is none.
pub fn normalize_project_item(
    item: ProjectItemNode,
    source_data: Option<String>,
    project_url: &str,
    config: &GitHubProjectTrackerConfig,
) -> (r: Option<Issue>)
    ensures
        opt_issue(r) == item_issue(
            item,
            opt_text(source_data),
            project_url@,
            config.owner@,
            config.project_number as nat,
        ),
{
    let priority = match &item.priority {
        Some(priority) => priority.as_priority(),
        None => None,
    };
    let r = match &item.content {
        Some(ProjectItemContent::Issue(issue)) => {
            let fallback = if issue.closed || eq_ignore_case(issue.state.as_str(), "closed") {
                "Done"
            } else {
                "Todo"
            };
            let mut identifier = cat(issue.repository.name_with_owner.as_str(), "#");
            identifier.append(signed_text(issue.number).as_str());
            Some(
                Issue {
                    id: item.id.clone(),
                    identifier,
                    title: issue.title.clone(),
                    description: clone_opt(&issue.body),
                    priority,
                    state: state_name(&item.status, fallback),
                    branch_name: None,
                    url: Some(issue.url.clone()),
                    labels: lower_labels(&issue.labels.nodes),
                    blocked_by: Vec::new(),
                    created_at: either_datetime(
                        issue.created_at.as_str(),
                        item.created_at.as_str(),
                    ),
                    updated_at: either_datetime(
                        issue.updated_at.as_str(),
                        item.updated_at.as_str(),
                    ),
                    project: None,
                    source_data,
                },
            )
        },
        Some(ProjectItemContent::DraftIssue(draft)) => {
            let mut identifier = cat(config.owner.as_str(), "/projects/");
            identifier.append(unsigned_text(config.project_number as u64).as_str());
            identifier.append("#draft-");
            identifier.append(short_item_suffix(item.id.as_str()).as_str());
            Some(
                Issue {
                    id: item.id.clone(),
                    identifier,
                    title: draft.title.clone(),
                    description: clone_opt(&draft.body),
                    priority,
                    state: state_name(&item.status, "Todo"),
                    branch_name: None,
                    url: Some(project_url.to_owned()),
                    labels: Vec::new(),
                    blocked_by: Vec::new(),
                    created_at: either_datetime(
                        draft.created_at.as_str(),
                        item.created_at.as_str(),
                    ),
                    updated_at: either_datetime(
                        draft.updated_at.as_str(),
                        item.updated_at.as_str(),
                    ),
                    project: None,
                    source_data,
                },
            )
        },
        Some(ProjectItemContent::PullRequest) => None,
        Some(ProjectItemContent::Unknown) => None,
        None => None,
    };
    assert(opt_issue(r) =~= item_issue(
        item,
        opt_text(source_data),
        project_url@,
        config.owner@,
        config.project_number as nat,
    ));
    r
}

// ---------------------------------------------------------------------------
// Locators
// ---------------------------------------------------------------------------

/// Whether a locator names an issue: by its id, by its identifier in any case, or by
/// the name of its workspace in any case.
pub open spec fn located_by(issue: IssueView, locator: Seq<char>) -> bool {
    issue.id == locator || same_ignoring_case(issue.identifier, locator) || same_ignoring_case(
        workspace_key(issue.identifier),
        locator,
    )
}

/// Whether a locator names an issue.
pub fn issue_matches_locator(issue: &Issue, locator: &str) -> (r: bool)
    ensures
        r == located_by(issue@, locator@),
{
    same_text(issue.id.as_str(), locator) || eq_ignore_case(issue.identifier.as_str(), locator)
        || eq_ignore_case(sanitize_workspace_key(issue.identifier.as_str()).as_str(), locator)
}

/// An issue is found by its id, its identifier and the name of its workspace.
pub proof fn issue_is_found_by_its_names(issue: IssueView)
    ensures
        located_by(issue, issue.id),
        located_by(issue, issue.identifier),
        located_by(issue, workspace_key(issue.identifier)),
{
}

} // verus!
