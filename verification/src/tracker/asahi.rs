//! The local tracker, which is reached over HTTP.
use vstd::prelude::*;

use crate::config::AsahiTrackerConfig;
use crate::error::{ErrorView, LunaError};
use crate::text::{cat, cat3, join, joined, opt_text, texts};

verus! {

/// The URL that a text names, written out, or why it names none.
pub uninterp spec fn url_of(s: Seq<char>) -> Result<Seq<char>, Seq<char>>;

/// The URL that a text names relative to another, written out, or why it names none.
pub uninterp spec fn url_below(base: Seq<char>, s: Seq<char>) -> Result<Seq<char>, Seq<char>>;

/// The view of a text or of the reason why there is none.
pub open spec fn outcome_texts(r: Result<String, String>) -> Result<Seq<char>, Seq<char>> {
    match r {
        Ok(text) => Ok(text@),
        Err(why) => Err(why@),
    }
}

/// `reqwest::Url::parse`. The URL, written out, and the message of an error depend on
/// the text alone. Which texts are URLs is left open.
#[verifier::external_body]
fn parse_url(s: &str) -> (r: Result<String, String>)
    ensures
        outcome_texts(r) == url_of(s@),
{
    reqwest::Url::parse(s).map(String::from).map_err(|e| e.to_string())
}

/// `reqwest::Url::join`, on a base that is written out. The URL, written out, and the
/// message of an error depend on the two texts alone. What a relative URL leads to is
/// left open.
#[verifier::external_body]
fn join_url(base: &str, s: &str) -> (r: Result<String, String>)
    ensures
        outcome_texts(r) == url_below(base@, s@),
{
    let base = reqwest::Url::parse(base).map_err(|e| e.to_string())?;
    base.join(s).map(String::from).map_err(|e| e.to_string())
}

/// The endpoint, or that it is none.
pub open spec fn endpoint_outcome(parsed: Result<Seq<char>, Seq<char>>) -> Result<
    Seq<char>,
    ErrorView,
> {
    match parsed {
        Ok(url) => Ok(url),
        Err(why) => Err(ErrorView::InvalidConfig("invalid asahi endpoint: "@ + why)),
    }
}

/// A URL below the endpoint, or that there is none.
pub open spec fn url_outcome(joined: Result<Seq<char>, Seq<char>>) -> Result<
    Seq<char>,
    ErrorView,
> {
    match joined {
        Ok(url) => Ok(url),
        Err(why) => Err(ErrorView::InvalidConfig("invalid asahi url: "@ + why)),
    }
}

/// The view of a text or of an error.
pub open spec fn checked_text(r: Result<String, LunaError>) -> Result<Seq<char>, ErrorView> {
    match r {
        Ok(text) => Ok(text@),
        Err(e) => Err(e@),
    }
}

/// The endpoint, or that it is none, given what came of reading it.
pub fn check_endpoint(parsed: Result<String, String>) -> (r: Result<String, LunaError>)
    ensures
        checked_text(r) == endpoint_outcome(outcome_texts(parsed)),
{
    match parsed {
        Ok(url) => Ok(url),
        Err(why) => Err(
            LunaError::InvalidConfig(cat("invalid asahi endpoint: ", why.as_str())),
        ),
    }
}

/// A URL below the endpoint, or that there is none, given what came of reading it.
pub fn check_url(joined: Result<String, String>) -> (r: Result<String, LunaError>)
    ensures
        checked_text(r) == url_outcome(outcome_texts(joined)),
{
    match joined {
        Ok(url) => Ok(url),
        Err(why) => Err(LunaError::InvalidConfig(cat("invalid asahi url: ", why.as_str()))),
    }
}

/// The URL of a path below an endpoint: the endpoint is read first.
pub open spec fn api_url(endpoint: Seq<char>, path: Seq<char>) -> Result<Seq<char>, ErrorView> {
    match endpoint_outcome(url_of(endpoint)) {
        Ok(base) => url_outcome(url_below(base, path)),
        Err(e) => Err(e),
    }
}

/// How a request acts.
#[derive(Clone, Copy, Debug, PartialEq, Eq, Structural)]
pub enum Method {
    Get,
    Post,
    Patch,
}

/// A request: the parameters stand behind its URL, and what it sends is an object with
/// these fields.
#[derive(Clone, Debug)]
pub struct Request {
    pub method: Method,
    pub url: String,
    pub query: Vec<(String, String)>,
    pub body: Vec<(String, Option<String>)>,
}

/// The model of a request.
#[verifier::ext_equal]
pub struct RequestView {
    pub method: Method,
    pub url: Seq<char>,
    pub query: Seq<(Seq<char>, Seq<char>)>,
    pub body: Seq<(Seq<char>, Option<Seq<char>>)>,
}

/// The views of query parameters.
pub open spec fn query_views(s: Seq<(String, String)>) -> Seq<(Seq<char>, Seq<char>)> {
    Seq::new(s.len(), |i: int| (s[i].0@, s[i].1@))
}

/// The views of the fields that are sent.
pub open spec fn body_views(s: Seq<(String, Option<String>)>) -> Seq<
    (Seq<char>, Option<Seq<char>>),
> {
    Seq::new(s.len(), |i: int| (s[i].0@, opt_text(s[i].1)))
}

impl View for Request {
    type V = RequestView;

    open spec fn view(&self) -> RequestView {
        RequestView {
            method: self.method,
            url: self.url@,
            query: query_views(self.query@),
            body: body_views(self.body@),
        }
    }
}

/// The view of a request, or of why there is none.
pub open spec fn request_outcome(r: Result<Request, LunaError>) -> Result<RequestView, ErrorView> {
    match r {
        Ok(request) => Ok(request@),
        Err(e) => Err(e@),
    }
}

/// A request to a URL, where there is one.
pub open spec fn request_at(
    url: Result<Seq<char>, ErrorView>,
    method: Method,
    query: Seq<(Seq<char>, Seq<char>)>,
    body: Seq<(Seq<char>, Option<Seq<char>>)>,
) -> Result<RequestView, ErrorView> {
    match url {
        Ok(url) => Ok(RequestView { method, url, query, body }),
        Err(e) => Err(e),
    }
}

/// The URL of a part of an issue.
pub open spec fn issue_part_url(endpoint: Seq<char>, issue_id: Seq<char>, part: Seq<char>) -> Result<
    Seq<char>,
    ErrorView,
> {
    api_url(endpoint, "api/issues/"@ + issue_id + part)
}

/// A parameter that lists values, where there is something to list.
pub open spec fn list_parameter(name: Seq<char>, values: Option<Seq<Seq<char>>>) -> Seq<
    (Seq<char>, Seq<char>),
> {
    match values {
        Some(values) => if joined(values, ","@).len() > 0 {
            seq![(name, joined(values, ","@))]
        } else {
            Seq::empty()
        },
        None => Seq::empty(),
    }
}

/// The parameters of a request for issues.
pub open spec fn list_query(
    states: Option<Seq<Seq<char>>>,
    ids: Option<Seq<Seq<char>>>,
) -> Seq<(Seq<char>, Seq<char>)> {
    list_parameter("states"@, states) + list_parameter("ids"@, ids)
}

/// The views of texts, where there are any.
pub open spec fn opt_texts(v: Option<&[String]>) -> Option<Seq<Seq<char>>> {
    match v {
        Some(v) => Some(texts(v@)),
        None => None,
    }
}

fn push_list(out: &mut Vec<(String, String)>, name: &str, values: Option<&[String]>)
    ensures
        query_views(final(out)@) == query_views(old(out)@) + list_parameter(
            name@,
            opt_texts(values),
        ),
{
    let ghost before = query_views(out@);
    match values {
        Some(values) => {
            let list = join(values, ",");
            if !list.as_str().is_empty() {
                let ghost text = list@;
                out.push((name.to_owned(), list));
                assert(query_views(out@) =~= before + seq![(name@, text)]);
                return;
            }
        },
        None => {},
    }
    assert(query_views(out@) =~= before + Seq::<(Seq<char>, Seq<char>)>::empty());
}

/// The local tracker.
#[derive(Clone, Debug)]
pub struct AsahiTracker {
    pub config: AsahiTrackerConfig,
}

impl AsahiTracker {
    /// The tracker at an endpoint.
    pub fn new(config: AsahiTrackerConfig) -> (r: AsahiTracker)
        ensures
            r.config == config,
    {
        AsahiTracker { config }
    }

    /// The endpoint, written out.
    pub fn base_url(&self) -> (r: Result<String, LunaError>)
        ensures
            checked_text(r) == endpoint_outcome(url_of(self.config.endpoint@)),
    {
        check_endpoint(parse_url(self.config.endpoint.as_str()))
    }

    fn url(&self, path: &str) -> (r: Result<String, LunaError>)
        ensures
            checked_text(r) == api_url(self.config.endpoint@, path@),
    {
        match self.base_url() {
            Ok(base) => check_url(join_url(base.as_str(), path)),
            Err(e) => Err(e),
        }
    }

    fn request(
        &self,
        path: &str,
        method: Method,
        query: Vec<(String, String)>,
        body: Vec<(String, Option<String>)>,
    ) -> (r: Result<Request, LunaError>)
        ensures
            request_outcome(r) == request_at(
                api_url(self.config.endpoint@, path@),
                method,
                query_views(query@),
                body_views(body@),
            ),
            query@.len() == 0 ==> query_views(query@) == Seq::<(Seq<char>, Seq<char>)>::empty(),
            body@.len() == 0 ==> body_views(body@) == Seq::<
                (Seq<char>, Option<Seq<char>>),
            >::empty(),
    {
        assert(query@.len() == 0 ==> query_views(query@) =~= Seq::empty());
        assert(body@.len() == 0 ==> body_views(body@) =~= Seq::empty());
        match self.url(path) {
            Ok(url) => Ok(Request { method, url, query, body }),
            Err(e) => Err(e),
        }
    }

    /// The request for an issue.
    pub fn issue_request(&self, locator: &str) -> (r: Result<Request, LunaError>)
        ensures
            request_outcome(r) == request_at(
                api_url(self.config.endpoint@, "api/issues/"@ + locator@),
                Method::Get,
                Seq::empty(),
                Seq::empty(),
            ),
    {
        let path = cat("api/issues/", locator);
        self.request(path.as_str(), Method::Get, Vec::new(), Vec::new())
    }

    /// The request for issues: by their states, by their ids.
    pub fn list_issues(&self, states: Option<&[String]>, ids: Option<&[String]>) -> (r: Result<
        Request,
        LunaError,
    >)
        ensures
            request_outcome(r) == request_at(
                api_url(self.config.endpoint@, "api/issues"@),
                Method::Get,
                list_query(opt_texts(states), opt_texts(ids)),
                Seq::empty(),
            ),
    {
        let mut query: Vec<(String, String)> = Vec::new();
        assert(query_views(query@) =~= Seq::<(Seq<char>, Seq<char>)>::empty());
        push_list(&mut query, "states", states);
        push_list(&mut query, "ids", ids);
        assert(query_views(query@) =~= list_query(opt_texts(states), opt_texts(ids)));
        self.request("api/issues", Method::Get, query, Vec::new())
    }

    /// The request for the issues that are to be worked on.
    pub fn fetch_candidate_issues(&self) -> (r: Result<Request, LunaError>)
        ensures
            request_outcome(r) == request_at(
                api_url(self.config.endpoint@, "api/issues"@),
                Method::Get,
                seq![("states"@, "Todo,In Progress"@)],
                Seq::empty(),
            ),
    {
        let mut states: Vec<String> = Vec::new();
        states.push("Todo".to_owned());
        states.push("In Progress".to_owned());
        proof {
            reveal_strlit("Todo");
            reveal_strlit("In Progress");
            reveal_strlit(",");
            reveal_strlit("Todo,In Progress");
            let names = texts(states@);
            assert(names =~= seq!["Todo"@, "In Progress"@]);
            assert(names.drop_last() =~= seq!["Todo"@]);
            assert(joined(names.drop_last(), ","@) == "Todo"@);
            assert(joined(names, ","@) =~= "Todo,In Progress"@);
            assert(list_query(Some(names), None) =~= seq![("states"@, "Todo,In Progress"@)]);
        }
        self.list_issues(Some(states.as_slice()), None)
    }

    /// The request for the issues in some states; nothing is asked where there are no
    /// states.
    pub fn fetch_issues_by_states(&self, states: &[String]) -> (r: Option<
        Result<Request, LunaError>,
    >)
        ensures
            (r is Some) == (states@.len() > 0),
            r matches Some(request) ==> request_outcome(request) == request_at(
                api_url(self.config.endpoint@, "api/issues"@),
                Method::Get,
                list_query(Some(texts(states@)), None),
                Seq::empty(),
            ),
    {
        if states.len() == 0 {
            return None;
        }
        Some(self.list_issues(Some(states), None))
    }

    /// The request for the issues with some ids; nothing is asked where there are no
    /// ids.
    pub fn fetch_issue_states_by_ids(&self, issue_ids: &[String]) -> (r: Option<
        Result<Request, LunaError>,
    >)
        ensures
            (r is Some) == (issue_ids@.len() > 0),
            r matches Some(request) ==> request_outcome(request) == request_at(
                api_url(self.config.endpoint@, "api/issues"@),
                Method::Get,
                list_query(None, Some(texts(issue_ids@))),
                Seq::empty(),
            ),
    {
        if issue_ids.len() == 0 {
            return None;
        }
        Some(self.list_issues(None, Some(issue_ids)))
    }

    /// The request for the comments on an issue.
    pub fn fetch_comments(&self, issue_id: &str) -> (r: Result<Request, LunaError>)
        ensures
            request_outcome(r) == request_at(
                issue_part_url(self.config.endpoint@, issue_id@, "/comments"@),
                Method::Get,
                Seq::empty(),
                Seq::empty(),
            ),
    {
        let path = cat3("api/issues/", issue_id, "/comments");
        self.request(path.as_str(), Method::Get, Vec::new(), Vec::new())
    }

    /// The request that comments on an issue.
    pub fn create_comment(&self, issue_id: &str, body: &str) -> (r: Result<Request, LunaError>)
        ensures
            request_outcome(r) == request_at(
                issue_part_url(self.config.endpoint@, issue_id@, "/comments"@),
                Method::Post,
                Seq::empty(),
                seq![("body"@, Some(body@))],
            ),
    {
        let path = cat3("api/issues/", issue_id, "/comments");
        let mut fields: Vec<(String, Option<String>)> = Vec::new();
        fields.push(("body".to_owned(), Some(body.to_owned())));
        assert(body_views(fields@) =~= seq![("body"@, Some(body@))]);
        self.request(path.as_str(), Method::Post, Vec::new(), fields)
    }

    /// The request that moves an issue to a state.
    pub fn update_issue_state(&self, issue_id: &str, state_name: &str) -> (r: Result<
        Request,
        LunaError,
    >)
        ensures
            request_outcome(r) == request_at(
                issue_part_url(self.config.endpoint@, issue_id@, "/state"@),
                Method::Patch,
                Seq::empty(),
                seq![("state"@, Some(state_name@))],
            ),
    {
        let path = cat3("api/issues/", issue_id, "/state");
        let mut fields: Vec<(String, Option<String>)> = Vec::new();
        fields.push(("state".to_owned(), Some(state_name.to_owned())));
        assert(body_views(fields@) =~= seq![("state"@, Some(state_name@))]);
        self.request(path.as_str(), Method::Patch, Vec::new(), fields)
    }

    /// The request that notes an activity on an issue.
    pub fn create_activity(
        &self,
        issue_id: &str,
        kind: &str,
        title: &str,
        body: Option<String>,
    ) -> (r: Result<Request, LunaError>)
        ensures
            request_outcome(r) == request_at(
                issue_part_url(self.config.endpoint@, issue_id@, "/activities"@),
                Method::Post,
                Seq::empty(),
                seq![
                    ("kind"@, Some(kind@)),
                    ("title"@, Some(title@)),
                    ("body"@, opt_text(body)),
                ],
            ),
    {
        let path = cat3("api/issues/", issue_id, "/activities");
        let mut fields: Vec<(String, Option<String>)> = Vec::new();
        fields.push(("kind".to_owned(), Some(kind.to_owned())));
        fields.push(("title".to_owned(), Some(title.to_owned())));
        fields.push(("body".to_owned(), body));
        assert(body_views(fields@) =~= seq![
            ("kind"@, Some(kind@)),
            ("title"@, Some(title@)),
            ("body"@, opt_text(body)),
        ]);
        self.request(path.as_str(), Method::Post, Vec::new(), fields)
    }

    /// The request for all pages of the wiki of a project.
    pub fn fetch_project_wiki(&self, project_locator: &str) -> (r: Result<Request, LunaError>)
        ensures
            request_outcome(r) == request_at(
                api_url(
                    self.config.endpoint@,
                    "api/projects/"@ + project_locator@ + "/wiki"@,
                ),
                Method::Get,
                seq![("recursive"@, "true"@)],
                Seq::empty(),
            ),
    {
        let path = cat3("api/projects/", project_locator, "/wiki");
        let mut query: Vec<(String, String)> = Vec::new();
        query.push(("recursive".to_owned(), "true".to_owned()));
        assert(query_views(query@) =~= seq![("recursive"@, "true"@)]);
        self.request(path.as_str(), Method::Get, query, Vec::new())
    }
}

// ---------------------------------------------------------------------------
// Answers
// ---------------------------------------------------------------------------

/// What was asked for.
#[derive(Clone, Copy, Debug, PartialEq, Eq, Structural)]
pub enum Operation {
    ListIssues,
    GetIssue,
    FetchProjectWiki,
    FetchComments,
    CreateComment,
    UpdateIssueState,
    CreateActivity,
}

/// The name of what was asked for.
pub open spec fn operation_name(op: Operation) -> Seq<char> {
    match op {
        Operation::ListIssues => "list_issues"@,
        Operation::GetIssue => "get_issue"@,
        Operation::FetchProjectWiki => "fetch_project_wiki"@,
        Operation::FetchComments => "fetch_comments"@,
        Operation::CreateComment => "create_comment"@,
        Operation::UpdateIssueState => "update_issue_state"@,
        Operation::CreateActivity => "create_activity"@,
    }
}

/// Whether a status code means success.
pub open spec fn successful(code: u16) -> bool {
    200 <= code < 300
}

/// The error for a request that failed.
pub open spec fn failed_request(op: Operation, status: Seq<char>) -> ErrorView {
    ErrorView::Tracker("asahi "@ + operation_name(op) + " failed: status="@ + status)
}

/// Refuses an answer whose status does not mean success.
pub fn check_status(op: Operation, code: u16, status: &str) -> (r: Result<(), LunaError>)
    ensures
        (r is Ok) == successful(code),
        r matches Err(e) ==> e@ == failed_request(op, status@),
{
    if code >= 200 && code < 300 {
        return Ok(());
    }
    let name = match op {
        Operation::ListIssues => "list_issues",
        Operation::GetIssue => "get_issue",
        Operation::FetchProjectWiki => "fetch_project_wiki",
        Operation::FetchComments => "fetch_comments",
        Operation::CreateComment => "create_comment",
        Operation::UpdateIssueState => "update_issue_state",
        Operation::CreateActivity => "create_activity",
    };
    let mut message = "asahi ".to_owned();
    message.append(name);
    message.append(" failed: status=");
    message.append(status);
    Err(LunaError::Tracker(message))
}

/// Whether the answer to a request for one issue holds the issue. That there is no
/// such issue is no failure.
pub fn get_issue(code: u16, status: &str) -> (r: Result<bool, LunaError>)
    ensures
        match r {
            Ok(found) => found == successful(code) && (code == 404 || successful(code)),
            Err(e) => code != 404 && !successful(code) && e@ == failed_request(
                Operation::GetIssue,
                status@,
            ),
        },
{
    if code == 404 {
        return Ok(false);
    }
    match check_status(Operation::GetIssue, code, status) {
        Ok(()) => Ok(true),
        Err(e) => Err(e),
    }
}

} // verus!
