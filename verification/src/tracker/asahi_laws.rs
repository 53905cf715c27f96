//! What the local tracker is asked for, and what its answers mean.
use vstd::prelude::*;

use crate::error::ErrorView;
use crate::text::joined;
use crate::tracker::asahi::{
    api_url, failed_request, issue_part_url, list_query, request_at, successful, url_below, url_of,
    Method, Operation,
};

verus! {

/// A request is sent to its path below the endpoint. Where the endpoint is no URL, or there
/// is none below it, nothing is sent, and the reason is told.
pub proof fn requests_go_below_the_endpoint(
    endpoint: Seq<char>,
    path: Seq<char>,
    method: Method,
    query: Seq<(Seq<char>, Seq<char>)>,
    body: Seq<(Seq<char>, Option<Seq<char>>)>,
)
    ensures
        ({
            let r = request_at(api_url(endpoint, path), method, query, body);
            let base = url_of(endpoint);
            let url = url_below(base->Ok_0, path);
            &&& base is Err ==> r is Err && r->Err_0 == ErrorView::InvalidConfig(
                "invalid asahi endpoint: "@ + base->Err_0,
            )
            &&& base is Ok && url is Err ==> r is Err && r->Err_0 == ErrorView::InvalidConfig(
                "invalid asahi url: "@ + url->Err_0,
            )
            &&& base is Ok && url is Ok ==> r is Ok && r->Ok_0.url == url->Ok_0 && r->Ok_0.method
                == method && r->Ok_0.query == query && r->Ok_0.body == body
        }),
{
}

/// A part of an issue is below the issue.
pub proof fn parts_are_below_their_issue(endpoint: Seq<char>, issue: Seq<char>, part: Seq<char>)
    ensures
        issue_part_url(endpoint, issue, part) == api_url(
            endpoint,
            "api/issues/"@ + issue + part,
        ),
{
}

/// Issues are asked for by the states that are given and by the ids that are given, each
/// list behind its name with commas in it; a list that is not given, or is empty, is not
/// asked for.
pub proof fn issues_are_asked_for_by_states_and_ids(
    states: Seq<Seq<char>>,
    ids: Seq<Seq<char>>,
)
    ensures
        list_query(None, None).len() == 0,
        list_query(Some(Seq::empty()), Some(Seq::empty())).len() == 0,
        joined(states, ","@).len() > 0 ==> list_query(Some(states), None) == seq![
            ("states"@, joined(states, ","@)),
        ],
        joined(ids, ","@).len() > 0 ==> list_query(None, Some(ids)) == seq![
            ("ids"@, joined(ids, ","@)),
        ],
        joined(states, ","@).len() > 0 && joined(ids, ","@).len() > 0 ==> list_query(
            Some(states),
            Some(ids),
        ) == seq![("states"@, joined(states, ","@)), ("ids"@, joined(ids, ","@))],
{
}

/// An answer is a success where its status is from 200 up to 299. Any other is a failure,
/// which is told with what was asked for.
pub proof fn answers_succeed_by_their_status(code: u16, status: Seq<char>)
    ensures
        successful(code) <==> 200 <= code <= 299,
        failed_request(Operation::ListIssues, status) == ErrorView::Tracker(
            "asahi "@ + "list_issues"@ + " failed: status="@ + status,
        ),
        failed_request(Operation::GetIssue, status) == ErrorView::Tracker(
            "asahi "@ + "get_issue"@ + " failed: status="@ + status,
        ),
        failed_request(Operation::FetchProjectWiki, status) == ErrorView::Tracker(
            "asahi "@ + "fetch_project_wiki"@ + " failed: status="@ + status,
        ),
        failed_request(Operation::FetchComments, status) == ErrorView::Tracker(
            "asahi "@ + "fetch_comments"@ + " failed: status="@ + status,
        ),
        failed_request(Operation::CreateComment, status) == ErrorView::Tracker(
            "asahi "@ + "create_comment"@ + " failed: status="@ + status,
        ),
        failed_request(Operation::UpdateIssueState, status) == ErrorView::Tracker(
            "asahi "@ + "update_issue_state"@ + " failed: status="@ + status,
        ),
        failed_request(Operation::CreateActivity, status) == ErrorView::Tracker(
            "asahi "@ + "create_activity"@ + " failed: status="@ + status,
        ),
{
}

} // verus!
