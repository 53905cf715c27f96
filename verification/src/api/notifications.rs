//! The list of notifications.
use vstd::prelude::*;

use crate::text::{clone_opt, opt_text};
use crate::time::Timestamp;

verus! {

/// What a list of notifications is asked for with.
#[derive(Debug, Clone)]
pub struct ListNotificationsQuery {
    pub include_archived: Option<bool>,
    pub unread_only: Option<bool>,
    pub recipient_id: Option<String>,
    pub issue_id: Option<String>,
    pub limit: Option<u64>,
}

/// Which notifications are meant.
#[derive(Debug, Clone)]
pub struct NotificationFilter {
    pub include_archived: bool,
    pub unread_only: bool,
    pub recipient_id: Option<String>,
    pub issue_id: Option<String>,
    pub limit: Option<u64>,
}

/// The issue that a notification is about.
#[derive(Debug, Clone)]
pub struct NotificationIssue {
    pub id: String,
    pub title: String,
}

/// A notification.
#[derive(Debug, Clone)]
pub struct Notification {
    pub id: String,
    pub issue: Option<NotificationIssue>,
    pub read_at: Option<Timestamp>,
    pub archived_at: Option<Timestamp>,
}

/// A list of notifications, and how many are unread.
#[derive(Debug, Clone)]
pub struct NotificationListResponse {
    pub notifications: Vec<Notification>,
    pub unread_count: u64,
}

/// The model of a filter.
pub struct FilterView {
    pub include_archived: bool,
    pub unread_only: bool,
    pub recipient_id: Option<Seq<char>>,
    pub issue_id: Option<Seq<char>>,
    pub limit: Option<u64>,
}

impl View for NotificationFilter {
    type V = FilterView;

    open spec fn view(&self) -> FilterView {
        FilterView {
            include_archived: self.include_archived,
            unread_only: self.unread_only,
            recipient_id: opt_text(self.recipient_id),
            issue_id: opt_text(self.issue_id),
            limit: self.limit,
        }
    }
}

/// Which notifications a list shows.
pub open spec fn shown(query: ListNotificationsQuery) -> FilterView {
    FilterView {
        include_archived: query.include_archived == Some(true),
        unread_only: query.unread_only == Some(true),
        recipient_id: opt_text(query.recipient_id),
        issue_id: opt_text(query.issue_id),
        limit: query.limit,
    }
}

/// Which notifications a list counts: the unread ones among all that it could show,
/// without regard to the limit.
pub open spec fn counted(query: ListNotificationsQuery) -> FilterView {
    FilterView { unread_only: true, limit: None, ..shown(query) }
}

/// Which notifications are listed, and which are counted.
pub fn list_notifications(query: ListNotificationsQuery) -> (r: (
    NotificationFilter,
    NotificationFilter,
))
    ensures
        r.0@ == shown(query),
        r.1@ == counted(query),
{
    let include_archived = match query.include_archived {
        Some(b) => b,
        None => false,
    };
    let unread_only = match query.unread_only {
        Some(b) => b,
        None => false,
    };
    let recipient_id = clone_opt(&query.recipient_id);
    let issue_id = clone_opt(&query.issue_id);
    (
        NotificationFilter {
            include_archived,
            unread_only,
            recipient_id: query.recipient_id,
            issue_id: query.issue_id,
            limit: query.limit,
        },
        NotificationFilter {
            include_archived,
            unread_only: true,
            recipient_id,
            issue_id,
            limit: None,
        },
    )
}

/// The answer to a request for a list.
pub fn notification_list(notifications: Vec<Notification>, unread_count: u64) -> (r:
    NotificationListResponse)
    ensures
        r.notifications == notifications,
        r.unread_count == unread_count,
{
    NotificationListResponse { notifications, unread_count }
}

/// The count does not depend on whether only unread notifications are shown, nor on
/// how many.
pub proof fn count_ignores_what_is_shown(a: ListNotificationsQuery, b: ListNotificationsQuery)
    requires
        a.include_archived == b.include_archived,
        opt_text(a.recipient_id) == opt_text(b.recipient_id),
        opt_text(a.issue_id) == opt_text(b.issue_id),
    ensures
        counted(a) == counted(b),
{
}

/// A list shows what it is asked for: archived notifications, and only unread ones, on
/// request alone; those of the recipient and the issue that are named; and no more than the
/// limit. Its count is of the unread ones among the same, whatever the limit.
pub proof fn list_shows_what_it_is_asked_for(query: ListNotificationsQuery)
    ensures
        shown(query).include_archived <==> query.include_archived == Some(true),
        shown(query).unread_only <==> query.unread_only == Some(true),
        shown(query).recipient_id == opt_text(query.recipient_id),
        shown(query).issue_id == opt_text(query.issue_id),
        shown(query).limit == query.limit,
        counted(query).include_archived <==> query.include_archived == Some(true),
        counted(query).unread_only,
        counted(query).recipient_id == opt_text(query.recipient_id),
        counted(query).issue_id == opt_text(query.issue_id),
        counted(query).limit is None,
{
}

} // verus!
