//! The order in which candidates are dispatched.
//!
//! Candidates are worked on project by project. Within a project the oldest comes
//! first, then the most urgent, then the one whose identifier sorts first.
use vstd::prelude::*;
use vstd::multiset::Multiset;

use std::cmp::Ordering;

use crate::model::{clone_issue, issue_views, project_slug, Issue, IssueView};
use crate::text::{chars_of, opt_text, same_text};
use crate::time::Timestamp;

verus! {

/// How one thing stands to another.
#[derive(Clone, Copy, Debug, PartialEq, Eq, Structural)]
pub enum Order {
    Before,
    Same,
    After,
}

/// How two instants compare; none comes before any.
pub open spec fn time_order(a: Option<Timestamp>, b: Option<Timestamp>) -> Order {
    match (a, b) {
        (None, None) => Order::Same,
        (None, Some(_)) => Order::Before,
        (Some(_), None) => Order::After,
        (Some(x), Some(y)) => if x.before(y) {
            Order::Before
        } else if y.before(x) {
            Order::After
        } else {
            Order::Same
        },
    }
}

/// How two priorities compare: the smaller number first, and none after any.
pub open spec fn priority_order(a: Option<i64>, b: Option<i64>) -> Order {
    match (a, b) {
        (None, None) => Order::Same,
        (None, Some(_)) => Order::After,
        (Some(_), None) => Order::Before,
        (Some(x), Some(y)) => if x < y {
            Order::Before
        } else if x > y {
            Order::After
        } else {
            Order::Same
        },
    }
}

/// How two texts compare: by the first character in which they differ, and a text
/// before its continuations.
pub open spec fn text_order(a: Seq<char>, b: Seq<char>) -> Order
    decreases a.len(),
{
    if a.len() == 0 {
        if b.len() == 0 {
            Order::Same
        } else {
            Order::Before
        }
    } else if b.len() == 0 {
        Order::After
    } else if a[0] < b[0] {
        Order::Before
    } else if b[0] < a[0] {
        Order::After
    } else {
        text_order(a.drop_first(), b.drop_first())
    }
}

/// How two issues compare: by age, then by priority, then by identifier.
pub open spec fn dispatch_order(a: IssueView, b: IssueView) -> Order {
    match time_order(a.created_at, b.created_at) {
        Order::Same => match priority_order(a.priority, b.priority) {
            Order::Same => text_order(a.identifier, b.identifier),
            other => other,
        },
        other => other,
    }
}

/// How two instants compare.
pub fn weigh_times(a: Option<Timestamp>, b: Option<Timestamp>) -> (r: Order)
    ensures
        r == time_order(a, b),
{
    match (a, b) {
        (None, None) => Order::Same,
        (None, Some(_)) => Order::Before,
        (Some(_), None) => Order::After,
        (Some(x), Some(y)) => if x.is_before(&y) {
            Order::Before
        } else if y.is_before(&x) {
            Order::After
        } else {
            Order::Same
        },
    }
}

/// How two priorities compare.
pub fn weigh_priorities(left: Option<i64>, right: Option<i64>) -> (r: Order)
    ensures
        r == priority_order(left, right),
{
    match (left, right) {
        (Some(a), Some(b)) => if a < b {
            Order::Before
        } else if a > b {
            Order::After
        } else {
            Order::Same
        },
        (Some(_), None) => Order::Before,
        (None, Some(_)) => Order::After,
        (None, None) => Order::Same,
    }
}

/// How two texts compare.
pub fn weigh_texts(a: &str, b: &str) -> (r: Order)
    ensures
        r == text_order(a@, b@),
{
    let x = chars_of(a);
    let y = chars_of(b);
    let mut i: usize = 0;
    assert(x@.skip(0) =~= x@);
    assert(y@.skip(0) =~= y@);
    while i < x.len() && i < y.len()
        invariant
            x@ == a@,
            y@ == b@,
            i <= x@.len(),
            i <= y@.len(),
            text_order(a@, b@) == text_order(x@.skip(i as int), y@.skip(i as int)),
        decreases x@.len() - i,
    {
        proof {
            assert(x@.skip(i as int).drop_first() =~= x@.skip(i + 1));
            assert(y@.skip(i as int).drop_first() =~= y@.skip(i + 1));
        }
        if x[i] < y[i] {
            return Order::Before;
        }
        if y[i] < x[i] {
            return Order::After;
        }
        i = i + 1;
    }
    if i < x.len() {
        Order::After
    } else if i < y.len() {
        Order::Before
    } else {
        Order::Same
    }
}

/// How two issues compare for dispatch.
pub fn weigh_issues(left: &Issue, right: &Issue) -> (r: Order)
    ensures
        r == dispatch_order(left@, right@),
{
    match weigh_times(left.created_at, right.created_at) {
        Order::Same => match weigh_priorities(left.priority, right.priority) {
            Order::Same => weigh_texts(left.identifier.as_str(), right.identifier.as_str()),
            other => other,
        },
        other => other,
    }
}

/// The ordering of the standard library for an order.
pub open spec fn std_ordering(o: Order) -> Ordering {
    match o {
        Order::Before => Ordering::Less,
        Order::Same => Ordering::Equal,
        Order::After => Ordering::Greater,
    }
}

fn to_ordering(o: Order) -> (r: Ordering)
    ensures
        r == std_ordering(o),
{
    match o {
        Order::Before => Ordering::Less,
        Order::Same => Ordering::Equal,
        Order::After => Ordering::Greater,
    }
}

/// How two priorities compare.
pub fn compare_priority(left: Option<i64>, right: Option<i64>) -> (r: Ordering)
    ensures
        r == std_ordering(priority_order(left, right)),
{
    to_ordering(weigh_priorities(left, right))
}

/// How two issues compare for dispatch.
pub fn sort_issues_for_dispatch(left: &Issue, right: &Issue) -> (r: Ordering)
    ensures
        r == std_ordering(dispatch_order(left@, right@)),
{
    to_ordering(weigh_issues(left, right))
}

// ---------------------------------------------------------------------------
// Sorting
// ---------------------------------------------------------------------------

/// `s` with `x` put in: behind every issue that does not come after it.
pub open spec fn inserted(s: Seq<IssueView>, x: IssueView) -> Seq<IssueView>
    decreases s.len(),
{
    if s.len() > 0 && dispatch_order(s.last(), x) == Order::After {
        inserted(s.drop_last(), x).push(s.last())
    } else {
        s.push(x)
    }
}

/// `s` in dispatch order; issues that compare equal keep their order.
pub open spec fn sorted(s: Seq<IssueView>) -> Seq<IssueView>
    decreases s.len(),
{
    if s.len() == 0 {
        s
    } else {
        inserted(sorted(s.drop_last()), s.last())
    }
}

fn insert_sorted(v: &mut Vec<Issue>, x: Issue)
    ensures
        issue_views(final(v)@) == inserted(issue_views(old(v)@), x@),
{
    let ghost s = issue_views(v@);
    let ghost before = v@;
    let mut p: usize = v.len();
    assert(s.take(p as int) =~= s);
    assert(inserted(s.take(p as int), x@) + s.skip(p as int) =~= inserted(s, x@));
    while p > 0 && is_after(&v[p - 1], &x)
        invariant
            v@ == before,
            s == issue_views(before),
            p <= v@.len(),
            inserted(s, x@) == inserted(s.take(p as int), x@) + s.skip(p as int),
        decreases p,
    {
        proof {
            assert(s.take(p as int).last() == v@[p - 1]@);
            assert(s.take(p as int).drop_last() =~= s.take(p - 1));
            assert(inserted(s.take(p - 1), x@).push(s[p - 1]) + s.skip(p as int) =~= inserted(
                s.take(p - 1),
                x@,
            ) + s.skip(p - 1));
        }
        p = p - 1;
    }
    proof {
        if p > 0 {
            assert(s.take(p as int).last() == v@[p - 1]@);
        }
        assert(inserted(s.take(p as int), x@) == s.take(p as int).push(x@));
    }
    v.insert(p, x);
    assert(issue_views(v@) =~= s.take(p as int).push(x@) + s.skip(p as int));
}

fn is_after(a: &Issue, b: &Issue) -> (r: bool)
    ensures
        r == (dispatch_order(a@, b@) == Order::After),
{
    match weigh_issues(a, b) {
        Order::After => true,
        _ => false,
    }
}

// ---------------------------------------------------------------------------
// Grouping by project
// ---------------------------------------------------------------------------

/// The issues of a project, in the order in which they came.
pub open spec fn members(s: Seq<IssueView>, slug: Option<Seq<char>>) -> Seq<IssueView>
    decreases s.len(),
{
    if s.len() == 0 {
        s
    } else if s.last().slug() == slug {
        members(s.drop_last(), slug).push(s.last())
    } else {
        members(s.drop_last(), slug)
    }
}

/// The issues of a project in dispatch order.
pub open spec fn group(s: Seq<IssueView>, slug: Option<Seq<char>>) -> Seq<IssueView> {
    sorted(members(s, slug))
}

/// When the first issue of a project was made.
pub open spec fn oldest(s: Seq<IssueView>, slug: Option<Seq<char>>) -> Option<Timestamp> {
    if group(s, slug).len() == 0 {
        None
    } else {
        group(s, slug)[0].created_at
    }
}

/// The groups of the projects `slugs`, one after the other.
pub open spec fn groups(s: Seq<IssueView>, slugs: Seq<Option<Seq<char>>>) -> Seq<IssueView>
    decreases slugs.len(),
{
    if slugs.len() == 0 {
        Seq::empty()
    } else {
        groups(s, slugs.drop_last()) + group(s, slugs.last())
    }
}

/// Whether some issue of `s` belongs to the project.
pub open spec fn has_project(s: Seq<IssueView>, slug: Option<Seq<char>>) -> bool {
    exists|i: int| 0 <= i < s.len() && (#[trigger] s[i]).slug() == slug
}

/// Whether the project at place `i` stands first because agents already work on it.
pub open spec fn stands_first(
    slugs: Seq<Option<Seq<char>>>,
    active: Option<Seq<char>>,
    i: int,
) -> bool {
    i == 0 && active is Some && slugs[0] == active
}

/// An order of the projects of `s`: each stands there once; the active project, if
/// it is among them, stands first; of any two others, the one with the older first
/// issue comes first. Projects whose first issues are equally old may come in
/// either order.
pub open spec fn is_project_order(
    s: Seq<IssueView>,
    active: Option<Seq<char>>,
    slugs: Seq<Option<Seq<char>>>,
) -> bool {
    &&& slugs.no_duplicates()
    &&& forall|k: Option<Seq<char>>| slugs.contains(k) <==> #[trigger] has_project(s, k)
    &&& active is Some && has_project(s, active) ==> slugs[0] == active
    &&& forall|i: int, j: int|
        0 <= i < j < slugs.len() && !stands_first(slugs, active, i) ==> time_order(
            oldest(s, #[trigger] slugs[i]),
            oldest(s, #[trigger] slugs[j]),
        ) != Order::After
}

fn same_slug(a: &Option<String>, b: &Option<String>) -> (r: bool)
    ensures
        r == (opt_text(*a) == opt_text(*b)),
{
    match (a, b) {
        (Some(x), Some(y)) => same_text(x.as_str(), y.as_str()),
        (None, None) => true,
        _ => false,
    }
}

/// The views of a sequence of slugs.
pub open spec fn slug_views(s: Seq<Option<String>>) -> Seq<Option<Seq<char>>> {
    Seq::new(s.len(), |i: int| opt_text(s[i]))
}

fn collect_group(candidates: &Vec<Issue>, slug: &Option<String>) -> (r: Vec<Issue>)
    ensures
        issue_views(r@) == group(issue_views(candidates@), opt_text(*slug)),
{
    let ghost s = issue_views(candidates@);
    let ghost key = opt_text(*slug);
    let mut out: Vec<Issue> = Vec::new();
    let mut i: usize = 0;
    assert(issue_views(out@) =~= sorted(members(s.take(0), key)));
    while i < candidates.len()
        invariant
            i <= candidates@.len(),
            s == issue_views(candidates@),
            key == opt_text(*slug),
            issue_views(out@) == sorted(members(s.take(i as int), key)),
        decreases candidates@.len() - i,
    {
        let issue = &candidates[i];
        let own = project_slug(issue);
        proof {
            let next = s.take(i + 1);
            assert(next.drop_last() =~= s.take(i as int));
            assert(next.last() == issue@);
            if issue@.slug() == key {
                let m = members(next, key);
                assert(m.drop_last() =~= members(s.take(i as int), key));
            }
        }
        if same_slug(&own, slug) {
            insert_sorted(&mut out, clone_issue(issue));
        }
        i = i + 1;
    }
    assert(s.take(i as int) =~= s);
    out
}

fn first_created(v: &Vec<Issue>) -> (r: Option<Timestamp>)
    ensures
        r == if v@.len() == 0 {
            None
        } else {
            v@[0].created_at
        },
{
    if v.len() == 0 {
        None
    } else {
        v[0].created_at
    }
}

fn has_slug(slugs: &Vec<Option<String>>, slug: &Option<String>) -> (r: bool)
    ensures
        r == slug_views(slugs@).contains(opt_text(*slug)),
{
    let mut i: usize = 0;
    while i < slugs.len()
        invariant
            i <= slugs@.len(),
            forall|k: int| 0 <= k < i ==> slug_views(slugs@)[k] != opt_text(*slug),
        decreases slugs@.len() - i,
    {
        if same_slug(&slugs[i], slug) {
            assert(slug_views(slugs@)[i as int] == opt_text(*slug));
            return true;
        }
        i = i + 1;
    }
    false
}

fn is_older(a: Option<Timestamp>, b: Option<Timestamp>) -> (r: bool)
    ensures
        r == (time_order(a, b) == Order::Before),
{
    match weigh_times(a, b) {
        Order::Before => true,
        _ => false,
    }
}

/// Whether `a` is no later than `b`.
pub open spec fn no_later(a: Option<Timestamp>, b: Option<Timestamp>) -> bool {
    time_order(a, b) != Order::After
}

/// The groups that have been collected: the projects, how old their first issues
/// are, and their issues.
struct Collected {
    slugs: Vec<Option<String>>,
    ages: Vec<Option<Timestamp>>,
    parts: Vec<Vec<Issue>>,
}

impl Collected {
    spec fn wf(&self, s: Seq<IssueView>) -> bool {
        &&& self.ages@.len() == self.slugs@.len()
        &&& self.parts@.len() == self.slugs@.len()
        &&& slug_views(self.slugs@).no_duplicates()
        &&& forall|k: int|
            0 <= k < self.slugs@.len() ==> {
                &&& issue_views((#[trigger] self.parts@[k])@) == group(s, slug_views(self.slugs@)[k])
                &&& self.ages@[k] == oldest(s, slug_views(self.slugs@)[k])
                &&& has_project(s, slug_views(self.slugs@)[k])
            }
        &&& forall|a: int, b: int|
            0 <= a < b < self.ages@.len() ==> no_later(
                #[trigger] self.ages@[a],
                #[trigger] self.ages@[b],
            )
    }

    proof fn at(&self, s: Seq<IssueView>, k: int)
        requires
            self.wf(s),
            0 <= k < self.slugs@.len(),
        ensures
            issue_views(self.parts@[k]@) == group(s, slug_views(self.slugs@)[k]),
            self.ages@[k] == oldest(s, slug_views(self.slugs@)[k]),
            has_project(s, slug_views(self.slugs@)[k]),
    {
        assert(issue_views(self.parts@[k]@) == group(s, slug_views(self.slugs@)[k]));
    }

    /// Puts a group behind all groups that are no younger.
    #[verifier::spinoff_prover]
    fn add_group(&mut self, Ghost(s): Ghost<Seq<IssueView>>, slug: Option<String>, part: Vec<Issue>)
        requires
            old(self).wf(s),
            !slug_views(old(self).slugs@).contains(opt_text(slug)),
            has_project(s, opt_text(slug)),
            issue_views(part@) == group(s, opt_text(slug)),
        ensures
            final(self).wf(s),
            forall|k: Option<Seq<char>>|
                #![trigger slug_views(final(self).slugs@).contains(k)]
                slug_views(final(self).slugs@).contains(k) == (slug_views(
                    old(self).slugs@,
                ).contains(k) || k == opt_text(slug)),
    {
        let ghost before = *self;
        let age = first_created(&part);
        assert(part@.len() > 0 ==> issue_views(part@)[0] == part@[0]@);
        assert(issue_views(part@).len() == part@.len());
        assert(age == oldest(s, opt_text(slug)));
        let mut p: usize = self.ages.len();
        while p > 0 && is_older(age, self.ages[p - 1])
            invariant
                *self == before,
                before.wf(s),
                p <= self.ages@.len(),
                forall|k: int|
                    p <= k < self.ages@.len() ==> time_order(age, #[trigger] self.ages@[k])
                        == Order::Before,
            decreases p,
        {
            p = p - 1;
        }
        proof {
            assert forall|k: int| 0 <= k < p implies no_later(#[trigger] self.ages@[k], age) by {
                assert(no_later(self.ages@[p - 1], age));
                if k < p - 1 {
                    assert(no_later(self.ages@[k], self.ages@[p - 1]));
                }
            }
        }
        self.slugs.insert(p, slug);
        self.ages.insert(p, age);
        self.parts.insert(p, part);
        proof {
            let old_slugs = slug_views(before.slugs@);
            let new_slugs = slug_views(self.slugs@);
            assert(new_slugs =~= old_slugs.insert(p as int, opt_text(slug)));
            assert forall|k: int| 0 <= k < self.slugs@.len() implies {
                &&& issue_views((#[trigger] self.parts@[k])@) == group(s, new_slugs[k])
                &&& self.ages@[k] == oldest(s, new_slugs[k])
                &&& has_project(s, new_slugs[k])
            } by {
                let k0 = if k < p { k } else { k - 1 };
                if k != p {
                    before.at(s, k0);
                    assert(self.parts@[k] == before.parts@[k0]);
                    assert(new_slugs[k] == old_slugs[k0]);
                    assert(self.ages@[k] == before.ages@[k0]);
                } else {
                    assert(self.parts@[k] == part);
                    assert(new_slugs[k] == opt_text(slug));
                    assert(self.ages@[k] == age);
                }
            }
            assert forall|a: int, b: int| 0 <= a < b < self.ages@.len() implies no_later(
                #[trigger] self.ages@[a],
                #[trigger] self.ages@[b],
            ) by {
                let a0 = if a < p { a } else { a - 1 };
                let b0 = if b < p { b } else { b - 1 };
                if a != p {
                    assert(self.ages@[a] == before.ages@[a0]);
                }
                if b != p {
                    assert(self.ages@[b] == before.ages@[b0]);
                }
                if a != p && b != p {
                    assert(no_later(before.ages@[a0], before.ages@[b0]));
                } else if a != p {
                    assert(no_later(before.ages@[a], age));
                } else {
                    assert(time_order(age, before.ages@[b0]) == Order::Before);
                }
            }
            assert forall|a: int, b: int|
                0 <= a < new_slugs.len() && 0 <= b < new_slugs.len() && a != b implies new_slugs[a]
                != new_slugs[b] by {
                let a0 = if a < p { a } else { a - 1 };
                let b0 = if b < p { b } else { b - 1 };
                if a != p {
                    assert(new_slugs[a] == old_slugs[a0]);
                }
                if b != p {
                    assert(new_slugs[b] == old_slugs[b0]);
                }
                if a == p || b == p {
                    assert(old_slugs.contains(old_slugs[if a == p {
                        b0
                    } else {
                        a0
                    }]));
                }
            }
            assert(new_slugs.no_duplicates());
            assert(self.wf(s));
            assert forall|k: Option<Seq<char>>|
                #![trigger new_slugs.contains(k)]
                new_slugs.contains(k) == (old_slugs.contains(k) || k == opt_text(slug)) by {
                if old_slugs.contains(k) {
                    let i = old_slugs.index_of(k);
                    let j = if i < p { i } else { i + 1 };
                    assert(new_slugs[j] == k);
                }
                if k == opt_text(slug) {
                    assert(new_slugs[p as int] == k);
                }
                if new_slugs.contains(k) && k != opt_text(slug) {
                    let j = new_slugs.index_of(k);
                    let i = if j < p { j } else { j - 1 };
                    assert(old_slugs[i] == k);
                }
            }
        }
    }
}

/// The candidates in the order in which they are dispatched, given the project that
/// agents already work on.
pub fn order_candidates(candidates: &Vec<Issue>, active: &Option<String>) -> (r: Vec<Issue>)
    ensures
        exists|slugs: Seq<Option<Seq<char>>>|
            is_project_order(issue_views(candidates@), opt_text(*active), slugs) && issue_views(r@)
                == #[trigger] groups(issue_views(candidates@), slugs),
{
    let ghost s = issue_views(candidates@);
    let ghost act = opt_text(*active);
    let mut first: Vec<Issue> = Vec::new();
    let mut found: bool = false;
    let mut rest = Collected { slugs: Vec::new(), ages: Vec::new(), parts: Vec::new() };
    let mut i: usize = 0;
    while i < candidates.len()
        invariant
            i <= candidates@.len(),
            s == issue_views(candidates@),
            act == opt_text(*active),
            rest.wf(s),
            act is Some ==> !slug_views(rest.slugs@).contains(act),
            found ==> act is Some && has_project(s, act) && issue_views(first@) == group(s, act),
            !found ==> first@.len() == 0,
            forall|j: int|
                0 <= j < i ==> slug_views(rest.slugs@).contains((#[trigger] s[j]).slug()) || found
                    && s[j].slug() == act,
        decreases candidates@.len() - i,
    {
        let slug = project_slug(&candidates[i]);
        assert(s[i as int] == candidates@[i as int]@);
        assert(has_project(s, opt_text(slug)));
        if active.is_some() && same_slug(&slug, active) {
            if !found {
                first = collect_group(candidates, &slug);
                found = true;
            }
        } else if !has_slug(&rest.slugs, &slug) {
            let part = collect_group(candidates, &slug);
            rest.add_group(Ghost(s), slug, part);
        }
        i = i + 1;
    }
    let ghost tail = slug_views(rest.slugs@);
    let ghost slugs = if found {
        seq![act] + tail
    } else {
        tail
    };
    let ghost base: int = if found {
        1
    } else {
        0
    };
    proof {
        assert(slugs.no_duplicates());
        assert forall|k: Option<Seq<char>>| slugs.contains(k) <==> #[trigger] has_project(s, k) by {
            if slugs.contains(k) {
                let p = slugs.index_of(k);
                if p >= base {
                    assert(tail[p - base] == k);
                    rest.at(s, p - base);
                }
            }
            if has_project(s, k) {
                let j = choose|j: int| 0 <= j < s.len() && (#[trigger] s[j]).slug() == k;
                if tail.contains(k) {
                    let p = tail.index_of(k);
                    assert(slugs[p + base] == k);
                } else {
                    assert(slugs[0] == k);
                }
            }
        }
        assert forall|a: int, b: int|
            0 <= a < b < slugs.len() && !stands_first(slugs, act, a) implies time_order(
            oldest(s, #[trigger] slugs[a]),
            oldest(s, #[trigger] slugs[b]),
        ) != Order::After by {
            assert(a >= base);
            assert(slugs[a] == tail[a - base] && slugs[b] == tail[b - base]);
            rest.at(s, a - base);
            rest.at(s, b - base);
            assert(no_later(rest.ages@[a - base], rest.ages@[b - base]));
        }
        if act is Some && has_project(s, act) {
            assert(slugs.contains(act));
            assert(!tail.contains(act));
            assert(found) by {
                if !found {
                    assert(slugs == tail);
                }
            }
        }
        assert(is_project_order(s, act, slugs));
        assert(slugs.take(base) =~= if found { seq![act] } else { Seq::empty() });
        if found {
            assert(seq![act].drop_last() =~= Seq::<Option<Seq<char>>>::empty());
            assert(groups(s, Seq::<Option<Seq<char>>>::empty()) =~= Seq::<IssueView>::empty());
            assert(groups(s, seq![act]) =~= group(s, act));
        } else {
            assert(issue_views(first@) =~= Seq::<IssueView>::empty());
        }
    }
    let mut out = first;
    let ghost parts = rest.parts@;
    let ghost done: int = 0;
    assert(parts.skip(0) =~= parts);
    while rest.parts.len() > 0
        invariant
            0 <= done <= parts.len(),
            rest.parts@ == parts.skip(done),
            parts.len() == tail.len(),
            slugs.len() == base + tail.len(),
            forall|k: int| 0 <= k < tail.len() ==> slugs[base + k] == #[trigger] tail[k],
            forall|k: int|
                0 <= k < parts.len() ==> issue_views((#[trigger] parts[k])@) == group(s, tail[k]),
            issue_views(out@) == groups(s, slugs.take(base + done)),
            0 <= base <= 1,
        decreases rest.parts@.len(),
    {
        let mut part = rest.parts.remove(0);
        let ghost before = issue_views(out@);
        let ghost piece = issue_views(part@);
        out.append(&mut part);
        proof {
            assert(issue_views(out@) =~= before + piece);
            let next = slugs.take(base + done + 1);
            assert(next.drop_last() =~= slugs.take(base + done));
            assert(next.last() == tail[done]);
            assert(rest.parts@ =~= parts.skip(done + 1));
            done = done + 1;
        }
    }
    assert(slugs.take(base + done) =~= slugs);
    out
}

// ---------------------------------------------------------------------------
// Laws
// ---------------------------------------------------------------------------

/// The order seen from the other side.
pub open spec fn flipped(o: Order) -> Order {
    match o {
        Order::Before => Order::After,
        Order::Same => Order::Same,
        Order::After => Order::Before,
    }
}

/// Texts are totally ordered: only equal texts compare equal, the order of two
/// texts does not depend on the side, and it carries over.
pub proof fn text_order_is_total(a: Seq<char>, b: Seq<char>, c: Seq<char>)
    ensures
        text_order(b, a) == flipped(text_order(a, b)),
        text_order(a, b) == Order::Same <==> a == b,
        text_order(a, b) != Order::After && text_order(b, c) != Order::After ==> text_order(a, c)
            != Order::After,
    decreases a.len() + b.len() + c.len(),
{
    if a.len() > 0 && b.len() > 0 && c.len() > 0 {
        text_order_is_total(a.drop_first(), b.drop_first(), c.drop_first());
    } else if a.len() > 0 && b.len() > 0 {
        text_order_is_total(a.drop_first(), b.drop_first(), c);
    }
    if a.len() > 0 && b.len() > 0 && a[0] == b[0] {
        if a.drop_first() == b.drop_first() {
            assert(a =~= seq![a[0]] + a.drop_first());
            assert(b =~= seq![b[0]] + b.drop_first());
        }
    }
    if a.len() == 0 && b.len() == 0 {
        assert(a =~= b);
    }
}

/// Issues are totally ordered, but for those that agree in age, priority and
/// identifier.
pub proof fn dispatch_order_is_total(a: IssueView, b: IssueView, c: IssueView)
    ensures
        dispatch_order(b, a) == flipped(dispatch_order(a, b)),
        dispatch_order(a, b) == Order::Same ==> a.priority == b.priority && a.identifier
            == b.identifier && a.created_at == b.created_at,
        dispatch_order(a, b) != Order::After && dispatch_order(b, c) != Order::After
            ==> dispatch_order(a, c) != Order::After,
{
    text_order_is_total(a.identifier, b.identifier, c.identifier);
    text_order_is_total(b.identifier, a.identifier, c.identifier);
    text_order_is_total(b.identifier, c.identifier, a.identifier);
    text_order_is_total(a.identifier, c.identifier, b.identifier);
}

/// Whether `a` may stand before `b`.
#[verifier::opaque]
pub open spec fn may_precede(a: IssueView, b: IssueView) -> bool {
    dispatch_order(a, b) != Order::After
}

/// Of any two issues one may stand before the other, and this carries over.
pub proof fn precedence_is_total(a: IssueView, b: IssueView, c: IssueView)
    ensures
        may_precede(a, b) || may_precede(b, a),
        may_precede(a, b) && may_precede(b, c) ==> may_precede(a, c),
{
    reveal(may_precede);
    dispatch_order_is_total(a, b, c);
}

/// Whether no issue stands before one that is to be dispatched earlier.
pub open spec fn in_order(s: Seq<IssueView>) -> bool {
    forall|i: int, j: int|
        0 <= i < j < s.len() ==> may_precede(#[trigger] s[i], #[trigger] s[j])
}

proof fn inserted_shape(s: Seq<IssueView>, x: IssueView) -> (p: int)
    ensures
        0 <= p <= s.len(),
        inserted(s, x) == s.take(p).push(x) + s.skip(p),
        forall|k: int| p <= k < s.len() ==> !may_precede(#[trigger] s[k], x),
        p > 0 ==> may_precede(s[p - 1], x),
    decreases s.len(),
{
    reveal(may_precede);
    if s.len() > 0 && dispatch_order(s.last(), x) == Order::After {
        let rest = s.drop_last();
        let p = inserted_shape(rest, x);
        assert forall|k: int| p <= k < s.len() implies !may_precede(
            #[trigger] s[k],
            x,
        ) by {
            if k < rest.len() {
                assert(rest[k] == s[k]);
            }
        }
        assert(inserted(s, x) =~= s.take(p).push(x) + s.skip(p));
        if p > 0 {
            assert(rest[p - 1] == s[p - 1]);
        }
        p
    } else {
        assert(inserted(s, x) =~= s.take(s.len() as int).push(x) + s.skip(s.len() as int));
        s.len() as int
    }
}

proof fn inserted_in_order(s: Seq<IssueView>, x: IssueView)
    requires
        in_order(s),
    ensures
        in_order(inserted(s, x)),
        inserted(s, x).len() == s.len() + 1,
{
    let p = inserted_shape(s, x);
    let r = inserted(s, x);
    assert forall|i: int, j: int| 0 <= i < j < r.len() implies may_precede(
        #[trigger] r[i],
        #[trigger] r[j],
    ) by {
        let i0 = if i < p { i } else { i - 1 };
        let j0 = if j < p { j } else { j - 1 };
        if i == p {
            assert(r[i] == x && r[j] == s[j0]);
            precedence_is_total(s[j0], x, x);
        } else if j == p {
            assert(r[i] == s[i0] && r[j] == x);
            if i0 < p - 1 {
                assert(may_precede(s[i0], s[p - 1]));
                precedence_is_total(s[i0], s[p - 1], x);
            }
        } else {
            assert(r[i] == s[i0] && r[j] == s[j0]);
        }
    }
}

proof fn inserted_count(s: Seq<IssueView>, x: IssueView)
    ensures
        inserted(s, x).to_multiset() == s.to_multiset().insert(x),
{
    broadcast use vstd::seq_lib::group_to_multiset_ensures;

    let p = inserted_shape(s, x);
    let a = s.take(p);
    let b = s.skip(p);
    vstd::seq_lib::lemma_multiset_commutative(a.push(x), b);
    vstd::seq_lib::lemma_multiset_commutative(a, b);
    assert(s =~= a + b);
    assert(inserted(s, x).to_multiset() =~= s.to_multiset().insert(x));
}

/// Sorting puts issues in order, and neither loses nor adds any.
pub proof fn sorted_is_in_order(s: Seq<IssueView>)
    ensures
        in_order(sorted(s)),
        sorted(s).to_multiset() == s.to_multiset(),
        sorted(s).len() == s.len(),
    decreases s.len(),
{
    broadcast use vstd::seq_lib::group_to_multiset_ensures;

    if s.len() > 0 {
        sorted_is_in_order(s.drop_last());
        inserted_in_order(sorted(s.drop_last()), s.last());
        inserted_count(sorted(s.drop_last()), s.last());
        assert(s =~= s.drop_last().push(s.last()));
    }
}

proof fn members_count(s: Seq<IssueView>, slug: Option<Seq<char>>, x: IssueView)
    ensures
        members(s, slug).to_multiset().count(x) == if x.slug() == slug {
            s.to_multiset().count(x)
        } else {
            0
        },
        forall|i: int|
            0 <= i < members(s, slug).len() ==> (#[trigger] members(s, slug)[i]).slug() == slug,
    decreases s.len(),
{
    broadcast use vstd::seq_lib::group_to_multiset_ensures;

    if s.len() > 0 {
        let rest = s.drop_last();
        members_count(rest, slug, x);
        assert(s =~= rest.push(s.last()));
        assert(s.to_multiset() =~= rest.to_multiset().insert(s.last()));
        if s.last().slug() == slug {
            let m = members(rest, slug);
            assert(members(s, slug).to_multiset() =~= m.to_multiset().insert(s.last()));
            assert forall|i: int| 0 <= i < members(s, slug).len() implies (#[trigger] members(
                s,
                slug,
            )[i]).slug() == slug by {
                if i < m.len() {
                    assert(members(s, slug)[i] == m[i]);
                }
            }
        }
    } else {
        assert(s.to_multiset() =~= Multiset::<IssueView>::empty());
    }
}

proof fn groups_count(s: Seq<IssueView>, slugs: Seq<Option<Seq<char>>>, x: IssueView)
    requires
        slugs.no_duplicates(),
    ensures
        groups(s, slugs).to_multiset().count(x) == if slugs.contains(x.slug()) {
            s.to_multiset().count(x)
        } else {
            0
        },
    decreases slugs.len(),
{
    broadcast use vstd::seq_lib::group_to_multiset_ensures;

    if slugs.len() > 0 {
        let rest = slugs.drop_last();
        let last = slugs.last();
        groups_count(s, rest, x);
        members_count(s, last, x);
        sorted_is_in_order(members(s, last));
        vstd::seq_lib::lemma_multiset_commutative(groups(s, rest), group(s, last));
        assert(slugs.contains(x.slug()) == (rest.contains(x.slug()) || x.slug() == last)) by {
            if rest.contains(x.slug()) {
                let i = rest.index_of(x.slug());
                assert(slugs[i] == x.slug());
            }
            if x.slug() == last {
                assert(slugs[slugs.len() - 1] == last);
            }
            if slugs.contains(x.slug()) && x.slug() != last {
                let i = slugs.index_of(x.slug());
                assert(rest[i] == x.slug());
            }
        }
        if rest.contains(last) {
            let i = rest.index_of(last);
            assert(slugs[i] == slugs[slugs.len() - 1]);
            assert(false);
        }
    } else {
        assert(groups(s, slugs).to_multiset() =~= Multiset::<IssueView>::empty());
    }
}

/// Ordering the candidates neither loses nor adds any.
pub proof fn ordering_keeps_candidates(
    s: Seq<IssueView>,
    active: Option<Seq<char>>,
    slugs: Seq<Option<Seq<char>>>,
)
    requires
        is_project_order(s, active, slugs),
    ensures
        groups(s, slugs).to_multiset() == s.to_multiset(),
{
    broadcast use vstd::seq_lib::group_to_multiset_ensures;

    assert forall|x: IssueView| #[trigger]
        groups(s, slugs).to_multiset().count(x) == s.to_multiset().count(x) by {
        groups_count(s, slugs, x);
        if !slugs.contains(x.slug()) {
            assert(!has_project(s, x.slug()));
            if s.to_multiset().count(x) > 0 {
                assert(s.contains(x));
                let i = s.index_of(x);
                assert(s[i].slug() == x.slug());
            }
        }
    }
    assert(groups(s, slugs).to_multiset() =~= s.to_multiset());
}

proof fn groups_place(s: Seq<IssueView>, slugs: Seq<Option<Seq<char>>>, i: int) -> (p: (int, int))
    requires
        0 <= i < groups(s, slugs).len(),
    ensures
        0 <= p.0 < slugs.len(),
        0 <= p.1 < group(s, slugs[p.0]).len(),
        groups(s, slugs)[i] == group(s, slugs[p.0])[p.1],
        groups(s, slugs)[i].slug() == slugs[p.0],
        i == groups(s, slugs.take(p.0)).len() + p.1,
    decreases slugs.len(),
{
    broadcast use vstd::seq_lib::group_to_multiset_ensures;

    let rest = slugs.drop_last();
    let before = groups(s, rest);
    if i < before.len() {
        let p = groups_place(s, rest, i);
        assert(rest.take(p.0) =~= slugs.take(p.0));
        p
    } else {
        let k = slugs.len() - 1;
        let g = group(s, slugs[k]);
        assert(rest =~= slugs.take(k));
        let x = g[i - before.len()];
        assert(g.contains(x));
        sorted_is_in_order(members(s, slugs[k]));
        members_count(s, slugs[k], x);
        assert(g.to_multiset().count(x) > 0);
        (k, i - before.len())
    }
}

proof fn groups_grow(s: Seq<IssueView>, slugs: Seq<Option<Seq<char>>>, a: int, b: int)
    requires
        0 <= a < b <= slugs.len(),
    ensures
        groups(s, slugs.take(a)).len() + group(s, slugs[a]).len() <= groups(
            s,
            slugs.take(b),
        ).len(),
    decreases b - a,
{
    assert(slugs.take(b).drop_last() =~= slugs.take(b - 1));
    if a < b - 1 {
        groups_grow(s, slugs, a, b - 1);
    }
}

/// Projects are worked on one after the other: between two issues of a project
/// stands no issue of another one, and the issues of a project stand in order.
pub proof fn projects_stay_together(
    s: Seq<IssueView>,
    active: Option<Seq<char>>,
    slugs: Seq<Option<Seq<char>>>,
    i: int,
    j: int,
    k: int,
)
    requires
        is_project_order(s, active, slugs),
        0 <= i < j < k < groups(s, slugs).len(),
        groups(s, slugs)[i].slug() == groups(s, slugs)[k].slug(),
    ensures
        groups(s, slugs)[j].slug() == groups(s, slugs)[i].slug(),
        may_precede(groups(s, slugs)[i], groups(s, slugs)[j]),
{
    let a = groups_place(s, slugs, i);
    let b = groups_place(s, slugs, j);
    let c = groups_place(s, slugs, k);
    assert(slugs[a.0] == slugs[c.0]);
    assert(a.0 == c.0);
    if b.0 < a.0 {
        groups_grow(s, slugs, b.0, a.0);
    }
    if c.0 < b.0 {
        groups_grow(s, slugs, c.0, b.0);
    }
    assert(b.0 == a.0);
    sorted_is_in_order(members(s, slugs[a.0]));
}

/// The project that agents already work on goes first.
pub proof fn active_project_goes_first(
    s: Seq<IssueView>,
    slug: Seq<char>,
    slugs: Seq<Option<Seq<char>>>,
    i: int,
    j: int,
)
    requires
        is_project_order(s, Some(slug), slugs),
        0 <= i < j < groups(s, slugs).len(),
        groups(s, slugs)[j].slug() == Some(slug),
    ensures
        groups(s, slugs)[i].slug() == Some(slug),
{
    let a = groups_place(s, slugs, i);
    let b = groups_place(s, slugs, j);
    assert(slugs.contains(slugs[b.0]));
    assert(has_project(s, Some(slug)));
    assert(slugs[0] == Some(slug));
    assert(b.0 == 0);
    if a.0 > 0 {
        groups_grow(s, slugs, 0, a.0);
    }
}

/// Whether `a` sorts before `b`: at the first place where they differ it has the smaller
/// character, or it ends there.
pub open spec fn sorts_before(a: Seq<char>, b: Seq<char>) -> bool {
    exists|k: int|
        0 <= k <= a.len() && k < b.len() && #[trigger] a.take(k) == b.take(k) && (k == a.len()
            || a[k] < b[k])
}

proof fn text_order_finds_the_difference(a: Seq<char>, b: Seq<char>, k: int)
    requires
        0 <= k <= a.len(),
        k < b.len(),
        a.take(k) == b.take(k),
        k == a.len() || a[k] < b[k],
    ensures
        text_order(a, b) == Order::Before,
    decreases k,
{
    if k > 0 {
        assert(a[0] == a.take(k)[0] && b[0] == b.take(k)[0]);
        let x = a.drop_first();
        let y = b.drop_first();
        assert(x.take(k - 1) =~= a.take(k).drop_first());
        assert(y.take(k - 1) =~= b.take(k).drop_first());
        text_order_finds_the_difference(x, y, k - 1);
    }
}

/// The oldest comes first; an issue whose age is not known comes before all of known
/// age. Of two of the same age the one with the smaller priority comes first, and one
/// without a priority last. Of two that agree in both, the one whose identifier sorts
/// first.
pub proof fn oldest_then_most_urgent_goes_first(a: IssueView, b: IssueView)
    ensures
        a.created_at is None && b.created_at is Some ==> dispatch_order(a, b) == Order::Before,
        a.created_at is Some && b.created_at is Some && (a.created_at->Some_0.secs
            < b.created_at->Some_0.secs || (a.created_at->Some_0.secs == b.created_at->Some_0.secs
            && a.created_at->Some_0.nanos < b.created_at->Some_0.nanos)) ==> dispatch_order(a, b)
            == Order::Before,
        a.created_at == b.created_at && a.priority is Some && b.priority is Some
            && a.priority->Some_0 < b.priority->Some_0 ==> dispatch_order(a, b) == Order::Before,
        a.created_at == b.created_at && a.priority is Some && b.priority is None ==> dispatch_order(
            a,
            b,
        ) == Order::Before,
        a.created_at == b.created_at && a.priority == b.priority && sorts_before(
            a.identifier,
            b.identifier,
        ) ==> dispatch_order(a, b) == Order::Before,
        a.created_at == b.created_at && a.priority == b.priority && a.identifier == b.identifier
            ==> dispatch_order(a, b) == Order::Same,
{
    let (x, y) = (a.identifier, b.identifier);
    text_order_is_total(x, y, y);
    if sorts_before(x, y) {
        let k = choose|k: int|
            0 <= k <= x.len() && k < y.len() && #[trigger] x.take(k) == y.take(k) && (k == x.len()
                || x[k] < y[k]);
        text_order_finds_the_difference(x, y, k);
    }
}

/// An issue that comes later is sorted in behind all that may stand before it, and
/// before the others; so issues that compare equal keep the order in which they came.
pub proof fn latecomer_goes_behind_its_equals(s: Seq<IssueView>, x: IssueView) -> (p: int)
    ensures
        0 <= p <= sorted(s).len(),
        sorted(s.push(x)) == sorted(s).take(p).push(x) + sorted(s).skip(p),
        forall|k: int| 0 <= k < p ==> may_precede(#[trigger] sorted(s)[k], x),
        forall|k: int| p <= k < sorted(s).len() ==> !may_precede(#[trigger] sorted(s)[k], x),
{
    assert(s.push(x).drop_last() =~= s);
    let t = sorted(s);
    let p = inserted_shape(t, x);
    sorted_is_in_order(s);
    assert forall|k: int| 0 <= k < p implies may_precede(#[trigger] t[k], x) by {
        if k < p - 1 {
            assert(may_precede(t[k], t[p - 1]));
            precedence_is_total(t[k], t[p - 1], x);
        }
    }
    p
}

/// A project other than the active one goes before another only where its oldest issue
/// is no younger, and an unknown age counts as oldest.
pub proof fn older_projects_go_first(
    s: Seq<IssueView>,
    active: Option<Seq<char>>,
    slugs: Seq<Option<Seq<char>>>,
    i: int,
    j: int,
)
    requires
        is_project_order(s, active, slugs),
        0 <= i < j < slugs.len(),
        active is None || slugs[i] != active,
        group(s, slugs[i]).len() > 0,
        group(s, slugs[j]).len() > 0,
    ensures
        ({
            let a = group(s, slugs[i])[0].created_at;
            let b = group(s, slugs[j])[0].created_at;
            a is None || (b is Some && (a->Some_0.secs < b->Some_0.secs || (a->Some_0.secs
                == b->Some_0.secs && a->Some_0.nanos <= b->Some_0.nanos)))
        }),
{
}

} // verus!
