//! What holds of every sequence of creation requests.
//!
//! A [`Request`] is one call of either creation path, taken by its value. The
//! requests that a registry serves one after another form a sequence, and
//! [`records_after_all`] and [`replies_to_all`] say what the registry holds
//! and has answered at its end, by the same two functions that specify
//! [`create_user_vulnerable`](crate::service::create_user_vulnerable) and
//! [`create_user_secure`](crate::service::create_user_secure). Requests that
//! arrive at the same time are served in some order, since the store is
//! borrowed exclusively for each; the laws hold of every order.

use crate::service::{filed_by_email, records_after, reply_to, ReplyView};
use crate::user::{server_assigned, CreateUserDtoView, UserView, DEFAULT_ORGANIZATION, DEFAULT_ROLE};
use vstd::prelude::*;

verus! {

/// One creation request, on either path.
pub enum Request {
    /// A full record sent to the vulnerable path.
    Vulnerable(UserView),
    /// A submission sent to the secure path.
    Secure(CreateUserDtoView),
}

impl Request {
    /// The record that the request asks to store.
    pub open spec fn record(self) -> UserView {
        match self {
            Request::Vulnerable(payload) => payload,
            Request::Secure(submitted) => server_assigned(submitted),
        }
    }

    /// The email that the request is for.
    pub open spec fn email(self) -> Seq<char> {
        self.record().email
    }
}

/// The records kept once `requests` were served in order, starting from
/// `records`.
pub open spec fn records_after_all(
    records: Map<Seq<char>, UserView>,
    requests: Seq<Request>,
) -> Map<Seq<char>, UserView>
    decreases requests.len(),
{
    if requests.len() == 0 {
        records
    } else {
        records_after(records_after_all(records, requests.drop_last()), requests.last().record())
    }
}

/// The answers given while `requests` were served in order, starting from
/// `records`: each request is answered against what the ones before it left.
pub open spec fn replies_to_all(
    records: Map<Seq<char>, UserView>,
    requests: Seq<Request>,
) -> Seq<ReplyView> {
    Seq::new(
        requests.len(),
        |i: int| reply_to(records_after_all(records, requests.take(i)), requests[i].record()),
    )
}

/// `request`, sent `count` times over.
pub open spec fn repeated(request: Request, count: nat) -> Seq<Request> {
    Seq::new(count, |i: int| request)
}

/// No two records share an email.
pub open spec fn emails_unique(records: Map<Seq<char>, UserView>) -> bool {
    forall|a: Seq<char>, b: Seq<char>|
        #![trigger records[a], records[b]]
        records.contains_key(a) && records.contains_key(b) && a != b ==> records[a].email
            != records[b].email
}

/// Records that are each kept under their own email have distinct emails.
pub proof fn law_filed_by_email_is_unique(records: Map<Seq<char>, UserView>)
    requires
        filed_by_email(records),
    ensures
        emails_unique(records),
{
}

/// Serving requests keeps every record under its own email, on either path
/// and in any order.
pub proof fn law_requests_keep_filing(records: Map<Seq<char>, UserView>, requests: Seq<Request>)
    requires
        filed_by_email(records),
    ensures
        filed_by_email(records_after_all(records, requests)),
    decreases requests.len(),
{
    if requests.len() > 0 {
        law_requests_keep_filing(records, requests.drop_last());
    }
}

/// Whatever requests a registry that started empty has served, no two of its
/// records share an email.
pub proof fn law_emails_stay_unique(requests: Seq<Request>)
    ensures
        emails_unique(records_after_all(Map::empty(), requests)),
        filed_by_email(records_after_all(Map::empty(), requests)),
{
    law_requests_keep_filing(Map::empty(), requests);
    law_filed_by_email_is_unique(records_after_all(Map::empty(), requests));
}

/// A record that is kept stays as it is, whatever requests follow.
pub proof fn law_records_never_change(
    records: Map<Seq<char>, UserView>,
    requests: Seq<Request>,
    email: Seq<char>,
)
    requires
        records.contains_key(email),
    ensures
        records_after_all(records, requests).contains_key(email),
        records_after_all(records, requests)[email] == records[email],
    decreases requests.len(),
{
    if requests.len() > 0 {
        law_records_never_change(records, requests.drop_last(), email);
    }
}

/// Of two requests for the same email, on whichever paths, the later one is
/// answered with a conflict and changes nothing, whatever was served between
/// the two; the record under that email is the one that was there once the
/// earlier request had been served.
pub proof fn law_later_attempt_conflicts(
    records: Map<Seq<char>, UserView>,
    earlier: Request,
    between: Seq<Request>,
    later: Request,
)
    requires
        earlier.email() == later.email(),
    ensures
        ({
            let first = records_after(records, earlier.record());
            let before = records_after_all(first, between);
            &&& reply_to(before, later.record()) == ReplyView::Conflict
            &&& records_after(before, later.record()) == before
            &&& before.contains_key(later.email())
            &&& before[later.email()] == first[earlier.email()]
        }),
{
    let first = records_after(records, earlier.record());
    law_records_never_change(first, between, earlier.email());
}

/// Sending the same request over and over to a registry that holds its email
/// is answered with a conflict every time and changes nothing.
pub proof fn law_repeats_are_refused(
    records: Map<Seq<char>, UserView>,
    request: Request,
    count: nat,
)
    requires
        records.contains_key(request.email()),
    ensures
        records_after_all(records, repeated(request, count)) == records,
        replies_to_all(records, repeated(request, count)) == Seq::new(
            count,
            |i: int| ReplyView::Conflict,
        ),
    decreases count,
{
    let requests = repeated(request, count);
    if count > 0 {
        assert(requests.drop_last() == repeated(request, (count - 1) as nat));
        law_repeats_are_refused(records, request, (count - 1) as nat);
    }
    assert forall|i: int| 0 <= i < count implies #[trigger] replies_to_all(records, requests)[i]
        == ReplyView::Conflict by {
        assert(requests.take(i) == repeated(request, i as nat));
        law_repeats_are_refused(records, request, i as nat);
    }
}

/// Once a request was answered with the created record, the same request is
/// answered with a conflict however often it is sent again, and the registry
/// stays as the first one left it.
pub proof fn law_repeat_after_created_is_refused(
    records: Map<Seq<char>, UserView>,
    request: Request,
    count: nat,
)
    requires
        reply_to(records, request.record()) == ReplyView::Created(request.record()),
    ensures
        ({
            let stored = records_after(records, request.record());
            &&& stored == records.insert(request.email(), request.record())
            &&& records_after_all(stored, repeated(request, count)) == stored
            &&& replies_to_all(stored, repeated(request, count)) == Seq::new(
                count,
                |i: int| ReplyView::Conflict,
            )
        }),
{
    law_repeats_are_refused(records_after(records, request.record()), request, count);
}

/// Of `count` identical requests for an email that is free, served in any
/// order, exactly one is answered with the created record and every other
/// with a conflict; afterwards the registry holds that one record more.
pub proof fn law_identical_requests_create_once(
    records: Map<Seq<char>, UserView>,
    request: Request,
    count: nat,
)
    requires
        !records.contains_key(request.email()),
        count >= 1,
    ensures
        replies_to_all(records, repeated(request, count)) == seq![
            ReplyView::Created(request.record()),
        ] + Seq::new((count - 1) as nat, |i: int| ReplyView::Conflict),
        records_after_all(records, repeated(request, count)) == records.insert(
            request.email(),
            request.record(),
        ),
{
    let requests = repeated(request, count);
    let stored = records.insert(request.email(), request.record());
    let replies = replies_to_all(records, requests);
    let expected = seq![ReplyView::Created(request.record())] + Seq::new(
        (count - 1) as nat,
        |i: int| ReplyView::Conflict,
    );
    lemma_identical_requests_store_once(records, request, count);
    assert forall|i: int| 0 <= i < count implies #[trigger] replies[i] == expected[i] by {
        assert(requests.take(i) == repeated(request, i as nat));
        if i == 0 {
            assert(records_after_all(records, repeated(request, 0)) == records);
        } else {
            lemma_identical_requests_store_once(records, request, i as nat);
        }
    }
    assert(replies == expected);
}

/// One or more identical requests for a free email leave exactly the one
/// record behind.
proof fn lemma_identical_requests_store_once(
    records: Map<Seq<char>, UserView>,
    request: Request,
    count: nat,
)
    requires
        !records.contains_key(request.email()),
        count >= 1,
    ensures
        records_after_all(records, repeated(request, count)) == records.insert(
            request.email(),
            request.record(),
        ),
    decreases count,
{
    let requests = repeated(request, count);
    assert(requests.drop_last() == repeated(request, (count - 1) as nat));
    if count == 1 {
        assert(records_after_all(records, repeated(request, 0)) == records);
    } else {
        lemma_identical_requests_store_once(records, request, (count - 1) as nat);
    }
}

/// On the secure path a record takes username, password and email from the
/// submission and nothing else: its role and organization are the defaults.
/// Where the email is free, that record is the one answered and the one kept.
pub proof fn law_secure_path_assigns_privileges(
    records: Map<Seq<char>, UserView>,
    submitted: CreateUserDtoView,
)
    ensures
        ({
            let record = Request::Secure(submitted).record();
            &&& record.username == submitted.username
            &&& record.password == submitted.password
            &&& record.email == submitted.email
            &&& record.role == DEFAULT_ROLE@
            &&& record.organization == DEFAULT_ORGANIZATION@
            &&& !records.contains_key(submitted.email) ==> {
                &&& reply_to(records, record) == ReplyView::Created(record)
                &&& records_after(records, record)[submitted.email] == record
            }
        }),
{
}

/// On the vulnerable path the record is the client's, privileged fields
/// included. Where the email is free, it is answered and kept as it came.
pub proof fn law_vulnerable_path_stores_payload(
    records: Map<Seq<char>, UserView>,
    payload: UserView,
)
    ensures
        Request::Vulnerable(payload).record() == payload,
        !records.contains_key(payload.email) ==> {
            &&& reply_to(records, payload) == ReplyView::Created(payload)
            &&& records_after(records, payload)[payload.email] == payload
        },
{
}

} // verus!
