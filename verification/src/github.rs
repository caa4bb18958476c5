//! The recent-activity feed: a projection of the first few entries of an
//! account's public event feed, in upstream order.

use vstd::prelude::*;
use crate::http::{Method, OutboundRequest, OutboundRequestModel, Pair, PairModel};
use crate::text::{owned_or_empty, strip_suffix, text_eq, text_or_empty, without_suffix};

verus! {

/// How many entries of the upstream feed are projected, at most.
pub const RECENT_LIMIT: usize = 5;

/// The account whose activity is shown.
pub const ACCOUNT: &'static str = "karmiin";

/// The error served where the upstream service gave nothing usable.
pub const UPSTREAM_ERROR: &'static str = "Impossibile contattare GitHub";

/// One entry of the upstream feed, reduced to what the projection reads.
/// A field that the entry lacks, or that is no text there, is `None`.
#[derive(Clone, Debug, PartialEq, Eq)]
pub struct RawEvent {
    /// Login of the account that acted.
    pub actor: Option<String>,
    /// Full name of the repository acted upon.
    pub repo: Option<String>,
    /// The upstream type of the event, such as `PushEvent`.
    pub event_type: Option<String>,
    /// The message of each commit listed in the payload, in upstream order.
    pub commit_messages: Vec<Option<String>>,
}

/// What a [`RawEvent`] holds.
pub struct RawEventModel {
    pub actor: Option<Seq<char>>,
    pub repo: Option<Seq<char>>,
    pub event_type: Option<Seq<char>>,
    pub commit_messages: Seq<Option<Seq<char>>>,
}

impl View for RawEvent {
    type V = RawEventModel;

    open spec fn view(&self) -> RawEventModel {
        RawEventModel {
            actor: self.actor.deep_view(),
            repo: self.repo.deep_view(),
            event_type: self.event_type.deep_view(),
            commit_messages: self.commit_messages.deep_view(),
        }
    }
}

impl DeepView for RawEvent {
    type V = RawEventModel;

    open spec fn deep_view(&self) -> RawEventModel {
        self@
    }
}

/// One entry of the activity feed as it is served.
#[derive(Clone, Debug, PartialEq, Eq)]
pub struct ActivityEvent {
    pub actor: String,
    pub repo: String,
    pub event_type: String,
    pub message: String,
}

/// What an [`ActivityEvent`] holds.
pub struct ActivityEventModel {
    pub actor: Seq<char>,
    pub repo: Seq<char>,
    pub event_type: Seq<char>,
    pub message: Seq<char>,
}

impl View for ActivityEvent {
    type V = ActivityEventModel;

    open spec fn view(&self) -> ActivityEventModel {
        ActivityEventModel {
            actor: self.actor@,
            repo: self.repo@,
            event_type: self.event_type@,
            message: self.message@,
        }
    }
}

impl DeepView for ActivityEvent {
    type V = ActivityEventModel;

    open spec fn deep_view(&self) -> ActivityEventModel {
        self@
    }
}

/// The message shown for an event. For a push it is the message of the
/// first listed commit, or `Pushed updates` where the push lists no commit
/// or its first commit has no message. For any other event it is the event
/// type without its trailing `Event`.
pub open spec fn derived_message(
    event_type: Seq<char>,
    commit_messages: Seq<Option<Seq<char>>>,
) -> Seq<char> {
    if event_type == "PushEvent"@ {
        if commit_messages.len() > 0 && commit_messages[0] is Some {
            commit_messages[0]->0
        } else {
            "Pushed updates"@
        }
    } else {
        without_suffix(event_type, "Event"@)
    }
}

/// The served form of one upstream entry. Missing texts become empty.
pub open spec fn projected(event: RawEventModel) -> ActivityEventModel {
    let event_type = text_or_empty(event.event_type);
    ActivityEventModel {
        actor: text_or_empty(event.actor),
        repo: text_or_empty(event.repo),
        event_type,
        message: derived_message(event_type, event.commit_messages),
    }
}

/// The served feed for an upstream feed: its first entries, up to the
/// limit, each projected, in upstream order.
pub open spec fn recent_of(events: Seq<RawEventModel>) -> Seq<ActivityEventModel> {
    Seq::new(
        if events.len() <= RECENT_LIMIT {
            events.len()
        } else {
            RECENT_LIMIT as nat
        },
        |i: int| projected(events[i]),
    )
}

/// The served feed reads nothing past the fifth upstream entry: however
/// many entries the upstream lists, the feed is that of the first five.
pub proof fn lemma_recent_reads_first_five(events: Seq<RawEventModel>)
    requires
        events.len() >= RECENT_LIMIT,
    ensures
        recent_of(events) == recent_of(events.take(RECENT_LIMIT as int)),
        recent_of(events).len() == RECENT_LIMIT,
{
    assert(recent_of(events) =~= recent_of(events.take(RECENT_LIMIT as int)));
}

/// The served feed keeps the upstream order and skips nothing: its entry
/// at each position is the projection of the upstream entry there.
pub proof fn lemma_recent_keeps_order(events: Seq<RawEventModel>, i: int)
    requires
        0 <= i < recent_of(events).len(),
    ensures
        recent_of(events).len() <= RECENT_LIMIT,
        recent_of(events).len() <= events.len(),
        recent_of(events)[i] == projected(events[i]),
{
}

/// How fetching the feed ended.
#[derive(Clone, Debug, PartialEq, Eq)]
pub enum FeedFetch {
    /// The service answered with a list of events.
    Listed(Vec<RawEvent>),
    /// The service answered with something that is no list of events.
    Unreadable,
    /// The service could not be reached.
    Unreachable,
}

/// What a [`FeedFetch`] holds.
pub enum FeedFetchModel {
    Listed(Seq<RawEventModel>),
    Unreadable,
    Unreachable,
}

impl View for FeedFetch {
    type V = FeedFetchModel;

    open spec fn view(&self) -> FeedFetchModel {
        match self {
            FeedFetch::Listed(events) => FeedFetchModel::Listed(events.deep_view()),
            FeedFetch::Unreadable => FeedFetchModel::Unreadable,
            FeedFetch::Unreachable => FeedFetchModel::Unreachable,
        }
    }
}

/// The reply of the activity endpoint: a list of entries, or one error in
/// place of the list.
#[derive(Clone, Debug, PartialEq, Eq)]
pub enum FeedReply {
    /// Served as an array of entries.
    Feed(Vec<ActivityEvent>),
    /// Served as an object with the one member `error`.
    Error(String),
}

/// What a [`FeedReply`] holds.
pub enum FeedReplyModel {
    Feed(Seq<ActivityEventModel>),
    Error(Seq<char>),
}

impl View for FeedReply {
    type V = FeedReplyModel;

    open spec fn view(&self) -> FeedReplyModel {
        match self {
            FeedReply::Feed(feed) => FeedReplyModel::Feed(feed.deep_view()),
            FeedReply::Error(error) => FeedReplyModel::Error(error@),
        }
    }
}

/// Where the public events of `account` are listed.
pub open spec fn events_url_of(account: Seq<char>) -> Seq<char> {
    "https://api.github.com/users/"@ + account + "/events/public"@
}

/// The request that lists the account's public events.
pub open spec fn events_request() -> OutboundRequestModel {
    OutboundRequestModel {
        method: Method::Get,
        url: events_url_of(ACCOUNT@),
        headers: seq![PairModel { name: "User-Agent"@, value: "Rust-Lambda-Backend"@ }],
        form: Seq::empty(),
    }
}

/// The reply owed for an outcome: the recent entries of a feed that was
/// listed; the error where nothing was listed.
pub open spec fn feed_reply_of(fetched: FeedFetchModel) -> FeedReplyModel {
    match fetched {
        FeedFetchModel::Listed(events) => FeedReplyModel::Feed(recent_of(events)),
        FeedFetchModel::Unreadable => FeedReplyModel::Error(UPSTREAM_ERROR@),
        FeedFetchModel::Unreachable => FeedReplyModel::Error(UPSTREAM_ERROR@),
    }
}

/// Builds [`events_url_of`].
pub fn events_url(account: &str) -> (url: String)
    ensures
        url@ == events_url_of(account@),
{
    let mut url = String::from_str("https://api.github.com/users/");
    url.append(account);
    url.append("/events/public");
    url
}

/// The request to send for the activity endpoint. It is the same for every
/// call: the endpoint takes no input.
pub fn github_request() -> (request: OutboundRequest)
    ensures
        request@ == events_request(),
{
    let mut headers: Vec<Pair> = Vec::new();
    headers.push(Pair::new("User-Agent", "Rust-Lambda-Backend"));
    let request = OutboundRequest {
        method: Method::Get,
        url: events_url(ACCOUNT),
        headers,
        form: Vec::new(),
    };
    proof {
        assert(request@.headers =~= events_request().headers);
        assert(request@.form =~= events_request().form);
    }
    request
}

/// Computes [`derived_message`].
pub fn derive_message(event_type: &str, commit_messages: &Vec<Option<String>>) -> (message: String)
    ensures
        message@ == derived_message(event_type@, commit_messages.deep_view()),
{
    if text_eq(event_type, "PushEvent") {
        if commit_messages.len() > 0 {
            match &commit_messages[0] {
                Some(first) => {
                    return first.clone();
                },
                None => {},
            }
        }
        String::from_str("Pushed updates")
    } else {
        strip_suffix(event_type, "Event")
    }
}

/// Projects one upstream entry.
pub fn project_event(event: &RawEvent) -> (served: ActivityEvent)
    ensures
        served@ == projected(event@),
{
    let event_type = owned_or_empty(&event.event_type);
    let message = derive_message(event_type.as_str(), &event.commit_messages);
    ActivityEvent {
        actor: owned_or_empty(&event.actor),
        repo: owned_or_empty(&event.repo),
        event_type,
        message,
    }
}

/// Projects the first five entries of `events`, keeping their order.
pub fn recent_activity(events: &Vec<RawEvent>) -> (feed: Vec<ActivityEvent>)
    ensures
        feed.deep_view() == recent_of(events.deep_view()),
        feed.len() <= RECENT_LIMIT,
        feed.len() <= events.len(),
        forall|i: int| 0 <= i < feed.len() ==> feed[i]@ == projected(#[trigger] events[i]@),
{
    let mut feed: Vec<ActivityEvent> = Vec::new();
    let mut i: usize = 0;
    while i < events.len() && i < RECENT_LIMIT
        invariant
            i <= events.len(),
            i <= RECENT_LIMIT,
            feed.len() == i,
            forall|k: int| 0 <= k < i ==> feed[k]@ == projected(#[trigger] events[k]@),
        decreases events.len() - i,
    {
        let served = project_event(&events[i]);
        feed.push(served);
        i = i + 1;
    }
    proof {
        assert(feed.deep_view() =~= recent_of(events.deep_view()));
    }
    feed
}

/// Makes the reply of the activity endpoint from the outcome of the fetch.
pub fn github_handler(fetched: &FeedFetch) -> (reply: FeedReply)
    ensures
        reply@ == feed_reply_of(fetched@),
{
    match fetched {
        FeedFetch::Listed(events) => FeedReply::Feed(recent_activity(events)),
        FeedFetch::Unreadable => FeedReply::Error(String::from_str(UPSTREAM_ERROR)),
        FeedFetch::Unreachable => FeedReply::Error(String::from_str(UPSTREAM_ERROR)),
    }
}

} // verus!
