//! The list of published posts: the open issues of one repository that
//! carry the label `published`, each reshaped into a post, in the order in
//! which the issue tracker lists them.

use vstd::prelude::*;
use crate::github::{ACCOUNT, UPSTREAM_ERROR};
use crate::http::{Method, OutboundRequest, OutboundRequestModel, Pair, PairModel};

verus! {

/// The repository whose issues are the posts.
pub const REPOSITORY: &'static str = "cloud-resume";

/// A label of an issue.
#[derive(Clone, Debug, PartialEq, Eq)]
pub struct Label {
    pub name: String,
}

/// What a [`Label`] holds.
pub struct LabelModel {
    pub name: Seq<char>,
}

impl View for Label {
    type V = LabelModel;

    open spec fn view(&self) -> LabelModel {
        LabelModel { name: self.name@ }
    }
}

impl DeepView for Label {
    type V = LabelModel;

    open spec fn deep_view(&self) -> LabelModel {
        self@
    }
}

/// An issue as the tracker lists it, reduced to what a post holds.
#[derive(Clone, Debug, PartialEq, Eq)]
pub struct Issue {
    pub title: String,
    pub body: Option<String>,
    pub created_at: String,
    pub labels: Vec<Label>,
    /// Link to the issue's page.
    pub html_url: String,
}

/// What an [`Issue`] holds.
pub struct IssueModel {
    pub title: Seq<char>,
    pub body: Option<Seq<char>>,
    pub created_at: Seq<char>,
    pub labels: Seq<LabelModel>,
    pub html_url: Seq<char>,
}

impl View for Issue {
    type V = IssueModel;

    open spec fn view(&self) -> IssueModel {
        IssueModel {
            title: self.title@,
            body: self.body.deep_view(),
            created_at: self.created_at@,
            labels: self.labels.deep_view(),
            html_url: self.html_url@,
        }
    }
}

impl DeepView for Issue {
    type V = IssueModel;

    open spec fn deep_view(&self) -> IssueModel {
        self@
    }
}

/// A post as it is served.
#[derive(Clone, Debug, PartialEq, Eq)]
pub struct PublishedPost {
    pub title: String,
    pub body: Option<String>,
    pub created_at: String,
    pub labels: Vec<Label>,
    pub url: String,
}

/// What a [`PublishedPost`] holds.
pub struct PublishedPostModel {
    pub title: Seq<char>,
    pub body: Option<Seq<char>>,
    pub created_at: Seq<char>,
    pub labels: Seq<LabelModel>,
    pub url: Seq<char>,
}

impl View for PublishedPost {
    type V = PublishedPostModel;

    open spec fn view(&self) -> PublishedPostModel {
        PublishedPostModel {
            title: self.title@,
            body: self.body.deep_view(),
            created_at: self.created_at@,
            labels: self.labels.deep_view(),
            url: self.url@,
        }
    }
}

impl DeepView for PublishedPost {
    type V = PublishedPostModel;

    open spec fn deep_view(&self) -> PublishedPostModel {
        self@
    }
}

/// How fetching the issues ended.
#[derive(Clone, Debug, PartialEq, Eq)]
pub enum IssuesFetch {
    /// The tracker answered with a list of issues.
    Listed(Vec<Issue>),
    /// The tracker answered with something that is no list of issues.
    Unreadable,
    /// The tracker could not be reached.
    Unreachable,
}

/// What an [`IssuesFetch`] holds.
pub enum IssuesFetchModel {
    Listed(Seq<IssueModel>),
    Unreadable,
    Unreachable,
}

impl View for IssuesFetch {
    type V = IssuesFetchModel;

    open spec fn view(&self) -> IssuesFetchModel {
        match self {
            IssuesFetch::Listed(issues) => IssuesFetchModel::Listed(issues.deep_view()),
            IssuesFetch::Unreadable => IssuesFetchModel::Unreadable,
            IssuesFetch::Unreachable => IssuesFetchModel::Unreachable,
        }
    }
}

/// The reply of the posts endpoint: a list of posts, or one error in place
/// of the list.
#[derive(Clone, Debug, PartialEq, Eq)]
pub enum BlogReply {
    /// Served as an array of posts.
    Posts(Vec<PublishedPost>),
    /// Served as an object with the one member `error`.
    Error(String),
}

/// What a [`BlogReply`] holds.
pub enum BlogReplyModel {
    Posts(Seq<PublishedPostModel>),
    Error(Seq<char>),
}

impl View for BlogReply {
    type V = BlogReplyModel;

    open spec fn view(&self) -> BlogReplyModel {
        match self {
            BlogReply::Posts(posts) => BlogReplyModel::Posts(posts.deep_view()),
            BlogReply::Error(error) => BlogReplyModel::Error(error@),
        }
    }
}

/// Where the open issues of `repository` of `owner` that carry the label
/// `published` are listed.
pub open spec fn issues_url_of(owner: Seq<char>, repository: Seq<char>) -> Seq<char> {
    "https://api.github.com/repos/"@ + owner + "/"@ + repository
        + "/issues?labels=published&state=open"@
}

/// The request that lists the posts' issues.
pub open spec fn issues_request() -> OutboundRequestModel {
    OutboundRequestModel {
        method: Method::Get,
        url: issues_url_of(ACCOUNT@, REPOSITORY@),
        headers: seq![PairModel { name: "User-Agent"@, value: "Rust-Cloud-Resume"@ }],
        form: Seq::empty(),
    }
}

/// The post made of an issue: every field as it is, the link under `url`.
pub open spec fn post_of(issue: IssueModel) -> PublishedPostModel {
    PublishedPostModel {
        title: issue.title,
        body: issue.body,
        created_at: issue.created_at,
        labels: issue.labels,
        url: issue.html_url,
    }
}

/// The reply owed for an outcome: every listed issue as a post, in the
/// order of the listing; the error where nothing was listed.
pub open spec fn blog_reply_of(fetched: IssuesFetchModel) -> BlogReplyModel {
    match fetched {
        IssuesFetchModel::Listed(issues) => BlogReplyModel::Posts(
            Seq::new(issues.len(), |i: int| post_of(issues[i])),
        ),
        IssuesFetchModel::Unreadable => BlogReplyModel::Error(UPSTREAM_ERROR@),
        IssuesFetchModel::Unreachable => BlogReplyModel::Error(UPSTREAM_ERROR@),
    }
}

/// Builds [`issues_url_of`].
pub fn issues_url(owner: &str, repository: &str) -> (url: String)
    ensures
        url@ == issues_url_of(owner@, repository@),
{
    let mut url = String::from_str("https://api.github.com/repos/");
    url.append(owner);
    url.append("/");
    url.append(repository);
    url.append("/issues?labels=published&state=open");
    url
}

/// The request to send for the posts endpoint. It is the same for every
/// call: the endpoint takes no input.
pub fn blog_request() -> (request: OutboundRequest)
    ensures
        request@ == issues_request(),
{
    let mut headers: Vec<Pair> = Vec::new();
    headers.push(Pair::new("User-Agent", "Rust-Cloud-Resume"));
    let request = OutboundRequest {
        method: Method::Get,
        url: issues_url(ACCOUNT, REPOSITORY),
        headers,
        form: Vec::new(),
    };
    proof {
        assert(request@.headers =~= issues_request().headers);
        assert(request@.form =~= issues_request().form);
    }
    request
}

/// A copy of `labels`.
fn copy_labels(labels: &Vec<Label>) -> (copy: Vec<Label>)
    ensures
        copy.deep_view() == labels.deep_view(),
{
    let mut copy: Vec<Label> = Vec::new();
    let mut i: usize = 0;
    while i < labels.len()
        invariant
            i <= labels.len(),
            copy.len() == i,
            forall|k: int| 0 <= k < i ==> copy[k]@ == labels[k]@,
        decreases labels.len() - i,
    {
        copy.push(Label { name: labels[i].name.clone() });
        i = i + 1;
    }
    proof {
        assert(copy.deep_view() =~= labels.deep_view());
    }
    copy
}

/// Reshapes one issue into a post.
pub fn publish(issue: &Issue) -> (post: PublishedPost)
    ensures
        post@ == post_of(issue@),
{
    let body = match &issue.body {
        Some(text) => Some(text.clone()),
        None => None,
    };
    PublishedPost {
        title: issue.title.clone(),
        body,
        created_at: issue.created_at.clone(),
        labels: copy_labels(&issue.labels),
        url: issue.html_url.clone(),
    }
}

/// Makes the reply of the posts endpoint from the outcome of the fetch.
pub fn blog_handler(fetched: &IssuesFetch) -> (reply: BlogReply)
    ensures
        reply@ == blog_reply_of(fetched@),
{
    match fetched {
        IssuesFetch::Listed(issues) => {
            let mut posts: Vec<PublishedPost> = Vec::new();
            let mut i: usize = 0;
            while i < issues.len()
                invariant
                    i <= issues.len(),
                    posts.len() == i,
                    forall|k: int| 0 <= k < i ==> posts[k]@ == post_of(#[trigger] issues[k]@),
                decreases issues.len() - i,
            {
                posts.push(publish(&issues[i]));
                i = i + 1;
            }
            proof {
                assert(posts.deep_view() =~= Seq::new(
                    issues.deep_view().len(),
                    |i: int| post_of(issues.deep_view()[i]),
                ));
            }
            BlogReply::Posts(posts)
        },
        IssuesFetch::Unreadable => BlogReply::Error(String::from_str(UPSTREAM_ERROR)),
        IssuesFetch::Unreachable => BlogReply::Error(String::from_str(UPSTREAM_ERROR)),
    }
}

} // verus!
