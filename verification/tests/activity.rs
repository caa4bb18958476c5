use backend::github::{
    derive_message, events_url, github_handler, github_request, project_event, recent_activity,
    ActivityEvent, FeedFetch, FeedReply, RawEvent, ACCOUNT, RECENT_LIMIT, UPSTREAM_ERROR,
};
use backend::http::{Method, Pair};

fn text(s: &str) -> Option<String> {
    Some(s.to_string())
}

fn event(actor: &str, repo: &str, event_type: &str, commits: Vec<Option<String>>) -> RawEvent {
    RawEvent {
        actor: text(actor),
        repo: text(repo),
        event_type: text(event_type),
        commit_messages: commits,
    }
}

fn numbered(n: usize) -> Vec<RawEvent> {
    (0..n)
        .map(|i| event(&format!("actor{i}"), &format!("repo{i}"), "WatchEvent", vec![]))
        .collect()
}

#[test]
fn push_with_commit_message_uses_it() {
    assert_eq!(derive_message("PushEvent", &vec![text("fix bug")]), "fix bug");
}

#[test]
fn push_uses_first_commit_only() {
    let commits = vec![text("first"), text("second"), text("third")];
    assert_eq!(derive_message("PushEvent", &commits), "first");
}

#[test]
fn push_without_commits_falls_back() {
    assert_eq!(derive_message("PushEvent", &vec![]), "Pushed updates");
}

#[test]
fn push_whose_first_commit_has_no_message_falls_back() {
    let commits = vec![None, text("second")];
    assert_eq!(derive_message("PushEvent", &commits), "Pushed updates");
}

#[test]
fn push_with_empty_commit_message_keeps_it() {
    assert_eq!(derive_message("PushEvent", &vec![text("")]), "");
}

#[test]
fn watch_event_loses_its_suffix() {
    assert_eq!(derive_message("WatchEvent", &vec![]), "Watch");
}

#[test]
fn other_events_ignore_commits() {
    assert_eq!(derive_message("CreateEvent", &vec![text("fix bug")]), "Create");
    assert_eq!(derive_message("PullRequestReviewCommentEvent", &vec![]), "PullRequestReviewComment");
}

#[test]
fn only_a_trailing_event_is_removed() {
    assert_eq!(derive_message("EventStream", &vec![]), "EventStream");
    assert_eq!(derive_message("EventEvent", &vec![]), "Event");
    assert_eq!(derive_message("Event", &vec![]), "");
    assert_eq!(derive_message("Fork", &vec![]), "Fork");
    assert_eq!(derive_message("", &vec![]), "");
    assert_eq!(derive_message("vent", &vec![]), "vent");
}

#[test]
fn push_type_is_matched_exactly() {
    assert_eq!(derive_message("pushEvent", &vec![text("fix bug")]), "push");
    assert_eq!(derive_message("PushEvent ", &vec![text("fix bug")]), "PushEvent ");
    assert_eq!(derive_message("PushEvents", &vec![text("fix bug")]), "PushEvents");
}

#[test]
fn projection_copies_fields_and_derives_message() {
    let raw = event("karmiin", "karmiin/cloud-resume", "PushEvent", vec![text("fix bug")]);
    assert_eq!(
        project_event(&raw),
        ActivityEvent {
            actor: "karmiin".to_string(),
            repo: "karmiin/cloud-resume".to_string(),
            event_type: "PushEvent".to_string(),
            message: "fix bug".to_string(),
        }
    );
}

#[test]
fn projection_of_missing_fields_is_empty() {
    let raw = RawEvent { actor: None, repo: None, event_type: None, commit_messages: vec![] };
    assert_eq!(
        project_event(&raw),
        ActivityEvent {
            actor: String::new(),
            repo: String::new(),
            event_type: String::new(),
            message: String::new(),
        }
    );
}

#[test]
fn feed_is_capped_at_five() {
    assert_eq!(RECENT_LIMIT, 5);
    for n in [6, 7, 30, 100] {
        let feed = recent_activity(&numbered(n));
        assert_eq!(feed.len(), 5);
    }
}

#[test]
fn feed_keeps_upstream_order() {
    let feed = recent_activity(&numbered(7));
    let actors: Vec<&str> = feed.iter().map(|e| e.actor.as_str()).collect();
    assert_eq!(actors, vec!["actor0", "actor1", "actor2", "actor3", "actor4"]);
    let repos: Vec<&str> = feed.iter().map(|e| e.repo.as_str()).collect();
    assert_eq!(repos, vec!["repo0", "repo1", "repo2", "repo3", "repo4"]);
}

#[test]
fn short_feed_is_served_whole() {
    for n in 0..=5 {
        let events = numbered(n);
        let feed = recent_activity(&events);
        assert_eq!(feed.len(), n);
        for (served, raw) in feed.iter().zip(events.iter()) {
            assert_eq!(*served, project_event(raw));
        }
    }
}

#[test]
fn feed_reads_nothing_past_the_fifth_entry() {
    let long = numbered(9);
    let short: Vec<RawEvent> = long.iter().take(5).cloned().collect();
    assert_eq!(recent_activity(&long), recent_activity(&short));
}

#[test]
fn listed_feed_is_served_as_entries() {
    let events = vec![
        event("a", "a/x", "PushEvent", vec![text("fix bug")]),
        event("b", "b/y", "WatchEvent", vec![]),
    ];
    let reply = github_handler(&FeedFetch::Listed(events));
    match reply {
        FeedReply::Feed(feed) => {
            assert_eq!(feed.len(), 2);
            assert_eq!(feed[0].message, "fix bug");
            assert_eq!(feed[1].message, "Watch");
            assert_eq!(feed[1].event_type, "WatchEvent");
        }
        FeedReply::Error(error) => panic!("unexpected error {error}"),
    }
}

#[test]
fn empty_listing_is_an_empty_feed() {
    assert_eq!(github_handler(&FeedFetch::Listed(vec![])), FeedReply::Feed(vec![]));
}

#[test]
fn failed_fetch_is_one_error() {
    let error = FeedReply::Error("Impossibile contattare GitHub".to_string());
    assert_eq!(UPSTREAM_ERROR, "Impossibile contattare GitHub");
    assert_eq!(github_handler(&FeedFetch::Unreachable), error);
    assert_eq!(github_handler(&FeedFetch::Unreadable), error);
}

#[test]
fn events_request_is_fixed() {
    let request = github_request();
    assert_eq!(request.method, Method::Get);
    assert_eq!(request.url, "https://api.github.com/users/karmiin/events/public");
    assert_eq!(
        request.headers,
        vec![Pair { name: "User-Agent".to_string(), value: "Rust-Lambda-Backend".to_string() }]
    );
    assert!(request.form.is_empty());
    assert_eq!(github_request(), request);
}

#[test]
fn events_url_names_the_account() {
    assert_eq!(ACCOUNT, "karmiin");
    assert_eq!(events_url("octocat"), "https://api.github.com/users/octocat/events/public");
    assert_eq!(events_url(""), "https://api.github.com/users//events/public");
}
