use backend::blog::{
    blog_handler, blog_request, issues_url, publish, BlogReply, Issue, IssuesFetch, Label,
    PublishedPost, REPOSITORY,
};
use backend::http::{Method, Pair};

fn issue(n: usize, body: Option<&str>, labels: &[&str]) -> Issue {
    Issue {
        title: format!("Post {n}"),
        body: body.map(|b| b.to_string()),
        created_at: format!("2024-01-0{n}T00:00:00Z"),
        labels: labels.iter().map(|l| Label { name: l.to_string() }).collect(),
        html_url: format!("https://github.com/karmiin/cloud-resume/issues/{n}"),
    }
}

#[test]
fn issue_is_reshaped_into_a_post() {
    let post = publish(&issue(1, Some("text"), &["published", "rust"]));
    assert_eq!(
        post,
        PublishedPost {
            title: "Post 1".to_string(),
            body: Some("text".to_string()),
            created_at: "2024-01-01T00:00:00Z".to_string(),
            labels: vec![
                Label { name: "published".to_string() },
                Label { name: "rust".to_string() },
            ],
            url: "https://github.com/karmiin/cloud-resume/issues/1".to_string(),
        }
    );
}

#[test]
fn issue_without_body_or_labels() {
    let post = publish(&issue(2, None, &[]));
    assert_eq!(post.body, None);
    assert!(post.labels.is_empty());
}

#[test]
fn posts_keep_the_order_of_the_listing() {
    let issues: Vec<Issue> = [3usize, 1, 2, 9, 5, 4, 8]
        .iter()
        .map(|n| issue(*n, Some("b"), &["published"]))
        .collect();
    match blog_handler(&IssuesFetch::Listed(issues.clone())) {
        BlogReply::Posts(posts) => {
            assert_eq!(posts.len(), 7);
            for (post, issue) in posts.iter().zip(issues.iter()) {
                assert_eq!(*post, publish(issue));
            }
            let titles: Vec<&str> = posts.iter().map(|p| p.title.as_str()).collect();
            assert_eq!(
                titles,
                vec!["Post 3", "Post 1", "Post 2", "Post 9", "Post 5", "Post 4", "Post 8"]
            );
        }
        other => panic!("unexpected {other:?}"),
    }
}

#[test]
fn empty_listing_is_an_empty_list() {
    assert_eq!(blog_handler(&IssuesFetch::Listed(vec![])), BlogReply::Posts(vec![]));
}

#[test]
fn failed_listing_is_one_error() {
    let error = BlogReply::Error("Impossibile contattare GitHub".to_string());
    assert_eq!(blog_handler(&IssuesFetch::Unreachable), error);
    assert_eq!(blog_handler(&IssuesFetch::Unreadable), error);
}

#[test]
fn issues_request_is_fixed() {
    let request = blog_request();
    assert_eq!(request.method, Method::Get);
    assert_eq!(
        request.url,
        "https://api.github.com/repos/karmiin/cloud-resume/issues?labels=published&state=open"
    );
    assert_eq!(
        request.headers,
        vec![Pair { name: "User-Agent".to_string(), value: "Rust-Cloud-Resume".to_string() }]
    );
    assert!(request.form.is_empty());
}

#[test]
fn issues_url_names_owner_and_repository() {
    assert_eq!(REPOSITORY, "cloud-resume");
    assert_eq!(
        issues_url("octocat", "hello"),
        "https://api.github.com/repos/octocat/hello/issues?labels=published&state=open"
    );
}
