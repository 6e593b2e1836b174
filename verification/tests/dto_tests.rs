use newt_todo::domain::{SourceRef, Task, TaskStatus};
use newt_todo::dto::{
    CardDto, IssueDetailDto, LabelDto, LanguageDto, NotificationDto, SnapshotDto, TaskDto,
    TrafficDto, UserDto,
};
use newt_todo::domain::BoardCard;
use newt_todo::provider::{
    RemoteIssueDetail, RemoteLabel, RemoteLanguage, RemoteNotification, RemoteTraffic,
    RemoteTrafficDay, RemoteUser,
};
use newt_todo::snapshot::RepoSnapshot;

fn task(source: Option<SourceRef>) -> Task {
    Task {
        id: "t-1".into(),
        source,
        title: "write tests".into(),
        body: "for the mcp".into(),
        status: TaskStatus::Open,
        labels: vec!["dev".into()],
        due_at: None,
        local_updated_at: "2026-06-15T10:00:00Z".into(),
        dirty: true,
        deleted: false,
    }
}

#[test]
fn task_dto_shows_status_name_and_source_url() {
    let d = TaskDto::from_task(task(None));
    assert_eq!(d.status, "open");
    assert_eq!(d.updated_at, "2026-06-15T10:00:00Z");
    assert_eq!(d.source_url, None);
    let d = TaskDto::from_task(task(Some(SourceRef {
        account_id: "a".into(),
        remote_id: "1".into(),
        html_url: Some("https://github.com/o/r/issues/1".into()),
    })));
    assert_eq!(d.source_url.as_deref(), Some("https://github.com/o/r/issues/1"));
    assert_eq!(d.labels, vec!["dev".to_string()]);
}

#[test]
fn flat_views_copy_every_field() {
    let c: CardDto = BoardCard {
        id: "c".into(),
        board_id: "b".into(),
        column_id: "col".into(),
        item_key: "todo:1".into(),
        position: 3,
        created_at: "x".into(),
    }
    .into();
    assert_eq!(c, CardDto { id: "c".into(), item_key: "todo:1".into(), position: 3 });
    let l: LanguageDto = RemoteLanguage { name: "Rust".into(), bytes: 9 }.into();
    assert_eq!((l.name.as_str(), l.bytes), ("Rust", 9));
    let n: NotificationDto = RemoteNotification {
        id: "1".into(),
        repo_name_with_owner: "o/r".into(),
        subject_title: "t".into(),
        subject_type: "Issue".into(),
        subject_url: None,
        reason: "mention".into(),
        unread: true,
        updated_at: "2026-06-15T10:00:00Z".into(),
    }
    .into();
    assert!(n.unread);
    assert_eq!(n.reason, "mention");
    let s: SnapshotDto = RepoSnapshot {
        id: "s".into(),
        account_id: "a".into(),
        repo_full_name: "o/alpha".into(),
        day: "2026-06-16".into(),
        stars: 5,
        forks: 0,
        open_issues: 2,
        captured_at: "2026-06-16T00:00:00Z".into(),
    }
    .into();
    assert_eq!((s.stars, s.open_issues), (5, 2));
}

#[test]
fn traffic_days_keep_their_order() {
    let t = TrafficDto::from_remote(RemoteTraffic {
        count: 10,
        uniques: 4,
        days: vec![
            RemoteTrafficDay { timestamp: "d1".into(), count: 3, uniques: 1 },
            RemoteTrafficDay { timestamp: "d2".into(), count: 7, uniques: 3 },
        ],
    });
    assert_eq!((t.count, t.uniques), (10, 4));
    assert_eq!(t.days.len(), 2);
    assert_eq!(t.days[1].timestamp, "d2");
    assert_eq!(t.days[1].count, 7);
}

#[test]
fn issue_detail_maps_labels_and_assignees() {
    let d = IssueDetailDto::from_remote(RemoteIssueDetail {
        number: 7,
        title: "t".into(),
        body: None,
        html_url: "u".into(),
        state: "open".into(),
        author_login: "alice".into(),
        author_avatar_url: None,
        repo_name_with_owner: "o/r".into(),
        created_at: "c".into(),
        updated_at: "u".into(),
        closed_at: None,
        comments_count: 2,
        labels: vec![RemoteLabel { name: "bug".into(), color: "d73a4a".into() }],
        assignees: vec![RemoteUser { login: "bob".into(), avatar_url: None }],
        milestone_title: Some("v1".into()),
    });
    assert_eq!(d.labels, vec![LabelDto { name: "bug".into(), color: "d73a4a".into() }]);
    assert_eq!(d.assignees, vec![UserDto { login: "bob".into(), avatar_url: None }]);
    assert_eq!(d.milestone_title.as_deref(), Some("v1"));
    assert_eq!(d.comments_count, 2);
}
