use wictk::notifier::config::met_alerts_url;
use wictk::notifier::notifications::{
    Notification, NotificationResponse, NtfyNotifier, Priority, PublishError, Tag,
};

fn test_alert() -> Notification {
    Notification::new(
        "Test Alert".to_string(),
        Priority::High,
        Tag::Warning,
        "This is a test alert".to_string(),
    )
}

#[test]
fn should_get_no_notifications() {
    let client = reqwest::Client::new();
    let notifier = NtfyNotifier::new(client, "https://ntfy.frikk.io".to_string());
    let topic = "non_existent_topic".to_string();
    let notifications = notifier.notifications(&topic);
    assert!(notifications.is_empty());
}

#[test]
fn should_add_and_get_notifications() {
    let client = reqwest::Client::new();
    let mut notifier = NtfyNotifier::new(client, "https://ntfy.frikk.io".to_string());
    let alert = test_alert();
    let topic = "test_topic".to_string();
    notifier.add_alert(alert.clone(), &topic);
    let notifications = notifier.notifications(&topic);
    assert!(notifications.contains(&alert));
}

#[test]
fn should_check_sent_alert() {
    let client = reqwest::Client::new();
    let mut notifier = NtfyNotifier::new(client, "https://ntfy.frikk.io".to_string());
    let alert = test_alert();
    let topic = "test_topic".to_string();
    notifier.add_alert(alert.clone(), &topic);
    let has_sent = notifier.has_sent_alert(&alert, &topic);
    assert!(has_sent);
}

#[test]
fn adding_twice_lists_the_alert_once() {
    let mut notifier = NtfyNotifier::new(reqwest::Client::new(), "https://ntfy".to_string());
    notifier.add_alert(test_alert(), "topic");
    notifier.add_alert(test_alert(), "topic");
    assert_eq!(notifier.notifications("topic").len(), 1);
}

#[test]
fn alerts_are_recorded_per_topic() {
    let mut notifier = NtfyNotifier::new(reqwest::Client::new(), "https://ntfy".to_string());
    notifier.add_alert(test_alert(), "first");
    assert!(notifier.has_sent_alert(&test_alert(), "first"));
    assert!(!notifier.has_sent_alert(&test_alert(), "second"));
    assert!(notifier.notifications("second").is_empty());
    let other = Notification::new(
        "Other".to_string(),
        Priority::Urgent,
        Tag::Wind,
        "Strong wind".to_string(),
    );
    assert!(!notifier.has_sent_alert(&other, "first"));
    notifier.add_alert(other.clone(), "first");
    let listed = notifier.notifications("first");
    assert_eq!(listed.len(), 2);
    assert!(listed.contains(&other));
    assert!(listed.contains(&test_alert()));
}

#[test]
fn publish_request_carries_the_notification() {
    let notifier = NtfyNotifier::new(reqwest::Client::new(), "https://ntfy.example".to_string());
    let request = match notifier.publish_request(&test_alert(), "test_topic") {
        Ok(request) => request,
        Err(_) => panic!("a fresh notifier refused to publish"),
    };
    assert_eq!(request.url, "https://ntfy.example/test_topic");
    assert_eq!(request.title, "Test Alert");
    assert_eq!(request.priority, "high");
    assert_eq!(request.tags, "warning");
    assert_eq!(request.body, "This is a test alert");
}

#[test]
fn publishing_a_sent_alert_is_refused() {
    let mut notifier = NtfyNotifier::new(reqwest::Client::new(), "https://ntfy".to_string());
    notifier.add_alert(test_alert(), "test_topic");
    assert!(matches!(
        notifier.publish_request(&test_alert(), "test_topic"),
        Err(PublishError::AlreadySent)
    ));
    assert!(notifier.publish_request(&test_alert(), "other_topic").is_ok());
}

#[test]
fn publish_status_must_be_success() {
    let mut notifier = NtfyNotifier::new(reqwest::Client::new(), "https://ntfy".to_string());
    assert!(notifier.complete_publish(test_alert(), "a", 200, Some(answer())).is_ok());
    assert!(notifier.complete_publish(test_alert(), "b", 299, Some(answer())).is_ok());
    assert!(matches!(
        notifier.complete_publish(test_alert(), "c", 300, Some(answer())),
        Err(PublishError::Rejected(300))
    ));
    assert!(matches!(
        notifier.complete_publish(test_alert(), "d", 199, Some(answer())),
        Err(PublishError::Rejected(199))
    ));
    assert!(notifier.has_sent_alert(&test_alert(), "b"));
    assert!(!notifier.has_sent_alert(&test_alert(), "c"));
}

#[test]
fn priorities_and_tags_have_service_names() {
    assert_eq!(Priority::Urgent.as_str(), "urgent");
    assert_eq!(Priority::High.as_str(), "high");
    assert_eq!(Priority::Default.as_str(), "default");
    assert_eq!(Tag::Wind.as_str(), "dash");
    assert_eq!(Tag::Warning.as_str(), "warning");
    assert_eq!(Tag::Wind.to_string(), "dash");
}

#[test]
fn notifications_compare_by_content() {
    assert!(test_alert() == test_alert());
    let mut changed = test_alert();
    changed.priority = Priority::Default;
    assert!(changed != test_alert());
}

#[test]
fn alerts_url_names_the_location() {
    assert_eq!(
        met_alerts_url("http://wictk/api/alerts", "Trondheim"),
        "http://wictk/api/alerts?location=Trondheim"
    );
}

fn answer() -> NotificationResponse {
    NotificationResponse {
        id: "test-id".to_string(),
        time: 123,
        expires: 456,
        event: "message".to_string(),
        topic: "test_topic".to_string(),
        message: "This is a test alert".to_string(),
    }
}

#[test]
fn a_rejected_publish_records_nothing() {
    let mut notifier = NtfyNotifier::new(reqwest::Client::new(), "https://ntfy".to_string());
    let result = notifier.complete_publish(test_alert(), "test_topic", 500, None);
    assert!(matches!(result, Err(PublishError::Rejected(500))));
    assert!(!notifier.has_sent_alert(&test_alert(), "test_topic"));
    assert!(notifier.publish_request(&test_alert(), "test_topic").is_ok());
}

#[test]
fn an_unreadable_answer_records_nothing() {
    let mut notifier = NtfyNotifier::new(reqwest::Client::new(), "https://ntfy".to_string());
    let result = notifier.complete_publish(test_alert(), "test_topic", 200, None);
    assert!(matches!(result, Err(PublishError::UndecodableResponse)));
    assert!(!notifier.has_sent_alert(&test_alert(), "test_topic"));
}

#[test]
fn a_successful_publish_is_recorded_and_not_repeated() {
    let mut notifier = NtfyNotifier::new(reqwest::Client::new(), "https://ntfy".to_string());
    let result = notifier.complete_publish(test_alert(), "test_topic", 200, Some(answer()));
    match result {
        Ok(response) => {
            assert_eq!(response.id, "test-id");
            assert_eq!(response.time, 123);
            assert_eq!(response.topic, "test_topic");
        }
        Err(_) => panic!("a successful answer was refused"),
    }
    assert!(notifier.has_sent_alert(&test_alert(), "test_topic"));
    assert!(matches!(
        notifier.publish_request(&test_alert(), "test_topic"),
        Err(PublishError::AlreadySent)
    ));
    assert_eq!(notifier.notifications("test_topic").len(), 1);
    assert!(notifier.publish_request(&test_alert(), "other_topic").is_ok());
}
