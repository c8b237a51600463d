use std::collections::HashMap;

use bento::BroadcastData;
use bento::BroadcastType;
use bento::CommandData;
use bento::CommandType;
use bento::ContactData;
use bento::Error;
use bento::EventData;
use bento::ImportSubscriberData;
use bento::broadcast::create_broadcasts_request;
use bento::broadcast::get_broadcasts_request;
use bento::commands::subscriber_command_request;
use bento::commands::subscriber_command_response;
use bento::event::track_events_request;
use bento::event::track_events_response;
use bento::experimental::BlacklistData;
use bento::experimental::ValidationData;
use bento::experimental::geolocate_ip_request;
use bento::experimental::get_blacklist_status_request;
use bento::experimental::get_content_moderation_request;
use bento::experimental::get_gender_request;
use bento::experimental::validate_email_request;
use bento::field::create_field_request;
use bento::field::get_fields_request;
use bento::request::Method;
use bento::request::RequestBody;
use bento::stats::get_report_stats_request;
use bento::stats::get_segment_stats_request;
use bento::stats::get_site_stats_request;
use bento::subscriber::create_subscriber_request;
use bento::subscriber::find_subscriber_request;
use bento::subscriber::import_subscribers_request;
use bento::tag::create_tag_request;
use bento::tag::get_tags_request;

fn test_config() -> bento::Config {
    bento::ConfigBuilder::new()
        .publishable_key("test_pub_key")
        .secret_key("test_secret_key")
        .site_uuid("test_site_uuid")
        .base_url("https://api.example.com/v1")
        .build()
        .unwrap()
}

fn event(event_type: &str, email: &str) -> EventData {
    EventData { event_type: event_type.into(), email: email.into(), fields: None, details: None }
}

#[test]
fn test_track_events_prepares_batch_post() {
    let config = test_config();
    let r = track_events_request(&config, vec![event("test_event", "test@example.com")]);
    let p = r.unwrap();
    assert!(matches!(p.method, Method::Post));
    assert_eq!(p.url, "https://api.example.com/v1/batch/events?site_uuid=test_site_uuid");
    assert!(p.query.is_empty());
    match p.body {
        Some(RequestBody::Events(req)) => {
            assert_eq!(req.events.len(), 1);
            assert_eq!(req.events[0].event_type, "test_event");
            assert_eq!(req.events[0].email, "test@example.com");
        },
        other => panic!("expected an events body, got {:?}", other),
    }
}

#[test]
fn test_track_events_validation() {
    let config = test_config();

    let result = track_events_request(&config, vec![]);
    assert!(matches!(result, Err(Error::InvalidRequest(_))));

    let result = track_events_request(&config, vec![event("test_event", "invalid-email")]);
    assert!(matches!(result, Err(Error::InvalidEmail(_))));

    let result = track_events_request(&config, vec![event("", "test@example.com")]);
    assert!(matches!(result, Err(Error::InvalidRequest(_))));
}

#[test]
fn test_track_events_keeps_custom_fields() {
    let config = test_config();
    let mut fields = HashMap::new();
    fields.insert("first_name".to_string(), serde_json::Value::from("John"));
    let mut e = event("test_event", "test@example.com");
    e.fields = Some(fields);
    let r = track_events_request(&config, vec![e]).unwrap();
    match r.body {
        Some(RequestBody::Events(req)) => {
            let fields = req.events[0].fields.as_ref().unwrap();
            assert_eq!(fields["first_name"], serde_json::Value::from("John"));
        },
        other => panic!("expected an events body, got {:?}", other),
    }
}

#[test]
fn test_batch_partial_failure_is_an_error() {
    // {"results": 1, "failed": 1} must not pass for success, even though
    // one item succeeded
    match track_events_response(1, 1) {
        Err(Error::UnexpectedResponse(m)) => {
            assert_eq!(m, "Event tracking partially failed: 1 succeeded, 1 failed");
        },
        other => panic!("expected UnexpectedResponse, got {:?}", other),
    }
    match subscriber_command_response(0, 1) {
        Err(Error::UnexpectedResponse(m)) => {
            assert_eq!(m, "Command execution partially failed: 0 succeeded, 1 failed");
        },
        other => panic!("expected UnexpectedResponse, got {:?}", other),
    }
    match bento::subscriber::import_subscribers_response(1, 1) {
        Err(Error::UnexpectedResponse(m)) => {
            assert_eq!(m, "Import partially failed: 1 succeeded, 1 failed");
        },
        other => panic!("expected UnexpectedResponse, got {:?}", other),
    }
}

#[test]
fn test_batch_zero_failures_is_success() {
    assert!(track_events_response(1, 0).is_ok());
    assert!(track_events_response(0, 0).is_ok());
    assert!(subscriber_command_response(5, 0).is_ok());
    assert!(bento::subscriber::import_subscribers_response(0, 0).is_ok());
}

#[test]
fn test_subscriber_command_validation() {
    let config = test_config();

    let result = subscriber_command_request(&config, vec![]);
    assert!(matches!(result, Err(Error::InvalidRequest(_))));

    let command = CommandData {
        command: CommandType::AddTag,
        email: "invalid-email".to_string(),
        query: "test-tag".to_string(),
    };
    let result = subscriber_command_request(&config, vec![command]);
    assert!(matches!(result, Err(Error::InvalidEmail(_))));

    let command = CommandData {
        command: CommandType::AddTag,
        email: "test@example.com".to_string(),
        query: "".to_string(),
    };
    let result = subscriber_command_request(&config, vec![command]);
    assert!(matches!(result, Err(Error::InvalidRequest(_))));
}

#[test]
fn test_subscriber_command_prepares_post() {
    let config = test_config();
    let command = CommandData {
        command: CommandType::AddTag,
        email: "test@example.com".to_string(),
        query: "new-tag".to_string(),
    };
    let p = subscriber_command_request(&config, vec![command]).unwrap();
    assert!(matches!(p.method, Method::Post));
    assert_eq!(p.url, "https://api.example.com/v1/fetch/commands?site_uuid=test_site_uuid");
    assert!(matches!(p.body, Some(RequestBody::Commands(ref cs)) if cs.len() == 1));
}

#[test]
fn test_find_subscriber_request_shape() {
    let config = test_config();
    let p = find_subscriber_request(&config, "test@example.com").unwrap();
    assert!(matches!(p.method, Method::Get));
    assert_eq!(p.url, "https://api.example.com/v1/fetch/subscribers?site_uuid=test_site_uuid");
    assert_eq!(p.query, vec![("email".to_string(), "test@example.com".to_string())]);
    assert!(p.body.is_none());

    let result = find_subscriber_request(&config, "invalid-email");
    assert!(matches!(result, Err(Error::InvalidEmail(_))));
}

#[test]
fn test_create_subscriber_request_shape() {
    let config = test_config();
    let p = create_subscriber_request(&config, "test@example.com").unwrap();
    assert!(matches!(p.method, Method::Post));
    assert_eq!(p.url, "https://api.example.com/v1/fetch/subscribers?site_uuid=test_site_uuid");
    match p.body {
        Some(RequestBody::CreateSubscriber(req)) => {
            assert_eq!(req.subscriber.email, "test@example.com");
        },
        other => panic!("expected a subscriber body, got {:?}", other),
    }
}

#[test]
fn test_invalid_email() {
    let config = test_config();

    let result = create_subscriber_request(&config, "invalid-email");
    assert!(matches!(result, Err(Error::InvalidEmail(_))));

    let subscriber = ImportSubscriberData {
        email: "invalid-email".to_string(),
        first_name: None,
        last_name: None,
        tags: None,
        remove_tags: None,
        custom_fields: HashMap::new(),
    };
    let result = import_subscribers_request(&config, vec![subscriber]);
    assert!(matches!(result, Err(Error::InvalidEmail(_))));
}

#[test]
fn test_import_subscribers_request_shape() {
    let config = test_config();

    let result = import_subscribers_request(&config, vec![]);
    assert!(matches!(result, Err(Error::InvalidRequest(_))));

    let mut custom_fields = HashMap::new();
    custom_fields.insert("company".to_string(), serde_json::Value::from("Acme Inc"));
    let subscriber = ImportSubscriberData {
        email: "test@example.com".to_string(),
        first_name: Some("John".to_string()),
        last_name: Some("Doe".to_string()),
        tags: Some("lead,mql".to_string()),
        remove_tags: Some("customer".to_string()),
        custom_fields,
    };
    let p = import_subscribers_request(&config, vec![subscriber]).unwrap();
    assert!(matches!(p.method, Method::Post));
    assert_eq!(p.url, "https://api.example.com/v1/batch/subscribers?site_uuid=test_site_uuid");
    assert!(matches!(p.body, Some(RequestBody::ImportSubscribers(ref ss)) if ss.len() == 1));
}

fn sample_broadcast() -> BroadcastData {
    BroadcastData {
        name: "Test Broadcast".into(),
        subject: "Test Subject".into(),
        content: "<p>Test Content</p>".into(),
        broadcast_type: BroadcastType::Plain,
        from: ContactData { name: Some("Test Sender".into()), email: "sender@example.com".into() },
        inclusive_tags: None,
        exclusive_tags: None,
        segment_id: None,
        batch_size_per_hour: 1000,
    }
}

#[test]
fn test_get_broadcasts_request_shape() {
    let config = test_config();
    let p = get_broadcasts_request(&config);
    assert!(matches!(p.method, Method::Get));
    assert_eq!(p.url, "https://api.example.com/v1/fetch/broadcasts?site_uuid=test_site_uuid");
    assert!(p.body.is_none());
}

#[test]
fn test_create_broadcasts_request_shape() {
    let config = test_config();
    let p = create_broadcasts_request(&config, vec![sample_broadcast()]).unwrap();
    assert!(matches!(p.method, Method::Post));
    assert_eq!(p.url, "https://api.example.com/v1/batch/broadcasts?site_uuid=test_site_uuid");
    assert!(matches!(p.body, Some(RequestBody::Broadcasts(ref bs)) if bs.len() == 1));
}

#[test]
fn test_create_broadcasts_validation() {
    let config = test_config();

    let result = create_broadcasts_request(&config, vec![]);
    assert!(matches!(result, Err(Error::InvalidRequest(_))));

    let mut invalid = sample_broadcast();
    invalid.name = "".into();
    invalid.from.email = "invalid-email".into();
    invalid.batch_size_per_hour = 0;
    let result = create_broadcasts_request(&config, vec![invalid]);
    assert!(result.is_err());
    // the first offending field decides
    assert!(matches!(result, Err(Error::InvalidRequest(_))));

    let mut invalid = sample_broadcast();
    invalid.subject = "".into();
    assert!(matches!(
        create_broadcasts_request(&config, vec![invalid]),
        Err(Error::InvalidRequest(_))
    ));

    let mut invalid = sample_broadcast();
    invalid.content = "".into();
    assert!(matches!(
        create_broadcasts_request(&config, vec![invalid]),
        Err(Error::InvalidRequest(_))
    ));

    let mut invalid = sample_broadcast();
    invalid.from.email = "invalid-email".into();
    assert!(matches!(
        create_broadcasts_request(&config, vec![invalid]),
        Err(Error::InvalidEmail(_))
    ));

    let mut invalid = sample_broadcast();
    invalid.batch_size_per_hour = 0;
    assert!(matches!(
        create_broadcasts_request(&config, vec![invalid]),
        Err(Error::InvalidBatchSize(_))
    ));
}

#[test]
fn test_tag_requests() {
    let config = test_config();
    let p = get_tags_request(&config);
    assert!(matches!(p.method, Method::Get));
    assert_eq!(p.url, "https://api.example.com/v1/fetch/tags?site_uuid=test_site_uuid");

    let p = create_tag_request(&config, "test_tag").unwrap();
    assert!(matches!(p.method, Method::Post));
    assert!(matches!(p.body, Some(RequestBody::CreateTag { ref name }) if name == "test_tag"));
}

#[test]
fn test_create_tag_validation() {
    let config = test_config();
    let result = create_tag_request(&config, "");
    assert!(matches!(result, Err(Error::InvalidRequest(_))));
}

#[test]
fn test_field_requests() {
    let config = test_config();
    let p = get_fields_request(&config);
    assert!(matches!(p.method, Method::Get));
    assert_eq!(p.url, "https://api.example.com/v1/fetch/fields?site_uuid=test_site_uuid");

    let p = create_field_request(&config, "test_field").unwrap();
    assert!(matches!(p.method, Method::Post));
    assert!(matches!(p.body, Some(RequestBody::CreateField { ref key }) if key == "test_field"));
}

#[test]
fn test_create_field_validation() {
    let config = test_config();
    let result = create_field_request(&config, "");
    assert!(matches!(result, Err(Error::InvalidRequest(_))));
}

#[test]
fn test_stats_requests() {
    let config = test_config();
    let p = get_site_stats_request(&config);
    assert!(matches!(p.method, Method::Get));
    assert_eq!(p.url, "https://api.example.com/v1/stats/site?site_uuid=test_site_uuid");

    let p = get_segment_stats_request(&config, "segment_123").unwrap();
    assert_eq!(p.url, "https://api.example.com/v1/stats/segment?site_uuid=test_site_uuid");
    assert_eq!(p.query, vec![("segment_id".to_string(), "segment_123".to_string())]);

    let p = get_report_stats_request(&config, "report_123").unwrap();
    assert_eq!(p.url, "https://api.example.com/v1/stats/report?site_uuid=test_site_uuid");
    assert_eq!(p.query, vec![("report_id".to_string(), "report_123".to_string())]);
}

#[test]
fn test_stats_validation() {
    let config = test_config();

    let result = get_segment_stats_request(&config, "");
    assert!(matches!(result, Err(Error::InvalidSegmentId(_))));

    let result = get_report_stats_request(&config, "");
    assert!(matches!(result, Err(Error::InvalidRequest(_))));
}

#[test]
fn test_blacklist_request_shape() {
    let config = test_config();

    let p = get_blacklist_status_request(
        &config,
        BlacklistData { domain: Some("example.com".into()), ip: None },
    )
    .unwrap();
    assert!(matches!(p.method, Method::Get));
    assert_eq!(
        p.url,
        "https://api.example.com/v1/experimental/blacklist.json?site_uuid=test_site_uuid"
    );
    assert_eq!(p.query, vec![("domain".to_string(), "example.com".to_string())]);

    let p = get_blacklist_status_request(
        &config,
        BlacklistData { domain: Some("example.com".into()), ip: Some("1.2.3.4".into()) },
    )
    .unwrap();
    assert_eq!(
        p.query,
        vec![
            ("domain".to_string(), "example.com".to_string()),
            ("ip".to_string(), "1.2.3.4".to_string()),
        ]
    );

    let result =
        get_blacklist_status_request(&config, BlacklistData { domain: None, ip: None });
    assert!(matches!(result, Err(Error::InvalidRequest(_))));

    let result = get_blacklist_status_request(
        &config,
        BlacklistData { domain: None, ip: Some("999.0.0.1".into()) },
    );
    assert!(matches!(result, Err(Error::InvalidIpAddress(_))));
}

#[test]
fn test_validate_email_request_shape() {
    let config = test_config();

    let data = ValidationData {
        email: "test@example.com".into(),
        name: Some("Jordan".into()),
        user_agent: None,
        ip: Some("::1".into()),
    };
    let p = validate_email_request(&config, data).unwrap();
    assert!(matches!(p.method, Method::Post));
    assert_eq!(p.url, "https://api.example.com/v1/experimental/validation?site_uuid=test_site_uuid");
    assert!(matches!(p.body, Some(RequestBody::ValidateEmail(_))));

    let data = ValidationData {
        email: "invalid-email".into(),
        name: None,
        user_agent: None,
        ip: None,
    };
    assert!(matches!(validate_email_request(&config, data), Err(Error::InvalidEmail(_))));

    let data = ValidationData {
        email: "test@example.com".into(),
        name: None,
        user_agent: None,
        ip: Some("not-an-ip".into()),
    };
    assert!(matches!(validate_email_request(&config, data), Err(Error::InvalidIpAddress(_))));
}

#[test]
fn test_content_moderation_and_gender_requests() {
    let config = test_config();

    let p = get_content_moderation_request(&config, "hello").unwrap();
    assert_eq!(
        p.url,
        "https://api.example.com/v1/experimental/content_moderation?site_uuid=test_site_uuid"
    );
    assert_eq!(p.query, vec![("content".to_string(), "hello".to_string())]);
    assert!(matches!(
        get_content_moderation_request(&config, ""),
        Err(Error::InvalidContent(_))
    ));

    let p = get_gender_request(&config, "Jordan").unwrap();
    assert_eq!(p.url, "https://api.example.com/v1/experimental/gender?site_uuid=test_site_uuid");
    assert_eq!(p.query, vec![("name".to_string(), "Jordan".to_string())]);
    assert!(matches!(get_gender_request(&config, ""), Err(Error::InvalidName(_))));
}

#[test]
fn test_geolocate_ip_request_shape() {
    let config = test_config();

    let p = geolocate_ip_request(&config, "8.8.8.8").unwrap();
    assert!(matches!(p.method, Method::Get));
    assert_eq!(
        p.url,
        "https://api.example.com/v1/experimental/geolocation?site_uuid=test_site_uuid"
    );
    assert_eq!(p.query, vec![("ip".to_string(), "8.8.8.8".to_string())]);

    assert!(matches!(geolocate_ip_request(&config, "not-an-ip"), Err(Error::InvalidIpAddress(_))));
}
