use bento::EmailData;
use bento::Error;
use bento::email::EmailBatch;

fn sample_email() -> EmailData {
    EmailData {
        to: "test@example.com".into(),
        from: "sender@example.com".into(),
        subject: "Test".into(),
        html_body: "<p>Test</p>".into(),
        transactional: true,
        personalizations: None,
    }
}

#[test]
fn test_email_batch_creation() {
    let emails = vec![sample_email()];

    let batch = EmailBatch::new(emails);
    assert!(batch.is_ok());
    assert_eq!(batch.unwrap().len(), 1);
}

#[test]
fn test_email_batch_size_limit() {
    let emails = (0..61).map(|_| sample_email()).collect();

    let batch = EmailBatch::new(emails);
    assert!(batch.is_err());
    assert!(matches!(batch.unwrap_err(), Error::InvalidBatchSize(_)));
}

#[test]
fn test_email_batch_accepts_exactly_sixty() {
    let emails = (0..60).map(|_| sample_email()).collect();

    let batch = EmailBatch::new(emails);
    assert!(batch.is_ok());
    assert_eq!(batch.unwrap().len(), 60);
}

#[test]
fn test_email_batch_add_email() {
    let mut batch = EmailBatch::new(vec![]).unwrap();
    assert!(batch.is_empty());

    assert!(batch.add_email(sample_email()).is_ok());
    assert_eq!(batch.len(), 1);
    assert!(!batch.is_empty());

    for _ in 1..60 {
        assert!(batch.add_email(sample_email()).is_ok());
    }
    assert_eq!(batch.len(), 60);

    let rejected = batch.add_email(sample_email());
    assert!(matches!(rejected, Err(Error::InvalidBatchSize(_))));
    assert_eq!(batch.len(), 60);
}
