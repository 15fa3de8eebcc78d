use channel_bridge::send::{send_message, send_report, SendAction, CONTENT_LIMIT};

#[test]
fn valid_text_is_dispatched_once_as_it_is() {
    assert_eq!(
        send_message(5, "hello there"),
        SendAction::Dispatch { channel_id: 5, content: "hello there".to_string() }
    );
    assert_eq!(send_message(7, ""), SendAction::Dispatch { channel_id: 7, content: String::new() });
}

#[test]
fn text_at_the_limit_is_dispatched() {
    let text = "a".repeat(CONTENT_LIMIT);
    assert_eq!(send_message(5, &text), SendAction::Dispatch { channel_id: 5, content: text.clone() });
}

#[test]
fn text_over_the_limit_is_not_sent() {
    let text = "a".repeat(CONTENT_LIMIT + 1);
    assert_eq!(send_message(5, &text), SendAction::Notify("Message content's invalid".to_string()));
}

#[test]
fn the_limit_counts_characters_not_bytes() {
    let text = "é".repeat(2000);
    assert_eq!(text.len(), 4000);
    assert_eq!(send_message(5, &text), SendAction::Dispatch { channel_id: 5, content: text.clone() });
    let longer = "é".repeat(2001);
    assert_eq!(send_message(5, &longer), SendAction::Notify("Message content's invalid".to_string()));
}

#[test]
fn rejected_request_is_reported_with_its_reason() {
    assert_eq!(
        send_report(Err("Response error: status code 403".to_string())),
        Some("An error occurred sending message: Response error: status code 403".to_string())
    );
    assert_eq!(send_report(Err(String::new())), Some("An error occurred sending message: ".to_string()));
}

#[test]
fn accepted_request_is_not_reported() {
    assert_eq!(send_report(Ok(())), None);
}
