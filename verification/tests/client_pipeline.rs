use refix::client::{ImproveError, OpenAIClient};
use refix::shell::{update, Action, AppEvent, AppState};

#[test]
fn round_trip_of_a_mocked_completion() {
    let client = OpenAIClient::new(String::from("test-key"));
    let body =
        "{\"choices\":[{\"message\":{\"content\":\"\\\"Here's the improved text: Good day.\\\"\"}}]}";
    let improved = client.process_response(body).unwrap();
    assert_eq!(improved, "Good day.");

    // The improved text is what the shell hands on for the clipboard.
    let mut s = AppState { enabled: true, openai_connected: true };
    let a = update(&mut s, AppEvent::TextImproved(Ok(improved)));
    assert_eq!(a, Action::Paste(String::from("Good day.")));
}

#[test]
fn response_content_is_trimmed_and_sanitized() {
    let client = OpenAIClient::new(String::from("test-key"));
    let body = "{\"choices\":[{\"message\":{\"content\":\"  Improved text: tidy  \"}}]}";
    assert_eq!(client.process_response(body).unwrap(), "tidy");
}

#[test]
fn malformed_json_is_a_parse_error() {
    let client = OpenAIClient::new(String::from("test-key"));
    assert_eq!(client.process_response("not json"), Err(ImproveError::Parse));
}

#[test]
fn missing_choices_is_a_parse_error() {
    let client = OpenAIClient::new(String::from("test-key"));
    assert_eq!(client.process_response("{}"), Err(ImproveError::Parse));
    assert_eq!(
        client.process_response("{\"choices\":[]}"),
        Err(ImproveError::Parse)
    );
}

#[test]
fn non_string_content_is_a_parse_error() {
    let client = OpenAIClient::new(String::from("test-key"));
    let body = "{\"choices\":[{\"message\":{\"content\":5}}]}";
    assert_eq!(client.process_response(body), Err(ImproveError::Parse));
}

#[test]
fn parse_error_message_matches_the_log_line() {
    assert_eq!(ImproveError::Parse.message(), "Failed to parse OpenAI response");
}

#[test]
fn request_body_embeds_the_escaped_prompt() {
    let client = OpenAIClient::new(String::from("test-key"));
    let body = client.request_body("good day");
    assert_eq!(
        body,
        "{\"model\":\"gpt-4o-mini\",\"messages\":[{\"role\":\"user\",\"content\":\"Refactor this text: \\\"good day\\\"\"}],\"max_tokens\":1000,\"temperature\":0.7}"
    );
}

#[test]
fn request_body_is_valid_json_with_the_fixed_fields() {
    let client = OpenAIClient::new(String::from("test-key"));
    let body = client.request_body("tricky \"quoted\"\ntext");
    let v: serde_json::Value = serde_json::from_str(&body).unwrap();
    assert_eq!(v["model"], "gpt-4o-mini");
    assert_eq!(v["max_tokens"], 1000);
    assert_eq!(v["messages"][0]["role"], "user");
    assert_eq!(
        v["messages"][0]["content"].as_str().unwrap(),
        "Refactor this text: \"tricky \"quoted\"\ntext\""
    );
}

#[test]
fn auth_header_carries_the_bearer_credential() {
    let client = OpenAIClient::new(String::from("test-key"));
    assert_eq!(client.auth_header(), "Bearer test-key");
    assert_eq!(
        client.endpoint_url(),
        "https://api.openai.com/v1/chat/completions"
    );
}
