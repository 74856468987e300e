use flov::improve::{
    improvement_request, reply_text, ApiFailure, ChatReply, ImproveError, IMPROVE_PROMPT,
};

#[test]
fn request_body_shape() {
    let body = improvement_request("glm-4", "ну типа \"привет\"");
    let v: serde_json::Value = serde_json::from_str(&body).unwrap();
    assert_eq!(v["model"], "glm-4");
    assert_eq!(v["max_tokens"], 2048);
    assert_eq!(v["messages"][0]["role"], "system");
    assert_eq!(v["messages"][0]["content"], IMPROVE_PROMPT);
    assert_eq!(v["messages"][1]["role"], "user");
    assert_eq!(v["messages"][1]["content"], "ну типа \"привет\"");
    assert!(body.starts_with("{\"model\":\"glm-4\",\"messages\":[{\"role\":\"system\""));
    assert!(body.ends_with("\"}],\"max_tokens\":2048}"));
}

#[test]
fn reply_first_choice_wins() {
    let r = ChatReply { contents: Some(vec!["one".to_string(), "two".to_string()]), error: None };
    assert_eq!(reply_text(r), Ok("one".to_string()));
}

#[test]
fn reply_error_member_wins() {
    let r = ChatReply {
        contents: Some(vec!["one".to_string()]),
        error: Some(ApiFailure { message: Some("quota".to_string()) }),
    };
    assert_eq!(reply_text(r), Err(ImproveError::Api { message: Some("quota".to_string()) }));
    let r = ChatReply { contents: None, error: Some(ApiFailure { message: None }) };
    assert_eq!(reply_text(r), Err(ImproveError::Api { message: None }));
}

#[test]
fn reply_without_choices() {
    assert_eq!(
        reply_text(ChatReply { contents: Some(vec![]), error: None }),
        Err(ImproveError::NoResponse)
    );
    assert_eq!(reply_text(ChatReply { contents: None, error: None }), Err(ImproveError::NoResponse));
}
