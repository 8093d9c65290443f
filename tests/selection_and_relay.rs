use ollama_chat::relay::{generate_outcome, host_not_set_error, no_model_error, ChatRequest};
use ollama_chat::selection::Selection;
use ollama_chat::wire::{generate_body, generate_url, normalize_images, tags_url};

fn chat(prompt: &str, images: Option<Vec<String>>) -> ChatRequest {
    ChatRequest { prompt: prompt.to_string(), images }
}

#[test]
fn latest_selected_model_is_returned() {
    let mut sel = Selection::new();
    assert_eq!(sel.get_selected_model(), None);
    for m in ["llama3", "mistral", "phi3", "mistral"] {
        sel.set_selected_model(m.to_string());
        assert_eq!(sel.get_selected_model(), Some(m.to_string()));
    }
    assert_eq!(sel.get_selected_model(), Some("mistral".to_string()));
    assert_eq!(sel.get_selected_host(), None);
}

#[test]
fn chat_before_model_selection_fails() {
    let mut sel = Selection::new();
    let r = sel.prepare_generate(&chat("hi", None));
    assert_eq!(r.err(), Some("Nenhum modelo selecionado".to_string()));
    sel.set_selected_host("http://h".to_string());
    let r = sel.prepare_generate(&chat("hi", None));
    assert_eq!(r.err(), Some(no_model_error()));
}

#[test]
fn chat_without_host_fails_after_model_check() {
    let mut sel = Selection::new();
    sel.set_selected_model("llama3".to_string());
    let r = sel.prepare_generate(&chat("hi", None));
    assert_eq!(r.err(), Some("Host não foi definido".to_string()));
}

#[test]
fn catalog_without_any_host_fails() {
    let mut sel = Selection::new();
    let r = sel.prepare_fetch_models(None);
    assert_eq!(r, Err(host_not_set_error()));
    assert_eq!(r, Err("Host não foi definido".to_string()));
    assert_eq!(sel.get_selected_host(), None);
}

#[test]
fn given_host_is_stored_before_the_request() {
    let mut sel = Selection::new();
    let r = sel.prepare_fetch_models(Some("http://h".to_string()));
    assert_eq!(r, Ok("http://h/api/tags".to_string()));
    assert_eq!(sel.get_selected_host(), Some("http://h".to_string()));
    let r = sel.prepare_fetch_models(None);
    assert_eq!(r, Ok("http://h/api/tags".to_string()));
    let r = sel.prepare_fetch_models(Some("http://other:11434".to_string()));
    assert_eq!(r, Ok("http://other:11434/api/tags".to_string()));
    assert_eq!(sel.get_selected_host(), Some("http://other:11434".to_string()));
}

#[test]
fn chat_with_model_and_host_posts_generate_request() {
    let mut sel = Selection::new();
    sel.set_selected_model("llama3".to_string());
    sel.prepare_fetch_models(Some("http://h".to_string())).unwrap();
    let call = sel.prepare_generate(&chat("hi", None)).unwrap();
    assert_eq!(call.url, "http://h/api/generate");
    assert_eq!(
        call.body,
        r#"{"model":"llama3","prompt":"hi","stream":false,"images":null}"#
    );
    let body: serde_json::Value = serde_json::from_str(&call.body).unwrap();
    assert_eq!(body["stream"], serde_json::Value::Bool(false));
}

#[test]
fn generate_reply_text_is_returned() {
    let reply: serde_json::Value = serde_json::from_str(r#"{"response":"hello","done":true}"#).unwrap();
    let text = reply["response"].as_str().unwrap().to_string();
    assert_eq!(generate_outcome(Ok(text)), Ok("hello".to_string()));
}

#[test]
fn empty_image_list_is_sent_as_null() {
    let body = generate_body("llama3", "hi", &Some(vec![]));
    assert_eq!(body, generate_body("llama3", "hi", &None));
    assert!(body.contains(r#""images":null"#));
    let parsed: serde_json::Value = serde_json::from_str(&body).unwrap();
    assert!(parsed["images"].is_null());
}

#[test]
fn images_are_sent_as_array() {
    let images = Some(vec!["aGVsbG8=".to_string(), "d29ybGQ=".to_string()]);
    let body = generate_body("llava", "what is this?", &images);
    assert_eq!(
        body,
        r#"{"model":"llava","prompt":"what is this?","stream":false,"images":["aGVsbG8=","d29ybGQ="]}"#
    );
    let one = generate_body("llava", "x", &Some(vec!["QQ==".to_string()]));
    assert!(one.ends_with(r#""images":["QQ=="]}"#));
}

#[test]
fn prompt_is_escaped_as_json_string() {
    let body = generate_body("m", "say \"hi\"\nnow\\", &None);
    assert_eq!(
        body,
        r#"{"model":"m","prompt":"say \"hi\"\nnow\\","stream":false,"images":null}"#
    );
    let parsed: serde_json::Value = serde_json::from_str(&body).unwrap();
    assert_eq!(parsed["prompt"].as_str(), Some("say \"hi\"\nnow\\"));
}

#[test]
fn malformed_reply_gives_parse_error_with_cause() {
    let cause = serde_json::from_str::<serde_json::Value>("{not json")
        .unwrap_err()
        .to_string();
    let r = generate_outcome(Err(cause.clone()));
    let msg = r.unwrap_err();
    assert!(msg.starts_with("Erro ao analisar resposta: "));
    assert!(msg.contains(&cause));
    assert_eq!(msg, format!("Erro ao analisar resposta: {}", cause));
}

#[test]
fn urls_append_endpoint_paths() {
    assert_eq!(tags_url("http://localhost:11434"), "http://localhost:11434/api/tags");
    assert_eq!(generate_url("http://localhost:11434"), "http://localhost:11434/api/generate");
    assert_eq!(tags_url(""), "/api/tags");
}

#[test]
fn image_lists_are_normalized() {
    assert_eq!(normalize_images(None), None);
    assert_eq!(normalize_images(Some(vec![])), None);
    assert_eq!(
        normalize_images(Some(vec!["a".to_string()])),
        Some(vec!["a".to_string()])
    );
}
