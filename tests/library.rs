use ai_commit::client::{
    check_response_body, classify_response, first_completion, GroqClient, COMPLETIONS_PATH,
    DEFAULT_BASE_URL, MODELS_PATH,
};
use ai_commit::error::CommitError;
use ai_commit::flow::{
    action_for_response, check_model, combine_diff, decide_action, plan_messages,
    request_for_diffs, resolve_model, CommitAction, CommitOptions, NO_SUBJECT,
};
use ai_commit::models::{ChatResponse, Choice, Message, ModelInfo, Role};
use ai_commit::prompt::{
    compose_generate, compose_improve, generate_commit_message, improve_commit_message,
    GENERATE_INSTRUCTIONS, IMPROVE_INSTRUCTIONS,
};
use ai_commit::settings::{
    check_api_key, contains_model, encode_settings, load_settings, model_ids, str_eq,
    settings_from_values, validate_model, Settings,
};

fn models(ids: &[&str]) -> Vec<ModelInfo> {
    ids.iter().map(|i| ModelInfo { id: i.to_string() }).collect()
}

fn response(contents: &[&str]) -> ChatResponse {
    ChatResponse {
        id: "chatcmpl-1".to_string(),
        object: "chat.completion".to_string(),
        model: "llama3-8b-8192".to_string(),
        created: 1700000000,
        choices: contents
            .iter()
            .enumerate()
            .map(|(i, c)| Choice { index: i as u64, message: Message::user(c) })
            .collect(),
    }
}

fn options(subject: Option<&str>, message: Option<&str>, add: bool, dry_run: bool) -> CommitOptions {
    CommitOptions {
        model: "llama3-8b-8192".to_string(),
        subject: subject.map(|s| s.to_string()),
        message: message.map(|s| s.to_string()),
        add,
        dry_run,
    }
}

#[test]
fn message_constructors_set_role_and_content() {
    let s = Message::system("be brief");
    assert_eq!(s.role, Role::System);
    assert_eq!(s.content, "be brief");
    let u = Message::user("diff --git a b");
    assert_eq!(u.role, Role::User);
    assert_eq!(u.content, "diff --git a b");
}

#[test]
fn role_wire_names_are_lower_case() {
    assert_eq!(Role::User.as_str(), "user");
    assert_eq!(Role::System.as_str(), "system");
    assert_eq!(Role::Assistant.as_str(), "assistant");
}

#[test]
fn generate_has_system_then_verbatim_diff() {
    let diff = "diff --git a/x b/x\n+added line\n-removed line\n";
    let ms = compose_generate("feat: parser", diff);
    assert_eq!(ms.len(), 2);
    assert_eq!(ms[0].role, Role::System);
    assert_eq!(ms[1].role, Role::User);
    assert_eq!(ms[1].content, diff);
}

#[test]
fn generate_writes_subject_after_instructions() {
    let m = generate_commit_message("fix: crash");
    assert_eq!(m.role, Role::System);
    assert_eq!(m.content, format!("{}fix: crash\n", GENERATE_INSTRUCTIONS));
    assert!(m.content.ends_with("- Subject: fix: crash\n"));
}

#[test]
fn generate_keeps_placeholder_subject_verbatim() {
    let m = generate_commit_message("--");
    assert!(m.content.ends_with("[[CONTEXT]]\n- Subject: --\n"));
    let ms = compose_generate(NO_SUBJECT, "+x");
    assert!(ms[0].content.ends_with("- Subject: --\n"));
}

#[test]
fn improve_has_system_diff_then_prior() {
    let ms = compose_improve("+new code", "fix: old message");
    assert_eq!(ms.len(), 3);
    assert_eq!(ms[0].role, Role::System);
    assert_eq!(ms[0].content, IMPROVE_INSTRUCTIONS);
    assert_eq!(ms[1].role, Role::User);
    assert_eq!(ms[1].content, "+new code");
    assert_eq!(ms[2].role, Role::User);
    assert_eq!(ms[2].content, "fix: old message");
    assert_eq!(improve_commit_message().content, IMPROVE_INSTRUCTIONS);
}

#[test]
fn improve_with_empty_texts_still_has_three_messages() {
    let ms = compose_improve("", "");
    assert_eq!(ms.len(), 3);
    assert_eq!(ms[1].content, "");
    assert_eq!(ms[2].content, "");
}

#[test]
fn validate_model_accepts_listed_identifier() {
    let listing = models(&["llama3-8b-8192", "mixtral-8x7b-32768"]);
    assert_eq!(validate_model(Ok(listing), "mixtral-8x7b-32768"), Ok(true));
}

#[test]
fn validate_model_rejects_unlisted_identifier() {
    let listing = models(&["llama3-8b-8192", "mixtral-8x7b-32768"]);
    assert_eq!(validate_model(Ok(listing), "gpt-4"), Ok(false));
    assert_eq!(validate_model(Ok(models(&[])), "gpt-4"), Ok(false));
    assert_eq!(validate_model(Ok(models(&["llama3"])), "llama3-8b-8192"), Ok(false));
}

#[test]
fn validate_model_propagates_listing_failure() {
    assert_eq!(validate_model(Err(CommitError::Network), "gpt-4"), Err(CommitError::Network));
}

#[test]
fn model_ids_keep_listing_order() {
    let ids = model_ids(&models(&["b", "a", "c"]));
    assert_eq!(ids, vec!["b".to_string(), "a".to_string(), "c".to_string()]);
    assert!(contains_model(&models(&["b", "a"]), "a"));
    assert!(!contains_model(&models(&["b", "a"]), "ab"));
}

#[test]
fn str_eq_compares_characters() {
    assert!(str_eq("héllo", "héllo"));
    assert!(!str_eq("héllo", "hello"));
    assert!(!str_eq("abc", "ab"));
    assert!(str_eq("", ""));
}

#[test]
fn api_key_is_required() {
    assert_eq!(check_api_key(""), Err(CommitError::Configuration));
    assert_eq!(check_api_key("gsk_123"), Ok("gsk_123".to_string()));
}

#[test]
fn settings_start_from_fallback_key() {
    let s = Settings::new(Some("gsk_env".to_string()));
    assert_eq!(s.apikey, Some("gsk_env".to_string()));
    assert_eq!(s.model, None);
    assert_eq!(Settings::new(None).apikey, None);
}

#[test]
fn encoded_settings_are_pretty_json() {
    let text = encode_settings("gsk_abc", "llama3-8b-8192").unwrap();
    assert_eq!(text, "{\n  \"apikey\": \"gsk_abc\",\n  \"model\": \"llama3-8b-8192\"\n}");
    assert_eq!(encode_settings("", "llama3-8b-8192"), Err(CommitError::Configuration));
}

#[test]
fn persisted_settings_load_back_equal() {
    let text = encode_settings("gsk_\"quoted\" key", "mixtral-8x7b-32768").unwrap();
    let s = load_settings(&text).unwrap();
    assert_eq!(s.apikey, Some("gsk_\"quoted\" key".to_string()));
    assert_eq!(s.model, Some("mixtral-8x7b-32768".to_string()));
}

#[test]
fn load_settings_needs_both_keys() {
    assert!(load_settings("{\"apikey\": \"k\"}").is_err());
    assert!(load_settings("{\"model\": \"m\"}").is_err());
    assert!(load_settings("not json").is_err());
    let s = load_settings("{\"model\": \"m\", \"apikey\": \"k\"}").unwrap();
    assert_eq!(s.apikey, Some("k".to_string()));
    assert_eq!(s.model, Some("m".to_string()));
}

#[test]
fn client_urls_follow_base() {
    let c = GroqClient::new("gsk_1");
    assert_eq!(c.get_base_url(), DEFAULT_BASE_URL);
    assert_eq!(c.completions_url(), "https://api.groq.com/openai/v1/chat/completions");
    assert_eq!(c.models_url(), "https://api.groq.com/openai/v1/models");
    let local = c.with_base_url("http://localhost:8080");
    assert_eq!(local.api_key, "gsk_1");
    assert_eq!(local.completions_url(), format!("http://localhost:8080{}", COMPLETIONS_PATH));
    assert_eq!(local.models_url(), format!("http://localhost:8080{}", MODELS_PATH));
}

#[test]
fn headers_carry_bearer_token_and_json() {
    let hs = GroqClient::new("gsk_1").default_headers().unwrap();
    assert_eq!(
        hs,
        vec![
            ("authorization".to_string(), "Bearer gsk_1".to_string()),
            ("content-type".to_string(), "application/json".to_string()),
            ("accept".to_string(), "application/json".to_string()),
        ]
    );
}

#[test]
fn key_that_cannot_be_a_header_is_refused() {
    assert_eq!(GroqClient::new("gsk\n1").default_headers(), Err(CommitError::Configuration));
    assert_eq!(GroqClient::new("gsk\u{7f}").default_headers(), Err(CommitError::Configuration));
    assert!(GroqClient::new("gsk\t1").default_headers().is_ok());
}

#[test]
fn chat_request_keeps_model_and_messages() {
    let c = GroqClient::new("k");
    let req = c.chat_request("m".to_string(), vec![Message::user("hi")]);
    assert_eq!(req.model, "m");
    assert_eq!(req.messages.len(), 1);
    assert_eq!(req.messages[0].content, "hi");
}

#[test]
fn empty_choices_are_malformed() {
    assert_eq!(first_completion(&response(&[])), Err(CommitError::MalformedResponse));
    let r = action_for_response(&options(None, None, false, true), Ok(response(&[])));
    assert!(matches!(r, Err(CommitError::MalformedResponse)));
}

#[test]
fn first_choice_is_used() {
    assert_eq!(first_completion(&response(&["feat: a", "fix: b"])), Ok("feat: a".to_string()));
}

#[test]
fn error_payload_is_told_apart() {
    let body = "{\"error\": {\"message\": \"Invalid API Key\", \"type\": \"invalid_request_error\"}}";
    let r = check_response_body(body, None);
    assert!(matches!(r, Err(CommitError::ProviderError)));
    let r = check_response_body("{\"id\": 3}", None);
    assert!(matches!(r, Err(CommitError::MalformedResponse)));
    let r = check_response_body("{\"id\": \"x\"}", Some(response(&["ok"])));
    assert_eq!(r.unwrap().choices[0].message.content, "ok");
    assert!(matches!(classify_response(true, Some(response(&["ok"]))), Err(CommitError::ProviderError)));
}

#[test]
fn empty_diff_stops_before_any_request() {
    let r = request_for_diffs(&options(None, None, false, false), "", "");
    assert!(matches!(r, Err(CommitError::EmptyDiff)));
    assert!(matches!(plan_messages(&options(None, None, false, false), ""), Err(CommitError::EmptyDiff)));
    let r = request_for_diffs(&options(None, None, false, false), "", "+unstaged");
    assert!(matches!(r, Err(CommitError::EmptyDiff)));
}

#[test]
fn unstaged_diff_is_added_on_request() {
    assert_eq!(combine_diff("+a", "+b", true), "+a\n\n+b");
    assert_eq!(combine_diff("+a", "+b", false), "+a");
    assert_eq!(combine_diff("+a", "", true), "+a\n\n");
    assert_eq!(combine_diff("", "+b", true), "\n\n+b");
    assert_eq!(combine_diff("", "", true), "\n\n");
    let req = request_for_diffs(&options(None, None, true, false), "+a", "").unwrap();
    assert_eq!(req.messages[1].content, "+a\n\n");
    let req = request_for_diffs(&options(None, None, true, false), "", "+b").unwrap();
    assert_eq!(req.messages[1].content, "\n\n+b");
}

#[test]
fn empty_diffs_with_add_stop_before_any_request() {
    let r = request_for_diffs(&options(None, None, true, false), "", "");
    assert!(matches!(r, Err(CommitError::EmptyDiff)));
    let r = request_for_diffs(&options(None, Some("draft"), true, true), "", "");
    assert!(matches!(r, Err(CommitError::EmptyDiff)));
}

#[test]
fn request_uses_placeholder_subject_when_none_given() {
    let req = request_for_diffs(&options(None, None, false, false), "+x", "").unwrap();
    assert_eq!(req.model, "llama3-8b-8192");
    assert_eq!(req.messages.len(), 2);
    assert!(req.messages[0].content.ends_with("- Subject: --\n"));
    assert_eq!(req.messages[1].content, "+x");
    let req = request_for_diffs(&options(Some("feat: y"), None, false, false), "+x", "").unwrap();
    assert!(req.messages[0].content.ends_with("- Subject: feat: y\n"));
}

#[test]
fn request_improves_a_given_message() {
    let req = request_for_diffs(&options(None, Some("fix stuff"), false, false), "+x", "").unwrap();
    assert_eq!(req.messages.len(), 3);
    assert_eq!(req.messages[0].content, IMPROVE_INSTRUCTIONS);
    assert_eq!(req.messages[1].content, "+x");
    assert_eq!(req.messages[2].content, "fix stuff");
}

#[test]
fn dry_run_prints_and_never_commits() {
    let r = action_for_response(&options(None, None, true, true), Ok(response(&["  feat: x \n"])));
    match r {
        Ok(CommitAction::Print(m)) => assert_eq!(m, "feat: x"),
        other => panic!("unexpected {:?}", other),
    }
}

#[test]
fn without_dry_run_the_trimmed_message_is_committed() {
    let r = action_for_response(&options(None, None, true, false), Ok(response(&["\tfix: y\n\n"])));
    match r {
        Ok(CommitAction::Commit { message, add }) => {
            assert_eq!(message, "fix: y");
            assert!(add);
        }
        other => panic!("unexpected {:?}", other),
    }
    let r = action_for_response(&options(None, None, false, false), Err(CommitError::Network));
    assert!(matches!(r, Err(CommitError::Network)));
}

#[test]
fn decide_action_follows_dry_run() {
    assert!(matches!(decide_action("m".to_string(), true, false), CommitAction::Print(_)));
    assert!(matches!(
        decide_action("m".to_string(), false, true),
        CommitAction::Commit { add: true, .. }
    ));
}

#[test]
fn model_check_before_diff() {
    let opts = options(None, None, false, false);
    assert_eq!(check_model(&opts, Ok(models(&["llama3-8b-8192"]))), Ok(()));
    assert_eq!(check_model(&opts, Ok(models(&["other"]))), Err(CommitError::Validation));
    assert_eq!(check_model(&opts, Err(CommitError::Network)), Err(CommitError::Network));
}

#[test]
fn model_override_wins() {
    assert_eq!(resolve_model(Some("a".to_string()), "b".to_string()), "a");
    assert_eq!(resolve_model(None, "b".to_string()), "b");
}

#[test]
fn errors_describe_themselves() {
    assert_eq!(CommitError::EmptyDiff.describe(), "No changes to commit");
    assert_eq!(CommitError::MalformedResponse.describe(), "Invalid response from AI");
    assert_eq!(CommitError::Validation.describe(), "Invalid model, please provide a valid model");
}

#[test]
fn configured_settings_are_complete() {
    let s = Settings::configured("gsk_1", "llama3-8b-8192").unwrap();
    assert_eq!(s.apikey, Some("gsk_1".to_string()));
    assert_eq!(s.model, Some("llama3-8b-8192".to_string()));
    assert!(matches!(Settings::configured("", "m"), Err(CommitError::Configuration)));
}

#[test]
fn settings_need_both_values() {
    let s = settings_from_values(Some("k".to_string()), Some("m".to_string())).unwrap();
    assert_eq!(s.apikey, Some("k".to_string()));
    assert_eq!(s.model, Some("m".to_string()));
    assert!(matches!(settings_from_values(None, Some("m".to_string())), Err(CommitError::Configuration)));
    assert!(matches!(settings_from_values(Some("k".to_string()), None), Err(CommitError::Configuration)));
}

#[test]
fn trimming_removes_unicode_white_space_only() {
    let r = action_for_response(
        &options(None, None, false, true),
        Ok(response(&["\u{3000}\u{a0} feat: x\u{2029}\u{85}"])),
    );
    match r {
        Ok(CommitAction::Print(m)) => assert_eq!(m, "feat: x"),
        other => panic!("unexpected {:?}", other),
    }
    let r = action_for_response(&options(None, None, false, true), Ok(response(&["\u{200b}fix\u{200b}"])));
    match r {
        Ok(CommitAction::Print(m)) => assert_eq!(m, "\u{200b}fix\u{200b}"),
        other => panic!("unexpected {:?}", other),
    }
}
