use cli_chat::check_openai_api_key;
use cli_chat::chat_completions_url;
use cli_chat::model_selector;
use cli_chat::ChatError;

#[test]
fn model_flag_wins_over_environment() {
    let r = model_selector(Some(b"x".to_vec()), Some(b"env-model".to_vec()));
    assert_eq!(r, Ok(b"x".to_vec()));
}

#[test]
fn model_flag_wins_without_environment() {
    let r = model_selector(Some(b"x".to_vec()), None);
    assert_eq!(r, Ok(b"x".to_vec()));
}

#[test]
fn model_falls_back_to_environment() {
    let r = model_selector(None, Some(b"foo".to_vec()));
    assert_eq!(r, Ok(b"foo".to_vec()));
}

#[test]
fn model_missing_everywhere_fails() {
    let r = model_selector(None, None);
    assert_eq!(r, Err(ChatError::MissingModel));
    let msg = ChatError::MissingModel.text();
    assert_eq!(
        msg,
        b"Neither --model parameter nor MODEL_NAME environment variable is set.".to_vec()
    );
}

#[test]
fn api_key_present_passes() {
    assert_eq!(check_openai_api_key(Some(b"SECRET-REDACTED".to_vec())), Ok(()));
}

#[test]
fn api_key_absent_fails() {
    let r = check_openai_api_key(None);
    assert_eq!(r, Err(ChatError::MissingApiKey));
    assert_eq!(
        ChatError::MissingApiKey.text(),
        b"Please set the OPENAI_API_KEY environment variable".to_vec()
    );
}

#[test]
fn url_uses_default_base_when_unset() {
    assert_eq!(
        chat_completions_url(None),
        b"https://api.openai.com/v1/chat/completions".to_vec()
    );
}

#[test]
fn url_uses_configured_base() {
    assert_eq!(
        chat_completions_url(Some(b"http://localhost:8000".to_vec())),
        b"http://localhost:8000/chat/completions".to_vec()
    );
}
