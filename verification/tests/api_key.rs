use open_ai_responses::api_key::{
    load_open_ai_api_key_if_needed, load_open_ai_api_token, open_ai_api_token, open_ai_api_url,
    ApiKeyEntity, App,
};
use open_ai_responses::settings::OpenAiEditPredictionSettings;
use std::cell::RefCell;

fn app(api_url: Option<&str>) -> App {
    App {
        open_ai: api_url.map(|api_url| OpenAiEditPredictionSettings {
            api_url: api_url.to_string(),
            model: "gpt-test".to_string(),
            max_output_tokens: 512,
        }),
        open_ai_api_key: None,
    }
}

/// The calls that a host got.
struct Host {
    calls: RefCell<Vec<String>>,
}

impl Host {
    fn new() -> Host {
        Host { calls: RefCell::new(Vec::new()) }
    }

    fn new_entity(&self, url: String) -> ApiKeyEntity {
        let mut calls = self.calls.borrow_mut();
        let id = 40 + calls.len() as u64;
        calls.push(format!("new {url}"));
        ApiKeyEntity { id }
    }

    fn load(&self, token: ApiKeyEntity, url: String) -> u8 {
        self.calls.borrow_mut().push(format!("load {} {url}", token.id));
        9
    }

    fn key(&self, token: ApiKeyEntity, url: String) -> Option<String> {
        self.calls.borrow_mut().push(format!("key {} {url}", token.id));
        Some(format!("sk-{}", token.id))
    }
}

#[test]
fn address_is_that_of_the_settings() {
    assert_eq!(open_ai_api_url(&app(Some("http://a/v1/"))), "http://a/v1/");
    assert_eq!(open_ai_api_url(&app(Some(""))), "");
    assert_eq!(open_ai_api_url(&app(None)), "https://api.openai.com/v1");
}

#[test]
fn entity_is_made_once() {
    let host = Host::new();
    let mut cx = app(Some("http://a"));
    let first = open_ai_api_token(&mut cx, |url| host.new_entity(url));
    assert_eq!(first, ApiKeyEntity { id: 40 });
    assert_eq!(cx.open_ai_api_key, Some(first));
    cx.open_ai = None;
    let second = open_ai_api_token(&mut cx, |url| host.new_entity(url));
    assert_eq!(second, first);
    assert_eq!(*host.calls.borrow(), vec!["new http://a".to_string()]);
}

#[test]
fn held_entity_needs_no_maker() {
    let mut cx = app(Some("http://a"));
    cx.open_ai_api_key = Some(ApiKeyEntity { id: 7 });
    let token = open_ai_api_token(&mut cx, |_| -> ApiKeyEntity { panic!("an entity was made") });
    assert_eq!(token, ApiKeyEntity { id: 7 });
    assert_eq!(cx.open_ai_api_key, Some(token));
}

#[test]
fn key_that_the_load_puts_in_place_is_found() {
    let mut cx = app(Some("http://a"));
    let stored: RefCell<Option<String>> = RefCell::new(None);
    let key = load_open_ai_api_key_if_needed(
        &mut cx,
        |_| ApiKeyEntity { id: 7 },
        |_, _| {
            stored.replace(Some("sk-at-once".to_string()));
        },
        |_, _| stored.borrow().clone(),
    );
    assert_eq!(key, Some("sk-at-once".to_string()));
}

#[test]
fn key_is_loaded_for_the_address() {
    let host = Host::new();
    let mut cx = app(None);
    let task = load_open_ai_api_token(
        &mut cx,
        |url| host.new_entity(url),
        |token, url| host.load(token, url),
    );
    assert_eq!(task, 9);
    assert_eq!(
        *host.calls.borrow(),
        vec![
            "new https://api.openai.com/v1".to_string(),
            "load 40 https://api.openai.com/v1".to_string()
        ]
    );
}

#[test]
fn key_is_read_where_it_was_loaded() {
    let host = Host::new();
    let mut cx = app(Some("http://a"));
    let key = load_open_ai_api_key_if_needed(
        &mut cx,
        |url| host.new_entity(url),
        |token, url| host.load(token, url),
        |token, url| host.key(token, url),
    );
    assert_eq!(key, Some("sk-40".to_string()));
    assert_eq!(
        *host.calls.borrow(),
        vec![
            "new http://a".to_string(),
            "load 40 http://a".to_string(),
            "key 40 http://a".to_string()
        ]
    );
    let key = load_open_ai_api_key_if_needed(
        &mut cx,
        |url| host.new_entity(url),
        |token, url| host.load(token, url),
        |_, _| None,
    );
    assert_eq!(key, None);
    assert_eq!(host.calls.borrow().len(), 4);
}
