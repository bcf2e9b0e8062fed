use imagegen::client::build_config;
use imagegen::client::download_outcome;
use imagegen::client::generation_endpoint;
use imagegen::client::generation_outcome;
use imagegen::client::DownloadEvent;
use imagegen::client::GenResponse;
use imagegen::errors::ApiError;
use imagegen::request::Entry;
use imagegen::request::ImgRequest;
use imagegen::request::Payload;
use imagegen::resolve::resolve_prompts;
use imagegen::task::progress_message;
use imagegen::task::task_begin;
use imagegen::task::task_on_download;
use imagegen::task::task_on_generation;
use imagegen::task::TaskOutcome;
use imagegen::task::TaskState;
use imagegen::text::u16_to_decimal;

fn reply_with_urls(status: u16, urls: &[&str]) -> GenResponse {
    GenResponse::Replied {
        status,
        payload: Some(Payload {
            data: urls.iter().map(|u| Entry { url: String::from(*u) }).collect(),
        }),
    }
}

#[test]
fn resolve_substitutes_the_repeat_token() {
    let tokens = vec![String::from("cat"), String::from("."), String::from("dog")];
    let resolved = resolve_prompts(&tokens).unwrap();
    assert_eq!(resolved, vec!["cat", "cat", "dog"]);
}

#[test]
fn resolve_rejects_a_leading_repeat_token() {
    let tokens = vec![String::from("."), String::from("cat")];
    assert!(resolve_prompts(&tokens).is_none());
}

#[test]
fn resolve_rejects_empty_prompts() {
    assert!(resolve_prompts(&vec![String::new()]).is_none());
    assert!(resolve_prompts(&vec![String::from("cat"), String::new()]).is_none());
}

#[test]
fn resolve_of_nothing_is_nothing() {
    assert_eq!(resolve_prompts(&Vec::new()), Some(Vec::new()));
}

#[test]
fn resolve_repeats_repeatedly() {
    let tokens = vec![String::from("owl"), String::from("."), String::from(".")];
    let resolved = resolve_prompts(&tokens).unwrap();
    assert_eq!(resolved, vec!["owl", "owl", "owl"]);
}

#[test]
fn missing_credential_is_fatal_before_any_work() {
    assert_eq!(build_config(None), Err(ApiError::Config));
}

#[test]
fn config_carries_the_bearer_token() {
    let config = build_config(Some(String::from("token123"))).unwrap();
    assert_eq!(config.content_type, "application/json");
    assert_eq!(config.authorization, "Bearer token123");
}

#[test]
fn endpoint_is_the_generation_url() {
    assert_eq!(generation_endpoint(), "https://api.openai.com/v1/images/generations");
}

#[test]
fn img_request_asks_for_one_fixed_size_image() {
    let r = ImgRequest::new("a tiny dog");
    assert_eq!(r.model, "dall-e-3");
    assert_eq!(r.size, "1024x1024");
    assert_eq!(r.n, 1);
    assert_eq!(r.prompt, "a tiny dog");
}

#[test]
fn first_url_takes_the_first_entry() {
    let p = Payload {
        data: vec![Entry { url: String::from("u1") }, Entry { url: String::from("u2") }],
    };
    assert_eq!(p.first_url(), Ok(String::from("u1")));
}

#[test]
fn first_url_of_an_empty_array_is_a_protocol_error() {
    let p = Payload { data: Vec::new() };
    assert_eq!(p.first_url(), Err(ApiError::Protocol));
}

#[test]
fn generation_outcome_covers_the_error_taxonomy() {
    assert_eq!(
        generation_outcome(GenResponse::TransportFailed(String::from("boom"))),
        Err(ApiError::Transport(String::from("boom")))
    );
    assert_eq!(
        generation_outcome(GenResponse::Replied { status: 500, payload: None }),
        Err(ApiError::Remote(500))
    );
    assert_eq!(
        generation_outcome(GenResponse::Replied { status: 200, payload: None }),
        Err(ApiError::Protocol)
    );
    assert_eq!(generation_outcome(reply_with_urls(200, &[])), Err(ApiError::Protocol));
    assert_eq!(
        generation_outcome(reply_with_urls(200, &["http://img/1"])),
        Ok(String::from("http://img/1"))
    );
}

#[test]
fn download_outcome_covers_the_error_taxonomy() {
    assert_eq!(download_outcome(DownloadEvent::Completed), Ok(()));
    assert_eq!(
        download_outcome(DownloadEvent::TransportFailed(String::from("dns"))),
        Err(ApiError::Transport(String::from("dns")))
    );
    assert_eq!(download_outcome(DownloadEvent::BadStatus(404)), Err(ApiError::Remote(404)));
    assert_eq!(
        download_outcome(DownloadEvent::FileError(String::from("disk full"))),
        Err(ApiError::Filesystem(String::from("disk full")))
    );
}

#[test]
fn decimal_rendering_is_exact() {
    assert_eq!(u16_to_decimal(0), "0");
    assert_eq!(u16_to_decimal(7), "7");
    assert_eq!(u16_to_decimal(200), "200");
    assert_eq!(u16_to_decimal(404), "404");
    assert_eq!(u16_to_decimal(65535), "65535");
}

#[test]
fn error_descriptions_are_exact() {
    assert_eq!(ApiError::Config.describe(), "missing API credential");
    assert_eq!(
        ApiError::Transport(String::from("no route")).describe(),
        "transport failure: no route"
    );
    assert_eq!(ApiError::Remote(500).describe(), "unexpected http status 500");
    assert_eq!(ApiError::Protocol.describe(), "malformed generation response");
    assert_eq!(
        ApiError::Filesystem(String::from("denied")).describe(),
        "file write failure: denied"
    );
}

#[test]
fn one_failed_generation_does_not_touch_its_sibling() {
    // Task A's generation call returns a 500; task B's succeeds and its
    // download completes. A fails alone, B runs to done.
    let a = task_begin(String::from("prompt a"));
    let a = task_on_generation(a, GenResponse::Replied { status: 500, payload: None });
    assert_eq!(
        a,
        TaskState::Terminal {
            outcome: TaskOutcome::GenerationFailed(String::from("unexpected http status 500")),
        }
    );

    let b = task_begin(String::from("prompt b"));
    let b = task_on_generation(b, reply_with_urls(200, &["http://img/b"]));
    let path = match &b {
        TaskState::Downloading { name, url, path } => {
            assert_eq!(name, "prompt-b");
            assert_eq!(url, "http://img/b");
            path.clone()
        }
        other => panic!("expected a downloading task, got {:?}", other),
    };
    let b = task_on_download(b, DownloadEvent::Completed);
    assert_eq!(b, TaskState::Terminal { outcome: TaskOutcome::Success(path) });
}

#[test]
fn a_failed_download_is_never_reported_done() {
    let t = task_begin(String::from("prompt"));
    let t = task_on_generation(t, reply_with_urls(200, &["http://img/x"]));
    assert!(matches!(t, TaskState::Downloading { .. }));
    let t = task_on_download(t, DownloadEvent::BadStatus(404));
    assert!(!matches!(
        t,
        TaskState::Terminal { outcome: TaskOutcome::Success(_) }
    ));
    assert_eq!(
        t,
        TaskState::Terminal {
            outcome: TaskOutcome::DownloadFailed(String::from("unexpected http status 404")),
        }
    );
    assert_eq!(progress_message(&t), "[error-down] unexpected http status 404");
}

#[test]
fn two_tasks_on_the_same_url_write_two_distinct_paths() {
    let mut paths = Vec::new();
    for _ in 0..2 {
        let t = task_begin(String::from("same prompt"));
        let t = task_on_generation(t, reply_with_urls(200, &["http://img/shared"]));
        let t = task_on_download(t, DownloadEvent::Completed);
        match t {
            TaskState::Terminal { outcome: TaskOutcome::Success(p) } => paths.push(p),
            other => panic!("expected success, got {:?}", other),
        }
    }
    assert_ne!(paths[0], paths[1]);
    assert!(paths[0].starts_with("./same-prompt-"));
    assert!(paths[1].starts_with("./same-prompt-"));
}

#[test]
fn progress_messages_follow_the_lifecycle() {
    let t = task_begin(String::from("my cat"));
    assert_eq!(progress_message(&t), "[generating] my-cat");
    let t = task_on_generation(t, reply_with_urls(200, &["http://img/c"]));
    assert_eq!(progress_message(&t), "[downloading] my-cat");
    let path = match &t {
        TaskState::Downloading { path, .. } => path.clone(),
        other => panic!("expected a downloading task, got {:?}", other),
    };
    let t = task_on_download(t, DownloadEvent::Completed);
    let mut expected = String::from("[done] ");
    expected.push_str(&path);
    assert_eq!(progress_message(&t), expected);
}

#[test]
fn generation_transport_failure_ends_a_task_with_its_report() {
    let t = task_begin(String::from("p"));
    let t = task_on_generation(t, GenResponse::TransportFailed(String::from("tls handshake")));
    assert_eq!(
        t,
        TaskState::Terminal {
            outcome: TaskOutcome::GenerationFailed(String::from(
                "transport failure: tls handshake"
            )),
        }
    );
    assert_eq!(progress_message(&t), "[error-gen] transport failure: tls handshake");
}

#[test]
fn an_empty_result_array_fails_generation_not_the_process() {
    let t = task_begin(String::from("p"));
    let t = task_on_generation(t, reply_with_urls(200, &[]));
    assert_eq!(
        t,
        TaskState::Terminal {
            outcome: TaskOutcome::GenerationFailed(String::from("malformed generation response")),
        }
    );
}
