use add_channel::descriptor::ModelIdentity;
use add_channel::fetch::extract_tables;
use add_channel::merge::{DomainError, PriceQuote, default_baseline};
use add_channel::num::Decimal;
use add_channel::run::{Action, Event, Phase, PublishReport, Run, RunConfig, start, GatewayError};
use add_channel::table::KeyValue;

fn config(input: Decimal, output: Decimal) -> RunConfig {
    RunConfig {
        identity: ModelIdentity {
            source_name: "gpt-x".to_string(),
            gateway_name: "gw-gpt-x".to_string(),
            source_base_url: "https://api.example.com".to_string(),
        },
        source_token: "test_token".to_string(),
        prices: PriceQuote { input, output },
        baseline: default_baseline(),
    }
}

fn ok_response() -> Event {
    Event::Response { status: 200, body: String::new(), options: None }
}

fn options_event(items: Vec<(&str, &str)>) -> Event {
    Event::Response {
        status: 200,
        body: String::new(),
        options: Some(
            items
                .into_iter()
                .map(|(k, v)| KeyValue { key: k.to_string(), value: v.to_string() })
                .collect(),
        ),
    }
}

#[test]
fn end_to_end_merges_and_publishes_completion_table() {
    let cfg = config(Decimal { mantissa: 20, exp: 1 }, Decimal { mantissa: 60, exp: 1 });
    let (run, action) = start(cfg).unwrap();
    assert!(matches!(action, Action::CreateChannel { .. }));

    let (run, action) = run.step(ok_response());
    assert!(matches!(action, Action::FetchOptions));

    let (run, action) = run.step(options_event(vec![("CompletionRatio", "{\"other-model\":1.2}")]));
    match &action {
        Action::UpdateOption { payload } => {
            assert_eq!(
                payload.as_str(),
                "{\"key\":\"CompletionRatio\",\"value\":\"{\\\"other-model\\\":1.2,\\\"gpt-x\\\":3.0,\\\"gw-gpt-x\\\":3.0}\"}"
            );
        }
        other => panic!("expected an option update, got {:?}", other),
    }

    let (run, action) = run.step(ok_response());
    assert!(matches!(action, Action::Finish));
    match run.phase {
        Phase::Done { outcome } => {
            assert!(matches!(outcome.completion_publish, PublishReport::Published));
            assert!(matches!(outcome.model_publish, PublishReport::NotAttempted));
            assert!(outcome.model.is_none());
            let t = outcome.completion.unwrap();
            let pairs: Vec<(String, String)> =
                t.entries.iter().map(|e| (e.key.clone(), e.value.clone())).collect();
            assert_eq!(
                pairs,
                vec![
                    ("other-model".to_string(), "1.2".to_string()),
                    ("gpt-x".to_string(), "3.0".to_string()),
                    ("gw-gpt-x".to_string(), "3.0".to_string()),
                ]
            );
        }
        other => panic!("expected a finished run, got {:?}", other),
    }
}

#[test]
fn zero_input_price_fails_before_any_call() {
    let cfg = config(Decimal { mantissa: 0, exp: 0 }, Decimal { mantissa: 60, exp: 1 });
    assert_eq!(start(cfg).err(), Some(DomainError::ZeroInputPrice));
}

#[test]
fn non_terminating_ratio_fails_at_start() {
    // 1 / 3 has no finite decimal expansion
    let cfg = config(Decimal { mantissa: 3, exp: 0 }, Decimal { mantissa: 1, exp: 0 });
    assert_eq!(start(cfg).err(), Some(DomainError::UnrepresentableRatio));
}

#[test]
fn channel_creation_conflict_aborts_the_run() {
    let cfg = config(Decimal { mantissa: 20, exp: 1 }, Decimal { mantissa: 60, exp: 1 });
    let (run, _) = start(cfg).unwrap();
    let (run, action) = run.step(Event::Response {
        status: 409,
        body: "conflict".to_string(),
        options: None,
    });
    assert!(matches!(action, Action::Finish));
    match run.phase {
        Phase::Failed { error: GatewayError::RequestFailed { status, body } } => {
            assert_eq!(status, 409);
            assert_eq!(body, "conflict");
        }
        other => panic!("expected an aborted run, got {:?}", other),
    }
}

#[test]
fn absent_completion_table_is_never_written() {
    let cfg = config(Decimal { mantissa: 20, exp: 1 }, Decimal { mantissa: 60, exp: 1 });
    let (run, _) = start(cfg).unwrap();
    let (run, _) = run.step(ok_response());
    // only a ModelRatio entry: the completion slot stays absent
    let (run, action) = run.step(options_event(vec![("ModelRatio", "{\"m\":1}")]));
    match &action {
        Action::UpdateOption { payload } => {
            assert!(payload.starts_with("{\"key\":\"ModelRatio\""));
        }
        other => panic!("expected the model-ratio update, got {:?}", other),
    }
    let (run, action) = run.step(ok_response());
    assert!(matches!(action, Action::Finish));
    match run.phase {
        Phase::Done { outcome } => {
            assert!(outcome.completion.is_none());
            assert!(matches!(outcome.completion_publish, PublishReport::NotAttempted));
            assert!(matches!(outcome.model_publish, PublishReport::Published));
        }
        other => panic!("expected a finished run, got {:?}", other),
    }
}

#[test]
fn unparsable_table_is_treated_as_absent() {
    let cfg = config(Decimal { mantissa: 20, exp: 1 }, Decimal { mantissa: 60, exp: 1 });
    let (run, _) = start(cfg).unwrap();
    let (run, _) = run.step(ok_response());
    let (run, action) = run.step(options_event(vec![
        ("CompletionRatio", "not json"),
        ("ModelRatio", "[3]"),
    ]));
    assert!(matches!(action, Action::Finish));
    match run.phase {
        Phase::Done { outcome } => {
            assert!(outcome.completion.is_none());
            assert!(outcome.model.is_none());
        }
        other => panic!("expected a finished run, got {:?}", other),
    }
}

#[test]
fn model_publish_failure_does_not_stop_completion_publish() {
    let cfg = config(Decimal { mantissa: 20, exp: 1 }, Decimal { mantissa: 60, exp: 1 });
    let (run, _) = start(cfg).unwrap();
    let (run, _) = run.step(ok_response());
    let (run, action) = run.step(options_event(vec![
        ("CompletionRatio", "{}"),
        ("ModelRatio", "{}"),
    ]));
    assert!(matches!(action, Action::UpdateOption { .. }));
    // the ModelRatio update fails, the CompletionRatio update is still tried
    let (run, action) = run.step(Event::Response {
        status: 500,
        body: "boom".to_string(),
        options: None,
    });
    match &action {
        Action::UpdateOption { payload } => {
            assert!(payload.starts_with("{\"key\":\"CompletionRatio\""));
        }
        other => panic!("expected the completion-ratio update, got {:?}", other),
    }
    let (run, action) = run.step(ok_response());
    assert!(matches!(action, Action::Finish));
    match run.phase {
        Phase::Done { outcome } => {
            assert!(matches!(
                outcome.model_publish,
                PublishReport::PublishFailed { error: GatewayError::RequestFailed { status: 500, .. } }
            ));
            assert!(matches!(outcome.completion_publish, PublishReport::Published));
        }
        other => panic!("expected a finished run, got {:?}", other),
    }
}

#[test]
fn fetch_decode_failure_aborts() {
    let cfg = config(Decimal { mantissa: 20, exp: 1 }, Decimal { mantissa: 60, exp: 1 });
    let (run, _) = start(cfg).unwrap();
    let (run, _) = run.step(ok_response());
    let (run, action) = run.step(Event::Response {
        status: 200,
        body: "garbage".to_string(),
        options: None,
    });
    assert!(matches!(action, Action::Finish));
    assert!(matches!(run.phase, Phase::Failed { error: GatewayError::DecodeFailed { .. } }));
}

#[test]
fn transport_failure_aborts() {
    let cfg = config(Decimal { mantissa: 20, exp: 1 }, Decimal { mantissa: 60, exp: 1 });
    let (run, _) = start(cfg).unwrap();
    let (run, action) = run.step(Event::Transport { message: "refused".to_string() });
    assert!(matches!(action, Action::Finish));
    assert!(matches!(run.phase, Phase::Failed { error: GatewayError::Transport { .. } }));
}

#[test]
fn extract_takes_the_last_parsable_entry() {
    let options = vec![
        KeyValue { key: "CompletionRatio".to_string(), value: "{\"a\":1}".to_string() },
        KeyValue { key: "Unrelated".to_string(), value: "x".to_string() },
        KeyValue { key: "CompletionRatio".to_string(), value: "{\"a\":2}".to_string() },
        KeyValue { key: "CompletionRatio".to_string(), value: "broken".to_string() },
    ];
    let (completion, model) = extract_tables(&options);
    let t = completion.unwrap();
    assert_eq!(t.entries.len(), 1);
    assert_eq!(t.entries[0].value, "2");
    assert!(model.is_none());
}
