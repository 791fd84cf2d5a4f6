use chat_gateway::config::Config;
use chat_gateway::json::{Json, Number};
use chat_gateway::message::{Message, Role};
use chat_gateway::upstream::{
    build_call, completions_url, shape_response, SamplingProfile, RESPONSE_OBJECT,
};

fn sample_config() -> Config {
    Config {
        endpoint: "https://example.openai.azure.com".to_string(),
        upstream_key: "upstream-secret".to_string(),
        deployment: "gpt-4".to_string(),
        api_version: "2023-05-15".to_string(),
        inbound_key: "inbound-secret".to_string(),
    }
}

fn text(s: &str) -> Json {
    Json::Text(s.to_string())
}

fn object(members: Vec<(&str, Json)>) -> Json {
    Json::Object(members.into_iter().map(|(k, v)| (k.to_string(), v)).collect())
}

fn full_reply() -> Json {
    object(vec![
        ("id", text("chatcmpl-123")),
        ("object", text("chat.completion")),
        ("created", Json::Number(Number::Unsigned(1700000000))),
        ("model", text("gpt-4-0613")),
        (
            "choices",
            Json::List(vec![
                object(vec![
                    ("index", Json::Number(Number::Unsigned(0))),
                    (
                        "message",
                        object(vec![("role", text("assistant")), ("content", text("Paris."))]),
                    ),
                    ("finish_reason", text("stop")),
                ]),
                object(vec![
                    ("message", object(vec![("content", text("second choice"))])),
                    ("finish_reason", text("length")),
                ]),
            ]),
        ),
    ])
}

#[test]
fn sampling_profile_is_fixed() {
    let profile = SamplingProfile::standard();
    assert_eq!(profile.max_tokens, 1200);
    assert_eq!(profile.temperature_hundredths, 70);
    assert_eq!(profile.top_p_hundredths, 95);
    assert_eq!(profile.frequency_penalty, 0);
    assert_eq!(profile.presence_penalty, 0);
}

#[test]
fn completions_url_is_composed_from_the_config() {
    assert_eq!(
        completions_url(&sample_config()),
        "https://example.openai.azure.com/openai/deployments/gpt-4/chat/completions?api-version=2023-05-15"
    );
    let empty = Config {
        endpoint: String::new(),
        upstream_key: String::new(),
        deployment: String::new(),
        api_version: String::new(),
        inbound_key: String::new(),
    };
    assert_eq!(completions_url(&empty), "/openai/deployments//chat/completions?api-version=");
}

#[test]
fn build_call_presents_the_upstream_key() {
    let messages = vec![Message::new(Role::User, "hi".to_string())];
    let call = build_call(&sample_config(), messages.clone());
    assert_eq!(call.api_key, "upstream-secret");
    assert_ne!(call.api_key, "inbound-secret");
    assert_eq!(call.url, completions_url(&sample_config()));
    assert_eq!(call.payload.messages, messages);
    assert_eq!(call.payload.sampling, SamplingProfile::standard());
    assert_eq!(call.payload.stop, None);
}

#[test]
fn shape_response_reads_a_full_reply() {
    let response = shape_response("gpt4".to_string(), &full_reply());
    assert_eq!(response.id, "chatcmpl-123");
    assert_eq!(response.object, "chat.completion");
    assert_eq!(response.object, RESPONSE_OBJECT);
    assert_eq!(response.created, 1700000000);
    assert_eq!(response.model, "gpt4");
    assert_eq!(response.choices.len(), 1);
    assert_eq!(response.choices[0].index, 0);
    assert_eq!(response.choices[0].message.role, Role::Assistant);
    assert_eq!(response.choices[0].message.content, "Paris.");
    assert_eq!(response.choices[0].finish_reason, "stop");
}

#[test]
fn shape_response_defaults_missing_fields() {
    for reply in [object(vec![]), Json::Null, Json::List(Vec::new()), text("oops")] {
        let response = shape_response("m".to_string(), &reply);
        assert_eq!(response.id, "");
        assert_eq!(response.object, "chat.completion");
        assert_eq!(response.created, 0);
        assert_eq!(response.model, "m");
        assert_eq!(response.choices.len(), 1);
        assert_eq!(response.choices[0].index, 0);
        assert_eq!(response.choices[0].message.role, Role::Assistant);
        assert_eq!(response.choices[0].message.content, "");
        assert_eq!(response.choices[0].finish_reason, "");
    }
}

#[test]
fn shape_response_defaults_fields_of_the_wrong_kind() {
    let reply = object(vec![
        ("id", Json::Number(Number::Unsigned(5))),
        ("created", text("yesterday")),
        (
            "choices",
            Json::List(vec![object(vec![
                ("message", object(vec![("content", Json::Null)])),
                ("finish_reason", Json::Null),
            ])]),
        ),
    ]);
    let response = shape_response("m".to_string(), &reply);
    assert_eq!(response.id, "");
    assert_eq!(response.created, 0);
    assert_eq!(response.choices[0].message.content, "");
    assert_eq!(response.choices[0].finish_reason, "");
}

#[test]
fn shape_response_reads_a_partial_reply() {
    let no_choices = object(vec![("id", text("a")), ("choices", Json::List(Vec::new()))]);
    let response = shape_response("m".to_string(), &no_choices);
    assert_eq!(response.id, "a");
    assert_eq!(response.choices[0].message.content, "");

    let no_message = object(vec![(
        "choices",
        Json::List(vec![object(vec![("finish_reason", text("length"))])]),
    )]);
    let response = shape_response("m".to_string(), &no_message);
    assert_eq!(response.choices[0].message.content, "");
    assert_eq!(response.choices[0].finish_reason, "length");

    let choices_not_a_list = object(vec![(
        "choices",
        object(vec![("message", object(vec![("content", text("x"))]))]),
    )]);
    let response = shape_response("m".to_string(), &choices_not_a_list);
    assert_eq!(response.choices[0].message.content, "");
}

#[test]
fn shape_response_reads_signed_and_refuses_negative_times() {
    let signed = object(vec![("created", Json::Number(Number::Signed(12)))]);
    assert_eq!(shape_response("m".to_string(), &signed).created, 12);
    let negative = object(vec![("created", Json::Number(Number::Signed(-12)))]);
    assert_eq!(shape_response("m".to_string(), &negative).created, 0);
    let fraction = object(vec![("created", Json::Number(Number::Decimal("1.5".to_string())))]);
    assert_eq!(shape_response("m".to_string(), &fraction).created, 0);
}

#[test]
fn shape_response_ignores_the_upstream_model() {
    let response = shape_response("gpt4_onlinellm".to_string(), &full_reply());
    assert_eq!(response.model, "gpt4_onlinellm");
}
