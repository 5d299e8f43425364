use ai_gateway::clients::chat::{decode_chat, encode_chat, read_chat_text};
use ai_gateway::clients::deepseek::{DeepSeekClient, DeepSeekConfig};
use ai_gateway::clients::gemini::{
    decode_gemini, encode_gemini, read_gemini_text, GeminiClient, GeminiConfig,
};
use ai_gateway::clients::openai::{OpenAiClient, OpenAiConfig};
use ai_gateway::clients::{
    accepted_body, address, classify_failure, conclude, AiClient, ClientError, HttpRequest,
    Prompt, TransportFailure, TransportOutcome,
};
use ai_gateway::config::{parse, AppConfig};
use ai_gateway::dispatch::{Provider, ProviderClient};
use ai_gateway::text::{decimal, join, same_text};

fn prompt(text: &str) -> Prompt {
    Prompt { text: text.to_string() }
}

fn response(status: u16, body: &str) -> TransportOutcome {
    TransportOutcome::Response { status, body: body.as_bytes().to_vec() }
}

fn failure(detail: &str) -> TransportFailure {
    TransportFailure {
        timeout: false,
        connect: false,
        request: false,
        body: false,
        redirect: false,
        detail: detail.to_string(),
    }
}

fn every_client() -> Vec<(ProviderClient, &'static str)> {
    let chat = "{\"id\":\"1\",\"choices\":[{\"index\":0,\"message\":{\"role\":\"assistant\",\"content\":\"hello there\"}}]}";
    let gemini = "{\"candidates\":[{\"content\":{\"role\":\"model\",\"parts\":[{\"text\":\"hello there\"}]}}]}";
    vec![
        (ProviderClient::select(AppConfig::default(), Provider::OpenAi), chat),
        (ProviderClient::select(AppConfig::default(), Provider::DeepSeek), chat),
        (ProviderClient::select(AppConfig::default(), Provider::Gemini), gemini),
    ]
}

#[test]
fn a_fresh_configuration_answers_hello_through_the_openai_client() {
    let config = parse("").unwrap();
    let client = OpenAiClient::new(config.openai);
    let request = client.request(&prompt("hi")).unwrap();
    assert_eq!(request.url, "https://api.openai.com/v1/chat/completions");
    let outcome = response(200, "{\"choices\":[{\"message\":{\"content\":\"hello\"}}]}");
    assert_eq!(client.response(&outcome), Ok("hello".to_string()));
}

#[test]
fn the_openai_request_carries_model_and_prompt() {
    let client = OpenAiClient::new(OpenAiConfig::default());
    assert_eq!(
        client.request(&prompt("hi")),
        Ok(HttpRequest {
            url: "https://api.openai.com/v1/chat/completions".to_string(),
            body: "{\"model\":\"gpt-3.5-turbo\",\"messages\":[{\"role\":\"user\",\"content\":\"hi\"}]}"
                .to_string(),
            timeout_secs: 10,
        })
    );
}

#[test]
fn the_deepseek_request_carries_model_and_prompt() {
    let config = DeepSeekConfig {
        api_url: "http://localhost:1/chat".to_string(),
        default_model: "deepseek-coder".to_string(),
        timeout_secs: 3,
    };
    let client = DeepSeekClient::new(config);
    assert_eq!(
        client.request(&prompt("2+2?")),
        Ok(HttpRequest {
            url: "http://localhost:1/chat".to_string(),
            body: "{\"model\":\"deepseek-coder\",\"messages\":[{\"role\":\"user\",\"content\":\"2+2?\"}]}"
                .to_string(),
            timeout_secs: 3,
        })
    );
}

#[test]
fn the_gemini_request_carries_model_and_prompt() {
    let client = GeminiClient::new(GeminiConfig::default());
    assert_eq!(
        client.request(&prompt("hi")),
        Ok(HttpRequest {
            url: "https://generativelanguage.googleapis.com/v1beta/models/gemini-1.5-flash:generateContent"
                .to_string(),
            body: "{\"model\":\"gemini-1.5-flash\",\"contents\":[{\"role\":\"user\",\"parts\":[{\"text\":\"hi\"}]}]}"
                .to_string(),
            timeout_secs: 10,
        })
    );
}

#[test]
fn a_prompt_is_escaped_as_json_asks() {
    let body = encode_chat("m", "say \"hi\"\n\\ \u{1} \u{e9}").unwrap();
    assert_eq!(
        body,
        "{\"model\":\"m\",\"messages\":[{\"role\":\"user\",\"content\":\"say \\\"hi\\\"\\n\\\\ \\u0001 \u{e9}\"}]}"
    );
    let parsed: serde_json::Value = serde_json::from_str(&body).unwrap();
    assert_eq!(
        parsed.get("messages").unwrap().get(0).unwrap().get("content").unwrap().as_str(),
        Some("say \"hi\"\n\\ \u{1} \u{e9}")
    );
    let body = encode_gemini("a\"b", "").unwrap();
    assert_eq!(
        body,
        "{\"model\":\"a\\\"b\",\"contents\":[{\"role\":\"user\",\"parts\":[{\"text\":\"\"}]}]}"
    );
}

#[test]
fn every_client_gives_the_bare_text_of_a_well_formed_answer() {
    for (client, payload) in every_client() {
        let text = client.response(&response(200, payload)).unwrap();
        assert_eq!(text, "hello there");
        assert!(!text.contains('{') && !text.contains('}'));
    }
}

#[test]
fn every_client_reports_a_server_error_as_a_failed_request() {
    for (client, payload) in every_client() {
        assert_eq!(
            client.response(&response(500, payload)),
            Err(ClientError::RequestFailed("the provider answered with status 500".to_string()))
        );
        assert_eq!(
            client.response(&response(404, "not found")),
            Err(ClientError::RequestFailed("the provider answered with status 404".to_string()))
        );
    }
}

#[test]
fn every_client_reports_an_undecodable_body_as_a_serialization_failure() {
    let broken = "{\"choices\": [";
    let expected = serde_json::from_str::<serde_json::Value>(broken).unwrap_err().to_string();
    assert!(!expected.is_empty());
    for (client, _) in every_client() {
        assert_eq!(
            client.response(&response(200, broken)),
            Err(ClientError::SerializationFailed(expected.clone()))
        );
        assert!(matches!(
            client.response(&TransportOutcome::Response { status: 200, body: vec![0xff, 0xfe] }),
            Err(ClientError::SerializationFailed(_))
        ));
        assert!(matches!(
            client.response(&response(200, "")),
            Err(ClientError::SerializationFailed(_))
        ));
    }
}

#[test]
fn every_client_reports_an_answer_of_another_shape_as_a_serialization_failure() {
    for (client, _) in every_client() {
        for body in ["{}", "[]", "null", "\"hello\"", "{\"choices\":[]}", "{\"candidates\":{}}"] {
            assert_eq!(
                client.response(&response(200, body)),
                Err(ClientError::SerializationFailed(
                    "the response holds no completion text".to_string()
                ))
            );
        }
    }
}

#[test]
fn an_answer_in_another_providers_shape_is_not_decoded() {
    let chat = "{\"choices\":[{\"message\":{\"content\":\"x\"}}]}";
    let gemini = "{\"candidates\":[{\"content\":{\"parts\":[{\"text\":\"x\"}]}}]}";
    assert_eq!(decode_chat(chat.as_bytes()), Ok("x".to_string()));
    assert_eq!(decode_gemini(gemini.as_bytes()), Ok("x".to_string()));
    assert_eq!(
        decode_chat(gemini.as_bytes()),
        Err("the response holds no completion text".to_string())
    );
    assert_eq!(
        decode_gemini(chat.as_bytes()),
        Err("the response holds no completion text".to_string())
    );
}

#[test]
fn the_first_choice_is_the_one_that_counts() {
    let body = "{\"choices\":[{\"message\":{\"content\":\"first\"}},{\"message\":{\"content\":\"second\"}}]}";
    assert_eq!(decode_chat(body.as_bytes()), Ok("first".to_string()));
    let body = "{\"candidates\":[{\"content\":{\"parts\":[{\"text\":\"one\"},{\"text\":\"two\"}]}},{\"content\":{\"parts\":[{\"text\":\"three\"}]}}]}";
    assert_eq!(decode_gemini(body.as_bytes()), Ok("one".to_string()));
}

#[test]
fn content_that_is_no_string_is_no_completion() {
    for body in [
        "{\"choices\":[{\"message\":{\"content\":null}}]}",
        "{\"choices\":[{\"message\":{\"content\":12}}]}",
        "{\"choices\":[{\"message\":{}}]}",
        "{\"choices\":[{\"message\":\"content\"}]}",
        "{\"choices\":{\"0\":{\"message\":{\"content\":\"x\"}}}}",
    ] {
        let value: serde_json::Value = serde_json::from_str(body).unwrap();
        assert_eq!(read_chat_text(&value), None);
    }
    let value: serde_json::Value =
        serde_json::from_str("{\"candidates\":[{\"content\":{\"parts\":[{\"text\":7}]}}]}").unwrap();
    assert_eq!(read_gemini_text(&value), None);
    let value: serde_json::Value =
        serde_json::from_str("{\"candidates\":[{\"content\":{\"parts\":[{\"text\":\"t\"}]}}]}").unwrap();
    assert_eq!(read_gemini_text(&value), Some("t".to_string()));
}

#[test]
fn completion_text_is_unescaped() {
    let body = "{\"choices\":[{\"message\":{\"content\":\"a \\\"b\\\"\\n\\u00e9 {c}\"}}]}";
    assert_eq!(decode_chat(body.as_bytes()), Ok("a \"b\"\n\u{e9} {c}".to_string()));
}

#[test]
fn only_the_2xx_range_is_success() {
    let client = OpenAiClient::new(OpenAiConfig::default());
    let payload = "{\"choices\":[{\"message\":{\"content\":\"ok\"}}]}";
    assert_eq!(
        client.response(&response(199, payload)),
        Err(ClientError::RequestFailed("the provider answered with status 199".to_string()))
    );
    assert_eq!(client.response(&response(200, payload)), Ok("ok".to_string()));
    assert_eq!(client.response(&response(204, payload)), Ok("ok".to_string()));
    assert_eq!(client.response(&response(299, payload)), Ok("ok".to_string()));
    assert_eq!(
        client.response(&response(300, payload)),
        Err(ClientError::RequestFailed("the provider answered with status 300".to_string()))
    );
    assert_eq!(
        client.response(&response(0, payload)),
        Err(ClientError::RequestFailed("the provider answered with status 0".to_string()))
    );
    assert_eq!(
        client.response(&response(65535, payload)),
        Err(ClientError::RequestFailed("the provider answered with status 65535".to_string()))
    );
}

#[test]
fn a_body_is_accepted_only_with_a_2xx_status() {
    let outcome = response(201, "abc");
    assert_eq!(accepted_body(&outcome), Ok("abc".as_bytes()));
    let outcome = response(400, "abc");
    assert_eq!(
        accepted_body(&outcome),
        Err(ClientError::RequestFailed("the provider answered with status 400".to_string()))
    );
    let mut timed_out = failure("deadline has elapsed");
    timed_out.timeout = true;
    assert_eq!(
        accepted_body(&TransportOutcome::Failure(timed_out)),
        Err(ClientError::RequestFailed("deadline has elapsed".to_string()))
    );
}

#[test]
fn transport_failures_are_failed_requests() {
    let mut timeout = failure("timed out");
    timeout.timeout = true;
    let mut connect = failure("connection refused");
    connect.connect = true;
    let mut request = failure("could not send");
    request.request = true;
    let mut body = failure("body cut short");
    body.body = true;
    let mut redirect = failure("too many redirects");
    redirect.redirect = true;
    for failure in [timeout, connect, request, body, redirect] {
        assert_eq!(
            classify_failure(&failure),
            ClientError::RequestFailed(failure.detail.clone())
        );
        for (client, _) in every_client() {
            assert_eq!(
                client.response(&TransportOutcome::Failure(failure.clone())),
                Err(ClientError::RequestFailed(failure.detail.clone()))
            );
        }
    }
}

#[test]
fn a_failure_of_no_known_kind_keeps_its_cause_as_text() {
    let unknown = failure("builder error: relative URL without a base");
    assert_eq!(
        classify_failure(&unknown),
        ClientError::UnknownError("builder error: relative URL without a base".to_string())
    );
    for (client, _) in every_client() {
        assert_eq!(
            client.response(&TransportOutcome::Failure(unknown.clone())),
            Err(ClientError::UnknownError(
                "builder error: relative URL without a base".to_string()
            ))
        );
    }
}

#[test]
fn a_decoded_body_concludes_the_exchange() {
    assert_eq!(conclude(Ok("text".to_string())), Ok("text".to_string()));
    assert_eq!(
        conclude(Err("why".to_string())),
        Err(ClientError::SerializationFailed("why".to_string()))
    );
}

#[test]
fn a_request_is_addressed_from_the_configuration() {
    assert_eq!(
        address("http://h/p", 7, Ok("{}".to_string())),
        Ok(HttpRequest { url: "http://h/p".to_string(), body: "{}".to_string(), timeout_secs: 7 })
    );
    assert_eq!(
        address("http://h/p", 7, Err("cannot encode".to_string())),
        Err(ClientError::SerializationFailed("cannot encode".to_string()))
    );
}

#[test]
fn a_client_keeps_the_configuration_it_was_given() {
    let config = OpenAiConfig {
        api_url: "u".to_string(),
        default_model: "m".to_string(),
        timeout_secs: 1,
    };
    let client = OpenAiClient::new(config.clone());
    assert_eq!(client.config(), &config);
    assert_eq!(DeepSeekClient::new(DeepSeekConfig::default()).config(), &DeepSeekConfig::default());
    assert_eq!(GeminiClient::new(GeminiConfig::default()).config(), &GeminiConfig::default());
}

#[test]
fn providers_are_found_by_their_names() {
    assert_eq!(Provider::from_name("openai"), Some(Provider::OpenAi));
    assert_eq!(Provider::from_name("deepseek"), Some(Provider::DeepSeek));
    assert_eq!(Provider::from_name("gemini"), Some(Provider::Gemini));
    assert_eq!(Provider::from_name("OpenAI"), None);
    assert_eq!(Provider::from_name(""), None);
    assert_eq!(Provider::from_name("openai "), None);
    assert_eq!(Provider::OpenAi.as_name(), "openai");
    assert_eq!(Provider::DeepSeek.as_name(), "deepseek");
    assert_eq!(Provider::Gemini.as_name(), "gemini");
}

#[test]
fn the_dispatcher_hands_each_client_its_own_part_of_the_configuration() {
    let mut config = AppConfig::default();
    config.deepseek.timeout_secs = 77;
    config.gemini.default_model = "gemini-x".to_string();
    let client = ProviderClient::by_name(config.clone(), "deepseek").unwrap();
    assert_eq!(client, ProviderClient::DeepSeek(DeepSeekClient::new(config.deepseek.clone())));
    assert_eq!(client.request(&prompt("p")).unwrap().timeout_secs, 77);
    let client = ProviderClient::by_name(config.clone(), "gemini").unwrap();
    assert_eq!(client, ProviderClient::Gemini(GeminiClient::new(config.gemini.clone())));
    let client = ProviderClient::by_name(config.clone(), "openai").unwrap();
    assert_eq!(client, ProviderClient::OpenAi(OpenAiClient::new(config.openai.clone())));
    assert_eq!(ProviderClient::by_name(config, "mistral"), None);
}

#[test]
fn numbers_are_written_in_decimal() {
    assert_eq!(decimal(0), "0");
    assert_eq!(decimal(7), "7");
    assert_eq!(decimal(10), "10");
    assert_eq!(decimal(404), "404");
    assert_eq!(decimal(1234567890), "1234567890");
    assert_eq!(decimal(u64::MAX), "18446744073709551615");
}

#[test]
fn text_is_joined_and_compared() {
    assert_eq!(join("ab", "cd"), "abcd");
    assert_eq!(join("", ""), "");
    assert!(same_text("openai", "openai"));
    assert!(!same_text("openai", "gemini"));
    assert!(!same_text("a", ""));
}

#[test]
fn client_errors_say_what_kind_they_are() {
    assert_eq!(
        ClientError::RequestFailed("timed out".to_string()).message(),
        "Request failed: timed out"
    );
    assert_eq!(
        ClientError::SerializationFailed("bad".to_string()).message(),
        "Serialization failed: bad"
    );
    assert_eq!(
        ClientError::UnknownError("x".to_string()).message(),
        "Unhandled exception: x"
    );
}
