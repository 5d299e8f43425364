use ai_gateway::clients::deepseek::DeepSeekConfig;
use ai_gateway::clients::gemini::GeminiConfig;
use ai_gateway::clients::openai::OpenAiConfig;
use ai_gateway::config::{parse, render, AppConfig, ConfigError};
use ai_gateway::document::{Document, Entry, Fields, Section};
use ai_gateway::merge::{merge_seconds, merge_settings, merge_text};

fn absent_fields() -> Fields {
    Fields { api_url: Entry::Absent, default_model: Entry::Absent, timeout_secs: Entry::Absent }
}

fn empty_document() -> Document {
    Document { openai: Section::Absent, deepseek: Section::Absent, gemini: Section::Absent }
}

fn sample() -> AppConfig {
    AppConfig {
        openai: OpenAiConfig {
            api_url: "http://localhost:8080/v1".to_string(),
            default_model: "gpt-4o".to_string(),
            timeout_secs: 30,
        },
        deepseek: DeepSeekConfig {
            api_url: "http://localhost:8081/chat".to_string(),
            default_model: "deepseek-reasoner".to_string(),
            timeout_secs: 0,
        },
        gemini: GeminiConfig {
            api_url: "http://localhost:8082/gen".to_string(),
            default_model: "gemini-2.0".to_string(),
            timeout_secs: 120,
        },
    }
}

#[test]
fn openai_defaults_are_the_documented_ones() {
    let config = OpenAiConfig::default();
    assert_eq!(config.api_url, "https://api.openai.com/v1/chat/completions");
    assert_eq!(config.default_model, "gpt-3.5-turbo");
    assert_eq!(config.timeout_secs, 10);
}

#[test]
fn other_providers_default_to_ten_seconds_and_a_public_endpoint() {
    let deepseek = DeepSeekConfig::default();
    assert_eq!(deepseek.api_url, "https://api.deepseek.com/chat/completions");
    assert_eq!(deepseek.default_model, "deepseek-chat");
    assert_eq!(deepseek.timeout_secs, 10);
    let gemini = GeminiConfig::default();
    assert_eq!(
        gemini.api_url,
        "https://generativelanguage.googleapis.com/v1beta/models/gemini-1.5-flash:generateContent"
    );
    assert_eq!(gemini.default_model, "gemini-1.5-flash");
    assert_eq!(gemini.timeout_secs, 10);
}

#[test]
fn app_defaults_hold_every_provider_default() {
    let config = AppConfig::default();
    assert_eq!(config.openai, OpenAiConfig::default());
    assert_eq!(config.deepseek, DeepSeekConfig::default());
    assert_eq!(config.gemini, GeminiConfig::default());
}

#[test]
fn clone_keeps_every_field() {
    let config = sample();
    assert_eq!(config.clone(), config);
    assert_eq!(config.openai.clone(), config.openai);
    assert_eq!(config.deepseek.clone(), config.deepseek);
    assert_eq!(config.gemini.clone(), config.gemini);
}

#[test]
fn configurations_are_compared_field_by_field() {
    let config = sample();
    assert!(config.same_as(&sample()));
    assert!(AppConfig::default().same_as(&AppConfig::default()));
    assert!(!config.same_as(&AppConfig::default()));
    let mut other = sample();
    other.gemini.timeout_secs = 121;
    assert!(!config.same_as(&other));
    let mut other = sample();
    other.deepseek.default_model.push('x');
    assert!(!config.same_as(&other));
    let mut other = sample();
    other.openai.api_url = String::new();
    assert!(!config.same_as(&other));
}

#[test]
fn empty_text_gives_the_defaults() {
    assert_eq!(parse(""), Ok(AppConfig::default()));
}

#[test]
fn empty_sections_give_the_defaults() {
    assert_eq!(parse("[openai]\n[deepseek]\n[gemini]\n"), Ok(AppConfig::default()));
}

#[test]
fn one_field_of_one_provider_still_gives_a_whole_configuration() {
    let loaded = parse("[deepseek]\ndefault_model = \"deepseek-coder\"\n").unwrap();
    let mut expected = AppConfig::default();
    expected.deepseek.default_model = "deepseek-coder".to_string();
    assert_eq!(loaded, expected);
}

#[test]
fn present_fields_take_the_document_value_and_omitted_ones_the_default() {
    let text = "[openai]\napi_url = \"http://127.0.0.1:9000\"\n\n[gemini]\ntimeout_secs = 45\n";
    let loaded = parse(text).unwrap();
    assert_eq!(loaded.openai.api_url, "http://127.0.0.1:9000");
    assert_eq!(loaded.openai.default_model, "gpt-3.5-turbo");
    assert_eq!(loaded.openai.timeout_secs, 10);
    assert_eq!(loaded.deepseek, DeepSeekConfig::default());
    assert_eq!(loaded.gemini.api_url, GeminiConfig::default().api_url);
    assert_eq!(loaded.gemini.default_model, "gemini-1.5-flash");
    assert_eq!(loaded.gemini.timeout_secs, 45);
}

#[test]
fn a_full_document_is_read_as_written() {
    let text = "[openai]\napi_url = \"http://localhost:8080/v1\"\ndefault_model = \"gpt-4o\"\ntimeout_secs = 30\n\
[deepseek]\napi_url = \"http://localhost:8081/chat\"\ndefault_model = \"deepseek-reasoner\"\ntimeout_secs = 0\n\
[gemini]\napi_url = \"http://localhost:8082/gen\"\ndefault_model = \"gemini-2.0\"\ntimeout_secs = 120\n";
    assert_eq!(parse(text), Ok(sample()));
}

#[test]
fn keys_the_configuration_does_not_know_are_passed_over() {
    let text = "title = \"mine\"\n[openai]\ncolour = \"blue\"\ntimeout_secs = 3\n[mistral]\napi_url = 1\n";
    let loaded = parse(text).unwrap();
    let mut expected = AppConfig::default();
    expected.openai.timeout_secs = 3;
    assert_eq!(loaded, expected);
}

#[test]
fn text_in_place_of_seconds_is_rejected() {
    let result = parse("[openai]\ntimeout_secs = \"abc\"\n");
    assert_eq!(
        result,
        Err(ConfigError::SerializationError(
            "openai.timeout_secs: expected a non-negative integer".to_string()
        ))
    );
}

#[test]
fn numeric_text_in_place_of_seconds_is_rejected_too() {
    let result = parse("[gemini]\ntimeout_secs = \"10\"\n");
    assert_eq!(
        result,
        Err(ConfigError::SerializationError(
            "gemini.timeout_secs: expected a non-negative integer".to_string()
        ))
    );
}

#[test]
fn negative_seconds_are_rejected() {
    let result = parse("[deepseek]\ntimeout_secs = -1\n");
    assert_eq!(
        result,
        Err(ConfigError::SerializationError(
            "deepseek.timeout_secs: expected a non-negative integer".to_string()
        ))
    );
}

#[test]
fn fractional_seconds_are_rejected() {
    let result = parse("[openai]\ntimeout_secs = 1.5\n");
    assert_eq!(
        result,
        Err(ConfigError::SerializationError(
            "openai.timeout_secs: expected a non-negative integer".to_string()
        ))
    );
}

#[test]
fn a_number_in_place_of_an_address_is_rejected() {
    let result = parse("[openai]\napi_url = 5\n");
    assert_eq!(
        result,
        Err(ConfigError::SerializationError("openai.api_url: expected a string".to_string()))
    );
}

#[test]
fn a_table_in_place_of_a_model_is_rejected() {
    let result = parse("[gemini.default_model]\nname = \"x\"\n");
    assert_eq!(
        result,
        Err(ConfigError::SerializationError("gemini.default_model: expected a string".to_string()))
    );
}

#[test]
fn a_section_that_is_no_table_is_rejected() {
    let result = parse("deepseek = 3\n");
    assert_eq!(
        result,
        Err(ConfigError::SerializationError("deepseek: expected a table".to_string()))
    );
}

#[test]
fn the_first_wrong_field_is_the_one_reported() {
    let text = "[gemini]\napi_url = 1\n[openai]\ndefault_model = true\ntimeout_secs = \"x\"\n[deepseek]\napi_url = 2\n";
    assert_eq!(
        parse(text),
        Err(ConfigError::SerializationError("openai.default_model: expected a string".to_string()))
    );
    let text = "[gemini]\napi_url = 1\n[deepseek]\napi_url = 2\n";
    assert_eq!(
        parse(text),
        Err(ConfigError::SerializationError("deepseek.api_url: expected a string".to_string()))
    );
}

#[test]
fn text_that_is_no_document_is_a_building_error() {
    let text = "[openai\napi_url = ";
    let expected = toml::from_str::<toml::Table>(text).unwrap_err().to_string();
    assert!(!expected.is_empty());
    assert_eq!(parse(text), Err(ConfigError::ConfigBuildingError(expected)));
}

#[test]
fn a_key_given_twice_is_a_building_error() {
    let result = parse("[openai]\ntimeout_secs = 1\ntimeout_secs = 2\n");
    assert!(matches!(result, Err(ConfigError::ConfigBuildingError(_))));
}

#[test]
fn the_largest_seconds_a_document_can_hold_are_read() {
    let loaded = parse("[openai]\ntimeout_secs = 9223372036854775807\n").unwrap();
    assert_eq!(loaded.openai.timeout_secs, 9223372036854775807);
}

#[test]
fn the_defaults_are_written_as_three_sections() {
    let text = render(&AppConfig::default()).unwrap();
    let expected = "[deepseek]\n\
api_url = \"https://api.deepseek.com/chat/completions\"\n\
default_model = \"deepseek-chat\"\n\
timeout_secs = 10\n\
\n\
[gemini]\n\
api_url = \"https://generativelanguage.googleapis.com/v1beta/models/gemini-1.5-flash:generateContent\"\n\
default_model = \"gemini-1.5-flash\"\n\
timeout_secs = 10\n\
\n\
[openai]\n\
api_url = \"https://api.openai.com/v1/chat/completions\"\n\
default_model = \"gpt-3.5-turbo\"\n\
timeout_secs = 10\n";
    assert_eq!(text, expected);
}

#[test]
fn what_is_written_reads_back_as_the_same_configuration() {
    let config = sample();
    let text = render(&config).unwrap();
    assert_eq!(parse(&text), Ok(config));
    let defaults = AppConfig::default();
    let text = render(&defaults).unwrap();
    assert_eq!(parse(&text), Ok(defaults));
}

#[test]
fn awkward_text_survives_the_round_trip() {
    let mut config = AppConfig::default();
    config.openai.api_url = "https://example.org/a \"quoted\" path\\with\\backslashes".to_string();
    config.openai.default_model = "line one\nline two\ttabbed".to_string();
    config.deepseek.default_model = String::new();
    config.gemini.default_model = "mod\u{e8}le-\u{1F600}-\u{7}".to_string();
    config.gemini.timeout_secs = 9223372036854775807;
    let text = render(&config).unwrap();
    assert_eq!(parse(&text), Ok(config));
}

#[test]
fn seconds_too_large_for_a_document_cannot_be_written() {
    let mut config = AppConfig::default();
    config.gemini.timeout_secs = 9223372036854775808;
    assert_eq!(
        render(&config),
        Err(ConfigError::SerializationError(
            "gemini.timeout_secs: too large for a TOML integer".to_string()
        ))
    );
    config.openai.timeout_secs = u64::MAX;
    assert_eq!(
        render(&config),
        Err(ConfigError::SerializationError(
            "openai.timeout_secs: too large for a TOML integer".to_string()
        ))
    );
}

#[test]
fn a_document_without_sections_merges_to_the_defaults() {
    assert_eq!(AppConfig::from_document(&empty_document()), Ok(AppConfig::default()));
}

#[test]
fn a_document_written_by_hand_merges_field_by_field() {
    let mut document = empty_document();
    document.openai = Section::Present(Fields {
        api_url: Entry::Absent,
        default_model: Entry::Text("m".to_string()),
        timeout_secs: Entry::Integer(3),
    });
    document.gemini = Section::Present(absent_fields());
    let merged = AppConfig::from_document(&document).unwrap();
    assert_eq!(merged.openai.api_url, "https://api.openai.com/v1/chat/completions");
    assert_eq!(merged.openai.default_model, "m");
    assert_eq!(merged.openai.timeout_secs, 3);
    assert_eq!(merged.deepseek, DeepSeekConfig::default());
    assert_eq!(merged.gemini, GeminiConfig::default());
}

#[test]
fn a_malformed_section_written_by_hand_is_rejected() {
    let mut document = empty_document();
    document.gemini = Section::Malformed;
    assert_eq!(
        AppConfig::from_document(&document),
        Err(ConfigError::SerializationError("gemini: expected a table".to_string()))
    );
    let mut document = empty_document();
    document.deepseek = Section::Present(Fields {
        api_url: Entry::Other,
        default_model: Entry::Absent,
        timeout_secs: Entry::Absent,
    });
    assert_eq!(
        AppConfig::from_document(&document),
        Err(ConfigError::SerializationError("deepseek.api_url: expected a string".to_string()))
    );
}

#[test]
fn each_provider_merges_its_own_section() {
    let section = Section::Present(Fields {
        api_url: Entry::Text("u".to_string()),
        default_model: Entry::Absent,
        timeout_secs: Entry::Integer(0),
    });
    let openai = OpenAiConfig::from_section(&section).unwrap();
    assert_eq!(openai.api_url, "u");
    assert_eq!(openai.default_model, "gpt-3.5-turbo");
    assert_eq!(openai.timeout_secs, 0);
    let deepseek = DeepSeekConfig::from_section(&section).unwrap();
    assert_eq!(deepseek.default_model, "deepseek-chat");
    let gemini = GeminiConfig::from_section(&section).unwrap();
    assert_eq!(gemini.default_model, "gemini-1.5-flash");
    assert_eq!(
        OpenAiConfig::from_section(&Section::Malformed),
        Err(ConfigError::SerializationError("openai: expected a table".to_string()))
    );
    assert_eq!(DeepSeekConfig::from_section(&Section::Absent), Ok(DeepSeekConfig::default()));
}

#[test]
fn single_fields_merge_over_their_defaults() {
    assert_eq!(merge_text(&Entry::Absent, "d".to_string(), "s", "k"), Ok("d".to_string()));
    assert_eq!(
        merge_text(&Entry::Text("v".to_string()), "d".to_string(), "s", "k"),
        Ok("v".to_string())
    );
    assert_eq!(
        merge_text(&Entry::Integer(1), "d".to_string(), "s", "k"),
        Err(ConfigError::SerializationError("s.k: expected a string".to_string()))
    );
    assert_eq!(merge_seconds(&Entry::Absent, 7, "s", "k"), Ok(7));
    assert_eq!(merge_seconds(&Entry::Integer(0), 7, "s", "k"), Ok(0));
    assert_eq!(merge_seconds(&Entry::Integer(i64::MAX), 7, "s", "k"), Ok(9223372036854775807));
    assert_eq!(
        merge_seconds(&Entry::Integer(i64::MIN), 7, "s", "k"),
        Err(ConfigError::SerializationError("s.k: expected a non-negative integer".to_string()))
    );
    assert_eq!(
        merge_seconds(&Entry::Other, 7, "s", "k"),
        Err(ConfigError::SerializationError("s.k: expected a non-negative integer".to_string()))
    );
    assert_eq!(
        merge_settings(&Section::Absent, "s", "a".to_string(), "b".to_string(), 1),
        Ok(("a".to_string(), "b".to_string(), 1))
    );
}

#[test]
fn a_table_is_read_entry_by_entry() {
    let table = toml::from_str::<toml::Table>(
        "a = \"text\"\nb = -4\nc = true\nd = [1, 2]\n[e]\nx = 1\n",
    )
    .unwrap();
    assert_eq!(Entry::read(&table, "a"), Entry::Text("text".to_string()));
    assert_eq!(Entry::read(&table, "b"), Entry::Integer(-4));
    assert_eq!(Entry::read(&table, "c"), Entry::Other);
    assert_eq!(Entry::read(&table, "d"), Entry::Other);
    assert_eq!(Entry::read(&table, "e"), Entry::Other);
    assert_eq!(Entry::read(&table, "f"), Entry::Absent);
    assert_eq!(Section::read(&table, "a"), Section::Malformed);
    assert_eq!(Section::read(&table, "f"), Section::Absent);
    assert_eq!(Section::read(&table, "e"), Section::Present(absent_fields()));
}

#[test]
fn a_root_table_is_read_as_a_document() {
    let table = toml::from_str::<toml::Table>(
        "gemini = 1\n[openai]\napi_url = \"u\"\ndefault_model = 2\ntimeout_secs = 3\n",
    )
    .unwrap();
    let document = Document::read(&table);
    assert_eq!(
        document,
        Document {
            openai: Section::Present(Fields {
                api_url: Entry::Text("u".to_string()),
                default_model: Entry::Integer(2),
                timeout_secs: Entry::Integer(3),
            }),
            deepseek: Section::Absent,
            gemini: Section::Malformed,
        }
    );
}

#[test]
fn config_errors_say_what_kind_they_are() {
    assert_eq!(ConfigError::IoError("disk full".to_string()).message(), "I/O error: disk full");
    assert_eq!(
        ConfigError::SerializationError("x".to_string()).message(),
        "Serialization error: x"
    );
    assert_eq!(
        ConfigError::ConfigBuildingError("y".to_string()).message(),
        "Error while building config: y"
    );
    assert_eq!(ConfigError::UnhandledError(String::new()).message(), "Unhandled error: ");
}
