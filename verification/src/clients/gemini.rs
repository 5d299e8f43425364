//! The Gemini provider.

use crate::clients::{
    accepted_body, address, conclude, AiClient, ClientError, HttpRequest, Prompt,
    ProviderSettings, TransportOutcome,
};
use crate::json_tree::{
    element, json_element, json_fault_text, json_member, json_node, json_parse, json_string, member,
    parse_json, quote_json, text_of, JsonNode,
};
use crate::config::ConfigError;
use crate::document::{section_fits, Section};
use crate::laws::section_merge_fills;
use crate::merge::{merge_settings, merged_settings};
use crate::views::result_view;
use vstd::prelude::*;
use vstd::string::*;

verus! {

/// Where and how the Gemini provider is reached.
#[derive(Debug, PartialEq, Eq)]
pub struct GeminiConfig {
    pub api_url: String,
    pub default_model: String,
    pub timeout_secs: u64,
}

impl View for GeminiConfig {
    type V = ProviderSettings;

    open spec fn view(&self) -> ProviderSettings {
        ProviderSettings {
            api_url: self.api_url@,
            default_model: self.default_model@,
            timeout_secs: self.timeout_secs,
        }
    }
}

impl GeminiConfig {
    /// The settings a field falls back to when the configuration does not set it.
    pub open spec fn defaults() -> ProviderSettings {
        ProviderSettings {
            api_url: "https://generativelanguage.googleapis.com/v1beta/models/gemini-1.5-flash:generateContent"@,
            default_model: "gemini-1.5-flash"@,
            timeout_secs: 10,
        }
    }
}

impl GeminiConfig {
    /// Merges this provider's section of the configuration document over the
    /// defaults: a field the section omits keeps its default, a field it holds
    /// takes the document's value, and a field of the wrong kind is an error.
    pub fn from_section(section: &Section) -> (r: Result<GeminiConfig, ConfigError>)
        ensures
            result_view(r) == merged_settings(section@, GeminiConfig::defaults(), "gemini"@),
            r is Ok <==> section_fits(section@),
    {
        proof {
            section_merge_fills(section@, GeminiConfig::defaults(), "gemini"@);
        }
        let defaults = GeminiConfig::default();
        match merge_settings(
            section,
            "gemini",
            defaults.api_url,
            defaults.default_model,
            defaults.timeout_secs,
        ) {
            Ok((api_url, default_model, timeout_secs)) => Ok(
                GeminiConfig { api_url, default_model, timeout_secs },
            ),
            Err(error) => Err(error),
        }
    }
}

impl Default for GeminiConfig {
    fn default() -> (config: Self)
        ensures
            config@ == GeminiConfig::defaults(),
    {
        GeminiConfig {
            api_url: "https://generativelanguage.googleapis.com/v1beta/models/gemini-1.5-flash:generateContent".to_owned(),
            default_model: "gemini-1.5-flash".to_owned(),
            timeout_secs: 10,
        }
    }
}

impl Clone for GeminiConfig {
    fn clone(&self) -> (copy: Self)
        ensures
            copy@ == self@,
    {
        GeminiConfig {
            api_url: self.api_url.clone(),
            default_model: self.default_model.clone(),
            timeout_secs: self.timeout_secs,
        }
    }
}

/// The body of a Gemini request: the model, and the prompt as the one part of
/// the user's content.
pub open spec fn gemini_body(model: Seq<char>, prompt: Seq<char>) -> Result<Seq<char>, Seq<char>> {
    match json_string(model) {
        Err(detail) => Err(detail),
        Ok(quoted_model) => match json_string(prompt) {
            Err(detail) => Err(detail),
            Ok(quoted_prompt) => Ok(
                "{\"model\":"@ + quoted_model
                    + ",\"contents\":[{\"role\":\"user\",\"parts\":[{\"text\":"@ + quoted_prompt
                    + "}]}]}"@,
            ),
        },
    }
}

/// The text at `candidates[0].content.parts[0].text` of a Gemini response.
pub open spec fn gemini_text(response: JsonNode) -> Option<Seq<char>> {
    match member(response, "candidates"@) {
        None => None,
        Some(candidates) => match element(candidates, 0) {
            None => None,
            Some(candidate) => match member(candidate, "content"@) {
                None => None,
                Some(content) => match member(content, "parts"@) {
                    None => None,
                    Some(parts) => match element(parts, 0) {
                        None => None,
                        Some(part) => match member(part, "text"@) {
                            None => None,
                            Some(text) => text_of(text),
                        },
                    },
                },
            },
        },
    }
}

/// The completion text of a Gemini response body: the parser's message where
/// the body is no JSON, and a fixed detail where the JSON holds no text at
/// `candidates[0].content.parts[0].text`.
pub open spec fn gemini_completion(body: Seq<u8>) -> Result<Seq<char>, Seq<char>> {
    match json_parse(body) {
        Err(message) => Err(message),
        Ok(response) => match gemini_text(response) {
            Some(text) => Ok(text),
            None => Err("the response holds no completion text"@),
        },
    }
}

/// Encodes a prompt as the body of a Gemini request.
pub fn encode_gemini(model: &str, prompt: &str) -> (r: Result<String, String>)
    ensures
        result_view(r) == gemini_body(model@, prompt@),
{
    let quoted_model = match quote_json(model) {
        Ok(quoted) => quoted,
        Err(error) => { return Err(json_fault_text(&error)); },
    };
    let quoted_prompt = match quote_json(prompt) {
        Ok(quoted) => quoted,
        Err(error) => { return Err(json_fault_text(&error)); },
    };
    let mut body = "{\"model\":".to_owned();
    body.append(quoted_model.as_str());
    body.append(",\"contents\":[{\"role\":\"user\",\"parts\":[{\"text\":");
    body.append(quoted_prompt.as_str());
    body.append("}]}]}");
    Ok(body)
}

/// Picks the completion text out of a parsed Gemini response.
pub fn read_gemini_text(response: &serde_json::Value) -> (r: Option<String>)
    ensures
        match r {
            Some(text) => gemini_text(json_node(*response)) == Some(text@),
            None => gemini_text(json_node(*response)).is_none(),
        },
{
    let candidates = json_member(response, "candidates")?;
    let candidate = json_element(candidates, 0)?;
    let content = json_member(candidate, "content")?;
    let parts = json_member(content, "parts")?;
    let part = json_element(parts, 0)?;
    let text = json_member(part, "text")?;
    let text = text.as_str()?;
    Some(text.to_owned())
}

/// Decodes a Gemini response body down to its completion text.
pub fn decode_gemini(body: &[u8]) -> (r: Result<String, String>)
    ensures
        result_view(r) == gemini_completion(body@),
{
    match parse_json(body) {
        Err(error) => Err(json_fault_text(&error)),
        Ok(response) => match read_gemini_text(&response) {
            Some(text) => Ok(text),
            None => Err("the response holds no completion text".to_owned()),
        },
    }
}

/// The client of the Gemini provider. It holds its configuration and nothing else:
/// no answer is kept, and every exchange stands alone.
#[derive(Debug, Clone, PartialEq, Eq)]
pub struct GeminiClient {
    config: GeminiConfig,
}

impl View for GeminiClient {
    type V = ProviderSettings;

    closed spec fn view(&self) -> ProviderSettings {
        self.config@
    }
}

impl GeminiClient {
    /// A client for the given configuration.
    pub fn new(config: GeminiConfig) -> (client: Self)
        ensures
            client@ == config@,
    {
        GeminiClient { config }
    }

    /// The configuration the client was built from.
    pub fn config(&self) -> (config: &GeminiConfig)
        ensures
            config@ == self@,
    {
        &self.config
    }
}

impl AiClient for GeminiClient {
    open spec fn settings(&self) -> ProviderSettings {
        self@
    }

    open spec fn encoded(&self, prompt: Seq<char>) -> Result<Seq<char>, Seq<char>> {
        gemini_body(self@.default_model, prompt)
    }

    open spec fn completion(&self, body: Seq<u8>) -> Result<Seq<char>, Seq<char>> {
        gemini_completion(body)
    }

    fn request(&self, prompt: &Prompt) -> (r: Result<HttpRequest, ClientError>) {
        let body = encode_gemini(self.config.default_model.as_str(), prompt.text.as_str());
        address(self.config.api_url.as_str(), self.config.timeout_secs, body)
    }

    fn response(&self, outcome: &TransportOutcome) -> (r: Result<String, ClientError>) {
        let body = accepted_body(outcome)?;
        conclude(decode_gemini(body))
    }
}

} // verus!
