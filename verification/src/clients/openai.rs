//! The OpenAI-style provider.

use crate::clients::chat::{chat_body, chat_completion, decode_chat, encode_chat};
use crate::clients::{
    accepted_body, address, conclude, AiClient, ClientError, HttpRequest, Prompt,
    ProviderSettings, TransportOutcome,
};
use crate::config::ConfigError;
use crate::document::{section_fits, Section};
use crate::laws::section_merge_fills;
use crate::merge::{merge_settings, merged_settings};
use crate::views::result_view;
use vstd::prelude::*;

verus! {

/// Where and how the OpenAI-style provider is reached.
#[derive(Debug, PartialEq, Eq)]
pub struct OpenAiConfig {
    pub api_url: String,
    pub default_model: String,
    pub timeout_secs: u64,
}

impl View for OpenAiConfig {
    type V = ProviderSettings;

    open spec fn view(&self) -> ProviderSettings {
        ProviderSettings {
            api_url: self.api_url@,
            default_model: self.default_model@,
            timeout_secs: self.timeout_secs,
        }
    }
}

impl OpenAiConfig {
    /// The settings a field falls back to when the configuration does not set it.
    pub open spec fn defaults() -> ProviderSettings {
        ProviderSettings {
            api_url: "https://api.openai.com/v1/chat/completions"@,
            default_model: "gpt-3.5-turbo"@,
            timeout_secs: 10,
        }
    }
}

impl OpenAiConfig {
    /// Merges this provider's section of the configuration document over the
    /// defaults: a field the section omits keeps its default, a field it holds
    /// takes the document's value, and a field of the wrong kind is an error.
    pub fn from_section(section: &Section) -> (r: Result<OpenAiConfig, ConfigError>)
        ensures
            result_view(r) == merged_settings(section@, OpenAiConfig::defaults(), "openai"@),
            r is Ok <==> section_fits(section@),
    {
        proof {
            section_merge_fills(section@, OpenAiConfig::defaults(), "openai"@);
        }
        let defaults = OpenAiConfig::default();
        match merge_settings(
            section,
            "openai",
            defaults.api_url,
            defaults.default_model,
            defaults.timeout_secs,
        ) {
            Ok((api_url, default_model, timeout_secs)) => Ok(
                OpenAiConfig { api_url, default_model, timeout_secs },
            ),
            Err(error) => Err(error),
        }
    }
}

impl Default for OpenAiConfig {
    fn default() -> (config: Self)
        ensures
            config@ == OpenAiConfig::defaults(),
    {
        OpenAiConfig {
            api_url: "https://api.openai.com/v1/chat/completions".to_owned(),
            default_model: "gpt-3.5-turbo".to_owned(),
            timeout_secs: 10,
        }
    }
}

impl Clone for OpenAiConfig {
    fn clone(&self) -> (copy: Self)
        ensures
            copy@ == self@,
    {
        OpenAiConfig {
            api_url: self.api_url.clone(),
            default_model: self.default_model.clone(),
            timeout_secs: self.timeout_secs,
        }
    }
}

/// The client of the OpenAI-style provider. It holds its configuration and nothing else:
/// no answer is kept, and every exchange stands alone.
#[derive(Debug, Clone, PartialEq, Eq)]
pub struct OpenAiClient {
    config: OpenAiConfig,
}

impl View for OpenAiClient {
    type V = ProviderSettings;

    closed spec fn view(&self) -> ProviderSettings {
        self.config@
    }
}

impl OpenAiClient {
    /// A client for the given configuration.
    pub fn new(config: OpenAiConfig) -> (client: Self)
        ensures
            client@ == config@,
    {
        OpenAiClient { config }
    }

    /// The configuration the client was built from.
    pub fn config(&self) -> (config: &OpenAiConfig)
        ensures
            config@ == self@,
    {
        &self.config
    }
}

impl AiClient for OpenAiClient {
    open spec fn settings(&self) -> ProviderSettings {
        self@
    }

    open spec fn encoded(&self, prompt: Seq<char>) -> Result<Seq<char>, Seq<char>> {
        chat_body(self@.default_model, prompt)
    }

    open spec fn completion(&self, body: Seq<u8>) -> Result<Seq<char>, Seq<char>> {
        chat_completion(body)
    }

    fn request(&self, prompt: &Prompt) -> (r: Result<HttpRequest, ClientError>) {
        let body = encode_chat(self.config.default_model.as_str(), prompt.text.as_str());
        address(self.config.api_url.as_str(), self.config.timeout_secs, body)
    }

    fn response(&self, outcome: &TransportOutcome) -> (r: Result<String, ClientError>) {
        let body = accepted_body(outcome)?;
        conclude(decode_chat(body))
    }
}

} // verus!
