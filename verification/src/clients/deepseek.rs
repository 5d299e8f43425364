//! The DeepSeek provider.

use crate::clients::chat::{chat_body, chat_completion, decode_chat, encode_chat};
use crate::clients::{
    accepted_body, address, conclude, AiClient, ClientError, HttpRequest, Prompt,
    ProviderSettings, TransportOutcome,
};
use crate::config::ConfigError;
use crate::document::{section_fits, Section};
use crate::laws::section_merge_fills;
use crate::merge::{merge_settings, merged_settings};
use crate::views::result_view;
use vstd::prelude::*;

verus! {

/// Where and how the DeepSeek provider is reached.
#[derive(Debug, PartialEq, Eq)]
pub struct DeepSeekConfig {
    pub api_url: String,
    pub default_model: String,
    pub timeout_secs: u64,
}

impl View for DeepSeekConfig {
    type V = ProviderSettings;

    open spec fn view(&self) -> ProviderSettings {
        ProviderSettings {
            api_url: self.api_url@,
            default_model: self.default_model@,
            timeout_secs: self.timeout_secs,
        }
    }
}

impl DeepSeekConfig {
    /// The settings a field falls back to when the configuration does not set it.
    pub open spec fn defaults() -> ProviderSettings {
        ProviderSettings {
            api_url: "https://api.deepseek.com/chat/completions"@,
            default_model: "deepseek-chat"@,
            timeout_secs: 10,
        }
    }
}

impl DeepSeekConfig {
    /// Merges this provider's section of the configuration document over the
    /// defaults: a field the section omits keeps its default, a field it holds
    /// takes the document's value, and a field of the wrong kind is an error.
    pub fn from_section(section: &Section) -> (r: Result<DeepSeekConfig, ConfigError>)
        ensures
            result_view(r) == merged_settings(section@, DeepSeekConfig::defaults(), "deepseek"@),
            r is Ok <==> section_fits(section@),
    {
        proof {
            section_merge_fills(section@, DeepSeekConfig::defaults(), "deepseek"@);
        }
        let defaults = DeepSeekConfig::default();
        match merge_settings(
            section,
            "deepseek",
            defaults.api_url,
            defaults.default_model,
            defaults.timeout_secs,
        ) {
            Ok((api_url, default_model, timeout_secs)) => Ok(
                DeepSeekConfig { api_url, default_model, timeout_secs },
            ),
            Err(error) => Err(error),
        }
    }
}

impl Default for DeepSeekConfig {
    fn default() -> (config: Self)
        ensures
            config@ == DeepSeekConfig::defaults(),
    {
        DeepSeekConfig {
            api_url: "https://api.deepseek.com/chat/completions".to_owned(),
            default_model: "deepseek-chat".to_owned(),
            timeout_secs: 10,
        }
    }
}

impl Clone for DeepSeekConfig {
    fn clone(&self) -> (copy: Self)
        ensures
            copy@ == self@,
    {
        DeepSeekConfig {
            api_url: self.api_url.clone(),
            default_model: self.default_model.clone(),
            timeout_secs: self.timeout_secs,
        }
    }
}

/// The client of the DeepSeek provider. It holds its configuration and nothing else:
/// no answer is kept, and every exchange stands alone.
#[derive(Debug, Clone, PartialEq, Eq)]
pub struct DeepSeekClient {
    config: DeepSeekConfig,
}

impl View for DeepSeekClient {
    type V = ProviderSettings;

    closed spec fn view(&self) -> ProviderSettings {
        self.config@
    }
}

impl DeepSeekClient {
    /// A client for the given configuration.
    pub fn new(config: DeepSeekConfig) -> (client: Self)
        ensures
            client@ == config@,
    {
        DeepSeekClient { config }
    }

    /// The configuration the client was built from.
    pub fn config(&self) -> (config: &DeepSeekConfig)
        ensures
            config@ == self@,
    {
        &self.config
    }
}

impl AiClient for DeepSeekClient {
    open spec fn settings(&self) -> ProviderSettings {
        self@
    }

    open spec fn encoded(&self, prompt: Seq<char>) -> Result<Seq<char>, Seq<char>> {
        chat_body(self@.default_model, prompt)
    }

    open spec fn completion(&self, body: Seq<u8>) -> Result<Seq<char>, Seq<char>> {
        chat_completion(body)
    }

    fn request(&self, prompt: &Prompt) -> (r: Result<HttpRequest, ClientError>) {
        let body = encode_chat(self.config.default_model.as_str(), prompt.text.as_str());
        address(self.config.api_url.as_str(), self.config.timeout_secs, body)
    }

    fn response(&self, outcome: &TransportOutcome) -> (r: Result<String, ClientError>) {
        let body = accepted_body(outcome)?;
        conclude(decode_chat(body))
    }
}

} // verus!
