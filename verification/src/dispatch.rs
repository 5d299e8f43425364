//! Picking the client of a provider by the provider's name. This is the one
//! place that tells the providers apart.

use crate::clients::deepseek::DeepSeekClient;
use crate::clients::gemini::GeminiClient;
use crate::clients::openai::OpenAiClient;
use crate::clients::{
    AiClient, ClientError, HttpRequest, Prompt, ProviderSettings, TransportOutcome,
};
use crate::config::{AppConfig, AppConfigView};
use crate::text::same_text;
use vstd::prelude::*;

verus! {

/// The providers this library knows.
#[derive(Debug, Clone, Copy, PartialEq, Eq, Structural)]
pub enum Provider {
    OpenAi,
    DeepSeek,
    Gemini,
}

impl Provider {
    /// The name of the provider: that of its section in the configuration.
    pub open spec fn name(self) -> Seq<char> {
        match self {
            Provider::OpenAi => "openai"@,
            Provider::DeepSeek => "deepseek"@,
            Provider::Gemini => "gemini"@,
        }
    }

    /// The provider of a name, if the name is a provider's.
    pub open spec fn named(name: Seq<char>) -> Option<Provider> {
        if name == "openai"@ {
            Some(Provider::OpenAi)
        } else if name == "deepseek"@ {
            Some(Provider::DeepSeek)
        } else if name == "gemini"@ {
            Some(Provider::Gemini)
        } else {
            None
        }
    }

    /// The settings of the provider in a configuration.
    pub open spec fn settings_in(self, config: AppConfigView) -> ProviderSettings {
        match self {
            Provider::OpenAi => config.openai,
            Provider::DeepSeek => config.deepseek,
            Provider::Gemini => config.gemini,
        }
    }

    /// Finds the provider of a name. Names are matched letter for letter.
    pub fn from_name(name: &str) -> (r: Option<Provider>)
        ensures
            r == Provider::named(name@),
    {
        if same_text(name, "openai") {
            Some(Provider::OpenAi)
        } else if same_text(name, "deepseek") {
            Some(Provider::DeepSeek)
        } else if same_text(name, "gemini") {
            Some(Provider::Gemini)
        } else {
            None
        }
    }

    /// The name of the provider.
    pub fn as_name(&self) -> (name: &'static str)
        ensures
            name@ == self.name(),
    {
        match self {
            Provider::OpenAi => "openai",
            Provider::DeepSeek => "deepseek",
            Provider::Gemini => "gemini",
        }
    }
}

/// The client of one of the providers.
#[derive(Debug, Clone, PartialEq, Eq)]
pub enum ProviderClient {
    OpenAi(OpenAiClient),
    DeepSeek(DeepSeekClient),
    Gemini(GeminiClient),
}

impl ProviderClient {
    /// The provider the client speaks to.
    pub open spec fn provider(&self) -> Provider {
        match self {
            ProviderClient::OpenAi(_) => Provider::OpenAi,
            ProviderClient::DeepSeek(_) => Provider::DeepSeek,
            ProviderClient::Gemini(_) => Provider::Gemini,
        }
    }

    /// Builds the client of a provider from that provider's part of the
    /// configuration.
    pub fn select(config: AppConfig, provider: Provider) -> (client: ProviderClient)
        ensures
            client.provider() == provider,
            client.settings() == provider.settings_in(config@),
    {
        match provider {
            Provider::OpenAi => ProviderClient::OpenAi(OpenAiClient::new(config.openai)),
            Provider::DeepSeek => ProviderClient::DeepSeek(DeepSeekClient::new(config.deepseek)),
            Provider::Gemini => ProviderClient::Gemini(GeminiClient::new(config.gemini)),
        }
    }

    /// Builds the client of the provider with the given name; `None` exactly
    /// when the name is no provider's.
    pub fn by_name(config: AppConfig, name: &str) -> (r: Option<ProviderClient>)
        ensures
            match r {
                Some(client) => Provider::named(name@) == Some(client.provider())
                    && client.settings() == client.provider().settings_in(config@),
                None => Provider::named(name@).is_none(),
            },
    {
        match Provider::from_name(name) {
            Some(provider) => Some(ProviderClient::select(config, provider)),
            None => None,
        }
    }
}

impl AiClient for ProviderClient {
    open spec fn settings(&self) -> ProviderSettings {
        match self {
            ProviderClient::OpenAi(client) => client.settings(),
            ProviderClient::DeepSeek(client) => client.settings(),
            ProviderClient::Gemini(client) => client.settings(),
        }
    }

    open spec fn encoded(&self, prompt: Seq<char>) -> Result<Seq<char>, Seq<char>> {
        match self {
            ProviderClient::OpenAi(client) => client.encoded(prompt),
            ProviderClient::DeepSeek(client) => client.encoded(prompt),
            ProviderClient::Gemini(client) => client.encoded(prompt),
        }
    }

    open spec fn completion(&self, body: Seq<u8>) -> Result<Seq<char>, Seq<char>> {
        match self {
            ProviderClient::OpenAi(client) => client.completion(body),
            ProviderClient::DeepSeek(client) => client.completion(body),
            ProviderClient::Gemini(client) => client.completion(body),
        }
    }

    fn request(&self, prompt: &Prompt) -> (r: Result<HttpRequest, ClientError>) {
        match self {
            ProviderClient::OpenAi(client) => client.request(prompt),
            ProviderClient::DeepSeek(client) => client.request(prompt),
            ProviderClient::Gemini(client) => client.request(prompt),
        }
    }

    fn response(&self, outcome: &TransportOutcome) -> (r: Result<String, ClientError>) {
        match self {
            ProviderClient::OpenAi(client) => client.response(outcome),
            ProviderClient::DeepSeek(client) => client.response(outcome),
            ProviderClient::Gemini(client) => client.response(outcome),
        }
    }
}

} // verus!
