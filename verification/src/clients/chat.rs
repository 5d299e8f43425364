//! The chat-completions shape: the request and response bodies that the
//! OpenAI-style provider and DeepSeek share.

use crate::json_tree::{
    element, json_element, json_fault_text, json_member, json_node, json_parse, json_string, member,
    parse_json, quote_json, text_of, JsonNode,
};
use crate::views::result_view;
use vstd::prelude::*;
use vstd::string::*;

verus! {

/// The body of a chat-completions request: the model, and the prompt as the
/// one message of the user.
pub open spec fn chat_body(model: Seq<char>, prompt: Seq<char>) -> Result<Seq<char>, Seq<char>> {
    match json_string(model) {
        Err(detail) => Err(detail),
        Ok(quoted_model) => match json_string(prompt) {
            Err(detail) => Err(detail),
            Ok(quoted_prompt) => Ok(
                "{\"model\":"@ + quoted_model + ",\"messages\":[{\"role\":\"user\",\"content\":"@
                    + quoted_prompt + "}]}"@,
            ),
        },
    }
}

/// The text at `choices[0].message.content` of a chat-completions response.
pub open spec fn chat_text(response: JsonNode) -> Option<Seq<char>> {
    match member(response, "choices"@) {
        None => None,
        Some(choices) => match element(choices, 0) {
            None => None,
            Some(choice) => match member(choice, "message"@) {
                None => None,
                Some(message) => match member(message, "content"@) {
                    None => None,
                    Some(content) => text_of(content),
                },
            },
        },
    }
}

/// The completion text of a chat-completions response body: the parser's
/// message where the body is no JSON, and a fixed detail where the JSON holds
/// no text at `choices[0].message.content`.
pub open spec fn chat_completion(body: Seq<u8>) -> Result<Seq<char>, Seq<char>> {
    match json_parse(body) {
        Err(message) => Err(message),
        Ok(response) => match chat_text(response) {
            Some(text) => Ok(text),
            None => Err("the response holds no completion text"@),
        },
    }
}

/// Encodes a prompt as the body of a chat-completions request.
pub fn encode_chat(model: &str, prompt: &str) -> (r: Result<String, String>)
    ensures
        result_view(r) == chat_body(model@, prompt@),
{
    let quoted_model = match quote_json(model) {
        Ok(quoted) => quoted,
        Err(error) => { return Err(json_fault_text(&error)); },
    };
    let quoted_prompt = match quote_json(prompt) {
        Ok(quoted) => quoted,
        Err(error) => { return Err(json_fault_text(&error)); },
    };
    let mut body = "{\"model\":".to_owned();
    body.append(quoted_model.as_str());
    body.append(",\"messages\":[{\"role\":\"user\",\"content\":");
    body.append(quoted_prompt.as_str());
    body.append("}]}");
    Ok(body)
}

/// Picks the completion text out of a parsed chat-completions response.
pub fn read_chat_text(response: &serde_json::Value) -> (r: Option<String>)
    ensures
        match r {
            Some(text) => chat_text(json_node(*response)) == Some(text@),
            None => chat_text(json_node(*response)).is_none(),
        },
{
    let choices = json_member(response, "choices")?;
    let choice = json_element(choices, 0)?;
    let message = json_member(choice, "message")?;
    let content = json_member(message, "content")?;
    let text = content.as_str()?;
    Some(text.to_owned())
}

/// Decodes a chat-completions response body down to its completion text.
pub fn decode_chat(body: &[u8]) -> (r: Result<String, String>)
    ensures
        result_view(r) == chat_completion(body@),
{
    match parse_json(body) {
        Err(error) => Err(json_fault_text(&error)),
        Ok(response) => match read_chat_text(&response) {
            Some(text) => Ok(text),
            None => Err("the response holds no completion text".to_owned()),
        },
    }
}

} // verus!
