//! Where the language model is reached.

use vstd::prelude::*;
use vstd::string::*;

verus! {

/// The address and the model of an Ollama server.
#[derive(Debug, Clone)]
pub struct OllamaClient {
    url: String,
    model: String,
}

impl OllamaClient {
    /// The server's base address.
    pub closed spec fn url_text(&self) -> Seq<char> {
        self.url@
    }

    /// The model's name.
    pub closed spec fn model_text(&self) -> Seq<char> {
        self.model@
    }

    /// The server on this machine, with the default model.
    pub fn new() -> (client: Self)
        ensures
            client.url_text() == "http://localhost:11434"@,
            client.model_text() == "mistral:7b-instruct"@,
    {
        OllamaClient {
            url: String::from_str("http://localhost:11434"),
            model: String::from_str("mistral:7b-instruct"),
        }
    }

    /// The model's name.
    pub fn model(&self) -> (model: &str)
        ensures
            model@ == self.model_text(),
    {
        self.model.as_str()
    }

    /// The address that lists the server's models; a server that answers
    /// there is up.
    pub fn tags_url(&self) -> (url: String)
        ensures
            url@ == self.url_text() + "/api/tags"@,
    {
        self.url.clone().concat("/api/tags")
    }

    /// The address that takes a prompt.
    pub fn generate_url(&self) -> (url: String)
        ensures
            url@ == self.url_text() + "/api/generate"@,
    {
        self.url.clone().concat("/api/generate")
    }
}

impl Default for OllamaClient {
    fn default() -> (client: Self)
        ensures
            client.url_text() == "http://localhost:11434"@,
            client.model_text() == "mistral:7b-instruct"@,
    {
        OllamaClient::new()
    }
}

} // verus!
