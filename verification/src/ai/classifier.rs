//! Reading the language model's answer.
//!
//! The model is asked for one JSON object and tends to wrap it in prose.
//! The object is taken to reach from the first opening brace of the answer
//! to its last closing brace; decoding it is left to the caller.

use crate::ai::ollama::OllamaClient;
use crate::error::AppError;
use vstd::prelude::*;
use vstd::string::*;

verus! {

/// The byte `{`.
pub const OPEN_BRACE: u8 = 0x7b;

/// The byte `}`.
pub const CLOSE_BRACE: u8 = 0x7d;

/// What the model says of a piece of audio.
#[derive(Debug, Clone)]
pub struct Classification {
    pub genre: String,
    pub mood: String,
    pub energy: String,
}

pub struct AudioClassifier {
    client: OllamaClient,
}

/// Whether `i` is the place of the first `byte` in `bytes`.
pub open spec fn is_first(bytes: Seq<u8>, byte: u8, i: int) -> bool {
    &&& 0 <= i < bytes.len()
    &&& bytes[i] == byte
    &&& forall|k: int| 0 <= k < i ==> bytes[k] != byte
}

/// Whether `i` is the place of the last `byte` in `bytes`.
pub open spec fn is_last(bytes: Seq<u8>, byte: u8, i: int) -> bool {
    &&& 0 <= i < bytes.len()
    &&& bytes[i] == byte
    &&& forall|k: int| i < k < bytes.len() ==> bytes[k] != byte
}

/// Whether `bytes` holds a JSON object from `start` to `end`, both
/// included: its first opening brace stands at `start`, its last closing
/// brace at `end`, and `start` comes first.
pub open spec fn spans_object(bytes: Seq<u8>, start: int, end: int) -> bool {
    is_first(bytes, OPEN_BRACE, start) && is_last(bytes, CLOSE_BRACE, end) && start < end
}

/// Whether `bytes` holds a JSON object at all.
pub open spec fn has_object(bytes: Seq<u8>) -> bool {
    exists|start: int, end: int| spans_object(bytes, start, end)
}

/// The place of the first `byte` in `bytes`, if there is one.
pub fn find_first(bytes: &[u8], byte: u8) -> (found: Option<usize>)
    ensures
        match found {
            Some(i) => is_first(bytes@, byte, i as int),
            None => forall|k: int| 0 <= k < bytes@.len() ==> bytes@[k] != byte,
        },
{
    let mut i: usize = 0;
    while i < bytes.len()
        invariant
            i <= bytes@.len(),
            forall|k: int| 0 <= k < i ==> bytes@[k] != byte,
        decreases bytes@.len() - i,
    {
        if bytes[i] == byte {
            return Some(i);
        }
        i += 1;
    }
    None
}

/// The place of the last `byte` in `bytes`, if there is one.
pub fn find_last(bytes: &[u8], byte: u8) -> (found: Option<usize>)
    ensures
        match found {
            Some(i) => is_last(bytes@, byte, i as int),
            None => forall|k: int| 0 <= k < bytes@.len() ==> bytes@[k] != byte,
        },
{
    let mut i: usize = bytes.len();
    while i > 0
        invariant
            i <= bytes@.len(),
            forall|k: int| i <= k < bytes@.len() ==> bytes@[k] != byte,
        decreases i,
    {
        i -= 1;
        if bytes[i] == byte {
            return Some(i);
        }
    }
    None
}

/// The span of the JSON object in `bytes`: the places of its first and its
/// last byte.
pub fn json_span(bytes: &[u8]) -> (span: Option<(usize, usize)>)
    ensures
        span.is_some() <==> has_object(bytes@),
        span matches Some((start, end)) ==> spans_object(bytes@, start as int, end as int),
{
    let first = find_first(bytes, OPEN_BRACE);
    let last = find_last(bytes, CLOSE_BRACE);
    match (first, last) {
        (Some(start), Some(end)) => {
            if end > start {
                assert(spans_object(bytes@, start as int, end as int));
                Some((start, end))
            } else {
                assert forall|s: int, e: int| !spans_object(bytes@, s, e) by {
                    if spans_object(bytes@, s, e) {
                        assert(s == start) by {
                            if s < start {
                                assert(bytes@[s] != OPEN_BRACE);
                            }
                            if start < s {
                                assert(bytes@[start as int] != OPEN_BRACE);
                            }
                        }
                        assert(e == end) by {
                            if e < end {
                                assert(bytes@[end as int] != CLOSE_BRACE);
                            }
                            if end < e {
                                assert(bytes@[e] != CLOSE_BRACE);
                            }
                        }
                    }
                }
                None
            }
        },
        _ => {
            assert forall|s: int, e: int| !spans_object(bytes@, s, e) by {
                if spans_object(bytes@, s, e) {
                    if first.is_none() {
                        assert(bytes@[s] != OPEN_BRACE);
                    } else {
                        assert(bytes@[e] != CLOSE_BRACE);
                    }
                }
            }
            None
        },
    }
}

impl AudioClassifier {
    pub closed spec fn client(&self) -> OllamaClient {
        self.client
    }

    /// A classifier that asks the server on this machine.
    pub fn new() -> (classifier: Self)
        ensures
            classifier.client().url_text() == "http://localhost:11434"@,
            classifier.client().model_text() == "mistral:7b-instruct"@,
    {
        AudioClassifier { client: OllamaClient::new() }
    }

    /// The server that this classifier asks.
    pub fn ollama(&self) -> (client: &OllamaClient)
        ensures
            *client == self.client(),
    {
        &self.client
    }

    /// The bytes of the JSON object in the model's answer, braces included,
    /// or an error if the answer holds none.
    pub fn extract_json(&self, response: &str) -> (json: Result<Vec<u8>, AppError>)
        ensures
            json.is_ok() <==> has_object(response.spec_bytes()),
            json matches Ok(object) ==> exists|start: int, end: int|
                spans_object(response.spec_bytes(), start, end) && object@
                    == response.spec_bytes().subrange(start, end + 1),
            json matches Err(error) ==> error matches AppError::Audio(message) && message@
                == "No JSON object found in Ollama response"@,
    {
        let bytes = response.as_bytes();
        match json_span(bytes) {
            Some((start, end)) => {
                let mut object: Vec<u8> = Vec::new();
                let mut i: usize = start;
                while i <= end
                    invariant
                        start <= i <= end + 1,
                        end < bytes@.len(),
                        object@ == bytes@.subrange(start as int, i as int),
                    decreases end + 1 - i,
                {
                    object.push(bytes[i]);
                    i += 1;
                    assert(object@ =~= bytes@.subrange(start as int, i as int));
                }
                Ok(object)
            },
            None => Err(
                AppError::Audio(String::from_str("No JSON object found in Ollama response")),
            ),
        }
    }
}

} // verus!
