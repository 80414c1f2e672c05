//! LiteRT-LM backend: a `litert_lm_main` process per request, fed a
//! Gemma-style prompt, whose output lines become completion chunks.

use vstd::prelude::*;
use crate::cluster::ApiMessage;
use crate::config::LiteRtConfig;
use crate::text::{
    chars_of, concat2, concat3, decimal, is_path_part, last_slash_part, name_stem, normal_component,
    path_file_stem, plain_path, string_views, trim, trim_chars, u64_to_decimal,
};

verus! {

/// The tag of a chat role in the prompt: the assistant speaks as "model".
pub open spec fn role_tag(role: Seq<char>) -> Seq<char> {
    if role == "assistant"@ {
        "model"@
    } else {
        role
    }
}

/// One turn of the prompt.
pub open spec fn prompt_turn(m: ApiMessage) -> Seq<char> {
    "<start_of_turn>"@ + role_tag(m.role@) + "\n"@ + m.content@ + "<end_of_turn>\n"@
}

/// The turns of the messages, in order.
pub open spec fn prompt_turns(ms: Seq<ApiMessage>) -> Seq<char>
    decreases ms.len(),
{
    if ms.len() == 0 {
        Seq::empty()
    } else {
        prompt_turns(ms.drop_last()) + prompt_turn(ms.last())
    }
}

/// The Gemma prompt of a conversation: its turns, then the opening of the
/// model's turn.
pub open spec fn chat_prompt(ms: Seq<ApiMessage>) -> Seq<char> {
    prompt_turns(ms) + "<start_of_turn>model\n"@
}

/// Formats chat messages into a prompt for Gemma models.
pub fn format_chat_prompt(messages: &Vec<ApiMessage>) -> (r: String)
    ensures
        r@ == chat_prompt(messages@),
{
    let mut prompt = String::new();
    let mut i: usize = 0;
    while i < messages.len()
        invariant
            i <= messages.len(),
            prompt@ == prompt_turns(messages@.subrange(0, i as int)),
        decreases messages.len() - i,
    {
        let msg = &messages[i];
        let tag: &str = if crate::text::str_eq(msg.role.as_str(), "assistant") {
            "model"
        } else {
            msg.role.as_str()
        };
        prompt.append("<start_of_turn>");
        prompt.append(tag);
        prompt.append("\n");
        prompt.append(msg.content.as_str());
        prompt.append("<end_of_turn>\n");
        proof {
            let s = messages@.subrange(0, i + 1);
            assert(s.drop_last() =~= messages@.subrange(0, i as int));
            assert(s.last() == messages@[i as int]);
        }
        i = i + 1;
    }
    assert(messages@.subrange(0, messages.len() as int) =~= messages@);
    prompt.append("<start_of_turn>model\n");
    prompt
}

/// LiteRT-LM engine that runs `litert_lm_main` for each inference request.
#[derive(Debug)]
pub struct LiteRtEngine {
    binary: String,
    model: String,
    model_id: String,
    backend_type: String,
    context_size: u32,
    cache_dir: Option<String>,
}

/// The `litert_lm_main` binary was found neither at its path nor on `PATH`.
#[derive(Debug)]
pub enum LiteRtError {
    BinaryNotFound(String),
}

impl LiteRtError {
    /// The error's message.
    pub fn message(&self) -> (r: String)
        ensures
            match self {
                LiteRtError::BinaryNotFound(b) => r@ == "litert_lm_main not found at '"@ + b@
                    + "'. Build from LiteRT-LM repo or download."@,
            },
    {
        match self {
            LiteRtError::BinaryNotFound(b) => concat3(
                "litert_lm_main not found at '",
                b.as_str(),
                "'. Build from LiteRT-LM repo or download.",
            ),
        }
    }
}

/// The text of an optional string, or a default.
pub open spec fn text_or(o: Option<String>, d: Seq<char>) -> Seq<char> {
    match o {
        Some(s) => s@,
        None => d,
    }
}

/// One completion chunk in the OpenAI streaming format
/// (`chat.completion.chunk`): a delta with content, or the final chunk with
/// an empty delta and finish reason "stop".
#[derive(Debug)]
pub struct CompletionChunk {
    pub id: String,
    pub model: String,
    pub content: Option<String>,
}

/// The chunk ID of the chunk with the given index.
pub open spec fn chunk_id(index: nat) -> Seq<char> {
    "chatcmpl-litert-"@ + decimal(index)
}

/// Turns the output lines of one `litert_lm_main` run into completion
/// chunks, numbering them from zero.
#[derive(Debug)]
pub struct ChunkStream {
    model_id: String,
    next_index: u32,
}

impl ChunkStream {
    /// The model the chunks name.
    pub closed spec fn spec_model_id(&self) -> Seq<char> {
        self.model_id@
    }

    /// The index of the next chunk.
    pub closed spec fn spec_next_index(&self) -> u32 {
        self.next_index
    }

    /// A stream whose first chunk has index zero.
    pub fn new(model_id: &str) -> (r: ChunkStream)
        ensures
            r.spec_model_id() == model_id@,
            r.spec_next_index() == 0,
    {
        ChunkStream { model_id: model_id.to_owned(), next_index: 0 }
    }

    /// The index of the next chunk.
    pub fn next_index(&self) -> (r: u32)
        ensures
            r == self.spec_next_index(),
    {
        self.next_index
    }

    /// The chunk for one output line: none for a blank line, else a delta
    /// with the trimmed line, after which the index advances.
    pub fn chunk_for_line(&mut self, line: &str) -> (r: Option<CompletionChunk>)
        requires
            trim(line@).len() > 0 ==> old(self).spec_next_index() < u32::MAX,
        ensures
            final(self).spec_model_id() == old(self).spec_model_id(),
            trim(line@).len() == 0 ==> r is None && final(self).spec_next_index() == old(
                self,
            ).spec_next_index(),
            trim(line@).len() > 0 ==> (r matches Some(c) && c.id@ == chunk_id(
                old(self).spec_next_index() as nat,
            ) && c.model@ == old(self).spec_model_id() && (c.content matches Some(t) && t@ == trim(line@))
                && final(self).spec_next_index() == old(self).spec_next_index() + 1),
    {
        let v = chars_of(line);
        let text = trim_chars(&v);
        if text.as_str().is_empty() {
            return None;
        }
        let idx = u64_to_decimal(self.next_index as u64);
        let id = concat2("chatcmpl-litert-", idx.as_str());
        self.next_index = self.next_index + 1;
        Some(CompletionChunk { id, model: self.model_id.clone(), content: Some(text) })
    }

    /// The final chunk, sent when the output ends.
    pub fn final_chunk(&self) -> (r: CompletionChunk)
        ensures
            r.id@ == chunk_id(self.spec_next_index() as nat),
            r.model@ == self.spec_model_id(),
            r.content is None,
    {
        let idx = u64_to_decimal(self.next_index as u64);
        let id = concat2("chatcmpl-litert-", idx.as_str());
        CompletionChunk { id, model: self.model_id.clone(), content: None }
    }
}

/// The text of an optional string.
pub open spec fn opt_text(o: Option<String>) -> Option<Seq<char>> {
    match o {
        Some(s) => Some(s@),
        None => None,
    }
}

impl LiteRtEngine {
    /// The binary this engine runs.
    pub closed spec fn spec_binary(&self) -> Seq<char> {
        self.binary@
    }

    /// The model file path.
    pub closed spec fn spec_model(&self) -> Seq<char> {
        self.model@
    }

    /// The model this engine reports.
    pub closed spec fn spec_model_id(&self) -> Seq<char> {
        self.model_id@
    }

    /// The compute backend.
    pub closed spec fn spec_backend_type(&self) -> Seq<char> {
        self.backend_type@
    }

    /// The maximum context size in tokens.
    pub closed spec fn spec_context_size(&self) -> u32 {
        self.context_size
    }

    /// The cache directory, where one is configured.
    pub closed spec fn spec_cache_dir(&self) -> Option<Seq<char>> {
        opt_text(self.cache_dir)
    }

    /// The binary of a configuration: the configured one, else
    /// `litert_lm_main`.
    pub fn binary_for(config: &LiteRtConfig) -> (r: String)
        ensures
            r@ == text_or(config.binary, "litert_lm_main"@),
    {
        match &config.binary {
            Some(b) => b.clone(),
            None => "litert_lm_main".to_owned(),
        }
    }

    /// The engine of a configuration, given whether its binary was found and
    /// the file stem of its model path: the model ID defaults to that stem,
    /// else to the model path; the backend defaults to "cpu".
    pub fn from_parts(config: &LiteRtConfig, binary_found: bool, model_stem: Option<String>) -> (r: Result<
        LiteRtEngine,
        LiteRtError,
    >)
        ensures
            !binary_found ==> (r matches Err(LiteRtError::BinaryNotFound(b)) && b@ == text_or(
                config.binary,
                "litert_lm_main"@,
            )),
            binary_found ==> (r matches Ok(e) && e.spec_binary() == text_or(config.binary, "litert_lm_main"@)
                && e.spec_model() == config.model@ && e.spec_model_id() == (match config.model_id {
                Some(m) => m@,
                None => text_or(model_stem, config.model@),
            }) && e.spec_backend_type() == text_or(config.backend_type, "cpu"@) && e.spec_context_size()
                == config.context_size && e.spec_cache_dir() == opt_text(config.cache_dir)),
    {
        let binary = Self::binary_for(config);
        if !binary_found {
            return Err(LiteRtError::BinaryNotFound(binary));
        }
        let model_id = match &config.model_id {
            Some(m) => m.clone(),
            None => match model_stem {
                Some(s) => s,
                None => config.model.clone(),
            },
        };
        let backend_type = match &config.backend_type {
            Some(b) => b.clone(),
            None => "cpu".to_owned(),
        };
        let cache_dir = match &config.cache_dir {
            Some(d) => Some(d.clone()),
            None => None,
        };
        Ok(
            LiteRtEngine {
                binary,
                model: config.model.clone(),
                model_id,
                backend_type,
                context_size: config.context_size,
                cache_dir,
            },
        )
    }

    /// The engine of a configuration, given whether its binary was found
    /// (at its path or on `PATH`); the model ID defaults to the model file's
    /// stem: on a plain path whose last part names a file, that part up to
    /// its last `.`; on other paths a part of the path, or the whole path
    /// where it names no file.
    pub fn new(config: &LiteRtConfig, binary_found: bool) -> (r: Result<LiteRtEngine, LiteRtError>)
        ensures
            !binary_found ==> (r matches Err(LiteRtError::BinaryNotFound(b)) && b@ == text_or(
                config.binary,
                "litert_lm_main"@,
            )),
            binary_found ==> (r matches Ok(e) && e.spec_binary() == text_or(config.binary, "litert_lm_main"@)
                && e.spec_model() == config.model@ && (match config.model_id {
                Some(m) => e.spec_model_id() == m@,
                None => if plain_path(config.model@) && normal_component(last_slash_part(config.model@)) {
                    e.spec_model_id() == name_stem(last_slash_part(config.model@))
                } else {
                    e.spec_model_id() == config.model@ || is_path_part(config.model@, e.spec_model_id())
                },
            })
                && e.spec_backend_type() == text_or(config.backend_type, "cpu"@) && e.spec_context_size()
                == config.context_size && e.spec_cache_dir() == opt_text(config.cache_dir)),
    {
        let stem = if config.model_id.is_none() {
            path_file_stem(config.model.as_str())
        } else {
            None
        };
        Self::from_parts(config, binary_found, stem)
    }


    /// The model this engine serves, as the one-element list reported to
    /// the network.
    pub fn loaded_models(&self) -> (r: Vec<String>)
        ensures
            r@.len() == 1,
            r@[0]@ == self.spec_model_id(),
    {
        let mut v: Vec<String> = Vec::new();
        v.push(self.model_id.clone());
        v
    }

    /// The model ID.
    pub fn model_id(&self) -> (r: &str)
        ensures
            r@ == self.spec_model_id(),
    {
        self.model_id.as_str()
    }

    /// The binary to run.
    pub fn binary(&self) -> (r: &str)
        ensures
            r@ == self.spec_binary(),
    {
        self.binary.as_str()
    }

    /// The arguments of `litert_lm_main` for a request: model path,
    /// backend, token limit (the request's, else the context size), the
    /// prompt, then the cache directory where one is configured.
    pub fn command_args(&self, messages: &Vec<ApiMessage>, max_tokens: Option<u32>) -> (r: Vec<String>)
        ensures
            string_views(r@) == seq![
                "--model_path"@,
                self.spec_model(),
                "--backend"@,
                self.spec_backend_type(),
                "--max_tokens"@,
                decimal(
                    (match max_tokens {
                        Some(t) => t,
                        None => self.spec_context_size(),
                    }) as nat,
                ),
                "--prompt"@,
                chat_prompt(messages@),
            ] + (match self.spec_cache_dir() {
                Some(d) => seq!["--cache_dir"@, d],
                None => Seq::<Seq<char>>::empty(),
            }),
    {
        let prompt = format_chat_prompt(messages);
        let tokens: u32 = match max_tokens {
            Some(t) => t,
            None => self.context_size,
        };
        let mut args: Vec<String> = Vec::new();
        args.push("--model_path".to_owned());
        args.push(self.model.clone());
        args.push("--backend".to_owned());
        args.push(self.backend_type.clone());
        args.push("--max_tokens".to_owned());
        args.push(u64_to_decimal(tokens as u64));
        args.push("--prompt".to_owned());
        args.push(prompt);
        match &self.cache_dir {
            Some(d) => {
                args.push("--cache_dir".to_owned());
                args.push(d.clone());
            },
            None => {},
        }
        assert(string_views(args@) =~= seq![
            "--model_path"@,
            self.model@,
            "--backend"@,
            self.backend_type@,
            "--max_tokens"@,
            decimal(tokens as nat),
            "--prompt"@,
            chat_prompt(messages@),
        ] + (match self.cache_dir {
            Some(d) => seq!["--cache_dir"@, d@],
            None => Seq::<Seq<char>>::empty(),
        }));
        args
    }
}

} // verus!
