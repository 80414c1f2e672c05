//! HTTP inference backends (llama-server, mnn_llm, mesh-llm): their
//! endpoints, the command lines that start them, and the decoding of the
//! server-sent events of a streamed completion.

use vstd::prelude::*;
use crate::config::{LlamaConfig, MeshConfig, MnnConfig};
use crate::encoding::{is_json_text, json_text_valid};
use crate::text::{
    chars_of, concat2, decimal, find_from, first_index_of, has_prefix, has_prefix_exec,
    i64_to_decimal, signed_decimal, str_eq, string_views, string_of_range, trim, trim_chars, u64_to_decimal,
    vec_range,
};

verus! {

/// Proxy to an OpenAI-compatible inference server: where it listens, the
/// model it serves, and the path of its readiness probe.
#[derive(Debug)]
pub struct InferenceProxy {
    base_url: String,
    model_id: String,
    health_path: String,
}

impl InferenceProxy {
    /// The server's base URL.
    pub closed spec fn spec_base_url(&self) -> Seq<char> {
        self.base_url@
    }

    /// The model the server serves.
    pub closed spec fn spec_model_id(&self) -> Seq<char> {
        self.model_id@
    }

    /// The path of the readiness probe.
    pub closed spec fn spec_health_path(&self) -> Seq<char> {
        self.health_path@
    }

    /// A proxy to a llama-server on the local host at `port`, probed at
    /// `/health`.
    pub fn new(port: u16, model_id: &str) -> (r: InferenceProxy)
        ensures
            r.spec_base_url() == "http://127.0.0.1:"@ + decimal(port as nat),
            r.spec_model_id() == model_id@,
            r.spec_health_path() == "/health"@,
    {
        let p = u64_to_decimal(port as u64);
        Self::with_base_url(concat2("http://127.0.0.1:", p.as_str()), model_id.to_owned(), "/health".to_owned())
    }

    /// A proxy against an arbitrary base URL with a chosen readiness probe
    /// path, for servers (such as mesh-llm) that expose `/v1/models` but not
    /// `/health`.
    pub fn with_base_url(base_url: String, model_id: String, health_path: String) -> (r: InferenceProxy)
        ensures
            r.spec_base_url() == base_url@,
            r.spec_model_id() == model_id@,
            r.spec_health_path() == health_path@,
    {
        InferenceProxy { base_url, model_id, health_path }
    }

    /// The model served, as the one-element list reported to the network.
    pub fn loaded_models(&self) -> (r: Vec<String>)
        ensures
            r@.len() == 1,
            r@[0]@ == self.spec_model_id(),
    {
        let mut v: Vec<String> = Vec::new();
        v.push(self.model_id.clone());
        v
    }

    /// The URL of the readiness probe.
    pub fn health_url(&self) -> (r: String)
        ensures
            r@ == self.spec_base_url() + self.spec_health_path(),
    {
        concat2(self.base_url.as_str(), self.health_path.as_str())
    }

    /// The URL of the chat completions endpoint.
    pub fn completions_url(&self) -> (r: String)
        ensures
            r@ == self.spec_base_url() + "/v1/chat/completions"@,
    {
        concat2(self.base_url.as_str(), "/v1/chat/completions")
    }
}

/// The URL of the model list of an OpenAI-compatible server.
pub fn models_url(base_url: &str) -> (r: String)
    ensures
        r@ == base_url@ + "/v1/models"@,
{
    concat2(base_url, "/v1/models")
}

/// What the model lookup reads of a `/v1/models` reply: where `data` is an
/// array, the `id` of each entry that has a string `id`.
#[derive(Debug)]
pub struct ModelList {
    pub data: Option<Vec<Option<String>>>,
}

/// The ID of the first model of a `/v1/models` reply, where the first entry
/// has one.
pub fn first_model_id(list: &ModelList) -> (r: Option<String>)
    ensures
        match list.data {
            Some(d) => if d@.len() > 0 {
                match d@[0] {
                    Some(id) => r matches Some(s) && s@ == id@,
                    None => r is None,
                }
            } else {
                r is None
            },
            None => r is None,
        },
{
    match &list.data {
        Some(d) => {
            if d.len() > 0 {
                match &d[0] {
                    Some(id) => Some(id.clone()),
                    None => None,
                }
            } else {
                None
            }
        },
        None => None,
    }
}

/// What waiting for a server's readiness observes: whether the deadline
/// has passed before a probe, or the HTTP status a probe answered with
/// (`None` where the request failed).
#[derive(Debug)]
pub enum HealthEvent {
    DeadlineChecked { passed: bool },
    ProbeAnswered { status: Option<u16> },
}

/// What waiting for readiness does next.
#[derive(Debug)]
pub enum HealthAction {
    /// Send a readiness probe.
    Probe,
    /// Stop waiting: the deadline passed.
    TimedOut,
    /// The server is ready.
    Ready,
    /// Wait the given seconds, then check the deadline again.
    RetryAfter { seconds: u64 },
}

/// The next step of waiting for readiness: probe while the deadline has not
/// passed; a probe answered with 200 OK means ready, any other answer (or
/// none) means another try two seconds later.
pub fn health_step(event: HealthEvent) -> (r: HealthAction)
    ensures
        match event {
            HealthEvent::DeadlineChecked { passed } => if passed {
                r is TimedOut
            } else {
                r is Probe
            },
            HealthEvent::ProbeAnswered { status } => if status == Some(200u16) {
                r is Ready
            } else {
                r matches HealthAction::RetryAfter { seconds } && seconds == 2
            },
        },
{
    match event {
        HealthEvent::DeadlineChecked { passed } => if passed {
            HealthAction::TimedOut
        } else {
            HealthAction::Probe
        },
        HealthEvent::ProbeAnswered { status } => match status {
            Some(code) => if code == 200 {
                HealthAction::Ready
            } else {
                HealthAction::RetryAfter { seconds: 2 }
            },
            None => HealthAction::RetryAfter { seconds: 2 },
        },
    }
}

/// The message of a readiness wait that timed out.
pub fn health_timeout_message(probe_url: &str, timeout_secs: u64) -> (r: String)
    ensures
        r@ == "backend readiness probe ("@ + probe_url@ + ") timed out after "@ + decimal(
            timeout_secs as nat,
        ) + "s"@,
{
    let a = crate::text::concat3("backend readiness probe (", probe_url, ") timed out after ");
    let secs = u64_to_decimal(timeout_secs);
    crate::text::concat3(a.as_str(), secs.as_str(), "s")
}

/// Whether a context size is large enough to warn of memory pressure on a
/// mobile device.
pub fn context_warning(context_size: u32, mobile: bool) -> (r: bool)
    ensures
        r == (context_size > 4096 && mobile),
{
    context_size > 4096 && mobile
}

/// Appends copies of `extra` to `args`.
fn push_all(args: &mut Vec<String>, extra: &Vec<String>)
    ensures
        string_views(final(args)@) == string_views(old(args)@) + string_views(extra@),
{
    let mut i: usize = 0;
    while i < extra.len()
        invariant
            i <= extra.len(),
            string_views(args@) == string_views(old(args)@) + string_views(extra@.subrange(0, i as int)),
        decreases extra.len() - i,
    {
        let ghost prev = args@;
        args.push(extra[i].clone());
        assert(args@ == prev.push(extra@[i as int]));
        assert(string_views(args@) =~= string_views(prev).push(extra@[i as int]@));
        assert(extra@.subrange(0, i + 1) =~= extra@.subrange(0, i as int).push(extra@[i as int]));
        assert(string_views(extra@.subrange(0, i + 1)) =~= string_views(extra@.subrange(0, i as int)).push(
            extra@[i as int]@,
        ));
        assert(string_views(args@) =~= string_views(old(args)@) + string_views(extra@.subrange(0, i + 1)));
        i = i + 1;
    }
    assert(extra@.subrange(0, extra.len() as int) =~= extra@);
}

/// The arguments of llama-server: model, port, GPU layers, context size,
/// the local host, then the configured extra arguments.
pub fn llama_server_args(config: &LlamaConfig) -> (r: Vec<String>)
    ensures
        string_views(r@) == seq![
            "--model"@,
            config.model@,
            "--port"@,
            decimal(config.port as nat),
            "--n-gpu-layers"@,
            signed_decimal(config.gpu_layers as int),
            "--ctx-size"@,
            decimal(config.context_size as nat),
            "--host"@,
            "127.0.0.1"@,
        ] + string_views(config.extra_args@),
{
    let mut args: Vec<String> = Vec::new();
    args.push("--model".to_owned());
    args.push(config.model.clone());
    args.push("--port".to_owned());
    args.push(u64_to_decimal(config.port as u64));
    args.push("--n-gpu-layers".to_owned());
    args.push(i64_to_decimal(config.gpu_layers as i64));
    args.push("--ctx-size".to_owned());
    args.push(u64_to_decimal(config.context_size as u64));
    args.push("--host".to_owned());
    args.push("127.0.0.1".to_owned());
    assert(string_views(args@) =~= seq![
        "--model"@,
        config.model@,
        "--port"@,
        decimal(config.port as nat),
        "--n-gpu-layers"@,
        signed_decimal(config.gpu_layers as int),
        "--ctx-size"@,
        decimal(config.context_size as nat),
        "--host"@,
        "127.0.0.1"@,
    ]);
    push_all(&mut args, &config.extra_args);
    args
}

/// The arguments of mnn_llm: model directory, port, maximum length, the
/// backend type where one is configured, then the extra arguments.
pub fn mnn_server_args(config: &MnnConfig) -> (r: Vec<String>)
    ensures
        string_views(r@) == seq![
            "--model_dir"@,
            config.model_dir@,
            "--port"@,
            decimal(config.port as nat),
            "--max_length"@,
            decimal(config.context_size as nat),
        ] + (match config.backend_type {
            Some(b) => seq!["--backend_type"@, b@],
            None => Seq::<Seq<char>>::empty(),
        }) + string_views(config.extra_args@),
{
    let mut args: Vec<String> = Vec::new();
    args.push("--model_dir".to_owned());
    args.push(config.model_dir.clone());
    args.push("--port".to_owned());
    args.push(u64_to_decimal(config.port as u64));
    args.push("--max_length".to_owned());
    args.push(u64_to_decimal(config.context_size as u64));
    match &config.backend_type {
        Some(b) => {
            args.push("--backend_type".to_owned());
            args.push(b.clone());
        },
        None => {},
    }
    assert(string_views(args@) =~= seq![
        "--model_dir"@,
        config.model_dir@,
        "--port"@,
        decimal(config.port as nat),
        "--max_length"@,
        decimal(config.context_size as nat),
    ] + (match config.backend_type {
        Some(b) => seq!["--backend_type"@, b@],
        None => Seq::<Seq<char>>::empty(),
    }));
    push_all(&mut args, &config.extra_args);
    args
}

/// The arguments of mesh-llm: `serve`, then the configured serve
/// arguments; no port or host is added.
pub fn mesh_server_args(config: &MeshConfig) -> (r: Vec<String>)
    ensures
        string_views(r@) == seq!["serve"@] + string_views(config.serve_args@),
{
    let mut args: Vec<String> = Vec::new();
    args.push("serve".to_owned());
    assert(string_views(args@) =~= seq!["serve"@]);
    push_all(&mut args, &config.serve_args);
    args
}

/// Scanning buffered server-sent-event text: each complete line is
/// trimmed; a `data: ` line yields its payload, except `[DONE]`, which ends
/// the stream; other lines are skipped. Returns the payloads, whether the
/// stream ended, and the text that remains buffered.
pub open spec fn sse_scan(buf: Seq<char>) -> (Seq<Seq<char>>, bool, Seq<char>)
    decreases buf.len(),
{
    let e = first_index_of(buf, '\n');
    if e < 0 || e >= buf.len() {
        (Seq::empty(), false, buf)
    } else {
        let line = trim(buf.subrange(0, e));
        let rest = buf.subrange(e + 1, buf.len() as int);
        if has_prefix(line, "data: "@) {
            let d = line.subrange(6, line.len() as int);
            if d == "[DONE]"@ {
                (Seq::empty(), true, rest)
            } else {
                let s = sse_scan(rest);
                (seq![d] + s.0, s.1, s.2)
            }
        } else {
            sse_scan(rest)
        }
    }
}

/// Decoding text in two pieces finds what decoding it at once finds. Where
/// the stream ended within the first piece, the whole gives the same
/// payloads and end, with the second piece left over after the first's
/// remainder; otherwise the payloads of the first piece followed by those
/// of its remainder and the second piece are the payloads of the whole,
/// with the same end and the same text left over.
pub proof fn lemma_sse_scan_in_pieces(a: Seq<char>, b: Seq<char>)
    ensures
        ({
            let s1 = sse_scan(a);
            let s2 = sse_scan(s1.2 + b);
            if s1.1 {
                sse_scan(a + b) == (s1.0, true, s1.2 + b)
            } else {
                sse_scan(a + b) == (s1.0 + s2.0, s2.1, s2.2)
            }
        }),
    decreases a.len(),
{
    crate::text::lemma_first_index_of_bounds(a, '\n');
    let e = first_index_of(a, '\n');
    if e < 0 || e >= a.len() {
        assert(Seq::<Seq<char>>::empty() + sse_scan(a + b).0 =~= sse_scan(a + b).0);
    } else {
        crate::text::lemma_first_index_of_append(a, b, '\n');
        let ab = a + b;
        assert(ab.subrange(0, e) =~= a.subrange(0, e));
        let rest_a = a.subrange(e + 1, a.len() as int);
        assert(ab.subrange(e + 1, ab.len() as int) =~= rest_a + b);
        let line = trim(a.subrange(0, e));
        if has_prefix(line, "data: "@) {
            let d = line.subrange(6, line.len() as int);
            if d != "[DONE]"@ {
                lemma_sse_scan_in_pieces(rest_a, b);
                let s = sse_scan(rest_a);
                let s2 = sse_scan(s.2 + b);
                if !s.1 {
                    assert(seq![d] + (s.0 + s2.0) =~= (seq![d] + s.0) + s2.0);
                }
            }
        } else {
            lemma_sse_scan_in_pieces(rest_a, b);
        }
    }
}

/// What a scan leaves buffered when the stream did not end holds no line
/// break.
pub proof fn lemma_sse_rest_has_no_line_break(a: Seq<char>)
    requires
        !sse_scan(a).1,
    ensures
        first_index_of(sse_scan(a).2, '\n') >= sse_scan(a).2.len(),
    decreases a.len(),
{
    crate::text::lemma_first_index_of_bounds(a, '\n');
    let e = first_index_of(a, '\n');
    if e >= 0 && e < a.len() {
        lemma_sse_rest_has_no_line_break(a.subrange(e + 1, a.len() as int));
    }
}

/// The text of a sequence of pieces, joined.
pub open spec fn joined(pieces: Seq<Seq<char>>) -> Seq<char>
    decreases pieces.len(),
{
    if pieces.len() == 0 {
        Seq::empty()
    } else {
        pieces[0] + joined(pieces.drop_first())
    }
}

/// Feeding pieces one after another to a decoder holding `pending`, until
/// the stream ends: the payloads delivered, whether it ended, and the text
/// not yet decoded (after an end, the remainder and the pieces not fed).
pub open spec fn feed_pieces(pending: Seq<char>, pieces: Seq<Seq<char>>) -> (Seq<Seq<char>>, bool, Seq<char>)
    decreases pieces.len(),
{
    if pieces.len() == 0 {
        (Seq::empty(), false, pending)
    } else {
        let s = sse_scan(pending + pieces[0]);
        if s.1 {
            (s.0, true, s.2 + joined(pieces.drop_first()))
        } else {
            let t = feed_pieces(s.2, pieces.drop_first());
            (s.0 + t.0, t.1, t.2)
        }
    }
}

/// However a server-sent-event stream is split into pieces, feeding the
/// pieces in turn to a fresh decoder delivers the payloads, the end, and
/// the leftover text of decoding the whole stream at once.
pub proof fn lemma_sse_any_split(pieces: Seq<Seq<char>>)
    ensures
        feed_pieces(Seq::empty(), pieces) == sse_scan(joined(pieces)),
{
    lemma_feed_pieces_from(Seq::empty(), pieces);
    assert(Seq::<char>::empty() + joined(pieces) =~= joined(pieces));
}

proof fn lemma_feed_pieces_from(pending: Seq<char>, pieces: Seq<Seq<char>>)
    requires
        first_index_of(pending, '\n') >= pending.len(),
    ensures
        feed_pieces(pending, pieces) == sse_scan(pending + joined(pieces)),
    decreases pieces.len(),
{
    if pieces.len() == 0 {
        assert(pending + joined(pieces) =~= pending);
        assert(sse_scan(pending) == (Seq::<Seq<char>>::empty(), false, pending));
    } else {
        let a = pending + pieces[0];
        let b = joined(pieces.drop_first());
        assert(pending + joined(pieces) =~= a + b);
        lemma_sse_scan_in_pieces(a, b);
        let s = sse_scan(a);
        if !s.1 {
            lemma_sse_rest_has_no_line_break(a);
            lemma_feed_pieces_from(s.2, pieces.drop_first());
        }
    }
}

/// The payloads found by a scan, after some already found.
pub open spec fn after_events(
    found: Seq<Seq<char>>,
    s: (Seq<Seq<char>>, bool, Seq<char>),
) -> (Seq<Seq<char>>, bool, Seq<char>) {
    (found + s.0, s.1, s.2)
}

/// What one piece of streamed text yields: the event payloads, and whether
/// the `[DONE]` marker ended the stream.
#[derive(Debug)]
pub struct SseOutput {
    pub events: Vec<String>,
    pub done: bool,
}

/// The payloads that are JSON text, in their order: those a streamed
/// completion passes on as chunks.
pub open spec fn json_payloads(events: Seq<Seq<char>>) -> Seq<Seq<char>>
    decreases events.len(),
{
    if events.len() == 0 {
        Seq::empty()
    } else {
        let rest = json_payloads(events.drop_last());
        if json_text_valid(events.last()) {
            rest.push(events.last())
        } else {
            rest
        }
    }
}

/// Keeps the event payloads that are JSON, in order; the others are
/// dropped.
pub fn json_payloads_of(events: &Vec<String>) -> (r: Vec<String>)
    ensures
        string_views(r@) == json_payloads(string_views(events@)),
{
    let mut out: Vec<String> = Vec::new();
    let mut i: usize = 0;
    while i < events.len()
        invariant
            i <= events.len(),
            string_views(out@) == json_payloads(string_views(events@).subrange(0, i as int)),
        decreases events.len() - i,
    {
        let e = &events[i];
        let keep = is_json_text(e.as_str());
        proof {
            let all = string_views(events@);
            assert(all.subrange(0, i + 1).drop_last() =~= all.subrange(0, i as int));
            assert(all.subrange(0, i + 1).last() == e@);
        }
        if keep {
            let c = e.clone();
            out.push(c);
            proof {
                assert(string_views(out@) =~= string_views(out@.drop_last()).push(e@));
            }
        }
        i = i + 1;
    }
    proof {
        assert(string_views(events@).subrange(0, events.len() as int) =~= string_views(events@));
    }
    out
}

/// Decoder of a server-sent-event stream that arrives in pieces; text after
/// the last line break stays buffered until more arrives.
#[derive(Debug)]
pub struct SseDecoder {
    buffer: Vec<char>,
}

impl SseDecoder {
    /// The buffered text.
    pub closed spec fn pending(&self) -> Seq<char> {
        self.buffer@
    }

    /// A decoder with nothing buffered.
    pub fn new() -> (r: SseDecoder)
        ensures
            r.pending() == Seq::<char>::empty(),
    {
        SseDecoder { buffer: Vec::new() }
    }

    /// Adds a piece of text to the buffer and decodes the complete lines.
    pub fn feed(&mut self, text: &str) -> (r: SseOutput)
        ensures
            ({
                let s = sse_scan(old(self).pending() + text@);
                &&& string_views(r.events@) == s.0
                &&& r.done == s.1
                &&& final(self).pending() == s.2
            }),
    {
        let mut b: Vec<char> = Vec::new();
        std::mem::swap(&mut b, &mut self.buffer);
        let tv = chars_of(text);
        let mut k: usize = 0;
        let ghost b0 = b@;
        while k < tv.len()
            invariant
                k <= tv.len(),
                b@ == b0 + tv@.subrange(0, k as int),
            decreases tv.len() - k,
        {
            b.push(tv[k]);
            k = k + 1;
            assert(b@ =~= b0 + tv@.subrange(0, k as int));
        }
        assert(tv@.subrange(0, tv.len() as int) =~= tv@);
        let ghost whole = b@;
        assert(whole == old(self).pending() + text@);
        let n = b.len();
        let data_prefix = chars_of("data: ");
        proof {
            reveal_strlit("data: ");
        }
        let mut events: Vec<String> = Vec::new();
        let mut pos: usize = 0;
        assert(whole.subrange(0, n as int) =~= whole);
        loop
            invariant
                n == b.len(),
                b@ == whole,
                whole == old(self).pending() + text@,
                data_prefix@ == "data: "@,
                data_prefix@.len() == 6,
                pos <= n,
                sse_scan(whole) == after_events(string_views(events@), sse_scan(whole.subrange(pos as int, n as int))),
            ensures
                pos <= n,
                first_index_of(whole.subrange(pos as int, n as int), '\n') >= n - pos,
                sse_scan(whole) == after_events(string_views(events@), sse_scan(whole.subrange(pos as int, n as int))),
            decreases n - pos,
        {
            let e = find_from(&b, '\n', pos);
            if e >= n {
                break;
            }
            let ghost sub = whole.subrange(pos as int, n as int);
            let raw = vec_range(&b, pos, e);
            let line_s = trim_chars(&raw);
            let line = chars_of(line_s.as_str());
            proof {
                assert(first_index_of(sub, '\n') == e - pos);
                assert(sub.subrange(0, e - pos) =~= raw@);
                assert(line@ == trim(sub.subrange(0, e - pos)));
                assert(sub.subrange(e - pos + 1, sub.len() as int) =~= whole.subrange(e + 1, n as int));
            }
            if has_prefix_exec(&line, &data_prefix) {
                let d = string_of_range(&line, 6, line.len());
                if str_eq(d.as_str(), "[DONE]") {
                    let rest = vec_range(&b, e + 1, n);
                    self.buffer = rest;
                    proof {
                        assert(string_views(events@) + Seq::<Seq<char>>::empty() =~= string_views(events@));
                    }
                    return SseOutput { events, done: true };
                }
                let ghost before = string_views(events@);
                events.push(d);
                proof {
                    assert(string_views(events@) =~= before.push(d@));
                    let s = sse_scan(whole.subrange(e + 1, n as int));
                    assert(before + (seq![d@] + s.0) =~= before.push(d@) + s.0);
                }
            }
            pos = e + 1;
        }
        let rest = vec_range(&b, pos, n);
        self.buffer = rest;
        proof {
            assert(string_views(events@) + Seq::<Seq<char>>::empty() =~= string_views(events@));
        }
        SseOutput { events, done: false }
    }
}

} // verus!
