//! Values that flow through the context-engine lifecycle hooks:
//! bootstrap → ingest → assemble → [tool loop] → compact → after_turn,
//! plus prepare_subagent_spawn and on_subagent_ended for sub-agent flows.

use vstd::prelude::*;
use vstd::string::*;

verus! {

/// The view of an optional string.
pub open spec fn opt_str(o: Option<String>) -> Option<Seq<char>> {
    match o {
        Some(s) => Some(s@),
        None => None,
    }
}

/// A copy of an optional string with the same contents.
pub fn copy_opt_string(o: &Option<String>) -> (r: Option<String>)
    ensures
        r == *o,
{
    match o {
        Some(s) => Some(s.clone()),
        None => None,
    }
}

/// Session-scoped state. Passed to bootstrap and available across a conversation.
#[derive(Debug, Default)]
pub struct Session {
    pub id: String,
    pub channel: String,
    pub session_id: Option<String>,
}

impl Session {
    /// A session with the given id and channel and no session id yet.
    pub fn new(id: &str, channel: &str) -> (s: Session)
        ensures
            s.id@ == id@,
            s.channel@ == channel@,
            s.session_id is None,
    {
        Session { id: id.to_owned(), channel: channel.to_owned(), session_id: None }
    }

    /// The same session, with its session id set (replacing any earlier one).
    pub fn with_session_id(self, session_id: &str) -> (s: Session)
        ensures
            s.id == self.id,
            s.channel == self.channel,
            opt_str(s.session_id) == Some(session_id@),
    {
        let mut s = self;
        s.session_id = Some(session_id.to_owned());
        s
    }

    /// A field-for-field copy.
    pub fn duplicate(&self) -> (s: Session)
        ensures
            s == *self,
    {
        Session {
            id: self.id.clone(),
            channel: self.channel.clone(),
            session_id: copy_opt_string(&self.session_id),
        }
    }
}

/// Single turn: raw input and (after execution) output.
#[derive(Debug, Default)]
pub struct Turn {
    pub input: String,
    pub output: Option<String>,
}

impl Turn {
    /// A turn with the given input and no output yet.
    pub fn new(input: &str) -> (t: Turn)
        ensures
            t.input@ == input@,
            t.output is None,
    {
        Turn { input: input.to_owned(), output: None }
    }

    /// The same turn, with its output set (replacing any earlier one).
    pub fn with_output(self, output: &str) -> (t: Turn)
        ensures
            t.input == self.input,
            opt_str(t.output) == Some(output@),
    {
        let mut t = self;
        t.output = Some(output.to_owned());
        t
    }

    /// A field-for-field copy.
    pub fn duplicate(&self) -> (t: Turn)
        ensures
            t == *self,
    {
        Turn { input: self.input.clone(), output: copy_opt_string(&self.output) }
    }
}

/// Assembled context: memory preamble, hardware RAG, enriched prompt.
#[derive(Debug, Default)]
pub struct Context {
    pub mem_context: String,
    pub hw_context: String,
    pub enriched_prompt: String,
    /// When compacting history, the transcript being summarized. Engine can read.
    pub compact_transcript: Option<String>,
    /// When compacting history, the summary. Engine can modify before apply.
    pub compact_summary: Option<String>,
}

impl Context {
    /// The memory preamble followed by the hardware context.
    pub fn full_context(&self) -> (s: String)
        ensures
            s@ == self.mem_context@ + self.hw_context@,
    {
        let mut s = self.mem_context.clone();
        s.append(self.hw_context.as_str());
        s
    }

    /// Build a context for the compact hook (history compaction flow).
    pub fn for_compact(transcript: String, summary: String) -> (c: Context)
        ensures
            c.mem_context@ == Seq::<char>::empty(),
            c.hw_context@ == Seq::<char>::empty(),
            c.enriched_prompt@ == Seq::<char>::empty(),
            c.compact_transcript == Some(transcript),
            c.compact_summary == Some(summary),
    {
        Context {
            mem_context: String::new(),
            hw_context: String::new(),
            enriched_prompt: String::new(),
            compact_transcript: Some(transcript),
            compact_summary: Some(summary),
        }
    }

    /// A field-for-field copy.
    pub fn duplicate(&self) -> (c: Context)
        ensures
            c == *self,
    {
        Context {
            mem_context: self.mem_context.clone(),
            hw_context: self.hw_context.clone(),
            enriched_prompt: self.enriched_prompt.clone(),
            compact_transcript: copy_opt_string(&self.compact_transcript),
            compact_summary: copy_opt_string(&self.compact_summary),
        }
    }
}

/// Request to spawn a sub-agent.
#[derive(Debug)]
pub struct SpawnRequest {
    pub agent_id: String,
    pub command: String,
}

impl SpawnRequest {
    /// A field-for-field copy.
    pub fn duplicate(&self) -> (r: SpawnRequest)
        ensures
            r == *self,
    {
        SpawnRequest { agent_id: self.agent_id.clone(), command: self.command.clone() }
    }
}

/// Result of a completed sub-agent run.
#[derive(Debug)]
pub struct SubagentResult {
    pub session_id: String,
    pub success: bool,
    pub output: String,
}

impl SubagentResult {
    /// A field-for-field copy.
    pub fn duplicate(&self) -> (r: SubagentResult)
        ensures
            r == *self,
    {
        SubagentResult {
            session_id: self.session_id.clone(),
            success: self.success,
            output: self.output.clone(),
        }
    }
}

} // verus!
