use vstd::prelude::*;

use vstd::string::*;

use crate::text::copy_string;

verus! {

/// One part of an agent message, as plain values.
#[derive(Debug, PartialEq, Eq)]
pub enum AgentPart {
    /// Text content.
    Text(String),
    /// Structured data, as pretty-printed JSON.
    Data(String),
    /// A file (shown as a placeholder).
    File,
}

/// An agent message: its parts.
#[derive(Debug, PartialEq, Eq)]
pub struct AgentMessage {
    pub parts: Vec<AgentPart>,
}

/// An output artifact of a task.
#[derive(Debug, PartialEq, Eq)]
pub struct AgentArtifact {
    pub name: Option<String>,
    pub parts: Vec<AgentPart>,
}

/// A task as the agent reports it.
#[derive(Debug, PartialEq, Eq)]
pub struct AgentTask {
    pub id: String,
    pub context_id: String,
    /// The task state, as text.
    pub state: String,
    /// The state is terminal (no further updates expected).
    pub terminal: bool,
    /// The status message, if any.
    pub message: Option<AgentMessage>,
    pub artifacts: Option<Vec<AgentArtifact>>,
}

/// The reply to a (non-streaming) message.
#[derive(Debug, PartialEq, Eq)]
pub enum SendResult {
    Task(AgentTask),
    Message(AgentMessage),
}

/// One event of a streamed reply.
#[derive(Debug, PartialEq, Eq)]
pub enum StreamEvent {
    Task(AgentTask),
    Message(AgentMessage),
    StatusUpdate { context_id: String, message: Option<AgentMessage>, terminal: bool },
    ArtifactUpdate(AgentArtifact),
}

/// One thing to write to the terminal.
#[derive(Debug, PartialEq, Eq)]
pub enum Output {
    /// The `Agent > ` prompt.
    AgentPrompt,
    /// A part: on a line of its own, or inline (no line break).
    Part { part: AgentPart, inline: bool },
    /// An `Artifact: <name>` line.
    ArtifactName(String),
    /// An inline ` [<name>]` tag.
    ArtifactTag(String),
    /// The task id, context id and state.
    Meta { task_id: String, context_id: String, state: String },
    /// A line break.
    EndLine,
    /// Flush what was written inline.
    Flush,
}

/// The parts, each as an output.
pub open spec fn parts_out(parts: Seq<AgentPart>, inline: bool) -> Seq<Output> {
    parts.map_values(|p: AgentPart| Output::Part { part: p, inline: inline })
}

/// The parts inline, then a flush.
pub open spec fn inline_out(parts: Seq<AgentPart>) -> Seq<Output> {
    parts_out(parts, true).push(Output::Flush)
}

/// The parts of an optional message, each on a line of its own.
pub open spec fn message_lines(m: Option<AgentMessage>) -> Seq<Output> {
    match m {
        Some(msg) => parts_out(msg.parts@, false),
        None => Seq::empty(),
    }
}

/// The parts of an optional message, inline.
pub open spec fn message_inline(m: Option<AgentMessage>) -> Seq<Output> {
    match m {
        Some(msg) => inline_out(msg.parts@),
        None => Seq::empty(),
    }
}

/// One artifact: its name line, if named, then its parts.
pub open spec fn artifact_out(a: AgentArtifact) -> Seq<Output> {
    match a.name {
        Some(n) => seq![Output::ArtifactName(n)] + parts_out(a.parts@, false),
        None => parts_out(a.parts@, false),
    }
}

/// All artifacts, in order.
pub open spec fn artifacts_out(arts: Seq<AgentArtifact>) -> Seq<Output>
    decreases arts.len(),
{
    if arts.len() == 0 {
        Seq::empty()
    } else {
        artifacts_out(arts.drop_last()) + artifact_out(arts.last())
    }
}

/// The prompt, shown from verbosity 1 on.
pub open spec fn prompt_out(verbosity: u8) -> Seq<Output> {
    if verbosity >= 1 {
        seq![Output::AgentPrompt]
    } else {
        Seq::empty()
    }
}

/// How a reply is shown: the prompt; for a task its status message,
/// its artifacts and, from verbosity 2 on, its ids and state; for a
/// message its parts; then a line break.
pub open spec fn reply_out(result: SendResult, verbosity: u8) -> Seq<Output> {
    match result {
        SendResult::Task(t) => prompt_out(verbosity) + message_lines(t.message) + (match t.artifacts {
            Some(arts) => artifacts_out(arts@),
            None => Seq::empty(),
        }) + (if verbosity >= 2 {
            seq![Output::Meta { task_id: t.id, context_id: t.context_id, state: t.state }]
        } else {
            Seq::empty()
        }) + seq![Output::EndLine],
        SendResult::Message(m) => prompt_out(verbosity) + parts_out(m.parts@, false) + seq![
            Output::EndLine,
        ],
    }
}

/// The conversation context after a reply: a task sets it to the task's
/// context; a message leaves it as it was.
pub open spec fn context_after_reply(result: SendResult, context: Option<String>) -> Option<String> {
    match result {
        SendResult::Task(t) => Some(t.context_id),
        SendResult::Message(_) => context,
    }
}

/// How a streamed event is shown: parts inline, a line break once a task
/// reaches a terminal state, artifacts tagged with their name.
pub open spec fn event_out(event: StreamEvent) -> Seq<Output> {
    match event {
        StreamEvent::Task(t) => message_inline(t.message) + (if t.terminal {
            seq![Output::EndLine]
        } else {
            Seq::empty()
        }),
        StreamEvent::Message(m) => inline_out(m.parts@),
        StreamEvent::StatusUpdate { context_id, message, terminal } => message_inline(message) + (
        if terminal {
            seq![Output::EndLine]
        } else {
            Seq::empty()
        }),
        StreamEvent::ArtifactUpdate(a) => (match a.name {
            Some(n) => seq![Output::ArtifactTag(n)],
            None => Seq::empty(),
        }) + inline_out(a.parts@).push(Output::Flush),
    }
}

/// The conversation context after a streamed event: tasks and status
/// updates set it; messages and artifacts leave it.
pub open spec fn context_after_event(event: StreamEvent, context: Option<String>) -> Option<String> {
    match event {
        StreamEvent::Task(t) => Some(t.context_id),
        StreamEvent::StatusUpdate { context_id, .. } => Some(context_id),
        StreamEvent::Message(_) => context,
        StreamEvent::ArtifactUpdate(_) => context,
    }
}

/// A copy of a part that is the same value.
pub fn copy_part(p: &AgentPart) -> (r: AgentPart)
    ensures
        r == *p,
{
    match p {
        AgentPart::Text(t) => AgentPart::Text(copy_string(t)),
        AgentPart::Data(d) => AgentPart::Data(copy_string(d)),
        AgentPart::File => AgentPart::File,
    }
}

/// Append each part as an output.
fn push_parts(out: &mut Vec<Output>, parts: &Vec<AgentPart>, inline: bool)
    ensures
        final(out)@ == old(out)@ + parts_out(parts@, inline),
{
    let ghost start = out@;
    let mut i: usize = 0;
    while i < parts.len()
        invariant
            i <= parts@.len(),
            out@ == start + parts_out(parts@.take(i as int), inline),
        decreases parts@.len() - i,
    {
        out.push(Output::Part { part: copy_part(&parts[i]), inline });
        proof {
            assert(parts@.take(i + 1) =~= parts@.take(i as int).push(parts@[i as int]));
            assert(parts_out(parts@.take(i + 1), inline) =~= parts_out(
                parts@.take(i as int),
                inline,
            ).push(Output::Part { part: parts@[i as int], inline: inline }));
        }
        i = i + 1;
    }
    proof {
        assert(parts@.take(parts@.len() as int) =~= parts@);
    }
}

/// Append the parts of an optional message, on lines or inline.
fn push_message(out: &mut Vec<Output>, m: &Option<AgentMessage>, inline: bool)
    ensures
        final(out)@ == old(out)@ + (if inline {
            message_inline(*m)
        } else {
            message_lines(*m)
        }),
{
    match m {
        Some(msg) => {
            push_parts(out, &msg.parts, inline);
            if inline {
                out.push(Output::Flush);
            }
        },
        None => {
            assert(old(out)@ + Seq::<Output>::empty() =~= old(out)@);
        },
    }
}

/// Append the outputs of the artifacts, in order.
fn push_artifacts(out: &mut Vec<Output>, arts: &Vec<AgentArtifact>)
    ensures
        final(out)@ == old(out)@ + artifacts_out(arts@),
{
    let ghost start = out@;
    let mut i: usize = 0;
    proof {
        assert(arts@.take(0) =~= Seq::<AgentArtifact>::empty());
        assert(start + artifacts_out(arts@.take(0)) =~= start);
    }
    while i < arts.len()
        invariant
            i <= arts@.len(),
            out@ == start + artifacts_out(arts@.take(i as int)),
        decreases arts@.len() - i,
    {
        let a = &arts[i];
        let ghost before = out@;
        match &a.name {
            Some(n) => out.push(Output::ArtifactName(copy_string(n))),
            None => {},
        }
        push_parts(out, &a.parts, false);
        proof {
            assert(arts@.take(i + 1).drop_last() =~= arts@.take(i as int));
            assert(arts@.take(i + 1).last() == *a);
            assert(out@ =~= before + artifact_out(*a));
        }
        i = i + 1;
    }
    proof {
        assert(arts@.take(arts@.len() as int) =~= arts@);
    }
}

/// Show a reply and track its conversation context.
pub fn display_result(result: &SendResult, context_id: &mut Option<String>, verbosity: u8) -> (r: Vec<Output>)
    ensures
        r@ == reply_out(*result, verbosity),
        *final(context_id) == context_after_reply(*result, *old(context_id)),
{
    let mut out: Vec<Output> = Vec::new();
    if verbosity >= 1 {
        out.push(Output::AgentPrompt);
    }
    match result {
        SendResult::Task(task) => {
            *context_id = Some(copy_string(&task.context_id));
            push_message(&mut out, &task.message, false);
            match &task.artifacts {
                Some(arts) => push_artifacts(&mut out, arts),
                None => {},
            }
            if verbosity >= 2 {
                out.push(
                    Output::Meta {
                        task_id: copy_string(&task.id),
                        context_id: copy_string(&task.context_id),
                        state: copy_string(&task.state),
                    },
                );
            }
            out.push(Output::EndLine);
        },
        SendResult::Message(msg) => {
            push_parts(&mut out, &msg.parts, false);
            out.push(Output::EndLine);
        },
    }
    proof {
        assert(out@ =~= reply_out(*result, verbosity));
    }
    out
}

/// Show one streamed event and track the conversation context.
pub fn stream_event(event: &StreamEvent, context_id: &mut Option<String>) -> (r: Vec<Output>)
    ensures
        r@ == event_out(*event),
        *final(context_id) == context_after_event(*event, *old(context_id)),
{
    let mut out: Vec<Output> = Vec::new();
    match event {
        StreamEvent::Task(task) => {
            *context_id = Some(copy_string(&task.context_id));
            push_message(&mut out, &task.message, true);
            if task.terminal {
                out.push(Output::EndLine);
            }
        },
        StreamEvent::Message(msg) => {
            push_parts(&mut out, &msg.parts, true);
            out.push(Output::Flush);
        },
        StreamEvent::StatusUpdate { context_id: ctx, message, terminal } => {
            *context_id = Some(copy_string(ctx));
            push_message(&mut out, message, true);
            if *terminal {
                out.push(Output::EndLine);
            }
        },
        StreamEvent::ArtifactUpdate(artifact) => {
            match &artifact.name {
                Some(n) => out.push(Output::ArtifactTag(copy_string(n))),
                None => {},
            }
            push_parts(&mut out, &artifact.parts, true);
            out.push(Output::Flush);
            out.push(Output::Flush);
        },
    }
    proof {
        assert(out@ =~= event_out(*event));
    }
    out
}

/// The text a part stands for: its text, its JSON, or `[file]`.
pub fn part_text(p: &AgentPart) -> (r: String)
    ensures
        r@ == match p {
            AgentPart::Text(t) => t@,
            AgentPart::Data(d) => d@,
            AgentPart::File => "[file]"@,
        },
{
    match p {
        AgentPart::Text(t) => copy_string(t),
        AgentPart::Data(d) => copy_string(d),
        AgentPart::File => String::from_str("[file]"),
    }
}

} // verus!
