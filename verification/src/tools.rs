//! The tools that the language model may choose from, and the requests that
//! the pipeline puts to it.

use vstd::prelude::*;
use crate::text::same_text;

verus! {

/// What the language model may ask the assistant to do.
#[derive(Clone, Copy, Debug, PartialEq, Eq, Structural)]
pub enum AssistantTool {
    /// Draw a picture from the user's words.
    DrawImage,
    /// Write code from the user's words.
    WriteCode,
    /// Answer the user's question.
    Answer,
}

impl AssistantTool {
    /// The tool's name as the language model writes it, in snake case.
    pub open spec fn name_text(self) -> Seq<char> {
        match self {
            AssistantTool::DrawImage => "draw_image"@,
            AssistantTool::WriteCode => "write_code"@,
            AssistantTool::Answer => "answer"@,
        }
    }

    /// The tool that `name` names, if it names one.
    pub open spec fn parse_text(name: Seq<char>) -> Option<AssistantTool> {
        if name == AssistantTool::DrawImage.name_text() {
            Some(AssistantTool::DrawImage)
        } else if name == AssistantTool::WriteCode.name_text() {
            Some(AssistantTool::WriteCode)
        } else if name == AssistantTool::Answer.name_text() {
            Some(AssistantTool::Answer)
        } else {
            None
        }
    }

    /// The tool that a call naming `name` is dispatched to: the tool of that
    /// name, and `Answer` where no tool has it.
    pub open spec fn resolve_text(name: Seq<char>) -> AssistantTool {
        match AssistantTool::parse_text(name) {
            Some(tool) => tool,
            None => AssistantTool::Answer,
        }
    }

    /// The tool's name as the language model writes it.
    pub fn name(&self) -> (r: &'static str)
        ensures
            r@ == self.name_text(),
    {
        match self {
            AssistantTool::DrawImage => "draw_image",
            AssistantTool::WriteCode => "write_code",
            AssistantTool::Answer => "answer",
        }
    }

    /// The tool that `name` names, if it names one.
    pub fn parse(name: &str) -> (r: Option<AssistantTool>)
        ensures
            r == AssistantTool::parse_text(name@),
    {
        if same_text(name, "draw_image") {
            Some(AssistantTool::DrawImage)
        } else if same_text(name, "write_code") {
            Some(AssistantTool::WriteCode)
        } else if same_text(name, "answer") {
            Some(AssistantTool::Answer)
        } else {
            None
        }
    }

    /// A tool is found by its own name, and by no other tool's.
    pub proof fn name_names_the_tool(tool: AssistantTool)
        ensures
            AssistantTool::parse_text(tool.name_text()) == Some(tool),
            AssistantTool::resolve_text(tool.name_text()) == tool,
    {
        reveal_strlit("draw_image");
        reveal_strlit("write_code");
        reveal_strlit("answer");
        assert(AssistantTool::DrawImage.name_text()[0] == 'd');
        assert(AssistantTool::WriteCode.name_text()[0] == 'w');
        assert(AssistantTool::Answer.name_text()[0] == 'a');
    }

    /// A name that names no tool is dispatched to `Answer`.
    pub proof fn unknown_name_is_answered(name: Seq<char>)
        requires
            AssistantTool::parse_text(name) is None,
        ensures
            AssistantTool::resolve_text(name) == AssistantTool::Answer,
    {
    }

    /// The tool that a call naming `name` is dispatched to.
    pub fn resolve(name: &str) -> (r: AssistantTool)
        ensures
            r == AssistantTool::resolve_text(name@),
    {
        match AssistantTool::parse(name) {
            Some(tool) => tool,
            None => AssistantTool::Answer,
        }
    }
}

/// Who speaks in a message to the language model.
#[derive(Clone, Copy, Debug, PartialEq, Eq, Structural)]
pub enum Role {
    System,
    User,
}

/// A message to the language model: who speaks, what is said, and the
/// speaker's name.
#[derive(Clone, Debug, PartialEq, Eq)]
pub struct ChatMessage {
    pub role: Role,
    pub content: String,
    pub name: String,
}

/// A tool offered to the language model, with the description it is given.
#[derive(Clone, Debug, PartialEq, Eq)]
pub struct ToolSpec {
    pub tool: AssistantTool,
    pub description: String,
}

/// A request to the language model: the messages, and the tools it may call.
/// A request without tools asks for a plain completion.
#[derive(Clone, Debug, PartialEq, Eq)]
pub struct ChatRequest {
    pub messages: Vec<ChatMessage>,
    pub tools: Vec<ToolSpec>,
}

/// A message as a mathematical value.
pub struct ChatMessageView {
    pub role: Role,
    pub content: Seq<char>,
    pub name: Seq<char>,
}

/// An offered tool as a mathematical value.
pub struct ToolSpecView {
    pub tool: AssistantTool,
    pub description: Seq<char>,
}

/// A request as a mathematical value.
pub struct ChatRequestView {
    pub messages: Seq<ChatMessageView>,
    pub tools: Seq<ToolSpecView>,
}

impl View for ChatMessage {
    type V = ChatMessageView;

    open spec fn view(&self) -> ChatMessageView {
        ChatMessageView { role: self.role, content: self.content@, name: self.name@ }
    }
}

impl View for ToolSpec {
    type V = ToolSpecView;

    open spec fn view(&self) -> ToolSpecView {
        ToolSpecView { tool: self.tool, description: self.description@ }
    }
}

impl View for ChatRequest {
    type V = ChatRequestView;

    open spec fn view(&self) -> ChatRequestView {
        ChatRequestView {
            messages: Seq::new(self.messages@.len(), |i: int| self.messages@[i]@),
            tools: Seq::new(self.tools@.len(), |i: int| self.tools@[i]@),
        }
    }
}

/// The name under which the assistant speaks.
pub open spec fn assistant_speaker() -> Seq<char> {
    "Q"@
}

/// The name under which the user speaks.
pub open spec fn user_speaker() -> Seq<char> {
    "zheng"@
}

/// What the assistant says of itself when it is to pick a tool.
pub open spec fn dispatch_prompt() -> Seq<char> {
    "I can do to help you?"@
}

/// What the assistant says of itself when it is to answer.
pub open spec fn answer_prompt() -> Seq<char> {
    "I can help answer anything you'r like to chat."@
}

/// What the assistant says of itself when it is to write code.
pub open spec fn code_prompt() -> Seq<char> {
    "I'm an expert on coding, I'll write code for you in markdown format based on your prompt"@
}

/// The hint given to the transcription service.
pub open spec fn transcription_hint() -> Seq<char> {
    "If audio language is Chinese, please use simplified chinese"@
}

/// The tools offered to the language model, in order: writing code, then
/// answering. Drawing is known to the dispatcher but not offered.
pub open spec fn all_tools_view() -> Seq<ToolSpecView> {
    seq![
        ToolSpecView {
            tool: AssistantTool::WriteCode,
            description: "Write code based on the prompt."@,
        },
        ToolSpecView {
            tool: AssistantTool::Answer,
            description: "Just reply based on the prompt."@,
        },
    ]
}

/// The conversation in which the assistant introduces itself with `system`
/// and the user `name` says `prompt`.
pub open spec fn conversation(system: Seq<char>, prompt: Seq<char>, name: Seq<char>) -> Seq<
    ChatMessageView,
> {
    seq![
        ChatMessageView { role: Role::System, content: system, name: assistant_speaker() },
        ChatMessageView { role: Role::User, content: prompt, name: name },
    ]
}

/// The request that lets the language model pick a tool for `prompt`.
pub open spec fn tool_request_view(prompt: Seq<char>, name: Seq<char>) -> ChatRequestView {
    ChatRequestView {
        messages: conversation(dispatch_prompt(), prompt, name),
        tools: all_tools_view(),
    }
}

/// The request for a plain completion in which the assistant introduces
/// itself with `system` and the user says `prompt`.
pub open spec fn plain_request_view(system: Seq<char>, prompt: Seq<char>) -> ChatRequestView {
    ChatRequestView {
        messages: conversation(system, prompt, user_speaker()),
        tools: Seq::empty(),
    }
}

/// The tools offered to the language model.
pub fn all_tools() -> (tools: Vec<ToolSpec>)
    ensures
        Seq::new(tools@.len(), |i: int| tools@[i]@) == all_tools_view(),
{
    let mut tools: Vec<ToolSpec> = Vec::new();
    tools.push(
        ToolSpec {
            tool: AssistantTool::WriteCode,
            description: "Write code based on the prompt.".to_owned(),
        },
    );
    tools.push(
        ToolSpec {
            tool: AssistantTool::Answer,
            description: "Just reply based on the prompt.".to_owned(),
        },
    );
    tools
}

/// The messages of a conversation of two: the assistant's introduction and
/// the user's words.
fn messages_of(system: &str, prompt: &str, name: &str) -> (messages: Vec<ChatMessage>)
    ensures
        Seq::new(messages@.len(), |i: int| messages@[i]@) == conversation(
            system@,
            prompt@,
            name@,
        ),
{
    let mut messages: Vec<ChatMessage> = Vec::new();
    messages.push(
        ChatMessage { role: Role::System, content: system.to_owned(), name: "Q".to_owned() },
    );
    messages.push(
        ChatMessage { role: Role::User, content: prompt.to_owned(), name: name.to_owned() },
    );
    messages
}

/// The request for a plain completion of the user's `prompt`.
fn plain_request(system: &str, prompt: &str) -> (request: ChatRequest)
    ensures
        request@ == plain_request_view(system@, prompt@),
{
    let request = ChatRequest { messages: messages_of(system, prompt, "zheng"), tools: Vec::new() };
    assert(request@.tools =~= Seq::empty());
    request
}

/// The request that lets the language model pick a tool for what the user
/// `name` said.
pub fn tool_completion_request(prompt: &str, name: &str) -> (request: ChatRequest)
    ensures
        request@ == tool_request_view(prompt@, name@),
{
    ChatRequest { messages: messages_of("I can do to help you?", prompt, name), tools: all_tools() }
}

/// The request for an answer to `prompt` in plain conversation.
pub fn answer_request(prompt: &str) -> (request: ChatRequest)
    ensures
        request@ == plain_request_view(answer_prompt(), prompt@),
{
    plain_request("I can help answer anything you'r like to chat.", prompt)
}

/// The request for code that does what `prompt` asks.
pub fn code_request(prompt: &str) -> (request: ChatRequest)
    ensures
        request@ == plain_request_view(code_prompt(), prompt@),
{
    plain_request(
        "I'm an expert on coding, I'll write code for you in markdown format based on your prompt",
        prompt,
    )
}

} // verus!
