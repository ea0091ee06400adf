use std::path::PathBuf;

use q_bot::bus::Received;
use q_bot::config::{needs_device_id, AppContext, Args, Rejection, DEFAULT_PORT, DEVICE_COOKIE};
use q_bot::event::{
    complete, error, in_chat_completion, in_speech, in_thinking, in_transcription, in_write_code,
    AssistantEvent, AssistantStep, ChatInputEvent, ChatInputSkeletonEvent, ChatReplyData,
    ChatReplyEvent, ChatReplySkeletonEvent, DrawImageResult, SignalEvent, SpeechResult,
};
use q_bot::paths::{audio_path, audio_url, image_path, image_url};
use q_bot::text::{joined, same_text};
use q_bot::tools::{
    all_tools, answer_request, code_request, tool_completion_request, AssistantTool, ChatMessage,
    ChatRequest, Role, ToolSpec,
};
use q_bot::wire::{
    forward, wire_id, wire_label, wire_record, Forward, WireRecord, KEEP_ALIVE_SECONDS,
    KEEP_ALIVE_TEXT,
};

#[test]
fn media_paths() {
    assert_eq!(audio_path("dev", "clip"), PathBuf::from("/tmp/qbot/audio/dev/clip.mp3"));
    assert_eq!(image_path("dev", "pic"), PathBuf::from("/tmp/qbot/image/dev/pic.png"));
    assert_eq!(audio_path("", "clip"), PathBuf::from("/tmp/qbot/audio/clip.mp3"));
}

#[test]
fn media_path_of_an_absolute_part_is_that_part() {
    assert_eq!(audio_path("/etc", "clip"), PathBuf::from("/etc/clip.mp3"));
    assert_eq!(image_path("dev", "/pic"), PathBuf::from("/pic.png"));
}

#[test]
fn media_urls() {
    assert_eq!(audio_url("dev", "clip"), "/assets/audio/dev/clip.mp3");
    assert_eq!(image_url("dev", "pic"), "/assets/image/dev/pic.png");
    assert_eq!(audio_url("", ""), "/assets/audio//.mp3");
    assert_eq!(image_url("", ""), "/assets/image//.png");
}

#[test]
fn text_helpers() {
    assert!(same_text("audio", "audio"));
    assert!(!same_text("audio", "audio "));
    assert!(!same_text("", "a"));
    assert_eq!(joined("ab", "cd"), "abcd");
    assert_eq!(joined("", ""), "");
}

#[test]
fn step_labels() {
    assert_eq!(AssistantStep::UploadAudio.label(), "upload_audio");
    assert_eq!(AssistantStep::Transcription.label(), "transcription");
    assert_eq!(AssistantStep::Thinking.label(), "thinking");
    assert_eq!(AssistantStep::ChatCompletion.label(), "chat_completion");
    assert_eq!(AssistantStep::Speech.label(), "speech");
    assert_eq!(AssistantStep::DrawImage.label(), "draw_image");
    assert_eq!(AssistantStep::WriteCode.label(), "write_code");
}

#[test]
fn signal_constructors() {
    assert_eq!(
        in_transcription(),
        AssistantEvent::Signal(SignalEvent::Processing(AssistantStep::Transcription))
    );
    assert_eq!(
        in_thinking(),
        AssistantEvent::Signal(SignalEvent::Processing(AssistantStep::Thinking))
    );
    assert_eq!(
        in_chat_completion(),
        AssistantEvent::Signal(SignalEvent::Processing(AssistantStep::ChatCompletion))
    );
    assert_eq!(
        in_speech(),
        AssistantEvent::Signal(SignalEvent::Processing(AssistantStep::Speech))
    );
    assert_eq!(
        in_write_code(),
        AssistantEvent::Signal(SignalEvent::Processing(AssistantStep::WriteCode))
    );
    assert_eq!(complete(), AssistantEvent::Signal(SignalEvent::Complete));
    assert_eq!(error("x"), AssistantEvent::Signal(SignalEvent::Error("x".to_string())));
}

#[test]
fn content_constructors() {
    let input = ChatInputEvent::new("t", "hello");
    assert_eq!(input.id, "t");
    assert_eq!(input.content, "hello");
    let speech = SpeechResult::new("hi", "u");
    assert_eq!(speech.text, "hi");
    assert_eq!(speech.url, "u");
    assert_eq!(SpeechResult::new_text_only("hi").url, "");
    let image = DrawImageResult::new("the url", "the prompt");
    assert_eq!(image.url, "the url");
    assert_eq!(image.prompt, "the prompt");
    let skeleton = ChatReplySkeletonEvent::new("t");
    assert_eq!(skeleton.id, "t");
    assert_eq!(skeleton.avatar, "/public/images/q-bot.png");
    assert_eq!(skeleton.name, "Q");
    let reply = ChatReplyEvent::new("t", ChatReplyData::Image(image.clone()));
    assert_eq!(reply.id, "t");
    assert_eq!(reply.data, ChatReplyData::Image(image));
}

#[test]
fn tool_names() {
    assert_eq!(AssistantTool::DrawImage.name(), "draw_image");
    assert_eq!(AssistantTool::WriteCode.name(), "write_code");
    assert_eq!(AssistantTool::Answer.name(), "answer");
    assert_eq!(AssistantTool::parse("draw_image"), Some(AssistantTool::DrawImage));
    assert_eq!(AssistantTool::parse("write_code"), Some(AssistantTool::WriteCode));
    assert_eq!(AssistantTool::parse("answer"), Some(AssistantTool::Answer));
    assert_eq!(AssistantTool::parse("Answer"), None);
    assert_eq!(AssistantTool::parse("foo"), None);
    assert_eq!(AssistantTool::parse(""), None);
}

#[test]
fn unknown_tool_name_resolves_to_answer() {
    assert_eq!(AssistantTool::resolve("foo"), AssistantTool::Answer);
    assert_eq!(AssistantTool::resolve(""), AssistantTool::Answer);
    assert_eq!(AssistantTool::resolve("answer"), AssistantTool::Answer);
    assert_eq!(AssistantTool::resolve("write_code"), AssistantTool::WriteCode);
    assert_eq!(AssistantTool::resolve("draw_image"), AssistantTool::DrawImage);
}

fn message(role: Role, content: &str, name: &str) -> ChatMessage {
    ChatMessage { role, content: content.to_string(), name: name.to_string() }
}

#[test]
fn requests_to_the_language_model() {
    let tools = vec![
        ToolSpec {
            tool: AssistantTool::WriteCode,
            description: "Write code based on the prompt.".to_string(),
        },
        ToolSpec {
            tool: AssistantTool::Answer,
            description: "Just reply based on the prompt.".to_string(),
        },
    ];
    assert_eq!(all_tools(), tools);
    assert_eq!(
        tool_completion_request("hello", "zheng"),
        ChatRequest {
            messages: vec![
                message(Role::System, "I can do to help you?", "Q"),
                message(Role::User, "hello", "zheng"),
            ],
            tools,
        }
    );
    assert_eq!(
        answer_request("why"),
        ChatRequest {
            messages: vec![
                message(Role::System, "I can help answer anything you'r like to chat.", "Q"),
                message(Role::User, "why", "zheng"),
            ],
            tools: vec![],
        }
    );
    assert_eq!(
        code_request("sort"),
        ChatRequest {
            messages: vec![
                message(
                    Role::System,
                    "I'm an expert on coding, I'll write code for you in markdown format based on your prompt",
                    "Q"
                ),
                message(Role::User, "sort", "zheng"),
            ],
            tools: vec![],
        }
    );
}

#[test]
fn wire_labels_and_ids() {
    let signal = complete();
    let input = AssistantEvent::Input(ChatInputEvent::new("t1", "hello"));
    let input_skeleton = AssistantEvent::InputSkeleton(ChatInputSkeletonEvent::at("t2", "now"));
    let reply = AssistantEvent::Reply(ChatReplyEvent::new(
        "t3",
        ChatReplyData::Speech(SpeechResult::new_text_only("hi")),
    ));
    let reply_skeleton = AssistantEvent::ReplySkeleton(ChatReplySkeletonEvent::new("t4"));
    assert_eq!(wire_label(&signal), "signal");
    assert_eq!(wire_label(&error("x")), "signal");
    assert_eq!(wire_label(&input), "input");
    assert_eq!(wire_label(&input_skeleton), "input_skeleton");
    assert_eq!(wire_label(&reply), "reply");
    assert_eq!(wire_label(&reply_skeleton), "reply_skeleton");
    assert_eq!(wire_id(&signal), "");
    assert_eq!(wire_id(&input), "t1");
    assert_eq!(wire_id(&input_skeleton), "t2");
    assert_eq!(wire_id(&reply), "t3");
    assert_eq!(wire_id(&reply_skeleton), "t4");
}

#[test]
fn wire_record_of_an_event() {
    assert_eq!(
        wire_record(&error("error")),
        WireRecord {
            event: "signal".to_string(),
            id: "".to_string(),
            data: r#"\n    <p class=\"text-red-600\">  Error error </p>\n  "#.to_string(),
        }
    );
    let input = AssistantEvent::Input(ChatInputEvent::new("t1", "hello"));
    assert_eq!(
        wire_record(&input),
        WireRecord {
            event: "input".to_string(),
            id: "t1".to_string(),
            data: r#"<li id=\"input-t1\" class=\"input\">hello</li>"#.to_string(),
        }
    );
}

#[test]
fn stream_tolerates_lag() {
    assert_eq!(forward(&Received::Lagged(5)), Forward::Skip);
    assert_eq!(forward(&Received::Empty), Forward::Wait);
    assert_eq!(forward(&Received::Closed), Forward::End);
    assert_eq!(forward(&Received::Event(complete())), Forward::Send(wire_record(&complete())));
}

#[test]
fn keep_alive_marker() {
    assert_eq!(KEEP_ALIVE_SECONDS, 1);
    assert_eq!(KEEP_ALIVE_TEXT, "keep-alive-text");
}

#[test]
fn default_settings() {
    let args = Args::default();
    assert_eq!(args.port, 8080);
    assert_eq!(args.port, DEFAULT_PORT);
    assert_eq!(args.cert_path, ".certs");
}

#[test]
fn context_needs_a_device() {
    assert_eq!(DEVICE_COOKIE, "device_id");
    assert_eq!(
        AppContext::from_cookie(Some("abc")),
        Ok(AppContext { device_id: "abc".to_string() })
    );
    assert_eq!(AppContext::from_cookie(None), Err(Rejection::MissingDevice));
    assert_eq!(AppContext::from_cookie(Some("")), Err(Rejection::MissingDevice));
    assert_eq!(Rejection::MissingDevice.status(), 400);
    assert_eq!(Rejection::MissingDevice.message(), "Cookie `device_id` is missing");
    assert!(needs_device_id(None));
    assert!(!needs_device_id(Some("abc")));
    assert!(!needs_device_id(Some("")));
}

#[test]
fn step_is_found_by_its_label() {
    let steps = [
        AssistantStep::UploadAudio,
        AssistantStep::Transcription,
        AssistantStep::Thinking,
        AssistantStep::ChatCompletion,
        AssistantStep::Speech,
        AssistantStep::DrawImage,
        AssistantStep::WriteCode,
    ];
    for step in steps {
        assert_eq!(AssistantStep::parse(step.label()), Some(step));
    }
    assert_eq!(AssistantStep::parse("dra_image"), None);
    assert_eq!(AssistantStep::parse(""), None);
    assert_eq!(AssistantStep::parse("Speech"), None);
}

#[test]
fn events_are_made_of_their_parts() {
    let signal: AssistantEvent = SignalEvent::Complete.into();
    assert_eq!(signal, complete());
    let input: AssistantEvent = ChatInputEvent::new("t", "hello").into();
    assert_eq!(input, AssistantEvent::Input(ChatInputEvent::new("t", "hello")));
    let skeleton: AssistantEvent = ChatInputSkeletonEvent::at("t", "now").into();
    assert_eq!(skeleton, AssistantEvent::InputSkeleton(ChatInputSkeletonEvent::at("t", "now")));
    let placeholder: AssistantEvent = ChatReplySkeletonEvent::new("t").into();
    assert_eq!(placeholder, AssistantEvent::ReplySkeleton(ChatReplySkeletonEvent::new("t")));
    let spoken: ChatReplyData = SpeechResult::new("hi", "u").into();
    assert_eq!(spoken, ChatReplyData::Speech(SpeechResult::new("hi", "u")));
    let drawn: ChatReplyData = DrawImageResult::new("u", "p").into();
    assert_eq!(drawn, ChatReplyData::Image(DrawImageResult::new("u", "p")));
    let written: ChatReplyData = q_bot::event::WriteCodeResult::new("<p></p>").into();
    assert_eq!(
        written,
        ChatReplyData::Markdown(q_bot::event::WriteCodeResult::new("<p></p>"))
    );
    let reply: AssistantEvent = ChatReplyEvent::new("t", spoken.clone()).into();
    assert_eq!(reply, AssistantEvent::Reply(ChatReplyEvent::new("t", spoken)));
}
