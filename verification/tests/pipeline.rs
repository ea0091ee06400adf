use std::path::PathBuf;

use q_bot::event::{
    complete, error, in_audio_upload, in_chat_completion, in_draw_image, in_speech, in_thinking,
    in_transcription, in_write_code, AssistantEvent, ChatInputEvent, ChatInputSkeletonEvent,
    ChatReplyData, ChatReplyEvent, ChatReplySkeletonEvent, DrawImageResult, SignalEvent,
    SpeechResult, WriteCodeResult,
};
use q_bot::pipeline::{
    Action, Choice, Ending, FinishReason, GeneratedImage, Outcome, Run, Step, ToolCall,
};
use q_bot::tools::{answer_request, code_request, tool_completion_request, AssistantTool};

const NOW: &str = "28/10/2026 09:1500";

fn audio(data: &[u8]) -> Outcome {
    Outcome::Upload { name: Some("audio".to_string()), data: data.to_vec() }
}

fn stop(content: Option<&str>) -> Choice {
    Choice {
        finish_reason: FinishReason::Stop,
        content: content.map(|c| c.to_string()),
        tool_calls: vec![],
    }
}

fn tool_call(name: &str, arguments: &str) -> Choice {
    Choice {
        finish_reason: FinishReason::ToolCalls,
        content: None,
        tool_calls: vec![ToolCall { name: name.to_string(), arguments: arguments.to_string() }],
    }
}

fn reply(id: &str, data: ChatReplyData) -> AssistantEvent {
    AssistantEvent::Reply(ChatReplyEvent::new(id, data))
}

/// Feeds the outcomes to a fresh run of turn `t1` on device `dev` and returns
/// the run, everything published, and the last action asked for.
fn drive(outcomes: Vec<Outcome>) -> (Run, Vec<AssistantEvent>, Action) {
    let (mut run, step) = Run::begin_with("dev", "t1");
    let mut trace = step.events;
    let mut action = step.action;
    for (i, outcome) in outcomes.into_iter().enumerate() {
        let fresh = format!("file{}", i);
        let (next, step) = run.advance_with(outcome, NOW, &fresh);
        run = next;
        trace.extend(step.events);
        action = step.action;
    }
    (run, trace, action)
}

fn up_to_thinking() -> Vec<Outcome> {
    vec![audio(b"RIFF"), Outcome::Transcript("hello".to_string())]
}

fn terminal_count(trace: &[AssistantEvent]) -> usize {
    trace
        .iter()
        .filter(|e| {
            matches!(
                e,
                AssistantEvent::Signal(SignalEvent::Complete)
                    | AssistantEvent::Signal(SignalEvent::Error(_))
            )
        })
        .count()
}

#[test]
fn run_begins_with_the_upload_signal() {
    let (run, step) = Run::begin_with("dev", "t1");
    assert_eq!(step, Step { events: vec![in_audio_upload()], action: Action::ReadUpload });
    assert_eq!(run.device_id(), "dev");
    assert_eq!(run.turn_id(), "t1");
    assert!(!run.is_finished());
}

#[test]
fn minted_turn_is_a_hyphenated_identifier() {
    let (run, step) = Run::begin("dev");
    assert_eq!(run.turn_id().len(), 36);
    assert_eq!(step.events, vec![in_audio_upload()]);
    let (other, _) = Run::begin("dev");
    assert_ne!(run.turn_id(), other.turn_id());
}

#[test]
fn happy_path_direct_answer() {
    let mut outcomes = up_to_thinking();
    outcomes.push(Outcome::Choices(vec![stop(Some("hi there"))]));
    outcomes.push(Outcome::Audio(vec![1, 2, 3]));
    outcomes.push(Outcome::Stored);
    let (run, trace, action) = drive(outcomes);
    assert_eq!(
        trace,
        vec![
            in_audio_upload(),
            in_transcription(),
            AssistantEvent::InputSkeleton(ChatInputSkeletonEvent::at("t1", NOW)),
            AssistantEvent::Input(ChatInputEvent::new("t1", "hello")),
            in_thinking(),
            AssistantEvent::ReplySkeleton(ChatReplySkeletonEvent::new("t1")),
            in_speech(),
            reply("t1", ChatReplyData::Speech(SpeechResult::new_text_only("hi there"))),
            reply(
                "t1",
                ChatReplyData::Speech(SpeechResult::new(
                    "hi there",
                    "/assets/audio/dev/file3.mp3"
                ))
            ),
            complete(),
        ]
    );
    assert_eq!(action, Action::Respond(Ending::Completed));
    assert!(run.is_finished());
}

#[test]
fn happy_path_asks_for_each_piece_of_work() {
    let (run, step) = Run::begin_with("dev", "t1");
    assert_eq!(step.action, Action::ReadUpload);
    let (run, step) = run.advance_with(audio(b"RIFF"), NOW, "a");
    assert_eq!(
        step.action,
        Action::Transcribe {
            audio: b"RIFF".to_vec(),
            hint: "If audio language is Chinese, please use simplified chinese".to_string(),
        }
    );
    let (run, step) = run.advance_with(Outcome::Transcript("hello".to_string()), NOW, "b");
    assert_eq!(step.action, Action::Decide(tool_completion_request("hello", "zheng")));
    let (run, step) =
        run.advance_with(Outcome::Choices(vec![stop(Some("hi there"))]), NOW, "c");
    assert_eq!(step.action, Action::Synthesize { text: "hi there".to_string() });
    let (run, step) = run.advance_with(Outcome::Audio(vec![9, 8]), NOW, "clip");
    assert_eq!(
        step.action,
        Action::Store { path: PathBuf::from("/tmp/qbot/audio/dev/clip.mp3"), bytes: vec![9, 8] }
    );
    assert!(step.events.is_empty());
    let (run, step) = run.advance_with(Outcome::Stored, NOW, "d");
    assert_eq!(step.action, Action::Respond(Ending::Completed));
    assert!(run.is_finished());
}

#[test]
fn transcription_failure_ends_the_run_with_one_error() {
    let (run, trace, action) =
        drive(vec![audio(b"RIFF"), Outcome::Failure("network unreachable".to_string())]);
    assert_eq!(
        trace,
        vec![in_audio_upload(), in_transcription(), error("network unreachable")]
    );
    assert_eq!(action, Action::Respond(Ending::Failed));
    assert!(run.is_finished());
    assert!(!trace.iter().any(|e| matches!(e, AssistantEvent::Input(_))));
    assert!(!trace.contains(&complete()));
}

#[test]
fn missing_upload_is_rejected_without_error_event() {
    let (run, trace, action) = drive(vec![Outcome::NoUpload]);
    assert_eq!(trace, vec![in_audio_upload()]);
    assert_eq!(action, Action::Respond(Ending::Rejected));
    assert!(run.is_finished());
}

#[test]
fn misnamed_upload_is_rejected() {
    let wrong = Outcome::Upload { name: Some("video".to_string()), data: vec![1] };
    let (_, trace, action) = drive(vec![wrong]);
    assert_eq!(trace, vec![in_audio_upload()]);
    assert_eq!(action, Action::Respond(Ending::Rejected));
    let unnamed = Outcome::Upload { name: None, data: vec![1] };
    let (_, trace, action) = drive(vec![unnamed]);
    assert_eq!(trace, vec![in_audio_upload()]);
    assert_eq!(action, Action::Respond(Ending::Rejected));
}

#[test]
fn unreadable_upload_fails_the_run() {
    let (_, trace, action) = drive(vec![Outcome::Failure("broken body".to_string())]);
    assert_eq!(trace, vec![in_audio_upload(), error("broken body")]);
    assert_eq!(action, Action::Respond(Ending::Failed));
}

#[test]
fn outcome_other_than_an_upload_fails_a_run_that_waits_for_one() {
    let (_, trace, action) = drive(vec![Outcome::Transcript("hello".to_string())]);
    assert_eq!(trace, vec![in_audio_upload(), error("unexpected outcome for this stage")]);
    assert_eq!(action, Action::Respond(Ending::Failed));
}

#[test]
fn no_choice_is_a_failure() {
    let mut outcomes = up_to_thinking();
    outcomes.push(Outcome::Choices(vec![]));
    let (_, trace, action) = drive(outcomes);
    assert_eq!(trace.last(), Some(&error("expect at least one choice")));
    assert_eq!(action, Action::Respond(Ending::Failed));
    assert_eq!(terminal_count(&trace), 1);
}

#[test]
fn stop_without_content_is_a_failure() {
    let mut outcomes = up_to_thinking();
    outcomes.push(Outcome::Choices(vec![stop(None)]));
    let (_, trace, _) = drive(outcomes);
    assert_eq!(trace.last(), Some(&error("expect content but no content available")));
}

#[test]
fn only_the_first_choice_decides() {
    let mut outcomes = up_to_thinking();
    outcomes.push(Outcome::Choices(vec![stop(Some("first")), stop(Some("second"))]));
    let (_, _, action) = drive(outcomes);
    assert_eq!(action, Action::Synthesize { text: "first".to_string() });
}

#[test]
fn tool_call_without_a_call_is_a_failure() {
    let mut outcomes = up_to_thinking();
    let mut choice = tool_call("answer", "{}");
    choice.tool_calls.clear();
    outcomes.push(Outcome::Choices(vec![choice]));
    let (_, trace, _) = drive(outcomes);
    assert_eq!(trace.last(), Some(&error("expect at least one tool call")));
}

#[test]
fn other_finish_reason_completes_at_once() {
    let mut outcomes = up_to_thinking();
    let mut choice = stop(Some("cut"));
    choice.finish_reason = FinishReason::Other;
    outcomes.push(Outcome::Choices(vec![choice]));
    let (_, trace, action) = drive(outcomes);
    assert_eq!(trace.last(), Some(&complete()));
    assert_eq!(action, Action::Respond(Ending::Completed));
    assert_eq!(terminal_count(&trace), 1);
}

#[test]
fn tool_call_asks_for_its_arguments_to_be_decoded() {
    let mut outcomes = up_to_thinking();
    outcomes.push(Outcome::Choices(vec![tool_call("write_code", r#"{"prompt":"sort"}"#)]));
    let (_, trace, action) = drive(outcomes);
    assert_eq!(trace.len(), 6);
    assert_eq!(
        action,
        Action::DecodeArguments {
            tool: AssistantTool::WriteCode,
            json: r#"{"prompt":"sort"}"#.to_string(),
        }
    );
}

#[test]
fn only_the_first_tool_call_counts() {
    let mut outcomes = up_to_thinking();
    let mut choice = tool_call("draw_image", "{}");
    choice.tool_calls.push(ToolCall { name: "write_code".to_string(), arguments: "x".to_string() });
    outcomes.push(Outcome::Choices(vec![choice]));
    let (_, _, action) = drive(outcomes);
    assert_eq!(
        action,
        Action::DecodeArguments { tool: AssistantTool::DrawImage, json: "{}".to_string() }
    );
}

#[test]
fn unknown_tool_falls_back_to_answer() {
    let mut named_foo = up_to_thinking();
    named_foo.push(Outcome::Choices(vec![tool_call("foo", r#"{"prompt":"why"}"#)]));
    let (_, trace_foo, action_foo) = drive(named_foo);
    let mut named_answer = up_to_thinking();
    named_answer.push(Outcome::Choices(vec![tool_call("answer", r#"{"prompt":"why"}"#)]));
    let (_, trace_answer, action_answer) = drive(named_answer);
    assert_eq!(
        action_foo,
        Action::DecodeArguments {
            tool: AssistantTool::Answer,
            json: r#"{"prompt":"why"}"#.to_string(),
        }
    );
    assert_eq!(action_foo, action_answer);
    assert_eq!(trace_foo, trace_answer);
}

#[test]
fn answer_tool_runs_like_a_direct_answer() {
    let mut outcomes = up_to_thinking();
    outcomes.push(Outcome::Choices(vec![tool_call("foo", r#"{"prompt":"why"}"#)]));
    outcomes.push(Outcome::Arguments("why".to_string()));
    let (_, trace, action) = drive(outcomes.clone());
    assert_eq!(trace.last(), Some(&in_chat_completion()));
    assert_eq!(action, Action::Chat(answer_request("why")));
    outcomes.push(Outcome::Choices(vec![stop(Some("skip")), stop(Some("because"))]));
    outcomes.push(Outcome::Audio(vec![7]));
    outcomes.push(Outcome::Stored);
    let (run, trace, action) = drive(outcomes);
    assert_eq!(
        trace[6..].to_vec(),
        vec![
            in_chat_completion(),
            in_speech(),
            reply("t1", ChatReplyData::Speech(SpeechResult::new_text_only("because"))),
            reply(
                "t1",
                ChatReplyData::Speech(SpeechResult::new("because", "/assets/audio/dev/file5.mp3"))
            ),
            complete(),
        ]
    );
    assert_eq!(action, Action::Respond(Ending::Completed));
    assert!(run.is_finished());
}

#[test]
fn undecodable_arguments_fail_the_run() {
    let mut outcomes = up_to_thinking();
    outcomes.push(Outcome::Choices(vec![tool_call("write_code", "not json")]));
    outcomes.push(Outcome::Failure("expected value at line 1 column 1".to_string()));
    let (_, trace, action) = drive(outcomes);
    assert_eq!(trace.last(), Some(&error("expected value at line 1 column 1")));
    assert_eq!(action, Action::Respond(Ending::Failed));
    assert_eq!(terminal_count(&trace), 1);
}

#[test]
fn write_code_renders_markdown() {
    let mut outcomes = up_to_thinking();
    outcomes.push(Outcome::Choices(vec![tool_call("write_code", r#"{"prompt":"sort"}"#)]));
    outcomes.push(Outcome::Arguments("sort".to_string()));
    let (_, trace, action) = drive(outcomes.clone());
    assert_eq!(trace.last(), Some(&in_write_code()));
    assert_eq!(action, Action::Chat(code_request("sort")));
    outcomes.push(Outcome::Choices(vec![stop(Some("# Sorting\n\nUse *quicksort*."))]));
    let (run, trace, action) = drive(outcomes);
    assert_eq!(
        trace[7..].to_vec(),
        vec![
            reply(
                "t1",
                ChatReplyData::Markdown(WriteCodeResult::new(
                    "<h1>Sorting</h1>\n<p>Use <em>quicksort</em>.</p>\n"
                ))
            ),
            complete(),
        ]
    );
    assert_eq!(action, Action::Respond(Ending::Completed));
    assert!(run.is_finished());
}

#[test]
fn written_code_is_highlighted_and_raw_markup_is_dropped() {
    let mut outcomes = up_to_thinking();
    outcomes.push(Outcome::Choices(vec![tool_call("write_code", "{}")]));
    outcomes.push(Outcome::Arguments("x".to_string()));
    let markdown = "```rust\nfn main() {}\n```\n\n<script>alert(1)</script>\n";
    outcomes.push(Outcome::Choices(vec![stop(Some(markdown))]));
    let (_, trace, _) = drive(outcomes);
    let html = match &trace[7] {
        AssistantEvent::Reply(reply) => match &reply.data {
            ChatReplyData::Markdown(code) => code.content.clone(),
            other => panic!("unexpected reply {:?}", other),
        },
        other => panic!("unexpected event {:?}", other),
    };
    assert!(html.starts_with("<pre style=\"background-color:#002b36;\">"));
    assert!(html.contains("<span style=\"color:"));
    assert!(html.contains("main"));
    assert!(!html.contains("<script>"));
}

#[test]
fn code_markup_given_to_a_waiting_run_completes_it() {
    let mut outcomes = up_to_thinking();
    outcomes.push(Outcome::Choices(vec![tool_call("write_code", "{}")]));
    outcomes.push(Outcome::Arguments("x".to_string()));
    let (run, _, _) = drive(outcomes);
    let (run, step) = run.code_rendered("<p>done</p>");
    assert_eq!(
        step,
        Step {
            events: vec![
                reply("t1", ChatReplyData::Markdown(WriteCodeResult::new("<p>done</p>"))),
                complete(),
            ],
            action: Action::Respond(Ending::Completed),
        }
    );
    assert!(run.is_finished());
}

#[test]
fn code_markup_given_elsewhere_is_misplaced() {
    let (run, _, _) = drive(up_to_thinking());
    let (run, step) = run.code_rendered("<p>done</p>");
    assert_eq!(
        step,
        Step {
            events: vec![error("unexpected outcome for this stage")],
            action: Action::Respond(Ending::Failed),
        }
    );
    let (_, step) = run.code_rendered("<p>again</p>");
    assert_eq!(step, Step { events: vec![], action: Action::Respond(Ending::Failed) });
    let (fresh, _) = Run::begin_with("dev", "t1");
    let (_, step) = fresh.code_rendered("<p>early</p>");
    assert_eq!(
        step,
        Step {
            events: vec![error("unexpected outcome for this stage")],
            action: Action::Respond(Ending::Failed),
        }
    );
}

fn up_to_image() -> Vec<Outcome> {
    let mut outcomes = up_to_thinking();
    outcomes.push(Outcome::Choices(vec![tool_call("draw_image", r#"{"prompt":"a cat"}"#)]));
    outcomes.push(Outcome::Arguments("a cat".to_string()));
    outcomes
}

#[test]
fn draw_image_decodes_and_stores_the_image() {
    let (_, trace, action) = drive(up_to_image());
    assert_eq!(trace.last(), Some(&in_draw_image()));
    assert_eq!(action, Action::DrawImage { prompt: "a cat".to_string() });
    let mut outcomes = up_to_image();
    outcomes.push(Outcome::Images(vec![
        GeneratedImage { b64_json: Some("AAAA".to_string()), revised_prompt: "first".to_string() },
        GeneratedImage {
            b64_json: Some("aGVsbG8=".to_string()),
            revised_prompt: "a fluffy cat".to_string(),
        },
    ]));
    let (_, trace, action) = drive(outcomes.clone());
    assert_eq!(trace.len(), 7);
    assert_eq!(
        action,
        Action::Store {
            path: PathBuf::from("/tmp/qbot/image/dev/file4.png"),
            bytes: b"hello".to_vec(),
        }
    );
    outcomes.push(Outcome::Stored);
    let (run, trace, action) = drive(outcomes);
    assert_eq!(
        trace[7..].to_vec(),
        vec![
            reply(
                "t1",
                ChatReplyData::Image(DrawImageResult::new(
                    "/assets/image/dev/file4.png",
                    "a fluffy cat"
                ))
            ),
            complete(),
        ]
    );
    assert_eq!(action, Action::Respond(Ending::Completed));
    assert!(run.is_finished());
}

#[test]
fn image_failures() {
    let mut none = up_to_image();
    none.push(Outcome::Images(vec![]));
    let (_, trace, _) = drive(none);
    assert_eq!(trace.last(), Some(&error("expect at least one data")));

    let mut no_data = up_to_image();
    no_data.push(Outcome::Images(vec![GeneratedImage {
        b64_json: None,
        revised_prompt: "p".to_string(),
    }]));
    let (_, trace, _) = drive(no_data);
    assert_eq!(trace.last(), Some(&error("expect image data in base64")));

    let mut bad = up_to_image();
    bad.push(Outcome::Images(vec![GeneratedImage {
        b64_json: Some("not base64!".to_string()),
        revised_prompt: "p".to_string(),
    }]));
    let (run, trace, action) = drive(bad);
    assert_eq!(trace.last(), Some(&error("image data is not valid base64")));
    assert_eq!(action, Action::Respond(Ending::Failed));
    assert!(run.is_finished());
}

#[test]
fn decoded_image_given_to_a_waiting_run_is_stored() {
    let (run, _, _) = drive(up_to_image());
    let (run, step) = run.image_decoded(Some(vec![1, 2]), "a cat", "pic");
    assert_eq!(
        step,
        Step {
            events: vec![],
            action: Action::Store {
                path: PathBuf::from("/tmp/qbot/image/dev/pic.png"),
                bytes: vec![1, 2],
            },
        }
    );
    let (_, step) = run.advance_with(Outcome::Stored, NOW, "x");
    assert_eq!(
        step.events,
        vec![
            reply(
                "t1",
                ChatReplyData::Image(DrawImageResult::new("/assets/image/dev/pic.png", "a cat"))
            ),
            complete(),
        ]
    );
    let (run, _, _) = drive(up_to_image());
    let (_, step) = run.image_decoded(None, "a cat", "pic");
    assert_eq!(step.events, vec![error("image data is not valid base64")]);
    let (run, _, _) = drive(up_to_thinking());
    let (_, step) = run.image_decoded(Some(vec![1]), "a cat", "pic");
    assert_eq!(step.events, vec![error("unexpected outcome for this stage")]);
}

#[test]
fn storage_failure_ends_the_run_with_one_error() {
    let mut outcomes = up_to_thinking();
    outcomes.push(Outcome::Choices(vec![stop(Some("hi"))]));
    outcomes.push(Outcome::Audio(vec![1]));
    outcomes.push(Outcome::Failure("disk full".to_string()));
    let (_, trace, action) = drive(outcomes);
    assert_eq!(trace.last(), Some(&error("disk full")));
    assert_eq!(action, Action::Respond(Ending::Failed));
    assert_eq!(terminal_count(&trace), 1);
}

#[test]
fn unexpected_outcome_fails_the_run() {
    let (_, trace, action) = drive(vec![audio(b"RIFF"), Outcome::Stored]);
    assert_eq!(
        trace,
        vec![in_audio_upload(), in_transcription(), error("unexpected outcome for this stage")]
    );
    assert_eq!(action, Action::Respond(Ending::Failed));
}

#[test]
fn nothing_is_published_after_the_terminal_signal() {
    let mut outcomes = up_to_thinking();
    outcomes.push(Outcome::Choices(vec![stop(Some("hi"))]));
    outcomes.push(Outcome::Audio(vec![1]));
    outcomes.push(Outcome::Stored);
    let (run, trace, _) = drive(outcomes);
    assert_eq!(terminal_count(&trace), 1);
    assert_eq!(trace.last(), Some(&complete()));
    let (run, step) = run.advance_with(Outcome::Transcript("again".to_string()), NOW, "f");
    assert_eq!(step, Step { events: vec![], action: Action::Respond(Ending::Completed) });
    let (run, step) = run.advance_with(Outcome::Failure("late".to_string()), NOW, "f");
    assert_eq!(step, Step { events: vec![], action: Action::Respond(Ending::Completed) });
    assert!(run.is_finished());

    let (failed, _, _) = drive(vec![audio(b"x"), Outcome::Failure("boom".to_string())]);
    let (_, step) = failed.advance_with(Outcome::Stored, NOW, "f");
    assert_eq!(step, Step { events: vec![], action: Action::Respond(Ending::Failed) });
}

#[test]
fn skeletons_precede_their_content() {
    let mut outcomes = up_to_thinking();
    outcomes.push(Outcome::Choices(vec![stop(Some("hi"))]));
    outcomes.push(Outcome::Audio(vec![1]));
    outcomes.push(Outcome::Stored);
    let (_, trace, _) = drive(outcomes);
    let at = |wanted: fn(&AssistantEvent) -> bool| trace.iter().position(wanted).unwrap();
    let input_skeleton = at(|e| matches!(e, AssistantEvent::InputSkeleton(_)));
    let input = at(|e| matches!(e, AssistantEvent::Input(_)));
    let reply_skeleton = at(|e| matches!(e, AssistantEvent::ReplySkeleton(_)));
    let first_reply = at(|e| matches!(e, AssistantEvent::Reply(_)));
    assert!(input_skeleton < input);
    assert!(reply_skeleton < first_reply);
    for event in &trace {
        match event {
            AssistantEvent::Input(e) => assert_eq!(e.id, "t1"),
            AssistantEvent::InputSkeleton(e) => assert_eq!(e.id, "t1"),
            AssistantEvent::Reply(e) => assert_eq!(e.id, "t1"),
            AssistantEvent::ReplySkeleton(e) => assert_eq!(e.id, "t1"),
            AssistantEvent::Signal(_) => {}
        }
    }
}

#[test]
fn every_run_is_over_after_seven_outcomes() {
    let long = vec![
        audio(b"RIFF"),
        Outcome::Transcript("hello".to_string()),
        Outcome::Choices(vec![tool_call("answer", "{}")]),
        Outcome::Arguments("why".to_string()),
        Outcome::Choices(vec![stop(Some("because"))]),
        Outcome::Audio(vec![1]),
        Outcome::Stored,
    ];
    for n in 0..long.len() {
        let (run, _, _) = drive(long[..n].to_vec());
        assert!(!run.is_finished());
    }
    let (run, trace, _) = drive(long);
    assert!(run.is_finished());
    assert_eq!(terminal_count(&trace), 1);
}

#[test]
fn advance_takes_time_and_name_from_outside() {
    let (run, _) = Run::begin_with("dev", "t1");
    let (run, _) = run.advance(audio(b"RIFF"));
    let (run, step) = run.advance(Outcome::Transcript("hello".to_string()));
    assert_eq!(step.events.len(), 4);
    assert_eq!(step.events[1], AssistantEvent::Input(ChatInputEvent::new("t1", "hello")));
    let (run, _) = run.advance(Outcome::Choices(vec![stop(Some("hi"))]));
    let (run, step) = run.advance(Outcome::Audio(vec![5]));
    let path = match step.action {
        Action::Store { path, bytes } => {
            assert_eq!(bytes, vec![5]);
            path
        }
        other => panic!("unexpected action {:?}", other),
    };
    let name = path.file_stem().unwrap().to_str().unwrap().to_string();
    assert_eq!(name.len(), 36);
    assert_eq!(path, PathBuf::from(format!("/tmp/qbot/audio/dev/{}.mp3", name)));
    let (_, step) = run.advance(Outcome::Stored);
    assert_eq!(
        step.events[0],
        reply(
            "t1",
            ChatReplyData::Speech(SpeechResult::new(
                "hi",
                &format!("/assets/audio/dev/{}.mp3", name)
            ))
        )
    );
}
