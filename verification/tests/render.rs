use q_bot::event::{
    complete, error, in_audio_upload, in_draw_image, AssistantEvent, ChatInputEvent,
    ChatInputSkeletonEvent, ChatReplyData, ChatReplyEvent, ChatReplySkeletonEvent,
    DrawImageResult, SignalEvent, SpeechResult, WriteCodeResult, AssistantStep,
};
use q_bot::render::escape_html;

#[test]
fn test_error_render() {
    let event: String = error("error").into();
    assert_eq!(
        event,
        r#"\n    <p class=\"text-red-600\">  Error error </p>\n  "#
    );
}

#[test]
fn error_message_is_escaped() {
    let event: String = error("a<b> & \"c\" 'd'").into();
    assert_eq!(
        event,
        r#"\n    <p class=\"text-red-600\">  Error a&lt;b&gt; &amp; &quot;c&quot; &#x27;d&#x27; </p>\n  "#
    );
}

#[test]
fn escape_replaces_the_five_characters() {
    assert_eq!(escape_html("&<>\"'"), "&amp;&lt;&gt;&quot;&#x27;");
    assert_eq!(escape_html(""), "");
    assert_eq!(escape_html("plain text, 你好"), "plain text, 你好");
    assert_eq!(escape_html("1 < 2"), "1 &lt; 2");
}

#[test]
fn escaped_text_has_no_markup_characters() {
    let out = escape_html("<script>alert('x' + \"y\")</script>");
    assert!(!out.contains('<'));
    assert!(!out.contains('>'));
    assert!(!out.contains('"'));
    assert!(!out.contains('\''));
}

#[test]
fn processing_signal_names_its_step() {
    assert_eq!(
        in_audio_upload().render(),
        r#"\n    <p class=\"text-gray-600\">  Processing upload_audio </p>\n  "#
    );
    assert_eq!(
        in_draw_image().render(),
        r#"\n    <p class=\"text-gray-600\">  Processing draw_image </p>\n  "#
    );
}

#[test]
fn finish_and_complete_signals() {
    assert_eq!(
        SignalEvent::Finish(AssistantStep::Speech).render(),
        r#"\n    <p class=\"text-green-600\">  Finish speech </p>\n  "#
    );
    assert_eq!(
        complete().render(),
        r#"\n    <p class=\"text-green-600\">  Complete </p>\n  "#
    );
}

#[test]
fn speech_block_without_audio() {
    assert_eq!(
        SpeechResult::new_text_only("hi <there>").rende(),
        r#"<p class=\"speech\">hi &lt;there&gt;</p>"#
    );
}

#[test]
fn speech_block_with_audio() {
    assert_eq!(
        SpeechResult::new("hi", "/assets/audio/d/n.mp3").rende(),
        r#"<p class=\"speech\">hi</p><audio controls autoplay src=\"/assets/audio/d/n.mp3\"></audio>"#
    );
}

#[test]
fn image_block() {
    assert_eq!(
        DrawImageResult::new("/assets/image/d/n.png", "a \"cat\"").render(),
        r#"<figure><img src=\"/assets/image/d/n.png\"><figcaption>a &quot;cat&quot;</figcaption></figure>"#
    );
}

#[test]
fn code_block_keeps_its_markup() {
    assert_eq!(
        WriteCodeResult::new("<pre>x</pre>").render(),
        r#"<div class=\"markdown\"><pre>x</pre></div>"#
    );
}

#[test]
fn input_entry() {
    let event = AssistantEvent::Input(ChatInputEvent::new("t1", "hello & bye"));
    assert_eq!(
        event.render(),
        r#"<li id=\"input-t1\" class=\"input\">hello &amp; bye</li>"#
    );
}

#[test]
fn input_skeleton_entry() {
    let event = AssistantEvent::InputSkeleton(ChatInputSkeletonEvent::at("t1", "01/02/2024 10:1112"));
    assert_eq!(
        event.render(),
        r#"<li id=\"input-skeleton-t1\" class=\"input-skeleton\"><img class=\"avatar\" src=\"https://i.pravatar.cc/300\"><span class=\"name\">userName</span><time>01/02/2024 10:1112</time></li>"#
    );
}

#[test]
fn reply_skeleton_entry() {
    let event = AssistantEvent::ReplySkeleton(ChatReplySkeletonEvent::new("t1"));
    assert_eq!(
        event.render(),
        r#"<li id=\"reply-skeleton-t1\" class=\"reply-skeleton\"><img class=\"avatar\" src=\"/public/images/q-bot.png\"><span class=\"name\">Q</span><time></time></li>"#
    );
}

#[test]
fn reply_entry_wraps_its_block() {
    let data = ChatReplyData::Speech(SpeechResult::new_text_only("ok"));
    let event = AssistantEvent::Reply(ChatReplyEvent::new("t1", data));
    let body: String = event.into();
    assert_eq!(
        body,
        r#"<li id=\"reply-t1\" class=\"reply\"><p class=\"speech\">ok</p></li>"#
    );
}

#[test]
fn skeleton_stamped_by_the_clock_keeps_its_other_fields() {
    let skeleton = ChatInputSkeletonEvent::new("t9");
    assert_eq!(skeleton.id, "t9");
    assert_eq!(skeleton.avatar, "https://i.pravatar.cc/300");
    assert_eq!(skeleton.name, "userName");
    assert!(!skeleton.datetime.is_empty());
}
