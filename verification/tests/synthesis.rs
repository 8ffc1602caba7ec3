use http::StatusCode;
use poz::{
    build_failure_embed, describe_status, handle_event, status_description, Attachment,
    AudioFormat, Embed, Event, Message, PendingSynthesis, Reply, Step, SynthesisFailure,
    SynthesisOutcome, SynthesisRequest, AUDIO_ATTACHMENT_ID, ERROR_COLOR, SYNTHESIS_TIMEOUT_MS,
};
use twilight_util::builder::embed::EmbedBuilder;

fn pending(channel_id: u64) -> PendingSynthesis {
    PendingSynthesis { channel_id, request: SynthesisRequest::sample() }
}

fn failed(status: Option<u16>) -> SynthesisOutcome {
    SynthesisOutcome::Failed(SynthesisFailure { status })
}

#[test]
fn test_command_asks_for_the_sample() {
    let event = Event::MessageCreate(Message {
        content: "!test".to_owned(),
        channel_id: 42,
        guild_id: None,
    });
    let expected = PendingSynthesis {
        channel_id: 42,
        request: SynthesisRequest {
            text: "テスト".to_owned(),
            format: AudioFormat::Ogg,
            timeout_ms: 1000,
        },
    };
    assert_eq!(handle_event(&event), Ok(Step::Synthesize(expected)));
    assert_eq!(SYNTHESIS_TIMEOUT_MS, 1000);
}

#[test]
fn audio_is_attached_as_test_ogg() {
    let bytes = vec![0x4f, 0x67, 0x67, 0x53, 0x00, 0xff];
    let reply = pending(42).resolve(SynthesisOutcome::Audio(bytes.clone()));
    assert_eq!(
        reply,
        Reply {
            channel_id: 42,
            content: Some("test!".to_owned()),
            attachments: vec![Attachment {
                description: None,
                file: bytes,
                filename: "test.ogg".to_owned(),
                id: 1,
            }],
            embeds: Vec::new(),
        }
    );
    assert_eq!(AUDIO_ATTACHMENT_ID, 1);
}

#[test]
fn empty_audio_is_attached_too() {
    let reply = pending(7).resolve(SynthesisOutcome::Audio(Vec::new()));
    assert_eq!(reply.attachments.len(), 1);
    assert_eq!(reply.attachments[0].filename, "test.ogg");
    assert!(reply.attachments[0].file.is_empty());
    assert_eq!(reply.content.as_deref(), Some("test!"));
}

#[test]
fn audio_attachment_is_the_one_the_chat_library_makes() {
    let bytes = vec![1, 2, 3];
    let reply = pending(42).resolve(SynthesisOutcome::Audio(bytes.clone()));
    let made =
        twilight_model::http::attachment::Attachment::from_bytes("test.ogg".to_owned(), bytes, 1);
    let ours = &reply.attachments[0];
    assert_eq!(ours.description, made.description);
    assert_eq!(ours.file, made.file);
    assert_eq!(ours.filename, made.filename);
    assert_eq!(ours.id, made.id);
}

#[test]
fn status_500_is_described_as_internal_server_error() {
    let reply = pending(42).resolve(failed(Some(500)));
    assert_eq!(
        reply,
        Reply {
            channel_id: 42,
            content: None,
            attachments: Vec::new(),
            embeds: vec![Embed {
                kind: "rich".to_owned(),
                color: Some(0xff0000),
                title: Some("APIリクエストエラー".to_owned()),
                description: Some("500: Internal Server Error".to_owned()),
            }],
        }
    );
    assert_eq!(ERROR_COLOR, 0xff0000);
}

#[test]
fn status_without_a_reason_phrase_gets_the_sentinel() {
    let embed = SynthesisFailure { status: Some(599) }.embed();
    assert_eq!(embed.title.as_deref(), Some("APIリクエストエラー"));
    assert_eq!(embed.description.as_deref(), Some("599: <unknown status code>"));
}

#[test]
fn number_that_is_no_status_code_gets_the_sentinel() {
    assert_eq!(status_description(0), "0: <unknown status code>");
    assert_eq!(status_description(99), "99: <unknown status code>");
    assert_eq!(status_description(1000), "1000: <unknown status code>");
    assert_eq!(status_description(u16::MAX), "65535: <unknown status code>");
}

#[test]
fn failure_without_status_has_no_description() {
    let reply = pending(42).resolve(failed(None));
    assert_eq!(
        reply,
        Reply {
            channel_id: 42,
            content: None,
            attachments: Vec::new(),
            embeds: vec![Embed {
                kind: "rich".to_owned(),
                color: Some(0xff0000),
                title: Some("APIのリクエストに失敗しました。".to_owned()),
                description: None,
            }],
        }
    );
}

#[test]
fn failure_embed_takes_the_reason_it_is_given() {
    let embed = build_failure_embed(Some(500), Some("Internal Server Error"));
    assert_eq!(embed.description.as_deref(), Some("500: Internal Server Error"));
    let embed = build_failure_embed(Some(500), None);
    assert_eq!(embed.description.as_deref(), Some("500: <unknown status code>"));
    let embed = build_failure_embed(None, Some("Internal Server Error"));
    assert_eq!(embed.title.as_deref(), Some("APIのリクエストに失敗しました。"));
    assert_eq!(embed.description, None);
}

#[test]
fn failure_embeds_are_the_ones_the_builder_makes() {
    let ours = SynthesisFailure { status: Some(404) }.embed();
    let built = EmbedBuilder::new()
        .color(0xff0000)
        .title("APIリクエストエラー")
        .description("404: Not Found")
        .build();
    assert_eq!(ours.kind, built.kind);
    assert_eq!(ours.color, built.color);
    assert_eq!(ours.title, built.title);
    assert_eq!(ours.description, built.description);

    let ours = SynthesisFailure { status: None }.embed();
    let built = EmbedBuilder::new()
        .color(0xff0000)
        .title("APIのリクエストに失敗しました。")
        .build();
    assert_eq!(ours.kind, built.kind);
    assert_eq!(ours.color, built.color);
    assert_eq!(ours.title, built.title);
    assert_eq!(ours.description, built.description);
}

#[test]
fn describe_status_joins_code_and_reason() {
    assert_eq!(describe_status(404, Some("Not Found")), "404: Not Found");
    assert_eq!(describe_status(404, Some("")), "404: ");
    assert_eq!(describe_status(404, None), "404: <unknown status code>");
    assert_eq!(describe_status(0, Some("zero")), "0: zero");
}

#[test]
fn status_descriptions_carry_the_known_reason_phrases() {
    assert_eq!(status_description(200), "200: OK");
    assert_eq!(status_description(404), "404: Not Found");
    assert_eq!(status_description(429), "429: Too Many Requests");
    assert_eq!(status_description(500), "500: Internal Server Error");
    assert_eq!(status_description(503), "503: Service Unavailable");
}

#[test]
fn status_descriptions_agree_with_the_http_library() {
    for code in 100..1000u16 {
        let status = StatusCode::from_u16(code).unwrap();
        let reason = status.canonical_reason().unwrap_or("<unknown status code>");
        assert_eq!(status_description(code), format!("{}: {}", status.as_u16(), reason));
    }
}
