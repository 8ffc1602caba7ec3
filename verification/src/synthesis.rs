//! The speech synthesis test: what is asked of the service, and the message
//! that shows its answer.

use vstd::prelude::*;
use crate::reply::{
    attachment_from_bytes, described_embed, embed_reply, file_reply, rich_kind, titled_embed,
    AttachmentView, Embed, EmbedView, Reply, ReplyView,
};
use crate::status::{canonical_reason, describe_status, opt_str, reason_phrase, status_line};

verus! {

/// Colour of the embed that reports a failure.
pub const ERROR_COLOR: u32 = 0xff0000;

/// How long the service may take to answer, in milliseconds.
pub const SYNTHESIS_TIMEOUT_MS: u64 = 1000;

/// Number of the audio file within its message.
pub const AUDIO_ATTACHMENT_ID: u64 = 1;

/// The text that the test has spoken.
pub open spec fn sample_text() -> Seq<char> {
    "テスト"@
}

/// Text of the message that carries the audio.
pub open spec fn audio_caption() -> Seq<char> {
    "test!"@
}

/// Name of the audio file.
pub open spec fn audio_filename() -> Seq<char> {
    "test.ogg"@
}

/// Title of the embed for a failure that carries a status code.
pub open spec fn api_error_title() -> Seq<char> {
    "APIリクエストエラー"@
}

/// Title of the embed for a failure without a status code.
pub open spec fn request_failed_title() -> Seq<char> {
    "APIのリクエストに失敗しました。"@
}

/// Container format of synthesized audio.
#[derive(Debug, Clone, Copy, PartialEq, Eq, Structural)]
pub enum AudioFormat {
    /// Ogg Vorbis.
    Ogg,
}

/// What is asked of the synthesis service. Options that are not listed keep
/// the service's defaults.
#[derive(Debug, Clone, PartialEq, Eq)]
pub struct SynthesisRequest {
    /// The text to speak.
    pub text: String,
    /// The container format of the audio.
    pub format: AudioFormat,
    /// How long the call may take, in milliseconds.
    pub timeout_ms: u64,
}

/// The mathematical value of a [`SynthesisRequest`].
pub struct SynthesisRequestView {
    pub text: Seq<char>,
    pub format: AudioFormat,
    pub timeout_ms: u64,
}

impl View for SynthesisRequest {
    type V = SynthesisRequestView;

    open spec fn view(&self) -> SynthesisRequestView {
        SynthesisRequestView { text: self.text@, format: self.format, timeout_ms: self.timeout_ms }
    }
}

/// The request of the test: the sample text, as Ogg, within the timeout.
pub open spec fn sample_request() -> SynthesisRequestView {
    SynthesisRequestView {
        text: sample_text(),
        format: AudioFormat::Ogg,
        timeout_ms: SYNTHESIS_TIMEOUT_MS,
    }
}

impl SynthesisRequest {
    /// The request of the test.
    pub fn sample() -> (request: SynthesisRequest)
        ensures
            request@ == sample_request(),
    {
        SynthesisRequest {
            text: String::from_str("テスト"),
            format: AudioFormat::Ogg,
            timeout_ms: SYNTHESIS_TIMEOUT_MS,
        }
    }
}

/// A failed call of the synthesis service.
#[derive(Debug, Clone, Copy, PartialEq, Eq, Structural)]
pub struct SynthesisFailure {
    /// The HTTP status code of the answer; `None` where the request came to
    /// no answer at all.
    pub status: Option<u16>,
}

/// How a call of the synthesis service ended.
#[derive(Debug, Clone, PartialEq, Eq)]
pub enum SynthesisOutcome {
    /// The service returned audio.
    Audio(Vec<u8>),
    /// The call failed.
    Failed(SynthesisFailure),
}

/// The mathematical value of a [`SynthesisOutcome`].
pub enum SynthesisOutcomeView {
    Audio(Seq<u8>),
    Failed(SynthesisFailure),
}

impl View for SynthesisOutcome {
    type V = SynthesisOutcomeView;

    open spec fn view(&self) -> SynthesisOutcomeView {
        match self {
            SynthesisOutcome::Audio(bytes) => SynthesisOutcomeView::Audio(bytes@),
            SynthesisOutcome::Failed(failure) => SynthesisOutcomeView::Failed(*failure),
        }
    }
}

/// The audio file as it is attached: named [`audio_filename`], numbered
/// [`AUDIO_ATTACHMENT_ID`], without a description.
pub open spec fn audio_attachment(bytes: Seq<u8>) -> AttachmentView {
    AttachmentView {
        description: None,
        file: bytes,
        filename: audio_filename(),
        id: AUDIO_ATTACHMENT_ID,
    }
}

/// The embed that reports a failure with the given status, where `reason` is
/// the reason phrase of the status code.
///
/// With a status code the embed is titled [`api_error_title`] and described
/// by the code's [`status_line`]; without one it is titled
/// [`request_failed_title`] and has no description.
pub open spec fn failure_embed_with(status: Option<u16>, reason: Option<Seq<char>>) -> EmbedView {
    match status {
        Some(code) => EmbedView {
            kind: rich_kind(),
            color: Some(ERROR_COLOR),
            title: Some(api_error_title()),
            description: Some(status_line(code, reason)),
        },
        None => EmbedView {
            kind: rich_kind(),
            color: Some(ERROR_COLOR),
            title: Some(request_failed_title()),
            description: None,
        },
    }
}

/// The reason phrase that is known for a status, if it has a code.
pub open spec fn known_reason(status: Option<u16>) -> Option<Seq<char>> {
    match status {
        Some(code) => canonical_reason(code),
        None => None,
    }
}

/// The embed that reports a failure.
pub open spec fn failure_embed(failure: SynthesisFailure) -> EmbedView {
    failure_embed_with(failure.status, known_reason(failure.status))
}

/// The message that shows how the synthesis ended: the audio as a file, or
/// the embed of the failure.
pub open spec fn synthesis_reply(channel_id: u64, outcome: SynthesisOutcomeView) -> ReplyView {
    match outcome {
        SynthesisOutcomeView::Audio(bytes) => file_reply(
            channel_id,
            audio_caption(),
            audio_attachment(bytes),
        ),
        SynthesisOutcomeView::Failed(failure) => embed_reply(channel_id, failure_embed(failure)),
    }
}

/// Builds the embed for a failure with the given status, whose reason phrase
/// is `reason`.
pub fn build_failure_embed(status: Option<u16>, reason: Option<&str>) -> (embed: Embed)
    ensures
        embed@ == failure_embed_with(status, opt_str(reason)),
{
    match status {
        Some(code) => described_embed(
            ERROR_COLOR,
            "APIリクエストエラー",
            describe_status(code, reason),
        ),
        None => titled_embed(ERROR_COLOR, "APIのリクエストに失敗しました。"),
    }
}

impl SynthesisFailure {
    /// Builds the embed that reports this failure.
    pub fn embed(&self) -> (embed: Embed)
        ensures
            embed@ == failure_embed(*self),
    {
        match self.status {
            Some(code) => build_failure_embed(self.status, reason_phrase(code)),
            None => build_failure_embed(self.status, None),
        }
    }
}

/// A synthesis that has been asked for and not yet answered.
#[derive(Debug, Clone, PartialEq, Eq)]
pub struct PendingSynthesis {
    /// The channel that the answer is shown in.
    pub channel_id: u64,
    /// What to ask of the service.
    pub request: SynthesisRequest,
}

/// The mathematical value of a [`PendingSynthesis`].
pub struct PendingSynthesisView {
    pub channel_id: u64,
    pub request: SynthesisRequestView,
}

impl View for PendingSynthesis {
    type V = PendingSynthesisView;

    open spec fn view(&self) -> PendingSynthesisView {
        PendingSynthesisView { channel_id: self.channel_id, request: self.request@ }
    }
}

impl PendingSynthesis {
    /// The message to send once the service has answered with `outcome`.
    pub fn resolve(&self, outcome: SynthesisOutcome) -> (reply: Reply)
        ensures
            reply@ == synthesis_reply(self.channel_id, outcome@),
    {
        match outcome {
            SynthesisOutcome::Audio(bytes) => {
                let file = attachment_from_bytes(
                    String::from_str("test.ogg"),
                    bytes,
                    AUDIO_ATTACHMENT_ID,
                );
                Reply::with_file(self.channel_id, String::from_str("test!"), file)
            },
            SynthesisOutcome::Failed(failure) => Reply::with_embed(
                self.channel_id,
                failure.embed(),
            ),
        }
    }
}

} // verus!
