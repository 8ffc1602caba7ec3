//! The dispatcher: from one event of the gateway to the one step that
//! answers it.

use vstd::prelude::*;
use crate::command::{command_of, lemma_command_of_literal, parse_command, Command};
use crate::event::{Event, EventView, Message, MessageView};
use crate::reply::{text_reply, Reply, ReplyView};
use crate::status::canonical_reason;
use crate::synthesis::{
    failure_embed_with, request_failed_title, sample_request, synthesis_reply, PendingSynthesis,
    PendingSynthesisView, SynthesisFailure, SynthesisOutcomeView, SynthesisRequest, ERROR_COLOR,
};
use crate::text::decimal;
use crate::voice::{PendingJoin, VOICE_CHANNEL_ID};

verus! {

/// Why an event could not be handled.
#[derive(Debug, Clone, Copy, PartialEq, Eq, Structural)]
pub enum HandlerError {
    /// `!join` came from outside a server.
    NotInGuild,
    /// The voice channel to join has the number zero.
    ZeroVoiceChannel,
}

impl HandlerError {
    /// The message of the error.
    pub open spec fn message_text(self) -> Seq<char> {
        match self {
            HandlerError::NotInGuild => "Can't join a non-guild channel."@,
            HandlerError::ZeroVoiceChannel => "Joined voice channel must have nonzero ID."@,
        }
    }

    /// The message of the error as a string.
    pub fn message(&self) -> (text: String)
        ensures
            text@ == self.message_text(),
    {
        match self {
            HandlerError::NotInGuild => String::from_str("Can't join a non-guild channel."),
            HandlerError::ZeroVoiceChannel => String::from_str(
                "Joined voice channel must have nonzero ID.",
            ),
        }
    }
}

/// What is to be done about an event. At most one thing is: a step that asks
/// something of a service says, through its `resolve`, which message follows
/// the service's answer, and nothing follows that message.
#[derive(Debug, Clone, PartialEq, Eq)]
pub enum Step {
    /// Nothing.
    Done,
    /// Print a line.
    Log(String),
    /// Send a message.
    Send(Reply),
    /// Join a voice channel, and report the outcome.
    Join(PendingJoin),
    /// Have speech synthesized, and show the outcome.
    Synthesize(PendingSynthesis),
}

/// The mathematical value of a [`Step`].
pub enum StepView {
    Done,
    Log(Seq<char>),
    Send(ReplyView),
    Join(PendingJoin),
    Synthesize(PendingSynthesisView),
}

impl View for Step {
    type V = StepView;

    open spec fn view(&self) -> StepView {
        match self {
            Step::Done => StepView::Done,
            Step::Log(line) => StepView::Log(line@),
            Step::Send(reply) => StepView::Send(reply@),
            Step::Join(join) => StepView::Join(*join),
            Step::Synthesize(synthesis) => StepView::Synthesize(synthesis@),
        }
    }
}

/// The mathematical value of the result of handling an event.
pub open spec fn outcome_view(outcome: Result<Step, HandlerError>) -> Result<StepView, HandlerError> {
    match outcome {
        Ok(step) => Ok(step@),
        Err(error) => Err(error),
    }
}

/// The answer to `!ping`, and to `!leave`.
pub open spec fn pong() -> Seq<char> {
    "Pong!"@
}

/// The line that is printed once the session is ready.
pub open spec fn ready_line(user_name: Seq<char>) -> Seq<char> {
    "Ready as: "@ + user_name
}

/// The step that answers a command in the given message, where `!join` joins
/// the voice channel `voice_channel_id`.
///
/// `!ping` and `!leave` are answered with [`pong`]. `!join` fails outside a
/// server and for the voice channel zero, in this order, and else joins the
/// channel. `!test` has the sample text synthesized.
pub open spec fn command_step(
    command: Command,
    message: MessageView,
    voice_channel_id: u64,
) -> Result<StepView, HandlerError> {
    match command {
        Command::Ping | Command::Leave => Ok(
            StepView::Send(text_reply(message.channel_id, pong())),
        ),
        Command::Join => match message.guild_id {
            None => Err(HandlerError::NotInGuild),
            Some(guild_id) => if voice_channel_id == 0 {
                Err(HandlerError::ZeroVoiceChannel)
            } else {
                Ok(
                    StepView::Join(
                        PendingJoin { channel_id: message.channel_id, guild_id, voice_channel_id },
                    ),
                )
            },
        },
        Command::Test => Ok(
            StepView::Synthesize(
                PendingSynthesisView { channel_id: message.channel_id, request: sample_request() },
            ),
        ),
    }
}

/// The step that answers a message: that of its command, and nothing for a
/// message that is no command.
pub open spec fn message_step(message: MessageView, voice_channel_id: u64) -> Result<
    StepView,
    HandlerError,
> {
    match command_of(message.content) {
        Some(command) => command_step(command, message, voice_channel_id),
        None => Ok(StepView::Done),
    }
}

/// The step that answers an event: a line for `Ready`, the answer to a
/// created message with [`VOICE_CHANNEL_ID`] as the channel to join, and
/// nothing for any other event.
pub open spec fn event_step(event: EventView) -> Result<StepView, HandlerError> {
    match event {
        EventView::Ready { user_name } => Ok(StepView::Log(ready_line(user_name))),
        EventView::MessageCreate(message) => message_step(message, VOICE_CHANNEL_ID),
        EventView::Other => Ok(StepView::Done),
    }
}

/// Decides the step that answers a message, where `!join` joins the voice
/// channel `voice_channel_id`.
pub fn handle_message(message: &Message, voice_channel_id: u64) -> (outcome: Result<
    Step,
    HandlerError,
>)
    ensures
        outcome_view(outcome) == message_step(message@, voice_channel_id),
{
    match parse_command(message.content.as_str()) {
        None => Ok(Step::Done),
        Some(Command::Ping) | Some(Command::Leave) => Ok(
            Step::Send(Reply::text(message.channel_id, String::from_str("Pong!"))),
        ),
        Some(Command::Join) => match message.guild_id {
            None => Err(HandlerError::NotInGuild),
            Some(guild_id) => if voice_channel_id == 0 {
                Err(HandlerError::ZeroVoiceChannel)
            } else {
                Ok(
                    Step::Join(
                        PendingJoin { channel_id: message.channel_id, guild_id, voice_channel_id },
                    ),
                )
            },
        },
        Some(Command::Test) => Ok(
            Step::Synthesize(
                PendingSynthesis {
                    channel_id: message.channel_id,
                    request: SynthesisRequest::sample(),
                },
            ),
        ),
    }
}

/// Decides the step that answers an event.
pub fn handle_event(event: &Event) -> (outcome: Result<Step, HandlerError>)
    ensures
        outcome_view(outcome) == event_step(event@),
{
    match event {
        Event::Ready { user_name } => {
            let line = String::from_str("Ready as: ").concat(user_name.as_str());
            Ok(Step::Log(line))
        },
        Event::MessageCreate(message) => handle_message(message, VOICE_CHANNEL_ID),
        Event::Other => Ok(Step::Done),
    }
}

/// A message whose content is exactly `!ping` is answered with one message,
/// to the channel it came from, whose content is exactly `Pong!`, and with
/// nothing else: no file, no embed, no join and no synthesis.
pub proof fn lemma_ping_is_answered_with_pong(message: MessageView, voice_channel_id: u64)
    requires
        message.content == "!ping"@,
    ensures
        message_step(message, voice_channel_id) == Ok::<StepView, HandlerError>(
            StepView::Send(
                ReplyView {
                    channel_id: message.channel_id,
                    content: Some("Pong!"@),
                    attachments: Seq::empty(),
                    embeds: Seq::empty(),
                },
            ),
        ),
        event_step(EventView::MessageCreate(message)) == message_step(message, voice_channel_id),
{
    lemma_command_of_literal(message.content, Command::Ping);
}

/// A message whose content is exactly `!join` and that was sent outside a
/// server fails as not in a server; no join is attempted.
pub proof fn lemma_join_outside_server_fails(message: MessageView, voice_channel_id: u64)
    requires
        message.content == "!join"@,
        message.guild_id is None,
    ensures
        message_step(message, voice_channel_id) == Err::<StepView, HandlerError>(
            HandlerError::NotInGuild,
        ),
        !(message_step(message, voice_channel_id) matches Ok(StepView::Join(_))),
        event_step(EventView::MessageCreate(message)) == message_step(message, voice_channel_id),
{
    lemma_command_of_literal(message.content, Command::Join);
}

/// A join is asked for only by `!join` sent inside a server, and only of a
/// voice channel whose number is not zero: the join names that server, that
/// voice channel, and the channel of the message as the one to report to.
pub proof fn lemma_join_needs_server_and_channel(
    message: MessageView,
    voice_channel_id: u64,
    join: PendingJoin,
)
    requires
        message_step(message, voice_channel_id) == Ok::<StepView, HandlerError>(
            StepView::Join(join),
        ),
    ensures
        message.content == "!join"@,
        message.guild_id == Some(join.guild_id),
        join.channel_id == message.channel_id,
        join.voice_channel_id == voice_channel_id,
        voice_channel_id != 0,
{
    lemma_command_of_literal(message.content, Command::Join);
}

/// Inside a server `!join` is answered with a join of the voice channel, and
/// fails where that channel has the number zero.
pub proof fn lemma_join_inside_server(message: MessageView, guild_id: u64, voice_channel_id: u64)
    requires
        message.content == "!join"@,
        message.guild_id == Some(guild_id),
    ensures
        voice_channel_id == 0 ==> message_step(message, voice_channel_id) == Err::<
            StepView,
            HandlerError,
        >(HandlerError::ZeroVoiceChannel),
        voice_channel_id != 0 ==> message_step(message, voice_channel_id) == Ok::<
            StepView,
            HandlerError,
        >(
            StepView::Join(
                PendingJoin { channel_id: message.channel_id, guild_id, voice_channel_id },
            ),
        ),
        event_step(EventView::MessageCreate(message)) matches Ok(StepView::Join(join))
            && join.voice_channel_id == VOICE_CHANNEL_ID,
{
    lemma_command_of_literal(message.content, Command::Join);
}

/// Where the synthesis returns audio, the message that follows has the text
/// `test!`, no embed, and exactly one file, named `test.ogg`, whose bytes are
/// the bytes that the synthesis returned.
pub proof fn lemma_audio_is_attached(channel_id: u64, bytes: Seq<u8>)
    ensures
        ({
            let reply = synthesis_reply(channel_id, SynthesisOutcomeView::Audio(bytes));
            &&& reply.channel_id == channel_id
            &&& reply.content == Some("test!"@)
            &&& reply.attachments.len() == 1
            &&& reply.attachments[0].filename == "test.ogg"@
            &&& reply.attachments[0].file == bytes
            &&& reply.embeds.len() == 0
        }),
{
}

/// Where the synthesis fails with a status code, the message that follows
/// has no text and no file, and one embed: its title is the label of an API
/// error, and its description is the code in decimal, `": "`, and the reason
/// phrase known for the code, or `<unknown status code>` where none is.
pub proof fn lemma_status_failure_is_described(channel_id: u64, code: u16)
    ensures
        ({
            let failure = SynthesisFailure { status: Some(code) };
            let reply = synthesis_reply(channel_id, SynthesisOutcomeView::Failed(failure));
            &&& reply.channel_id == channel_id
            &&& reply.content is None
            &&& reply.attachments.len() == 0
            &&& reply.embeds.len() == 1
            &&& reply.embeds[0].color == Some(ERROR_COLOR)
            &&& reply.embeds[0].title == Some("APIリクエストエラー"@)
            &&& reply.embeds[0].description == Some(
                decimal(code as nat) + ": "@ + match canonical_reason(code) {
                    Some(phrase) => phrase,
                    None => "<unknown status code>"@,
                },
            )
        }),
{
}

/// Where the synthesis fails without a status code, the message that follows
/// has no text and no file, and one embed, which has the title for a request
/// that failed and no description, whatever reason phrase is at hand.
pub proof fn lemma_failure_without_status_has_no_description(
    channel_id: u64,
    reason: Option<Seq<char>>,
)
    ensures
        ({
            let failure = SynthesisFailure { status: None };
            let reply = synthesis_reply(channel_id, SynthesisOutcomeView::Failed(failure));
            &&& reply.content is None
            &&& reply.attachments.len() == 0
            &&& reply.embeds.len() == 1
            &&& reply.embeds[0].title == Some("APIのリクエストに失敗しました。"@)
            &&& reply.embeds[0].description is None
        }),
        failure_embed_with(None, reason).title == Some(request_failed_title()),
        failure_embed_with(None, reason).description is None,
{
}

/// A message whose content is none of `!ping`, `!join`, `!leave` and `!test`
/// is answered with nothing.
pub proof fn lemma_other_content_is_ignored(message: MessageView, voice_channel_id: u64)
    requires
        message.content != "!ping"@,
        message.content != "!join"@,
        message.content != "!leave"@,
        message.content != "!test"@,
    ensures
        message_step(message, voice_channel_id) == Ok::<StepView, HandlerError>(StepView::Done),
        event_step(EventView::MessageCreate(message)) == Ok::<StepView, HandlerError>(
            StepView::Done,
        ),
{
}

/// An event that is neither `Ready` nor a created message is answered with
/// nothing.
pub proof fn lemma_other_event_is_ignored(event: EventView)
    requires
        event is Other,
    ensures
        event_step(event) == Ok::<StepView, HandlerError>(StepView::Done),
{
}

} // verus!
