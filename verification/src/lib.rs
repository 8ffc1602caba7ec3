//! Command dispatch for the `poz` chat bot.
//!
//! The bot listens for a handful of literal chat commands and answers each
//! with one outbound action. This crate holds the decisions: which command a
//! message is, what is sent back, and what is asked of the voice and speech
//! services. Connecting, sending and awaiting are left to the program around
//! it, which performs each [`Step`] and hands the outcome back to the step's
//! `resolve`.

pub mod command;
pub mod event;
pub mod gateway;
pub mod handler;
pub mod reply;
pub mod status;
pub mod synthesis;
pub mod text;
pub mod voice;

pub use command::{parse_command, Command};
pub use event::{Event, Message};
pub use gateway::{on_receive_error, presence_name, LoopControl};
pub use handler::{handle_event, handle_message, HandlerError, Step};
pub use reply::{Attachment, Embed, Reply};
pub use status::{describe_status, status_description};
pub use synthesis::{
    build_failure_embed, AudioFormat, PendingSynthesis, SynthesisFailure, SynthesisOutcome,
    SynthesisRequest, AUDIO_ATTACHMENT_ID, ERROR_COLOR, SYNTHESIS_TIMEOUT_MS,
};
pub use text::{decimal_string, push_decimal, str_eq};
pub use voice::{JoinOutcome, PendingJoin, VOICE_CHANNEL_ID};
