//! Joining a voice channel, and what the bot says of the outcome.

use vstd::prelude::*;
use crate::reply::{text_reply, Reply, ReplyView};
use crate::text::{decimal, push_decimal};

verus! {

/// The voice channel that `!join` joins.
pub const VOICE_CHANNEL_ID: u64 = 1001440920299905096;

/// A join of a voice channel that has been asked for and not yet answered.
#[derive(Debug, Clone, Copy, PartialEq, Eq, Structural)]
pub struct PendingJoin {
    /// The channel in which the outcome is announced.
    pub channel_id: u64,
    /// The server in which the voice channel lies.
    pub guild_id: u64,
    /// The voice channel to join.
    pub voice_channel_id: u64,
}

/// How an attempt to join a voice channel ended.
#[derive(Debug, Clone, PartialEq, Eq)]
pub enum JoinOutcome {
    /// The bot is in the channel.
    Joined,
    /// The join failed; `detail` renders the failure.
    Failed { detail: String },
}

/// The mathematical value of a [`JoinOutcome`].
pub enum JoinOutcomeView {
    Joined,
    Failed { detail: Seq<char> },
}

impl View for JoinOutcome {
    type V = JoinOutcomeView;

    open spec fn view(&self) -> JoinOutcomeView {
        match self {
            JoinOutcome::Joined => JoinOutcomeView::Joined,
            JoinOutcome::Failed { detail } => JoinOutcomeView::Failed { detail: detail@ },
        }
    }
}

/// The mention of a channel: `<#`, its number in decimal, `>`.
pub open spec fn channel_mention(channel_id: u64) -> Seq<char> {
    "<#"@ + decimal(channel_id as nat) + ">"@
}

/// What the bot says of a join of `voice_channel_id`: on success that it
/// joined the channel, on failure that it failed, and why.
pub open spec fn join_report(voice_channel_id: u64, outcome: JoinOutcomeView) -> Seq<char> {
    match outcome {
        JoinOutcomeView::Joined => "Joined "@ + channel_mention(voice_channel_id) + "!"@,
        JoinOutcomeView::Failed { detail } => "Failed to join "@ + channel_mention(
            voice_channel_id,
        ) + "! Why: "@ + detail,
    }
}

/// The message that reports the outcome of a join.
pub open spec fn join_reply(join: PendingJoin, outcome: JoinOutcomeView) -> ReplyView {
    text_reply(join.channel_id, join_report(join.voice_channel_id, outcome))
}

/// Appends the mention of a channel to `out`.
fn push_mention(out: &mut String, channel_id: u64)
    ensures
        final(out)@ == old(out)@ + channel_mention(channel_id),
{
    out.append("<#");
    push_decimal(out, channel_id);
    out.append(">");
    assert(out@ =~= old(out)@ + channel_mention(channel_id));
}

impl PendingJoin {
    /// The message to send once the join has been answered with `outcome`.
    pub fn resolve(&self, outcome: &JoinOutcome) -> (reply: Reply)
        ensures
            reply@ == join_reply(*self, outcome@),
    {
        let mut report = String::new();
        match outcome {
            JoinOutcome::Joined => {
                report.append("Joined ");
                push_mention(&mut report, self.voice_channel_id);
                report.append("!");
            },
            JoinOutcome::Failed { detail } => {
                report.append("Failed to join ");
                push_mention(&mut report, self.voice_channel_id);
                report.append("! Why: ");
                report.append(detail.as_str());
            },
        }
        assert(report@ =~= join_report(self.voice_channel_id, outcome@));
        Reply::text(self.channel_id, report)
    }
}

} // verus!
