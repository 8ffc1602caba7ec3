//! What the bot sends to a chat channel: text, file attachments and embeds.
//!
//! The payload types mirror the fields of the chat library's own types that
//! the bot fills in, as plain values, so that contracts can speak of them.

use vstd::prelude::*;

verus! {

/// The view of an optional string: its characters, where there is one.
pub open spec fn opt_text(s: Option<String>) -> Option<Seq<char>> {
    match s {
        Some(text) => Some(text@),
        None => None,
    }
}

/// A file sent along with a message.
#[derive(Debug, Clone, PartialEq, Eq)]
pub struct Attachment {
    /// Alternative text for the file.
    pub description: Option<String>,
    /// Content of the file.
    pub file: Vec<u8>,
    /// Name of the file.
    pub filename: String,
    /// Number of the attachment within its message.
    pub id: u64,
}

/// The mathematical value of an [`Attachment`].
pub struct AttachmentView {
    pub description: Option<Seq<char>>,
    pub file: Seq<u8>,
    pub filename: Seq<char>,
    pub id: u64,
}

impl View for Attachment {
    type V = AttachmentView;

    open spec fn view(&self) -> AttachmentView {
        AttachmentView {
            description: opt_text(self.description),
            file: self.file@,
            filename: self.filename@,
            id: self.id,
        }
    }
}

/// A block of rich content shown below a message.
#[derive(Debug, Clone, PartialEq, Eq)]
pub struct Embed {
    /// Kind of the embed.
    pub kind: String,
    /// Colour of the bar at its side, as `0xRRGGBB`.
    pub color: Option<u32>,
    /// Title line.
    pub title: Option<String>,
    /// Text below the title.
    pub description: Option<String>,
}

/// The mathematical value of an [`Embed`].
pub struct EmbedView {
    pub kind: Seq<char>,
    pub color: Option<u32>,
    pub title: Option<Seq<char>>,
    pub description: Option<Seq<char>>,
}

impl View for Embed {
    type V = EmbedView;

    open spec fn view(&self) -> EmbedView {
        EmbedView {
            kind: self.kind@,
            color: self.color,
            title: opt_text(self.title),
            description: opt_text(self.description),
        }
    }
}

/// One message sent to a channel.
#[derive(Debug, Clone, PartialEq, Eq)]
pub struct Reply {
    /// The channel that the message goes to.
    pub channel_id: u64,
    /// Text of the message.
    pub content: Option<String>,
    /// Files sent with it.
    pub attachments: Vec<Attachment>,
    /// Embeds shown below it.
    pub embeds: Vec<Embed>,
}

/// The mathematical value of a [`Reply`].
pub struct ReplyView {
    pub channel_id: u64,
    pub content: Option<Seq<char>>,
    pub attachments: Seq<AttachmentView>,
    pub embeds: Seq<EmbedView>,
}

impl View for Reply {
    type V = ReplyView;

    open spec fn view(&self) -> ReplyView {
        ReplyView {
            channel_id: self.channel_id,
            content: opt_text(self.content),
            attachments: self.attachments@.map_values(|a: Attachment| a@),
            embeds: self.embeds@.map_values(|e: Embed| e@),
        }
    }
}

/// A message of text alone.
pub open spec fn text_reply(channel_id: u64, content: Seq<char>) -> ReplyView {
    ReplyView {
        channel_id,
        content: Some(content),
        attachments: Seq::empty(),
        embeds: Seq::empty(),
    }
}

/// A message of text with one file.
pub open spec fn file_reply(channel_id: u64, content: Seq<char>, file: AttachmentView) -> ReplyView {
    ReplyView {
        channel_id,
        content: Some(content),
        attachments: seq![file],
        embeds: Seq::empty(),
    }
}

/// A message that shows one embed and has no text.
pub open spec fn embed_reply(channel_id: u64, embed: EmbedView) -> ReplyView {
    ReplyView { channel_id, content: None, attachments: Seq::empty(), embeds: seq![embed] }
}

impl Reply {
    /// A message of text alone.
    pub fn text(channel_id: u64, content: String) -> (reply: Reply)
        ensures
            reply@ == text_reply(channel_id, content@),
    {
        let reply = Reply {
            channel_id,
            content: Some(content),
            attachments: Vec::new(),
            embeds: Vec::new(),
        };
        assert(reply@.attachments =~= Seq::empty());
        assert(reply@.embeds =~= Seq::empty());
        reply
    }

    /// A message of text with one file.
    pub fn with_file(channel_id: u64, content: String, file: Attachment) -> (reply: Reply)
        ensures
            reply@ == file_reply(channel_id, content@, file@),
    {
        let mut attachments: Vec<Attachment> = Vec::new();
        attachments.push(file);
        let reply = Reply { channel_id, content: Some(content), attachments, embeds: Vec::new() };
        assert(reply@.attachments =~= seq![file@]);
        assert(reply@.embeds =~= Seq::empty());
        reply
    }

    /// A message that shows one embed and has no text.
    pub fn with_embed(channel_id: u64, embed: Embed) -> (reply: Reply)
        ensures
            reply@ == embed_reply(channel_id, embed@),
    {
        let mut embeds: Vec<Embed> = Vec::new();
        embeds.push(embed);
        let reply = Reply { channel_id, content: None, attachments: Vec::new(), embeds };
        assert(reply@.attachments =~= Seq::empty());
        assert(reply@.embeds =~= seq![embed@]);
        reply
    }
}

/// The kind that the embed builder gives every embed.
pub open spec fn rich_kind() -> Seq<char> {
    "rich"@
}

/// Makes an attachment with `Attachment::from_bytes` of `twilight_model`.
///
/// Trusted: the attachment holds the given name, content and number, and has
/// no description.
#[verifier::external_body]
pub(crate) fn attachment_from_bytes(filename: String, file: Vec<u8>, id: u64) -> (made: Attachment)
    ensures
        made@ == (AttachmentView { description: None, file: file@, filename: filename@, id }),
{
    let made = twilight_model::http::attachment::Attachment::from_bytes(filename, file, id);
    Attachment {
        description: made.description,
        file: made.file,
        filename: made.filename,
        id: made.id,
    }
}

/// Builds an embed with a colour and a title through `EmbedBuilder` of
/// `twilight_util`: `new`, `color`, `title`, `build`.
///
/// Trusted: the embed is of the kind `rich`, holds the colour and the title,
/// and has no description.
#[verifier::external_body]
pub(crate) fn titled_embed(color: u32, title: &str) -> (built: Embed)
    ensures
        built@ == (EmbedView {
            kind: rich_kind(),
            color: Some(color),
            title: Some(title@),
            description: None,
        }),
{
    let built = twilight_util::builder::embed::EmbedBuilder::new()
        .color(color)
        .title(title)
        .build();
    Embed {
        kind: built.kind,
        color: built.color,
        title: built.title,
        description: built.description,
    }
}

/// Builds an embed with a colour, a title and a description through
/// `EmbedBuilder` of `twilight_util`: `new`, `color`, `title`, `description`,
/// `build`.
///
/// Trusted: the embed is of the kind `rich` and holds the colour, the title
/// and the description.
#[verifier::external_body]
pub(crate) fn described_embed(color: u32, title: &str, description: String) -> (built: Embed)
    ensures
        built@ == (EmbedView {
            kind: rich_kind(),
            color: Some(color),
            title: Some(title@),
            description: Some(description@),
        }),
{
    let built = twilight_util::builder::embed::EmbedBuilder::new()
        .color(color)
        .title(title)
        .description(description)
        .build();
    Embed {
        kind: built.kind,
        color: built.color,
        title: built.title,
        description: built.description,
    }
}

} // verus!
