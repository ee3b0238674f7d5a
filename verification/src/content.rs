//! Messages. The fields that the bot reads and writes stand by themselves. All others are kept
//! together, in the form in which the network layer takes them: under `rest`, which is empty where
//! none of them is set. Each type has a view in which texts are sequences of characters and lists
//! of bytes are sequences of bytes.
use crate::text::{clone_bytes, clone_text, copy_bytes, option_view};
use vstd::prelude::*;

verus! {

/// A conversation: with one contact, known by the sixteen bytes of a UUID, or in a group, known
/// by its master key.
#[derive(Debug, PartialEq, Eq, Clone, Copy)]
pub enum Thread {
    Contact([u8; 16]),
    Group([u8; 32]),
}

/// Who sent a message, and when. The sender is written as a service id string. `details` is
/// everything that is known of how the message was sent, as it is written in a log.
#[derive(Debug, PartialEq, Eq)]
pub struct Metadata {
    pub sender: String,
    pub timestamp: u64,
    pub details: String,
}

#[verifier::ext_equal]
pub struct MetadataView {
    pub sender: Seq<char>,
    pub timestamp: u64,
    pub details: Seq<char>,
}

impl View for Metadata {
    type V = MetadataView;

    open spec fn view(&self) -> MetadataView {
        MetadataView {
            sender: self.sender@,
            timestamp: self.timestamp,
            details: self.details@,
        }
    }
}

impl Clone for Metadata {
    fn clone(&self) -> (copy: Self)
        ensures
            copy@ == self@,
    {
        Metadata {
            sender: self.sender.clone(),
            timestamp: self.timestamp,
            details: self.details.clone(),
        }
    }
}

/// Where an attachment can be had. `encoded` is the whole pointer in the form in which the
/// network layer takes it; the other fields are the two that the bot reads.
#[derive(Debug, PartialEq, Eq)]
pub struct AttachmentPointer {
    pub content_type: Option<String>,
    pub file_name: Option<String>,
    pub encoded: Vec<u8>,
}

#[verifier::ext_equal]
pub struct AttachmentPointerView {
    pub content_type: Option<Seq<char>>,
    pub file_name: Option<Seq<char>>,
    pub encoded: Seq<u8>,
}

impl View for AttachmentPointer {
    type V = AttachmentPointerView;

    open spec fn view(&self) -> AttachmentPointerView {
        AttachmentPointerView {
            content_type: option_view(self.content_type),
            file_name: option_view(self.file_name),
            encoded: self.encoded@,
        }
    }
}

impl Clone for AttachmentPointer {
    fn clone(&self) -> (copy: Self)
        ensures
            copy@ == self@,
    {
        AttachmentPointer {
            content_type: clone_text(&self.content_type),
            file_name: clone_text(&self.file_name),
            encoded: copy_bytes(&self.encoded),
        }
    }
}

impl AttachmentPointerView {
    /// The content type, or the empty text where none is given.
    pub open spec fn media_type(self) -> Seq<char> {
        match self.content_type {
            Some(name) => name,
            None => Seq::empty(),
        }
    }
}

impl AttachmentPointer {
    /// The content type, or the empty text where none is given.
    pub fn content_type(&self) -> (name: &str)
        ensures
            name@ == self@.media_type(),
    {
        match &self.content_type {
            Some(name) => name.as_str(),
            None => {
                let empty = "";
                proof {
                    reveal_strlit("");
                }
                assert(empty@ =~= Seq::<char>::empty());
                empty
            },
        }
    }
}

/// The views of the attachments in a list.
pub open spec fn attachment_views(list: Seq<AttachmentPointer>) -> Seq<AttachmentPointerView> {
    list.map_values(|pointer: AttachmentPointer| pointer@)
}

/// A copy of a list of attachments.
pub fn clone_attachments(list: &Vec<AttachmentPointer>) -> (copy: Vec<AttachmentPointer>)
    ensures
        attachment_views(copy@) == attachment_views(list@),
{
    let mut copy: Vec<AttachmentPointer> = Vec::new();
    for i in 0..list.len()
        invariant
            copy@.len() == i,
            forall|k: int| 0 <= k < i ==> (#[trigger] copy@[k])@ == list@[k]@,
    {
        copy.push(list[i].clone());
    }
    assert(attachment_views(copy@) =~= attachment_views(list@));
    copy
}

/// The message that another message quotes: its author and its timestamp.
#[derive(Debug, PartialEq, Eq)]
pub struct Quote {
    pub id: Option<u64>,
    pub author_aci: Option<String>,
    pub rest: Vec<u8>,
}

#[verifier::ext_equal]
pub struct QuoteView {
    pub id: Option<u64>,
    pub author_aci: Option<Seq<char>>,
    pub rest: Seq<u8>,
}

impl View for Quote {
    type V = QuoteView;

    open spec fn view(&self) -> QuoteView {
        QuoteView {
            id: self.id,
            author_aci: option_view(self.author_aci),
            rest: self.rest@,
        }
    }
}

impl Clone for Quote {
    fn clone(&self) -> (copy: Self)
        ensures
            copy@ == self@,
    {
        Quote {
            id: self.id,
            author_aci: clone_text(&self.author_aci),
            rest: copy_bytes(&self.rest),
        }
    }
}

/// An emoji put on another message, which is known by its author and its timestamp.
#[derive(Debug, PartialEq, Eq)]
pub struct Reaction {
    pub emoji: Option<String>,
    pub target_author_aci: Option<String>,
    pub target_sent_timestamp: Option<u64>,
    pub rest: Vec<u8>,
}

#[verifier::ext_equal]
pub struct ReactionView {
    pub emoji: Option<Seq<char>>,
    pub target_author_aci: Option<Seq<char>>,
    pub target_sent_timestamp: Option<u64>,
    pub rest: Seq<u8>,
}

impl View for Reaction {
    type V = ReactionView;

    open spec fn view(&self) -> ReactionView {
        ReactionView {
            emoji: option_view(self.emoji),
            target_author_aci: option_view(self.target_author_aci),
            target_sent_timestamp: self.target_sent_timestamp,
            rest: self.rest@,
        }
    }
}

impl Clone for Reaction {
    fn clone(&self) -> (copy: Self)
        ensures
            copy@ == self@,
    {
        Reaction {
            emoji: clone_text(&self.emoji),
            target_author_aci: clone_text(&self.target_author_aci),
            target_sent_timestamp: self.target_sent_timestamp,
            rest: copy_bytes(&self.rest),
        }
    }
}

/// The group that a message belongs to.
#[derive(Debug, PartialEq, Eq)]
pub struct GroupContextV2 {
    pub master_key: Option<Vec<u8>>,
    pub revision: Option<u32>,
    pub rest: Vec<u8>,
}

#[verifier::ext_equal]
pub struct GroupContextV2View {
    pub master_key: Option<Seq<u8>>,
    pub revision: Option<u32>,
    pub rest: Seq<u8>,
}

impl View for GroupContextV2 {
    type V = GroupContextV2View;

    open spec fn view(&self) -> GroupContextV2View {
        GroupContextV2View {
            master_key: option_view(self.master_key),
            revision: self.revision,
            rest: self.rest@,
        }
    }
}

impl Clone for GroupContextV2 {
    fn clone(&self) -> (copy: Self)
        ensures
            copy@ == self@,
    {
        GroupContextV2 {
            master_key: clone_bytes(&self.master_key),
            revision: self.revision,
            rest: copy_bytes(&self.rest),
        }
    }
}

/// A message that a person wrote, or a reaction of theirs.
#[derive(Debug, PartialEq, Eq)]
pub struct DataMessage {
    pub body: Option<String>,
    pub attachments: Vec<AttachmentPointer>,
    pub group_v2: Option<GroupContextV2>,
    pub profile_key: Option<Vec<u8>>,
    pub timestamp: Option<u64>,
    pub quote: Option<Quote>,
    pub reaction: Option<Reaction>,
    pub rest: Vec<u8>,
}

#[verifier::ext_equal]
pub struct DataMessageView {
    pub body: Option<Seq<char>>,
    pub attachments: Seq<AttachmentPointerView>,
    pub group_v2: Option<GroupContextV2View>,
    pub profile_key: Option<Seq<u8>>,
    pub timestamp: Option<u64>,
    pub quote: Option<QuoteView>,
    pub reaction: Option<ReactionView>,
    pub rest: Seq<u8>,
}

impl View for DataMessage {
    type V = DataMessageView;

    open spec fn view(&self) -> DataMessageView {
        DataMessageView {
            body: option_view(self.body),
            attachments: attachment_views(self.attachments@),
            group_v2: option_view(self.group_v2),
            profile_key: option_view(self.profile_key),
            timestamp: self.timestamp,
            quote: option_view(self.quote),
            reaction: option_view(self.reaction),
            rest: self.rest@,
        }
    }
}

impl Clone for DataMessage {
    fn clone(&self) -> (copy: Self)
        ensures
            copy@ == self@,
    {
        DataMessage {
            body: clone_text(&self.body),
            attachments: clone_attachments(&self.attachments),
            group_v2: match &self.group_v2 {
                Some(group) => Some(group.clone()),
                None => None,
            },
            profile_key: clone_bytes(&self.profile_key),
            timestamp: self.timestamp,
            quote: match &self.quote {
                Some(quote) => Some(quote.clone()),
                None => None,
            },
            reaction: match &self.reaction {
                Some(reaction) => Some(reaction.clone()),
                None => None,
            },
            rest: copy_bytes(&self.rest),
        }
    }
}

impl DataMessageView {
    /// The message in which nothing is set.
    pub open spec fn empty() -> DataMessageView {
        DataMessageView {
            body: None,
            attachments: Seq::empty(),
            group_v2: None,
            profile_key: None,
            timestamp: None,
            quote: None,
            reaction: None,
            rest: Seq::empty(),
        }
    }

    /// The timestamp, or zero where none is given.
    pub open spec fn sent_at(self) -> u64 {
        match self.timestamp {
            Some(stamp) => stamp,
            None => 0,
        }
    }
}

impl Default for DataMessage {
    /// The message in which nothing is set.
    fn default() -> (message: Self)
        ensures
            message@ == DataMessageView::empty(),
    {
        let attachments: Vec<AttachmentPointer> = Vec::new();
        assert(attachment_views(attachments@) =~= Seq::<AttachmentPointerView>::empty());
        DataMessage {
            body: None,
            attachments,
            group_v2: None,
            profile_key: None,
            timestamp: None,
            quote: None,
            reaction: None,
            rest: Vec::new(),
        }
    }
}

impl DataMessage {
    /// The timestamp, or zero where none is given.
    pub fn timestamp(&self) -> (stamp: u64)
        ensures
            stamp == self@.sent_at(),
    {
        match self.timestamp {
            Some(stamp) => stamp,
            None => 0,
        }
    }
}

/// A message that another device of the same account sent.
#[derive(Debug, PartialEq, Eq)]
pub struct Sent {
    pub message: Option<DataMessage>,
    pub rest: Vec<u8>,
}

#[verifier::ext_equal]
pub struct SentView {
    pub message: Option<DataMessageView>,
    pub rest: Seq<u8>,
}

impl View for Sent {
    type V = SentView;

    open spec fn view(&self) -> SentView {
        SentView { message: option_view(self.message), rest: self.rest@ }
    }
}

impl Clone for Sent {
    fn clone(&self) -> (copy: Self)
        ensures
            copy@ == self@,
    {
        Sent {
            message: match &self.message {
                Some(message) => Some(message.clone()),
                None => None,
            },
            rest: copy_bytes(&self.rest),
        }
    }
}

/// A report from another device of the same account.
#[derive(Debug, PartialEq, Eq)]
pub struct SyncMessage {
    pub sent: Option<Sent>,
    pub padding: Option<Vec<u8>>,
    pub rest: Vec<u8>,
}

#[verifier::ext_equal]
pub struct SyncMessageView {
    pub sent: Option<SentView>,
    pub padding: Option<Seq<u8>>,
    pub rest: Seq<u8>,
}

impl View for SyncMessage {
    type V = SyncMessageView;

    open spec fn view(&self) -> SyncMessageView {
        SyncMessageView {
            sent: option_view(self.sent),
            padding: option_view(self.padding),
            rest: self.rest@,
        }
    }
}

impl Clone for SyncMessage {
    fn clone(&self) -> (copy: Self)
        ensures
            copy@ == self@,
    {
        SyncMessage {
            sent: match &self.sent {
                Some(sent) => Some(sent.clone()),
                None => None,
            },
            padding: clone_bytes(&self.padding),
            rest: copy_bytes(&self.rest),
        }
    }
}

/// What a message holds. `Other` is everything that the bot does not look into, such as receipts,
/// typing notices and calls, as a whole and in the form in which the network layer takes it.
#[derive(Debug, PartialEq, Eq)]
pub enum ContentBody {
    DataMessage(DataMessage),
    SynchronizeMessage(SyncMessage),
    Other(Vec<u8>),
}

#[verifier::ext_equal]
pub enum ContentBodyView {
    DataMessage(DataMessageView),
    SynchronizeMessage(SyncMessageView),
    Other(Seq<u8>),
}

impl View for ContentBody {
    type V = ContentBodyView;

    open spec fn view(&self) -> ContentBodyView {
        match self {
            ContentBody::DataMessage(message) => ContentBodyView::DataMessage(message@),
            ContentBody::SynchronizeMessage(sync) => ContentBodyView::SynchronizeMessage(sync@),
            ContentBody::Other(encoded) => ContentBodyView::Other(encoded@),
        }
    }
}

impl Clone for ContentBody {
    fn clone(&self) -> (copy: Self)
        ensures
            copy@ == self@,
    {
        match self {
            ContentBody::DataMessage(message) => ContentBody::DataMessage(message.clone()),
            ContentBody::SynchronizeMessage(sync) => ContentBody::SynchronizeMessage(sync.clone()),
            ContentBody::Other(encoded) => ContentBody::Other(copy_bytes(encoded)),
        }
    }
}

/// A message with who sent it and when, and the conversation that it belongs to, if one can be
/// told from it.
#[derive(Debug, PartialEq, Eq)]
pub struct Content {
    pub metadata: Metadata,
    pub thread: Option<Thread>,
    pub body: ContentBody,
}

#[verifier::ext_equal]
pub struct ContentView {
    pub metadata: MetadataView,
    pub thread: Option<Thread>,
    pub body: ContentBodyView,
}

impl View for Content {
    type V = ContentView;

    open spec fn view(&self) -> ContentView {
        ContentView { metadata: self.metadata@, thread: self.thread, body: self.body@ }
    }
}

impl Clone for Content {
    fn clone(&self) -> (copy: Self)
        ensures
            copy@ == self@,
    {
        Content { metadata: self.metadata.clone(), thread: self.thread, body: self.body.clone() }
    }
}

impl ContentView {
    /// What a person wrote: the message itself, or the one that another device reports as sent.
    pub open spec fn data_message(self) -> Option<DataMessageView> {
        match self.body {
            ContentBodyView::DataMessage(message) => Some(message),
            ContentBodyView::SynchronizeMessage(sync) => match sync.sent {
                Some(sent) => sent.message,
                None => None,
            },
            ContentBodyView::Other(_) => None,
        }
    }
}

impl Content {
    /// What a person wrote: the message itself, or the one that another device reports as sent.
    pub fn datamessage(&self) -> (message: Option<&DataMessage>)
        ensures
            option_view(message) == self@.data_message(),
    {
        match &self.body {
            ContentBody::SynchronizeMessage(
                SyncMessage { sent: Some(Sent { message: Some(message), .. }), .. },
            )
            | ContentBody::DataMessage(message) => Some(message),
            _ => None,
        }
    }
}

/// The view of an optional value is the view of what it holds, if it holds anything.
pub proof fn law_what_is_optional_is_told(text: Option<String>, bytes: Option<Vec<u8>>)
    ensures
        option_view(text) == (match text {
            Some(inner) => Some(inner@),
            None => None,
        }),
        option_view(bytes) == (match bytes {
            Some(inner) => Some(inner@),
            None => None,
        }),
{
}

/// The views of a message's parts tell every field as it is.
pub proof fn law_views_tell_the_parts(
    metadata: Metadata,
    pointer: AttachmentPointer,
    quote: Quote,
    reaction: Reaction,
    group: GroupContextV2,
)
    ensures
        metadata@.sender == metadata.sender@,
        metadata@.timestamp == metadata.timestamp,
        metadata@.details == metadata.details@,
        pointer@.content_type == (match pointer.content_type {
            Some(inner) => Some(inner@),
            None => None,
        }),
        pointer@.file_name == (match pointer.file_name {
            Some(inner) => Some(inner@),
            None => None,
        }),
        pointer@.encoded == pointer.encoded@,
        quote@.id == quote.id,
        quote@.author_aci == (match quote.author_aci {
            Some(inner) => Some(inner@),
            None => None,
        }),
        quote@.rest == quote.rest@,
        reaction@.emoji == (match reaction.emoji {
            Some(inner) => Some(inner@),
            None => None,
        }),
        reaction@.target_author_aci == (match reaction.target_author_aci {
            Some(inner) => Some(inner@),
            None => None,
        }),
        reaction@.target_sent_timestamp == reaction.target_sent_timestamp,
        reaction@.rest == reaction.rest@,
        group@.master_key == (match group.master_key {
            Some(inner) => Some(inner@),
            None => None,
        }),
        group@.revision == group.revision,
        group@.rest == group.rest@,
{
}

/// The views of messages tell every field as it is, down to each attachment.
pub proof fn law_views_tell_the_messages(
    message: DataMessage,
    sent: Sent,
    sync: SyncMessage,
    content: Content,
)
    ensures
        message@.body == (match message.body {
            Some(inner) => Some(inner@),
            None => None,
        }),
        message@.attachments.len() == message.attachments@.len(),
        forall|i: int|
            0 <= i < message.attachments@.len() ==> (#[trigger] message@.attachments[i])
                == message.attachments@[i]@,
        message@.group_v2 == (match message.group_v2 {
            Some(inner) => Some(inner@),
            None => None,
        }),
        message@.profile_key == (match message.profile_key {
            Some(inner) => Some(inner@),
            None => None,
        }),
        message@.timestamp == message.timestamp,
        message@.quote == (match message.quote {
            Some(inner) => Some(inner@),
            None => None,
        }),
        message@.reaction == (match message.reaction {
            Some(inner) => Some(inner@),
            None => None,
        }),
        message@.rest == message.rest@,
        sent@.message == (match sent.message {
            Some(inner) => Some(inner@),
            None => None,
        }),
        sent@.rest == sent.rest@,
        sync@.sent == (match sync.sent {
            Some(inner) => Some(inner@),
            None => None,
        }),
        sync@.padding == (match sync.padding {
            Some(inner) => Some(inner@),
            None => None,
        }),
        sync@.rest == sync.rest@,
        content@.metadata == content.metadata@,
        content@.thread == content.thread,
        content@.body == (match content.body {
            ContentBody::DataMessage(inner) => ContentBodyView::DataMessage(inner@),
            ContentBody::SynchronizeMessage(inner) => ContentBodyView::SynchronizeMessage(inner@),
            ContentBody::Other(encoded) => ContentBodyView::Other(encoded@),
        }),
{
}

/// What a person wrote is the message itself, or the one that another device reports as sent, and
/// its timestamp is the one that it carries, or zero.
pub proof fn law_what_a_person_wrote(
    content: Content,
    found: Option<&DataMessage>,
    message: DataMessage,
    stamp: u64,
)
    requires
        call_ensures(Content::datamessage, (&content,), found),
        call_ensures(DataMessage::timestamp, (&message,), stamp),
    ensures
        match content.body {
            ContentBody::DataMessage(inner) => found is Some && found->0@ == inner@,
            ContentBody::SynchronizeMessage(sync) => if sync.sent is Some
                && sync.sent->0.message is Some {
                found is Some && found->0@ == sync.sent->0.message->0@
            } else {
                found is None
            },
            ContentBody::Other(_) => found is None,
        },
        message.timestamp is Some ==> stamp == message.timestamp->0,
        message.timestamp is None ==> stamp == 0,
{
}

/// An attachment's content type is the one that it carries, or the empty text.
pub proof fn law_the_content_type(pointer: AttachmentPointer, name: &str)
    requires
        call_ensures(AttachmentPointer::content_type, (&pointer,), name),
    ensures
        pointer.content_type is Some ==> name@ == pointer.content_type->0@,
        pointer.content_type is None ==> name@.len() == 0,
{
}

/// In a new message nothing is set.
pub proof fn law_nothing_is_set_in_a_new_message(message: DataMessage)
    requires
        call_ensures(<DataMessage as Default>::default, (), message),
    ensures
        message.body is None,
        message.attachments@.len() == 0,
        message.group_v2 is None,
        message.profile_key is None,
        message.timestamp is None,
        message.quote is None,
        message.reaction is None,
        message.rest@.len() == 0,
{
    assert(message@.attachments.len() == message.attachments@.len());
}

} // verus!
