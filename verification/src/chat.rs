//! Chats, and a chat together with its members and its last message.

use vstd::prelude::*;
use vstd::string::*;
use crate::entities::{name_or_unnamed, spec_name_or_unnamed, PbUuid, User};
use crate::ids::{ChatId, UserId};
use crate::message::Message;
use crate::paths::{is_absolute, path_join, DatasetRoot};
use crate::text::{decimal, decimal_string, text_opt};

verus! {

/// Why an entity could not be built from what was given.
#[derive(Clone, Copy, Debug, PartialEq, Eq, Structural)]
pub enum EntityError {
    /// The number is the tag of no variant.
    NoSuchVariant(i32),
    /// The chat with details came without its chat.
    ChatMissing,
}

/// A closed set of variants, each with a numeric tag.
pub trait EnumResolve: Sized {
    /// The variant with the tag `tpe`, if there is one.
    spec fn spec_resolve(tpe: i32) -> Option<Self>;

    /// The variant with the tag `tpe`. It is an error for no variant to have
    /// that tag.
    fn resolve(tpe: i32) -> (variant: Result<Self, EntityError>)
        ensures
            variant == (match Self::spec_resolve(tpe) {
                Some(v) => Ok::<Self, EntityError>(v),
                None => Err::<Self, EntityError>(EntityError::NoSuchVariant(tpe)),
            }),
    ;
}

/// The kind of source that a chat was loaded from.
#[derive(Clone, Copy, Debug, PartialEq, Eq, Hash, Structural)]
pub enum SourceType {
    TextImport,
    Telegram,
    WhatsappDb,
    TinderDb,
}

impl SourceType {
    /// The numeric tag of the variant.
    pub open spec fn spec_tag(self) -> i32 {
        match self {
            SourceType::TextImport => 0,
            SourceType::Telegram => 1,
            SourceType::WhatsappDb => 2,
            SourceType::TinderDb => 3,
        }
    }

    /// The numeric tag of the variant.
    pub fn tag(self) -> (tag: i32)
        ensures
            tag == self.spec_tag(),
            Self::spec_resolve(tag) == Some(self),
    {
        match self {
            SourceType::TextImport => 0,
            SourceType::Telegram => 1,
            SourceType::WhatsappDb => 2,
            SourceType::TinderDb => 3,
        }
    }
}

impl EnumResolve for SourceType {
    open spec fn spec_resolve(tpe: i32) -> Option<Self> {
        if tpe == 0 {
            Some(SourceType::TextImport)
        } else if tpe == 1 {
            Some(SourceType::Telegram)
        } else if tpe == 2 {
            Some(SourceType::WhatsappDb)
        } else if tpe == 3 {
            Some(SourceType::TinderDb)
        } else {
            None
        }
    }

    fn resolve(tpe: i32) -> (variant: Result<Self, EntityError>) {
        if tpe == 0 {
            Ok(SourceType::TextImport)
        } else if tpe == 1 {
            Ok(SourceType::Telegram)
        } else if tpe == 2 {
            Ok(SourceType::WhatsappDb)
        } else if tpe == 3 {
            Ok(SourceType::TinderDb)
        } else {
            Err(EntityError::NoSuchVariant(tpe))
        }
    }
}

/// Whether a chat is between two people or a group.
#[derive(Clone, Copy, Debug, PartialEq, Eq, Hash, Structural)]
pub enum ChatType {
    Personal,
    PrivateGroup,
}

impl ChatType {
    /// The numeric tag of the variant.
    pub open spec fn spec_tag(self) -> i32 {
        match self {
            ChatType::Personal => 0,
            ChatType::PrivateGroup => 1,
        }
    }

    /// The numeric tag of the variant.
    pub fn tag(self) -> (tag: i32)
        ensures
            tag == self.spec_tag(),
            Self::spec_resolve(tag) == Some(self),
    {
        match self {
            ChatType::Personal => 0,
            ChatType::PrivateGroup => 1,
        }
    }
}

impl EnumResolve for ChatType {
    open spec fn spec_resolve(tpe: i32) -> Option<Self> {
        if tpe == 0 {
            Some(ChatType::Personal)
        } else if tpe == 1 {
            Some(ChatType::PrivateGroup)
        } else {
            None
        }
    }

    fn resolve(tpe: i32) -> (variant: Result<Self, EntityError>) {
        if tpe == 0 {
            Ok(ChatType::Personal)
        } else if tpe == 1 {
            Ok(ChatType::PrivateGroup)
        } else {
            Err(EntityError::NoSuchVariant(tpe))
        }
    }
}

/// A chat of a dataset.
#[derive(Clone, Debug, PartialEq, Eq)]
pub struct Chat {
    pub ds_uuid: PbUuid,
    pub id: i64,
    pub name_option: Option<String>,
    pub source_type: SourceType,
    pub tpe: ChatType,
    /// Relative to the dataset root.
    pub img_path_option: Option<String>,
    pub member_ids: Vec<i64>,
    pub msg_count: i32,
    /// For a chat that is a fragment of a larger one: the larger one.
    pub main_chat_id: Option<i64>,
}

impl Chat {
    pub fn ds_uuid(&self) -> (uuid: &PbUuid)
        ensures
            *uuid == self.ds_uuid,
    {
        &self.ds_uuid
    }

    pub fn id(&self) -> (id: ChatId)
        ensures
            id.0 == self.id,
    {
        ChatId(self.id)
    }

    /// The name of the chat in quotes, followed by its identifier in
    /// brackets after a hash sign.
    pub open spec fn spec_qualified_name(&self) -> Seq<char> {
        "'"@ + spec_name_or_unnamed(text_opt(self.name_option)) + "' (#"@ + decimal(self.id as int)
            + ")"@
    }

    pub fn qualified_name(&self) -> (name: String)
        ensures
            name@ == self.spec_qualified_name(),
    {
        let mut name = "'".to_owned();
        name.append(name_or_unnamed(&self.name_option).as_str());
        name.append("' (#");
        name.append(decimal_string(self.id).as_str());
        name.append(")");
        name
    }

    /// The identifiers of the members, in the order in which the chat holds
    /// them.
    pub fn member_ids(&self) -> (ids: Vec<UserId>)
        ensures
            ids.len() == self.member_ids.len(),
            forall|i: int| 0 <= i < ids.len() ==> (#[trigger] ids[i]).0 == self.member_ids[i],
    {
        let mut ids: Vec<UserId> = Vec::new();
        let mut i: usize = 0;
        while i < self.member_ids.len()
            invariant
                i <= self.member_ids.len(),
                ids.len() == i,
                forall|j: int| 0 <= j < i ==> (#[trigger] ids[j]).0 == self.member_ids[j],
            decreases self.member_ids.len() - i,
        {
            ids.push(UserId(self.member_ids[i]));
            i += 1;
        }
        ids
    }

    /// The absolute path of the image of the chat, if it has one. The stored
    /// path has to be relative.
    pub fn get_img_path_option(&self, ds_root: &DatasetRoot) -> (path: Option<String>)
        requires
            self.img_path_option matches Some(p) ==> !is_absolute(p@),
        ensures
            text_opt(path) == (match self.img_path_option {
                Some(p) => Some(path_join(ds_root.text(), p@)),
                None => None,
            }),
    {
        match &self.img_path_option {
            Some(p) => Some(ds_root.to_absolute(p.as_str())),
            None => None,
        }
    }
}

/// A chat as it is shown: with its last message and its members. The first
/// member is the owner of the dataset; whoever builds the value sees to that.
#[derive(Clone, Debug, PartialEq, Eq)]
pub struct ChatWithDetails {
    pub chat: Chat,
    pub last_msg_option: Option<Message>,
    pub members: Vec<User>,
}

/// A chat with details as it travels: the chat itself may be missing.
#[derive(Clone, Debug, PartialEq, Eq)]
pub struct ChatWithDetailsPb {
    pub chat: Option<Chat>,
    pub last_msg_option: Option<Message>,
    pub members: Vec<User>,
}

/// Whether `index` is the first member of `members` whose pretty name is
/// `name`.
pub open spec fn is_first_named(members: Seq<User>, name: Seq<char>, index: int) -> bool {
    &&& 0 <= index < members.len()
    &&& members[index].spec_pretty_name() == name
    &&& forall|j: int| 0 <= j < index ==> (#[trigger] members[j]).spec_pretty_name() != name
}

/// Whether no member of `members` has the pretty name `name`.
pub open spec fn none_named(members: Seq<User>, name: Seq<char>) -> bool {
    forall|j: int| 0 <= j < members.len() ==> (#[trigger] members[j]).spec_pretty_name() != name
}

impl ChatWithDetails {
    pub fn ds_uuid(&self) -> (uuid: &PbUuid)
        ensures
            *uuid == self.chat.ds_uuid,
    {
        &self.chat.ds_uuid
    }

    pub fn id(&self) -> (id: ChatId)
        ensures
            id.0 == self.chat.id,
    {
        ChatId(self.chat.id)
    }

    /// The position of the first member whose pretty name is exactly
    /// `member_name`; nothing if no member has that name.
    pub fn resolve_member_index(&self, member_name: &str) -> (index: Option<usize>)
        ensures
            match index {
                Some(i) => is_first_named(self.members@, member_name@, i as int),
                None => none_named(self.members@, member_name@),
            },
    {
        let wanted = member_name.to_owned();
        let mut i: usize = 0;
        while i < self.members.len()
            invariant
                i <= self.members.len(),
                wanted@ == member_name@,
                forall|j: int|
                    0 <= j < i ==> (#[trigger] self.members@[j]).spec_pretty_name()
                        != member_name@,
            decreases self.members.len() - i,
        {
            if self.members[i].pretty_name() == wanted {
                return Some(i);
            }
            i += 1;
        }
        None
    }

    /// The first member whose pretty name is exactly `member_name`; nothing
    /// if no member has that name.
    pub fn resolve_member(&self, member_name: &str) -> (member: Option<&User>)
        ensures
            match member {
                Some(user) => exists|i: int|
                    is_first_named(self.members@, member_name@, i) && *user == self.members@[i],
                None => none_named(self.members@, member_name@),
            },
    {
        match self.resolve_member_index(member_name) {
            Some(i) => Some(&self.members[i]),
            None => None,
        }
    }

    /// For each name, in order, the member that `resolve_member` finds.
    pub fn resolve_members(&self, member_names: &[String]) -> (members: Vec<Option<&User>>)
        ensures
            members.len() == member_names.len(),
            forall|k: int|
                0 <= k < members.len() ==> match #[trigger] members[k] {
                    Some(user) => exists|i: int|
                        is_first_named(self.members@, member_names[k]@, i) && *user
                            == self.members@[i],
                    None => none_named(self.members@, member_names[k]@),
                },
    {
        let mut members: Vec<Option<&User>> = Vec::new();
        let mut k: usize = 0;
        while k < member_names.len()
            invariant
                k <= member_names.len(),
                members.len() == k,
                forall|n: int|
                    0 <= n < k ==> match #[trigger] members[n] {
                        Some(user) => exists|i: int|
                            is_first_named(self.members@, member_names[n]@, i) && *user
                                == self.members@[i],
                        None => none_named(self.members@, member_names[n]@),
                    },
            decreases member_names.len() - k,
        {
            members.push(self.resolve_member(member_names[k].as_str()));
            k += 1;
        }
        members
    }
}

impl TryFrom<ChatWithDetailsPb> for ChatWithDetails {
    type Error = EntityError;

    /// The chat with details that `value` carries. It is an error for
    /// `value` to come without its chat.
    fn try_from(value: ChatWithDetailsPb) -> (details: Result<ChatWithDetails, EntityError>) {
        match value.chat {
            Some(chat) => Ok(
                ChatWithDetails {
                    chat,
                    last_msg_option: value.last_msg_option,
                    members: value.members,
                },
            ),
            None => Err(EntityError::ChatMissing),
        }
    }
}

impl vstd::std_specs::convert::TryFromSpecImpl<ChatWithDetailsPb> for ChatWithDetails {
    open spec fn obeys_try_from_spec() -> bool {
        true
    }

    open spec fn try_from_spec(value: ChatWithDetailsPb) -> Result<ChatWithDetails, EntityError> {
        match value.chat {
            Some(chat) => Ok(
                ChatWithDetails {
                    chat,
                    last_msg_option: value.last_msg_option,
                    members: value.members,
                },
            ),
            None => Err(EntityError::ChatMissing),
        }
    }
}

impl From<ChatWithDetails> for ChatWithDetailsPb {
    /// The form in which the chat with details travels.
    fn from(value: ChatWithDetails) -> (pb: ChatWithDetailsPb) {
        ChatWithDetailsPb {
            chat: Some(value.chat),
            last_msg_option: value.last_msg_option,
            members: value.members,
        }
    }
}

impl vstd::std_specs::convert::FromSpecImpl<ChatWithDetails> for ChatWithDetailsPb {
    open spec fn obeys_from_spec() -> bool {
        true
    }

    open spec fn from_spec(value: ChatWithDetails) -> ChatWithDetailsPb {
        ChatWithDetailsPb {
            chat: Some(value.chat),
            last_msg_option: value.last_msg_option,
            members: value.members,
        }
    }
}

/// Sending a chat with details and taking it back gives the same value.
pub proof fn lemma_pb_round_trip(details: ChatWithDetails)
    ensures
        <ChatWithDetails as vstd::std_specs::convert::TryFromSpec<
            ChatWithDetailsPb,
        >>::try_from_spec(
            <ChatWithDetailsPb as vstd::std_specs::convert::FromSpec<ChatWithDetails>>::from_spec(
                details,
            ),
        ) == Ok::<ChatWithDetails, EntityError>(details),
{
}

/// A chat with the messages that were loaded for it.
#[derive(Clone, Debug, PartialEq, Eq)]
pub struct ChatWithMessages {
    pub chat: Option<Chat>,
    pub messages: Vec<Message>,
}

} // verus!
