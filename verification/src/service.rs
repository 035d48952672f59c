//! Events that a chat records between the messages of its members.

use vstd::prelude::*;
use crate::content::ContentPhoto;
use crate::text::{push_all, push_part, text_opt, texts, texts_of, with_part};

verus! {

/// A system event: exactly one of the kinds below, with what is needed to
/// show it.
#[derive(Clone, Debug, PartialEq, Eq)]
pub enum MessageService {
    PhoneCall { duration_sec_option: Option<i32>, discard_reason_option: Option<String> },
    SuggestProfilePhoto { photo: ContentPhoto },
    PinMessage { message_id: i64 },
    ClearHistory,
    BlockUser { is_blocked: bool },
    StatusTextChanged,
    Notice,
    GroupCreate { title: String, members: Vec<String> },
    GroupEditTitle { title: String },
    GroupEditPhoto { photo: ContentPhoto },
    GroupDeletePhoto,
    GroupInviteMembers { members: Vec<String> },
    GroupRemoveMembers { members: Vec<String> },
    GroupMigrateFrom { title: String },
    GroupMigrateTo,
    GroupCall { members: Vec<String> },
}

impl MessageService {
    /// The paths of the files that the event refers to, relative to the
    /// dataset root.
    pub open spec fn spec_files(&self) -> Seq<Seq<char>> {
        match self {
            MessageService::SuggestProfilePhoto { photo } => with_part(
                Seq::empty(),
                text_opt(photo.path_option),
            ),
            MessageService::GroupEditPhoto { photo } => with_part(
                Seq::empty(),
                text_opt(photo.path_option),
            ),
            _ => Seq::empty(),
        }
    }

    /// The pieces of text by which the event is found: the title and the
    /// members of a created group, the members invited, removed or called,
    /// the title of the group that a chat was migrated from.
    pub open spec fn spec_searchable_parts(&self) -> Seq<Seq<char>> {
        match self {
            MessageService::GroupCreate { title, members } => seq![title@] + texts(members@),
            MessageService::GroupInviteMembers { members } => texts(members@),
            MessageService::GroupRemoveMembers { members } => texts(members@),
            MessageService::GroupMigrateFrom { title } => seq![title@],
            MessageService::GroupCall { members } => texts(members@),
            _ => Seq::empty(),
        }
    }

    /// The paths of the files that the event refers to.
    pub fn files<'a>(&'a self) -> (files: Vec<&'a str>)
        ensures
            texts_of(files@) == self.spec_files(),
    {
        let mut files: Vec<&str> = Vec::new();
        match self {
            MessageService::SuggestProfilePhoto { photo } => {
                push_part(&mut files, &photo.path_option);
            },
            MessageService::GroupEditPhoto { photo } => {
                push_part(&mut files, &photo.path_option);
            },
            _ => {},
        }
        files
    }

    /// The pieces of text by which the event is found.
    pub fn searchable_parts<'a>(&'a self) -> (parts: Vec<&'a str>)
        ensures
            texts_of(parts@) == self.spec_searchable_parts(),
    {
        let mut parts: Vec<&str> = Vec::new();
        match self {
            MessageService::GroupCreate { title, members } => {
                parts.push(title.as_str());
                push_all(&mut parts, members);
            },
            MessageService::GroupInviteMembers { members } => {
                push_all(&mut parts, members);
            },
            MessageService::GroupRemoveMembers { members } => {
                push_all(&mut parts, members);
            },
            MessageService::GroupMigrateFrom { title } => {
                parts.push(title.as_str());
            },
            MessageService::GroupCall { members } => {
                push_all(&mut parts, members);
            },
            _ => {},
        }
        parts
    }
}

} // verus!
