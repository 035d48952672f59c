//! Messages, and the string by which a message is found.

use vstd::prelude::*;
use crate::content::Content;
use crate::ids::{MessageInternalId, Timestamp, UserId};
use crate::paths::{is_absolute, path_join, DatasetRoot};
use crate::rich_text::RichTextElement;
use crate::service::MessageService;
use crate::text::{
    join_texts, joined, lemma_normalized_is_trimmed, lemma_trimmed_of_blank, nonempty,
    normalize_searchable_string, normalized, push_nonempty, texts_of, trim, trimmed, white_space,
    with_nonempty,
};

verus! {

/// What a member of the chat wrote or sent.
#[derive(Clone, Debug, PartialEq, Eq)]
pub struct MessageRegular {
    pub edit_timestamp_option: Option<i64>,
    pub is_deleted: bool,
    pub forward_from_name_option: Option<String>,
    pub reply_to_message_id_option: Option<i64>,
    pub content_option: Option<Content>,
}

/// The payload of a message: what a member sent, or an event of the chat.
#[derive(Clone, Debug, PartialEq, Eq)]
pub enum Typed {
    Regular(MessageRegular),
    Service(MessageService),
}

impl Typed {
    /// The paths of the files that the payload refers to, relative to the
    /// dataset root.
    pub open spec fn spec_files(&self) -> Seq<Seq<char>> {
        match self {
            Typed::Regular(regular) => match regular.content_option {
                Some(content) => content@.files(),
                None => Seq::empty(),
            },
            Typed::Service(service) => service.spec_files(),
        }
    }

    /// The pieces of text by which the payload is found.
    pub open spec fn spec_searchable_parts(&self) -> Seq<Seq<char>> {
        match self {
            Typed::Regular(regular) => match regular.content_option {
                Some(content) => content@.searchable_parts(),
                None => Seq::empty(),
            },
            Typed::Service(service) => service.spec_searchable_parts(),
        }
    }

    /// The paths of the files that the payload refers to.
    pub fn files<'a>(&'a self) -> (files: Vec<&'a str>)
        ensures
            texts_of(files@) == self.spec_files(),
    {
        match self {
            Typed::Regular(regular) => match &regular.content_option {
                Some(content) => content.files(),
                None => {
                    let files: Vec<&str> = Vec::new();
                    files
                },
            },
            Typed::Service(service) => service.files(),
        }
    }

    /// The pieces of text by which the payload is found.
    pub fn searchable_parts<'a>(&'a self) -> (parts: Vec<&'a str>)
        ensures
            texts_of(parts@) == self.spec_searchable_parts(),
    {
        match self {
            Typed::Regular(regular) => match &regular.content_option {
                Some(content) => content.searchable_parts(),
                None => {
                    let parts: Vec<&str> = Vec::new();
                    parts
                },
            },
            Typed::Service(service) => service.searchable_parts(),
        }
    }
}

/// The searchable strings of the elements of a text.
pub open spec fn element_texts(components: Seq<RichTextElement>) -> Seq<Seq<char>> {
    Seq::new(components.len(), |i: int| components[i].searchable_string@)
}

/// The searchable strings of the elements that have one, joined by spaces.
pub open spec fn joined_element_texts(components: Seq<RichTextElement>) -> Seq<char> {
    joined(nonempty(element_texts(components)), " "@)
}

/// The string by which a message is found: the searchable strings of its
/// text, then the pieces that its payload adds, joined by single spaces,
/// and the whole normalised: each run of separators, of invisible
/// formatting characters and of newlines is one space, and no white space
/// stands at either end.
pub open spec fn spec_searchable_string(components: Seq<RichTextElement>, typed: Typed) -> Seq<
    char,
> {
    let text = trimmed(joined_element_texts(components));
    let payload = trimmed(joined(typed.spec_searchable_parts(), " "@));
    let both = with_nonempty(with_nonempty(Seq::empty(), text), payload);
    normalized(joined(both, " "@))
}

proof fn lemma_nonempty_of_empties(parts: Seq<Seq<char>>)
    requires
        forall|i: int| 0 <= i < parts.len() ==> (#[trigger] parts[i]).len() == 0,
    ensures
        nonempty(parts) == Seq::<Seq<char>>::empty(),
    decreases parts.len(),
{
    if parts.len() > 0 {
        let shorter = parts.drop_last();
        lemma_nonempty_of_empties(shorter);
    }
}

proof fn lemma_joined_empties_is_blank(parts: Seq<Seq<char>>)
    requires
        forall|i: int| 0 <= i < parts.len() ==> (#[trigger] parts[i]).len() == 0,
    ensures
        forall|k: int|
            0 <= k < joined(parts, " "@).len() ==> white_space(#[trigger] joined(parts, " "@)[k]),
    decreases parts.len(),
{
    reveal_strlit(" ");
    if parts.len() > 1 {
        let shorter = parts.drop_last();
        lemma_joined_empties_is_blank(shorter);
        assert(joined(parts, " "@) =~= joined(shorter, " "@).push(' '));
    }
}

/// A message whose text has nothing to be found by, and whose payload adds
/// nothing but empty pieces, is found by the empty string: so it is with a
/// sticker without text whose emoji is absent or empty.
pub proof fn lemma_nothing_to_find(components: Seq<RichTextElement>, typed: Typed)
    requires
        forall|i: int|
            0 <= i < components.len() ==> (#[trigger] components[i]).searchable_string@.len() == 0,
        forall|i: int|
            0 <= i < typed.spec_searchable_parts().len() ==> (
            #[trigger] typed.spec_searchable_parts()[i]).len() == 0,
    ensures
        spec_searchable_string(components, typed) == Seq::<char>::empty(),
{
    lemma_nonempty_of_empties(element_texts(components));
    lemma_joined_empties_is_blank(typed.spec_searchable_parts());
    lemma_trimmed_of_blank(joined(typed.spec_searchable_parts(), " "@));
    lemma_trimmed_of_blank(joined_element_texts(components));
}

/// The string by which a message is found neither starts nor ends with
/// white space.
pub proof fn lemma_searchable_string_is_trimmed(components: Seq<RichTextElement>, typed: Typed)
    ensures
        ({
            let found_by = spec_searchable_string(components, typed);
            found_by.len() > 0 ==> !white_space(found_by.first()) && !white_space(found_by.last())
        }),
{
    let text = trimmed(joined_element_texts(components));
    let payload = trimmed(joined(typed.spec_searchable_parts(), " "@));
    lemma_normalized_is_trimmed(
        joined(with_nonempty(with_nonempty(Seq::empty(), text), payload), " "@),
    );
}

/// The searchable strings of the elements that have one, joined by spaces.
pub fn join_element_texts(components: &[RichTextElement]) -> (text: String)
    ensures
        text@ == joined_element_texts(components@),
{
    let mut parts: Vec<&str> = Vec::new();
    let mut i: usize = 0;
    while i < components.len()
        invariant
            i <= components.len(),
            texts_of(parts@) == nonempty(element_texts(components@).take(i as int)),
        decreases components.len() - i,
    {
        push_nonempty(&mut parts, components[i].searchable_string.as_str());
        proof {
            let all = element_texts(components@);
            assert(all.take(i + 1).drop_last() =~= all.take(i as int));
        }
        i += 1;
    }
    assert(element_texts(components@).take(components.len() as int) =~= element_texts(
        components@,
    ));
    join_texts(&parts, " ")
}

/// Derives the string by which a message with this text and payload is
/// found.
pub fn make_searchable_string(components: &[RichTextElement], typed: &Typed) -> (text: String)
    ensures
        text@ == spec_searchable_string(components@, *typed),
{
    let joined_text = join_element_texts(components);
    let typed_parts = typed.searchable_parts();
    let typed_text = join_texts(&typed_parts, " ");
    let text = trim(joined_text.as_str());
    let payload = trim(typed_text.as_str());
    let mut both: Vec<&str> = Vec::new();
    assert(texts_of(both@) =~= Seq::<Seq<char>>::empty());
    push_nonempty(&mut both, text.as_str());
    push_nonempty(&mut both, payload.as_str());
    let all = join_texts(&both, " ");
    normalize_searchable_string(all.as_str())
}

/// A message of a chat.
#[derive(Clone, Debug, PartialEq, Eq)]
pub struct Message {
    /// Given while the chat is loaded: dense and zero-based within the chat.
    pub internal_id: i64,
    /// Given by the source: stable across loads.
    pub source_id_option: Option<i64>,
    pub timestamp: i64,
    pub from_id: i64,
    pub text: Vec<RichTextElement>,
    pub searchable_string: String,
    pub typed: Typed,
}

impl Message {
    /// A message with the given fields, and with the searchable string that
    /// its text and payload give.
    pub fn new(
        internal_id: i64,
        source_id_option: Option<i64>,
        timestamp: i64,
        from_id: UserId,
        text: Vec<RichTextElement>,
        typed: Typed,
    ) -> (message: Message)
        ensures
            message.internal_id == internal_id,
            message.source_id_option == source_id_option,
            message.timestamp == timestamp,
            message.from_id == from_id.0,
            message.text == text,
            message.typed == typed,
            message.searchable_string@ == spec_searchable_string(text@, typed),
    {
        let searchable_string = make_searchable_string(text.as_slice(), &typed);
        Message {
            internal_id,
            source_id_option,
            timestamp,
            from_id: from_id.0,
            text,
            searchable_string,
            typed,
        }
    }

    pub fn internal_id(&self) -> (id: MessageInternalId)
        ensures
            id.0 == self.internal_id,
    {
        MessageInternalId(self.internal_id)
    }

    pub fn timestamp(&self) -> (timestamp: Timestamp)
        ensures
            timestamp.0 == self.timestamp,
    {
        Timestamp(self.timestamp)
    }

    pub fn typed(&self) -> (typed: &Typed)
        ensures
            *typed == self.typed,
    {
        &self.typed
    }

    pub fn typed_mut(&mut self) -> (typed: &mut Typed)
        ensures
            *typed == old(self).typed,
            *final(self) == (Message { typed: *final(typed), ..*old(self) }),
    {
        &mut self.typed
    }

    /// The paths of the files that the message refers to, relative to the
    /// dataset root.
    pub open spec fn spec_files_relative(&self) -> Seq<Seq<char>> {
        self.typed.spec_files()
    }

    /// The paths of the files that the message refers to, relative to the
    /// dataset root.
    pub fn files_relative(&self) -> (files: Vec<&str>)
        ensures
            texts_of(files@) == self.spec_files_relative(),
    {
        self.typed.files()
    }

    /// The absolute paths of the files that the message refers to. Whether
    /// the files exist is not looked at. The stored paths have to be relative.
    pub fn files(&self, ds_root: &DatasetRoot) -> (files: Vec<String>)
        requires
            forall|i: int|
                0 <= i < self.spec_files_relative().len() ==> !is_absolute(
                    #[trigger] self.spec_files_relative()[i],
                ),
        ensures
            files.len() == self.spec_files_relative().len(),
            forall|i: int|
                0 <= i < files.len() ==> (#[trigger] files[i])@ == path_join(
                    ds_root.text(),
                    self.spec_files_relative()[i],
                ),
    {
        let relative = self.files_relative();
        let mut files: Vec<String> = Vec::new();
        let mut i: usize = 0;
        while i < relative.len()
            invariant
                i <= relative.len(),
                files.len() == i,
                texts_of(relative@) == self.spec_files_relative(),
                forall|j: int|
                    0 <= j < self.spec_files_relative().len() ==> !is_absolute(
                        #[trigger] self.spec_files_relative()[j],
                    ),
                forall|j: int|
                    0 <= j < i ==> (#[trigger] files[j])@ == path_join(
                        ds_root.text(),
                        self.spec_files_relative()[j],
                    ),
            decreases relative.len() - i,
        {
            assert(texts_of(relative@)[i as int] == relative@[i as int]@);
            files.push(ds_root.to_absolute(relative[i]));
            i += 1;
        }
        files
    }
}

} // verus!
