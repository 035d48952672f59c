//! What a regular message can carry besides its text.

use vstd::prelude::*;
use crate::paths::{is_absolute, path_join, DatasetRoot};
use crate::text::{push_part, same_number_opt, same_text_opt, text_opt, texts_of, with_part};

verus! {

/// A sticker.
#[derive(Clone, Debug, PartialEq, Eq)]
pub struct ContentSticker {
    pub path_option: Option<String>,
    pub width: i32,
    pub height: i32,
    pub thumbnail_path_option: Option<String>,
    pub emoji_option: Option<String>,
}

/// What a `ContentSticker` holds, as mathematical values.
pub struct ContentStickerView {
    pub path_option: Option<Seq<char>>,
    pub width: i32,
    pub height: i32,
    pub thumbnail_path_option: Option<Seq<char>>,
    pub emoji_option: Option<Seq<char>>,
}

impl View for ContentSticker {
    type V = ContentStickerView;

    open spec fn view(&self) -> ContentStickerView {
        ContentStickerView {
            path_option: text_opt(self.path_option),
            width: self.width,
            height: self.height,
            thumbnail_path_option: text_opt(self.thumbnail_path_option),
            emoji_option: text_opt(self.emoji_option),
        }
    }
}

impl ContentSticker {
    /// Whether the two hold the same values.
    pub fn same(&self, other: &Self) -> (same: bool)
        ensures
            same == (self@ == other@),
    {
        same_text_opt(&self.path_option, &other.path_option)
            && self.width == other.width
            && self.height == other.height
            && same_text_opt(&self.thumbnail_path_option, &other.thumbnail_path_option)
            && same_text_opt(&self.emoji_option, &other.emoji_option)
    }
}

/// A photo.
#[derive(Clone, Debug, PartialEq, Eq)]
pub struct ContentPhoto {
    pub path_option: Option<String>,
    pub width: i32,
    pub height: i32,
    pub is_one_time: bool,
}

/// What a `ContentPhoto` holds, as mathematical values.
pub struct ContentPhotoView {
    pub path_option: Option<Seq<char>>,
    pub width: i32,
    pub height: i32,
    pub is_one_time: bool,
}

impl View for ContentPhoto {
    type V = ContentPhotoView;

    open spec fn view(&self) -> ContentPhotoView {
        ContentPhotoView {
            path_option: text_opt(self.path_option),
            width: self.width,
            height: self.height,
            is_one_time: self.is_one_time,
        }
    }
}

impl ContentPhoto {
    /// Whether the two hold the same values.
    pub fn same(&self, other: &Self) -> (same: bool)
        ensures
            same == (self@ == other@),
    {
        same_text_opt(&self.path_option, &other.path_option)
            && self.width == other.width
            && self.height == other.height
            && self.is_one_time == other.is_one_time
    }
}

/// A voice message.
#[derive(Clone, Debug, PartialEq, Eq)]
pub struct ContentVoiceMsg {
    pub path_option: Option<String>,
    pub mime_type: String,
    pub duration_sec_option: Option<i32>,
}

/// What a `ContentVoiceMsg` holds, as mathematical values.
pub struct ContentVoiceMsgView {
    pub path_option: Option<Seq<char>>,
    pub mime_type: Seq<char>,
    pub duration_sec_option: Option<i32>,
}

impl View for ContentVoiceMsg {
    type V = ContentVoiceMsgView;

    open spec fn view(&self) -> ContentVoiceMsgView {
        ContentVoiceMsgView {
            path_option: text_opt(self.path_option),
            mime_type: self.mime_type@,
            duration_sec_option: self.duration_sec_option,
        }
    }
}

impl ContentVoiceMsg {
    /// Whether the two hold the same values.
    pub fn same(&self, other: &Self) -> (same: bool)
        ensures
            same == (self@ == other@),
    {
        same_text_opt(&self.path_option, &other.path_option)
            && self.mime_type == other.mime_type
            && same_number_opt(self.duration_sec_option, other.duration_sec_option)
    }
}

/// An audio file.
#[derive(Clone, Debug, PartialEq, Eq)]
pub struct ContentAudio {
    pub path_option: Option<String>,
    pub title_option: Option<String>,
    pub performer_option: Option<String>,
    pub mime_type: String,
    pub duration_sec_option: Option<i32>,
    pub thumbnail_path_option: Option<String>,
}

/// What a `ContentAudio` holds, as mathematical values.
pub struct ContentAudioView {
    pub path_option: Option<Seq<char>>,
    pub title_option: Option<Seq<char>>,
    pub performer_option: Option<Seq<char>>,
    pub mime_type: Seq<char>,
    pub duration_sec_option: Option<i32>,
    pub thumbnail_path_option: Option<Seq<char>>,
}

impl View for ContentAudio {
    type V = ContentAudioView;

    open spec fn view(&self) -> ContentAudioView {
        ContentAudioView {
            path_option: text_opt(self.path_option),
            title_option: text_opt(self.title_option),
            performer_option: text_opt(self.performer_option),
            mime_type: self.mime_type@,
            duration_sec_option: self.duration_sec_option,
            thumbnail_path_option: text_opt(self.thumbnail_path_option),
        }
    }
}

impl ContentAudio {
    /// Whether the two hold the same values.
    pub fn same(&self, other: &Self) -> (same: bool)
        ensures
            same == (self@ == other@),
    {
        same_text_opt(&self.path_option, &other.path_option)
            && same_text_opt(&self.title_option, &other.title_option)
            && same_text_opt(&self.performer_option, &other.performer_option)
            && self.mime_type == other.mime_type
            && same_number_opt(self.duration_sec_option, other.duration_sec_option)
            && same_text_opt(&self.thumbnail_path_option, &other.thumbnail_path_option)
    }
}

/// A video message.
#[derive(Clone, Debug, PartialEq, Eq)]
pub struct ContentVideoMsg {
    pub path_option: Option<String>,
    pub width: i32,
    pub height: i32,
    pub mime_type: String,
    pub duration_sec_option: Option<i32>,
    pub thumbnail_path_option: Option<String>,
    pub is_one_time: bool,
}

/// What a `ContentVideoMsg` holds, as mathematical values.
pub struct ContentVideoMsgView {
    pub path_option: Option<Seq<char>>,
    pub width: i32,
    pub height: i32,
    pub mime_type: Seq<char>,
    pub duration_sec_option: Option<i32>,
    pub thumbnail_path_option: Option<Seq<char>>,
    pub is_one_time: bool,
}

impl View for ContentVideoMsg {
    type V = ContentVideoMsgView;

    open spec fn view(&self) -> ContentVideoMsgView {
        ContentVideoMsgView {
            path_option: text_opt(self.path_option),
            width: self.width,
            height: self.height,
            mime_type: self.mime_type@,
            duration_sec_option: self.duration_sec_option,
            thumbnail_path_option: text_opt(self.thumbnail_path_option),
            is_one_time: self.is_one_time,
        }
    }
}

impl ContentVideoMsg {
    /// Whether the two hold the same values.
    pub fn same(&self, other: &Self) -> (same: bool)
        ensures
            same == (self@ == other@),
    {
        same_text_opt(&self.path_option, &other.path_option)
            && self.width == other.width
            && self.height == other.height
            && self.mime_type == other.mime_type
            && same_number_opt(self.duration_sec_option, other.duration_sec_option)
            && same_text_opt(&self.thumbnail_path_option, &other.thumbnail_path_option)
            && self.is_one_time == other.is_one_time
    }
}

/// A video file.
#[derive(Clone, Debug, PartialEq, Eq)]
pub struct ContentVideo {
    pub path_option: Option<String>,
    pub title_option: Option<String>,
    pub performer_option: Option<String>,
    pub width: i32,
    pub height: i32,
    pub mime_type: String,
    pub duration_sec_option: Option<i32>,
    pub thumbnail_path_option: Option<String>,
    pub is_one_time: bool,
}

/// What a `ContentVideo` holds, as mathematical values.
pub struct ContentVideoView {
    pub path_option: Option<Seq<char>>,
    pub title_option: Option<Seq<char>>,
    pub performer_option: Option<Seq<char>>,
    pub width: i32,
    pub height: i32,
    pub mime_type: Seq<char>,
    pub duration_sec_option: Option<i32>,
    pub thumbnail_path_option: Option<Seq<char>>,
    pub is_one_time: bool,
}

impl View for ContentVideo {
    type V = ContentVideoView;

    open spec fn view(&self) -> ContentVideoView {
        ContentVideoView {
            path_option: text_opt(self.path_option),
            title_option: text_opt(self.title_option),
            performer_option: text_opt(self.performer_option),
            width: self.width,
            height: self.height,
            mime_type: self.mime_type@,
            duration_sec_option: self.duration_sec_option,
            thumbnail_path_option: text_opt(self.thumbnail_path_option),
            is_one_time: self.is_one_time,
        }
    }
}

impl ContentVideo {
    /// Whether the two hold the same values.
    pub fn same(&self, other: &Self) -> (same: bool)
        ensures
            same == (self@ == other@),
    {
        same_text_opt(&self.path_option, &other.path_option)
            && same_text_opt(&self.title_option, &other.title_option)
            && same_text_opt(&self.performer_option, &other.performer_option)
            && self.width == other.width
            && self.height == other.height
            && self.mime_type == other.mime_type
            && same_number_opt(self.duration_sec_option, other.duration_sec_option)
            && same_text_opt(&self.thumbnail_path_option, &other.thumbnail_path_option)
            && self.is_one_time == other.is_one_time
    }
}

/// A file of any other kind.
#[derive(Clone, Debug, PartialEq, Eq)]
pub struct ContentFile {
    pub path_option: Option<String>,
    pub file_name_option: Option<String>,
    pub mime_type_option: Option<String>,
    pub thumbnail_path_option: Option<String>,
}

/// What a `ContentFile` holds, as mathematical values.
pub struct ContentFileView {
    pub path_option: Option<Seq<char>>,
    pub file_name_option: Option<Seq<char>>,
    pub mime_type_option: Option<Seq<char>>,
    pub thumbnail_path_option: Option<Seq<char>>,
}

impl View for ContentFile {
    type V = ContentFileView;

    open spec fn view(&self) -> ContentFileView {
        ContentFileView {
            path_option: text_opt(self.path_option),
            file_name_option: text_opt(self.file_name_option),
            mime_type_option: text_opt(self.mime_type_option),
            thumbnail_path_option: text_opt(self.thumbnail_path_option),
        }
    }
}

impl ContentFile {
    /// Whether the two hold the same values.
    pub fn same(&self, other: &Self) -> (same: bool)
        ensures
            same == (self@ == other@),
    {
        same_text_opt(&self.path_option, &other.path_option)
            && same_text_opt(&self.file_name_option, &other.file_name_option)
            && same_text_opt(&self.mime_type_option, &other.mime_type_option)
            && same_text_opt(&self.thumbnail_path_option, &other.thumbnail_path_option)
    }
}

/// A place on the map. Latitude and longitude are kept as the source wrote them.
#[derive(Clone, Debug, PartialEq, Eq)]
pub struct ContentLocation {
    pub title_option: Option<String>,
    pub address_option: Option<String>,
    pub lat_str: String,
    pub lon_str: String,
    pub duration_sec_option: Option<i32>,
}

/// What a `ContentLocation` holds, as mathematical values.
pub struct ContentLocationView {
    pub title_option: Option<Seq<char>>,
    pub address_option: Option<Seq<char>>,
    pub lat_str: Seq<char>,
    pub lon_str: Seq<char>,
    pub duration_sec_option: Option<i32>,
}

impl View for ContentLocation {
    type V = ContentLocationView;

    open spec fn view(&self) -> ContentLocationView {
        ContentLocationView {
            title_option: text_opt(self.title_option),
            address_option: text_opt(self.address_option),
            lat_str: self.lat_str@,
            lon_str: self.lon_str@,
            duration_sec_option: self.duration_sec_option,
        }
    }
}

impl ContentLocation {
    /// Whether the two hold the same values.
    pub fn same(&self, other: &Self) -> (same: bool)
        ensures
            same == (self@ == other@),
    {
        same_text_opt(&self.title_option, &other.title_option)
            && same_text_opt(&self.address_option, &other.address_option)
            && self.lat_str == other.lat_str
            && self.lon_str == other.lon_str
            && same_number_opt(self.duration_sec_option, other.duration_sec_option)
    }
}

/// A poll.
#[derive(Clone, Debug, PartialEq, Eq)]
pub struct ContentPoll {
    pub question: String,
}

/// What a `ContentPoll` holds, as mathematical values.
pub struct ContentPollView {
    pub question: Seq<char>,
}

impl View for ContentPoll {
    type V = ContentPollView;

    open spec fn view(&self) -> ContentPollView {
        ContentPollView {
            question: self.question@,
        }
    }
}

impl ContentPoll {
    /// Whether the two hold the same values.
    pub fn same(&self, other: &Self) -> (same: bool)
        ensures
            same == (self@ == other@),
    {
        self.question == other.question
    }
}

/// A contact shared in a chat.
#[derive(Clone, Debug, PartialEq, Eq)]
pub struct ContentSharedContact {
    pub first_name_option: Option<String>,
    pub last_name_option: Option<String>,
    pub phone_number_option: Option<String>,
    pub vcard_path_option: Option<String>,
}

/// What a `ContentSharedContact` holds, as mathematical values.
pub struct ContentSharedContactView {
    pub first_name_option: Option<Seq<char>>,
    pub last_name_option: Option<Seq<char>>,
    pub phone_number_option: Option<Seq<char>>,
    pub vcard_path_option: Option<Seq<char>>,
}

impl View for ContentSharedContact {
    type V = ContentSharedContactView;

    open spec fn view(&self) -> ContentSharedContactView {
        ContentSharedContactView {
            first_name_option: text_opt(self.first_name_option),
            last_name_option: text_opt(self.last_name_option),
            phone_number_option: text_opt(self.phone_number_option),
            vcard_path_option: text_opt(self.vcard_path_option),
        }
    }
}

impl ContentSharedContact {
    /// Whether the two hold the same values.
    pub fn same(&self, other: &Self) -> (same: bool)
        ensures
            same == (self@ == other@),
    {
        same_text_opt(&self.first_name_option, &other.first_name_option)
            && same_text_opt(&self.last_name_option, &other.last_name_option)
            && same_text_opt(&self.phone_number_option, &other.phone_number_option)
            && same_text_opt(&self.vcard_path_option, &other.vcard_path_option)
    }
}

/// The content of a regular message: exactly one of the kinds below.
#[derive(Clone, Debug, PartialEq, Eq)]
pub enum Content {
    Sticker(ContentSticker),
    Photo(ContentPhoto),
    VoiceMsg(ContentVoiceMsg),
    Audio(ContentAudio),
    VideoMsg(ContentVideoMsg),
    Video(ContentVideo),
    File(ContentFile),
    Location(ContentLocation),
    Poll(ContentPoll),
    SharedContact(ContentSharedContact),
}

/// What a `Content` holds, as mathematical values.
pub enum ContentView {
    Sticker(ContentStickerView),
    Photo(ContentPhotoView),
    VoiceMsg(ContentVoiceMsgView),
    Audio(ContentAudioView),
    VideoMsg(ContentVideoMsgView),
    Video(ContentVideoView),
    File(ContentFileView),
    Location(ContentLocationView),
    Poll(ContentPollView),
    SharedContact(ContentSharedContactView),
}

impl View for Content {
    type V = ContentView;

    open spec fn view(&self) -> ContentView {
        match self {
            Content::Sticker(c) => ContentView::Sticker(c@),
            Content::Photo(c) => ContentView::Photo(c@),
            Content::VoiceMsg(c) => ContentView::VoiceMsg(c@),
            Content::Audio(c) => ContentView::Audio(c@),
            Content::VideoMsg(c) => ContentView::VideoMsg(c@),
            Content::Video(c) => ContentView::Video(c@),
            Content::File(c) => ContentView::File(c@),
            Content::Location(c) => ContentView::Location(c@),
            Content::Poll(c) => ContentView::Poll(c@),
            Content::SharedContact(c) => ContentView::SharedContact(c@),
        }
    }
}

impl ContentView {
    /// The path of the main file, for the kinds that have one.
    pub open spec fn path_option(self) -> Option<Seq<char>> {
        match self {
            ContentView::Sticker(c) => c.path_option,
            ContentView::Photo(c) => c.path_option,
            ContentView::VoiceMsg(c) => c.path_option,
            ContentView::Audio(c) => c.path_option,
            ContentView::VideoMsg(c) => c.path_option,
            ContentView::Video(c) => c.path_option,
            ContentView::File(c) => c.path_option,
            _ => None,
        }
    }

    /// The paths of the files that the content refers to, relative to the
    /// dataset root: the main file first, then its thumbnail.
    pub open spec fn files(self) -> Seq<Seq<char>> {
        let none = Seq::<Seq<char>>::empty();
        match self {
            ContentView::Sticker(c) => with_part(
                with_part(none, c.path_option),
                c.thumbnail_path_option,
            ),
            ContentView::Photo(c) => with_part(none, c.path_option),
            ContentView::VoiceMsg(c) => with_part(none, c.path_option),
            ContentView::Audio(c) => with_part(none, c.path_option),
            ContentView::VideoMsg(c) => with_part(
                with_part(none, c.path_option),
                c.thumbnail_path_option,
            ),
            ContentView::Video(c) => with_part(
                with_part(none, c.path_option),
                c.thumbnail_path_option,
            ),
            ContentView::File(c) => with_part(
                with_part(none, c.path_option),
                c.thumbnail_path_option,
            ),
            ContentView::Location(_) => none,
            ContentView::Poll(_) => none,
            ContentView::SharedContact(c) => with_part(none, c.vcard_path_option),
        }
    }

    /// The pieces of text by which a message with this content is found:
    /// the emoji of a sticker, title and performer of an audio or a video,
    /// the name of a file, address, title and coordinates of a location, the
    /// question of a poll, names and phone number of a contact.
    pub open spec fn searchable_parts(self) -> Seq<Seq<char>> {
        let none = Seq::<Seq<char>>::empty();
        match self {
            ContentView::Sticker(c) => with_part(none, c.emoji_option),
            ContentView::Audio(c) => with_part(
                with_part(none, c.title_option),
                c.performer_option,
            ),
            ContentView::Video(c) => with_part(
                with_part(none, c.title_option),
                c.performer_option,
            ),
            ContentView::File(c) => with_part(none, c.file_name_option),
            ContentView::Location(c) => with_part(
                with_part(none, c.address_option),
                c.title_option,
            ).push(c.lat_str).push(c.lon_str),
            ContentView::Poll(c) => none.push(c.question),
            ContentView::SharedContact(c) => with_part(
                with_part(with_part(none, c.first_name_option), c.last_name_option),
                c.phone_number_option,
            ),
            _ => none,
        }
    }
}

/// Whether an optional content is absent on both sides or holds the same
/// values on both.
pub open spec fn same_content_view(a: Option<Content>, b: Option<Content>) -> bool {
    match (a, b) {
        (Some(x), Some(y)) => x@ == y@,
        (None, None) => true,
        _ => false,
    }
}

impl Content {
    /// Whether the two hold the same values.
    pub fn same(&self, other: &Self) -> (same: bool)
        ensures
            same == (self@ == other@),
    {
        match (self, other) {
            (Content::Sticker(a), Content::Sticker(b)) => a.same(b),
            (Content::Photo(a), Content::Photo(b)) => a.same(b),
            (Content::VoiceMsg(a), Content::VoiceMsg(b)) => a.same(b),
            (Content::Audio(a), Content::Audio(b)) => a.same(b),
            (Content::VideoMsg(a), Content::VideoMsg(b)) => a.same(b),
            (Content::Video(a), Content::Video(b)) => a.same(b),
            (Content::File(a), Content::File(b)) => a.same(b),
            (Content::Location(a), Content::Location(b)) => a.same(b),
            (Content::Poll(a), Content::Poll(b)) => a.same(b),
            (Content::SharedContact(a), Content::SharedContact(b)) => a.same(b),
            _ => false,
        }
    }

    /// The paths of the files that the content refers to, relative to the
    /// dataset root.
    pub fn files<'a>(&'a self) -> (files: Vec<&'a str>)
        ensures
            texts_of(files@) == self@.files(),
    {
        let mut files: Vec<&str> = Vec::new();
        match self {
            Content::Sticker(c) => {
                push_part(&mut files, &c.path_option);
                push_part(&mut files, &c.thumbnail_path_option);
            },
            Content::Photo(c) => {
                push_part(&mut files, &c.path_option);
            },
            Content::VoiceMsg(c) => {
                push_part(&mut files, &c.path_option);
            },
            Content::Audio(c) => {
                push_part(&mut files, &c.path_option);
            },
            Content::VideoMsg(c) => {
                push_part(&mut files, &c.path_option);
                push_part(&mut files, &c.thumbnail_path_option);
            },
            Content::Video(c) => {
                push_part(&mut files, &c.path_option);
                push_part(&mut files, &c.thumbnail_path_option);
            },
            Content::File(c) => {
                push_part(&mut files, &c.path_option);
                push_part(&mut files, &c.thumbnail_path_option);
            },
            Content::Location(_) => {},
            Content::Poll(_) => {},
            Content::SharedContact(c) => {
                push_part(&mut files, &c.vcard_path_option);
            },
        }
        files
    }

    /// The pieces of text by which a message with this content is found.
    pub fn searchable_parts<'a>(&'a self) -> (parts: Vec<&'a str>)
        ensures
            texts_of(parts@) == self@.searchable_parts(),
    {
        let mut parts: Vec<&str> = Vec::new();
        match self {
            Content::Sticker(c) => {
                push_part(&mut parts, &c.emoji_option);
            },
            Content::Audio(c) => {
                push_part(&mut parts, &c.title_option);
                push_part(&mut parts, &c.performer_option);
            },
            Content::Video(c) => {
                push_part(&mut parts, &c.title_option);
                push_part(&mut parts, &c.performer_option);
            },
            Content::File(c) => {
                push_part(&mut parts, &c.file_name_option);
            },
            Content::Location(c) => {
                push_part(&mut parts, &c.address_option);
                push_part(&mut parts, &c.title_option);
                let ghost named = texts_of(parts@);
                parts.push(c.lat_str.as_str());
                parts.push(c.lon_str.as_str());
                assert(texts_of(parts@) =~= named.push(c.lat_str@).push(c.lon_str@));
            },
            Content::Poll(c) => {
                parts.push(c.question.as_str());
            },
            Content::SharedContact(c) => {
                push_part(&mut parts, &c.first_name_option);
                push_part(&mut parts, &c.last_name_option);
                push_part(&mut parts, &c.phone_number_option);
            },
            _ => {},
        }
        parts
    }

    /// The path of the main file, as the content holds it.
    pub fn relative_path_option(&self) -> (path: &Option<String>)
        ensures
            text_opt(*path) == self@.path_option(),
    {
        match self {
            Content::Sticker(c) => &c.path_option,
            Content::Photo(c) => &c.path_option,
            Content::VoiceMsg(c) => &c.path_option,
            Content::Audio(c) => &c.path_option,
            Content::VideoMsg(c) => &c.path_option,
            Content::Video(c) => &c.path_option,
            Content::File(c) => &c.path_option,
            _ => &None,
        }
    }

    /// The absolute path of the main file under `ds_root`, for the kinds that
    /// have one. The stored path has to be relative.
    pub fn path_file_option(&self, ds_root: &DatasetRoot) -> (path: Option<String>)
        requires
            self@.path_option() matches Some(p) ==> !is_absolute(p),
        ensures
            text_opt(path) == (match self@.path_option() {
                Some(p) => Some(path_join(ds_root.text(), p)),
                None => None,
            }),
    {
        match self.relative_path_option() {
            Some(p) => Some(ds_root.to_absolute(p.as_str())),
            None => None,
        }
    }
}

} // verus!
