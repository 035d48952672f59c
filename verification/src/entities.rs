//! Datasets and users of the canonical model, and the names under which
//! users are shown.

use uuid::Uuid;
use vstd::prelude::*;
use vstd::string::*;
use crate::ids::UserId;
use crate::text::{decimal, decimal_string, text_opt};

verus! {

/// Shown in place of a name that is absent.
pub const UNNAMED: &'static str = "[unnamed]";

/// Shown in place of a participant that the source does not know.
pub const UNKNOWN: &'static str = "[unknown]";

/// Shown in place of a participant that the source does not name.
pub const SOMEONE: &'static str = "[someone]";

/// A copy of an optional string.
pub fn copy_text_opt(s: &Option<String>) -> (copy: Option<String>)
    ensures
        copy == *s,
{
    match s {
        Some(t) => Some(t.clone()),
        None => None,
    }
}

/// The name, or the placeholder for an absent one.
pub open spec fn spec_name_or_unnamed(name_option: Option<Seq<char>>) -> Seq<char> {
    match name_option {
        Some(name) => name,
        None => UNNAMED@,
    }
}

/// The name, or the placeholder for an absent one.
pub fn name_or_unnamed(name_option: &Option<String>) -> (name: String)
    ensures
        name@ == spec_name_or_unnamed(text_opt(*name_option)),
{
    match name_option {
        Some(name) => name.clone(),
        None => UNNAMED.to_owned(),
    }
}

/// The name, or the placeholder for an absent one.
pub fn name_or_unnamed_str(name_option: Option<&str>) -> (name: String)
    ensures
        name@ == (match name_option {
            Some(given) => given@,
            None => UNNAMED@,
        }),
{
    match name_option {
        Some(name) => name.to_owned(),
        None => UNNAMED.to_owned(),
    }
}

/// Whether `c` is a decimal digit or one of the letters `a` to `f`.
pub open spec fn is_lower_hex(c: char) -> bool {
    ('0' <= c && c <= '9') || ('a' <= c && c <= 'f')
}

/// Whether `s` is a UUID in its usual written form: 36 characters, hyphens
/// after the groups of 8, 4, 4 and 4 hexadecimal digits, lower case.
pub open spec fn is_hyphenated_uuid(s: Seq<char>) -> bool {
    &&& s.len() == 36
    &&& forall|i: int|
        0 <= i < 36 ==> if i == 8 || i == 13 || i == 18 || i == 23 {
            s[i] == '-'
        } else {
            is_lower_hex(#[trigger] s[i])
        }
}

/// Whether `s` is a random UUID in its usual written form: the digit that
/// opens the third group gives the version, 4, and the digit that opens the
/// fourth group gives the variant, and is 8, 9, a or b.
pub open spec fn is_random_uuid(s: Seq<char>) -> bool {
    &&& is_hyphenated_uuid(s)
    &&& s[14] == '4'
    &&& s[19] == '8' || s[19] == '9' || s[19] == 'a' || s[19] == 'b'
}

/// `Uuid::new_v4` written out with `to_string`: a fresh random UUID of
/// version 4 in hyphenated lower-case form. Which one is not determined. It
/// fails only where the operating system gives no random bytes.
#[verifier::external_body]
fn random_uuid_text() -> (text: String)
    ensures
        is_random_uuid(text@),
{
    Uuid::new_v4().to_string()
}

/// A UUID in its written form.
#[derive(Clone, Debug, PartialEq, Eq, Hash)]
pub struct PbUuid {
    pub value: String,
}

impl PbUuid {
    /// A fresh random UUID.
    pub fn random() -> (uuid: PbUuid)
        ensures
            is_random_uuid(uuid.value@),
    {
        PbUuid { value: random_uuid_text() }
    }

    /// A copy of this UUID.
    pub fn duplicate(&self) -> (copy: PbUuid)
        ensures
            copy == *self,
    {
        PbUuid { value: self.value.clone() }
    }
}

/// A participant of the chats of one dataset.
#[derive(Clone, Debug, PartialEq, Eq)]
pub struct User {
    pub ds_uuid: PbUuid,
    pub id: i64,
    pub first_name_option: Option<String>,
    pub last_name_option: Option<String>,
    pub username_option: Option<String>,
    pub phone_number_option: Option<String>,
}

impl User {
    pub fn id(&self) -> (id: UserId)
        ensures
            id.0 == self.id,
    {
        UserId(self.id)
    }

    /// Whether the user has neither a name, nor a phone number, nor a username.
    pub open spec fn is_unnamed(&self) -> bool {
        &&& self.first_name_option is None
        &&& self.last_name_option is None
        &&& self.phone_number_option is None
        &&& self.username_option is None
    }

    /// The name to show for the user: first and last name, else whichever of
    /// the two is there, else the phone number, else the username.
    pub open spec fn spec_pretty_name_option(&self) -> Option<Seq<char>> {
        match (
            self.first_name_option,
            self.last_name_option,
            self.phone_number_option,
            self.username_option,
        ) {
            (Some(first_name), Some(last_name), _, _) => Some(first_name@ + " "@ + last_name@),
            (Some(first_name), None, _, _) => Some(first_name@),
            (None, Some(last_name), _, _) => Some(last_name@),
            (None, None, Some(phone_number), _) => Some(phone_number@),
            (None, None, None, Some(username)) => Some(username@),
            (None, None, None, None) => None,
        }
    }

    /// The name to show for the user, or the placeholder if there is none.
    pub open spec fn spec_pretty_name(&self) -> Seq<char> {
        spec_name_or_unnamed(self.spec_pretty_name_option())
    }

    pub fn pretty_name_option(&self) -> (name: Option<String>)
        ensures
            text_opt(name) == self.spec_pretty_name_option(),
            name is None <==> self.is_unnamed(),
    {
        match (
            &self.first_name_option,
            &self.last_name_option,
            &self.phone_number_option,
            &self.username_option,
        ) {
            (Some(first_name), Some(last_name), _, _) => {
                let mut name = first_name.clone();
                name.append(" ");
                name.append(last_name.as_str());
                Some(name)
            },
            (Some(first_name), None, _, _) => Some(first_name.clone()),
            (None, Some(last_name), _, _) => Some(last_name.clone()),
            (None, None, Some(phone_number), _) => Some(phone_number.clone()),
            (None, None, None, Some(username)) => Some(username.clone()),
            (None, None, None, None) => None,
        }
    }

    pub fn pretty_name(&self) -> (name: String)
        ensures
            name@ == self.spec_pretty_name(),
            self.is_unnamed() ==> name@ == UNNAMED@,
    {
        match self.pretty_name_option() {
            Some(name) => name,
            None => UNNAMED.to_owned(),
        }
    }

    /// A copy of this user.
    pub fn duplicate(&self) -> (copy: User)
        ensures
            copy == *self,
    {
        User {
            ds_uuid: self.ds_uuid.duplicate(),
            id: self.id,
            first_name_option: copy_text_opt(&self.first_name_option),
            last_name_option: copy_text_opt(&self.last_name_option),
            username_option: copy_text_opt(&self.username_option),
            phone_number_option: copy_text_opt(&self.phone_number_option),
        }
    }
}

/// The pretty name of a user is the placeholder exactly when the user has
/// no first name, last name, phone number or username. A user whose own
/// name happens to read like the placeholder is left aside.
pub proof fn lemma_pretty_name_placeholder(user: User)
    requires
        user.spec_pretty_name_option() != Some(UNNAMED@),
    ensures
        user.spec_pretty_name() == UNNAMED@ <==> user.is_unnamed(),
{
}

/// A user known by an identifier and at most a full name.
#[derive(Clone, Debug, PartialEq, Eq)]
pub struct ShortUser {
    pub id: UserId,
    pub full_name_option: Option<String>,
}

impl ShortUser {
    pub fn new(id: UserId, full_name_option: Option<String>) -> (user: ShortUser)
        ensures
            user.id == id,
            user.full_name_option == full_name_option,
    {
        ShortUser { id, full_name_option }
    }

    pub fn new_name_str(id: UserId, full_name: &str) -> (user: ShortUser)
        ensures
            user.id == id,
            text_opt(user.full_name_option) == Some(full_name@),
    {
        ShortUser::new(id, Some(full_name.to_owned()))
    }

    /// The user of dataset `ds_uuid` with this identifier, and with the full
    /// name as first name and nothing else.
    pub fn to_user(&self, ds_uuid: &PbUuid) -> (user: User)
        ensures
            user.ds_uuid == *ds_uuid,
            user.id == self.id.0,
            user.first_name_option == self.full_name_option,
            user.last_name_option is None,
            user.username_option is None,
            user.phone_number_option is None,
    {
        User {
            ds_uuid: ds_uuid.duplicate(),
            id: self.id.0,
            first_name_option: copy_text_opt(&self.full_name_option),
            last_name_option: None,
            username_option: None,
            phone_number_option: None,
        }
    }
}

/// How the standard library writes an optional string for debugging.
pub uninterp spec fn debug_written(name: Option<Seq<char>>) -> Seq<char>;

/// The `Debug` form of an optional string, as `format!` gives it.
#[verifier::external_body]
fn debug_write(name: &Option<String>) -> (text: String)
    ensures
        text@ == debug_written(text_opt(*name)),
{
    format!("{:?}", name)
}

impl ShortUser {
    /// The user written out: the identifier, and the full name as it is
    /// written for debugging.
    pub open spec fn spec_to_text(&self) -> Seq<char> {
        "ShortUser(id: "@ + decimal(self.id.0 as int) + ", full_name: "@ + debug_written(
            text_opt(self.full_name_option),
        ) + ")"@
    }

    /// The user written out.
    pub fn to_text(&self) -> (text: String)
        ensures
            text@ == self.spec_to_text(),
    {
        let mut text = "ShortUser(id: ".to_owned();
        text.append(decimal_string(self.id.0).as_str());
        text.append(", full_name: ");
        text.append(debug_write(&self.full_name_option).as_str());
        text.append(")");
        text
    }
}

impl Default for ShortUser {
    /// The invalid user, without a name.
    fn default() -> (user: ShortUser)
        ensures
            user.id.0 == 0,
            user.full_name_option is None,
    {
        ShortUser::new(UserId::invalid(), None)
    }
}

/// A loaded archive: the owner of chats and users that carry its UUID.
#[derive(Clone, Debug, PartialEq, Eq)]
pub struct Dataset {
    pub uuid: PbUuid,
    pub alias: String,
}

impl Dataset {
    pub fn uuid(&self) -> (uuid: &PbUuid)
        ensures
            *uuid == self.uuid,
    {
        &self.uuid
    }
}

} // verus!
