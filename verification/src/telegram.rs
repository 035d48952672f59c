//! The export of a single chat: a history that does not say who its owner
//! is.

use vstd::prelude::*;
use crate::chat::ChatWithMessages;
use crate::entities::{PbUuid, User};
use crate::error::{HistoryError, HistoryErrorView};
use crate::loader::{apply_choice, choice_error, is_valid_choice, with_identity_of, MyselfChooser};

verus! {

/// `cwm` with its chat, if it has one, put into the dataset `ds_uuid`.
pub open spec fn in_dataset(cwm: ChatWithMessages, ds_uuid: PbUuid) -> ChatWithMessages {
    match cwm.chat {
        Some(chat) => ChatWithMessages {
            chat: Some(crate::chat::Chat { ds_uuid, ..chat }),
            messages: cwm.messages,
        },
        None => cwm,
    }
}

/// Finishes the load of an export of one chat. `cwm` and `users` are what
/// was read from the export. Such an export has no section on its owner, so
/// the owner is chosen among `users` by `myself_chooser`, which is asked
/// once, and `myself` takes the identity of the one chosen.
///
/// What comes back is decided by the answer of the chooser alone. If it
/// names one of `users`, they come back with the chat, which is put into
/// the dataset `ds_uuid`. Any other answer is an error, as `apply_choice`
/// says, and `myself` is as it was.
pub fn parse<C: MyselfChooser + ?Sized>(
    cwm: ChatWithMessages,
    users: Vec<User>,
    ds_uuid: &PbUuid,
    myself: &mut User,
    myself_chooser: &C,
) -> (parsed: Result<(Vec<User>, Vec<ChatWithMessages>), HistoryError>)
    ensures
        exists|candidates: &[User], choice: Result<usize, HistoryError>|
            {
                &&& candidates@ == users@
                &&& call_ensures(C::choose_myself, (myself_chooser, candidates), choice)
                &&& parsed is Ok <==> is_valid_choice(choice, users@.len())
                &&& parsed matches Ok((known, chats)) ==> known == users && chats@ == seq![
                    in_dataset(cwm, *ds_uuid),
                ] && *final(myself) == with_identity_of(*old(myself), users@[choice->Ok_0 as int])
                &&& parsed matches Err(e) ==> *final(myself) == *old(myself) && e@ == choice_error(
                    choice,
                )
            },
{
    let mut cwm = cwm;
    match cwm.chat {
        Some(chat) => {
            cwm.chat = Some(crate::chat::Chat { ds_uuid: ds_uuid.duplicate(), ..chat });
        },
        None => {},
    }
    let candidates = users.as_slice();
    let choice = myself_chooser.choose_myself(candidates);
    match apply_choice(myself, &users, choice) {
        Ok(()) => {
            let mut chats: Vec<ChatWithMessages> = Vec::new();
            chats.push(cwm);
            Ok((users, chats))
        },
        Err(e) => {
            Err(e)
        },
    }
}

/// Where nobody can be asked, the owner of a single chat cannot be told:
/// whatever the chooser that never chooses answers is the error of an
/// ambiguous identity.
pub proof fn lemma_unattended_is_ambiguous(candidates: &[User], choice: Result<usize, HistoryError>)
    requires
        call_ensures(
            <crate::loader::NoChooser as MyselfChooser>::choose_myself,
            (&crate::loader::NoChooser, candidates),
            choice,
        ),
    ensures
        !is_valid_choice(choice, candidates@.len()),
        choice_error(choice) == HistoryErrorView::AmbiguousIdentity,
{
}

} // verus!
