//! What every loader of a source format has in common: the choice of the
//! owner of a history, and the numbering of the messages of a chat.

use vstd::prelude::*;
use vstd::string::*;
use crate::chat::ChatWithMessages;
use crate::entities::{copy_text_opt, Dataset, User};
use crate::message::Message;
use crate::paths::DatasetRoot;
use crate::error::{HistoryError, HistoryErrorView, CHOICE_OUT_OF_RANGE};

verus! {

/// Decides which of the users of a history is its owner, where the source
/// does not say.
pub trait MyselfChooser: Send + Sync {
    /// The position of the owner among `users`, or the reason why none was
    /// chosen.
    fn choose_myself(&self, users: &[User]) -> Result<usize, HistoryError>;
}

/// Never chooses: for use where nobody can be asked.
#[derive(Clone, Copy, Debug)]
pub struct NoChooser;

impl MyselfChooser for NoChooser {
    fn choose_myself(&self, _users: &[User]) -> (choice: Result<usize, HistoryError>)
        ensures
            choice == Err::<usize, HistoryError>(HistoryError::AmbiguousIdentity),
    {
        Err(HistoryError::AmbiguousIdentity)
    }
}

/// Reads the answer of a decision-maker that is asked from afar: `picked`
/// is the position of the owner among the `candidates` users, counted from
/// zero. A negative answer says that no choice was made, and leaves the
/// identity ambiguous; a position that is none is an internal error.
pub fn picked_choice(picked: i32, candidates: usize) -> (choice: Result<usize, HistoryError>)
    ensures
        0 <= picked < candidates ==> choice == Ok::<usize, HistoryError>(picked as usize),
        picked < 0 ==> choice == Err::<usize, HistoryError>(HistoryError::AmbiguousIdentity),
        picked >= candidates ==> choice is Err && choice->Err_0@ == HistoryErrorView::Internal(
            CHOICE_OUT_OF_RANGE@,
        ),
        !is_valid_choice(choice, candidates as nat) ==> choice is Err,
{
    if picked < 0 {
        Err(HistoryError::AmbiguousIdentity)
    } else if picked as usize >= candidates {
        Err(HistoryError::Internal(CHOICE_OUT_OF_RANGE.to_owned()))
    } else {
        Ok(picked as usize)
    }
}

/// `myself` with the identity of `chosen`: its identifier, names, username
/// and phone number. The dataset of `myself` stays.
pub open spec fn with_identity_of(myself: User, chosen: User) -> User {
    User {
        ds_uuid: myself.ds_uuid,
        id: chosen.id,
        first_name_option: chosen.first_name_option,
        last_name_option: chosen.last_name_option,
        username_option: chosen.username_option,
        phone_number_option: chosen.phone_number_option,
    }
}

/// Whether the answer `choice` of a chooser names one of `count` candidates.
pub open spec fn is_valid_choice(choice: Result<usize, HistoryError>, count: nat) -> bool {
    choice matches Ok(index) && index < count
}

/// The error that an answer of a chooser amounts to, where it does not name
/// one of the candidates: the chooser's own, or an internal one for a
/// position that is none.
pub open spec fn choice_error(choice: Result<usize, HistoryError>) -> HistoryErrorView {
    match choice {
        Ok(_) => HistoryErrorView::Internal(CHOICE_OUT_OF_RANGE@),
        Err(e) => e@,
    }
}

/// Applies the answer of a chooser to `myself`. An answer that names one of
/// `users` gives `myself` all of that user's identity; any other answer
/// leaves `myself` as it was and is an error: the chooser's own, or an
/// internal one for a position that is none.
pub fn apply_choice(myself: &mut User, users: &Vec<User>, choice: Result<usize, HistoryError>) -> (applied:
    Result<(), HistoryError>)
    ensures
        applied is Ok <==> is_valid_choice(choice, users@.len()),
        applied is Ok ==> *final(myself) == with_identity_of(*old(myself), users@[choice->Ok_0 as int]),
        applied is Err ==> *final(myself) == *old(myself),
        choice matches Err(e) ==> applied == Err::<(), HistoryError>(e),
        applied matches Err(e) ==> e@ == choice_error(choice),
{
    match choice {
        Ok(index) => {
            if index < users.len() {
                let chosen = &users[index];
                myself.id = chosen.id;
                myself.first_name_option = copy_text_opt(&chosen.first_name_option);
                myself.last_name_option = copy_text_opt(&chosen.last_name_option);
                myself.username_option = copy_text_opt(&chosen.username_option);
                myself.phone_number_option = copy_text_opt(&chosen.phone_number_option);
                Ok(())
            } else {
                Err(HistoryError::Internal(CHOICE_OUT_OF_RANGE.to_owned()))
            }
        },
        Err(e) => Err(e),
    }
}

/// Whether the messages are numbered densely from zero, in the order in
/// which they stand.
pub open spec fn is_numbered(messages: Seq<Message>) -> bool {
    forall|i: int| 0 <= i < messages.len() ==> (#[trigger] messages[i]).internal_id == i
}

/// The messages with their internal identifiers given anew: densely from
/// zero, in the order in which they stand. Nothing else changes.
pub open spec fn numbered(messages: Seq<Message>) -> Seq<Message> {
    Seq::new(messages.len(), |i: int| Message { internal_id: i as i64, ..messages[i] })
}

/// Gives the messages of a chat their internal identifiers: densely from
/// zero, in the order in which they were found in the source. There are no
/// more messages than a 64-bit identifier can number.
pub fn assign_internal_ids(messages: &mut Vec<Message>)
    requires
        old(messages).len() <= i64::MAX,
    ensures
        final(messages)@ == numbered(old(messages)@),
        is_numbered(final(messages)@),
{
    let mut i: usize = 0;
    while i < messages.len()
        invariant
            i <= messages.len() <= i64::MAX,
            messages.len() == old(messages).len(),
            forall|j: int| 0 <= j < i ==> #[trigger] messages@[j] == numbered(old(messages)@)[j],
            forall|j: int| i <= j < messages.len() ==> #[trigger] messages@[j] == old(messages)@[j],
        decreases messages.len() - i,
    {
        messages[i].internal_id = i as i64;
        i += 1;
    }
}

/// A history in memory: a dataset with its owner, its users and its chats.
#[derive(Clone, Debug, PartialEq, Eq)]
pub struct LoadedDataset {
    pub dataset: Dataset,
    pub ds_root: DatasetRoot,
    pub myself: User,
    pub users: Vec<User>,
    pub cwms: Vec<ChatWithMessages>,
}

/// A loader of one source format.
pub trait DataLoader: Send + Sync {
    /// Looks whether the source at `path` has the shape that this loader
    /// reads, without loading it.
    fn looks_about_right(&self, path: &str) -> Result<(), HistoryError>;

    /// Loads the source at `path`, asking `myself_chooser` where the source
    /// does not say who its owner is.
    fn load(&self, path: &str, myself_chooser: &dyn MyselfChooser) -> Result<
        LoadedDataset,
        HistoryError,
    >;
}

/// What is said of a source that no loader reads.
pub const NO_LOADER_FITS: &'static str = "No loader reads the source at ";

/// Whether `index` is the first position at which a loader accepted the
/// source.
pub open spec fn is_first_accepted(verdicts: Seq<Result<(), HistoryError>>, index: int) -> bool {
    &&& 0 <= index < verdicts.len()
    &&& verdicts[index] is Ok
    &&& forall|j: int| 0 <= j < index ==> (#[trigger] verdicts[j]) is Err
}

/// Whether every loader refused the source.
pub open spec fn all_refused(verdicts: Seq<Result<(), HistoryError>>) -> bool {
    forall|j: int| 0 <= j < verdicts.len() ==> (#[trigger] verdicts[j]) is Err
}

/// Picks the loader for the source at `path`; `verdicts` are what the
/// loaders said of the source, in their order. The first loader that
/// accepted the source is taken. It is a mismatch of format for all of them
/// to have refused it.
pub fn first_accepted(verdicts: &Vec<Result<(), HistoryError>>, path: &str) -> (fitting: Result<
    usize,
    HistoryError,
>)
    ensures
        match fitting {
            Ok(index) => is_first_accepted(verdicts@, index as int),
            Err(error) => all_refused(verdicts@) && error@ == HistoryErrorView::FormatMismatch(
                NO_LOADER_FITS@ + path@,
            ),
        },
{
    let mut i: usize = 0;
    while i < verdicts.len()
        invariant
            i <= verdicts.len(),
            forall|j: int| 0 <= j < i ==> (#[trigger] verdicts@[j]) is Err,
        decreases verdicts.len() - i,
    {
        if verdicts[i].is_ok() {
            return Ok(i);
        }
        i += 1;
    }
    let mut what = NO_LOADER_FITS.to_owned();
    what.append(path);
    Err(HistoryError::FormatMismatch(what))
}

/// Whether `verdict` is what `loader` answers when it is asked whether the
/// source at `path` looks about right.
pub open spec fn is_verdict_of<L: DataLoader + ?Sized>(
    loader: &L,
    path: &str,
    verdict: Result<(), HistoryError>,
) -> bool {
    call_ensures(L::looks_about_right, (loader, path), verdict)
}

/// Whether `loaded` is what `loader` makes of the source at `path` when it
/// is handed `myself_chooser`.
pub open spec fn is_load_of<L: DataLoader + ?Sized>(
    loader: &L,
    path: &str,
    myself_chooser: &dyn MyselfChooser,
    loaded: Result<LoadedDataset, HistoryError>,
) -> bool {
    call_ensures(L::load, (loader, path, myself_chooser), loaded)
}

/// Asks one loader whether the source at `path` looks about right.
fn ask<L: DataLoader + ?Sized>(loader: &L, path: &str) -> (verdict: Result<(), HistoryError>)
    ensures
        is_verdict_of(loader, path, verdict),
{
    loader.looks_about_right(path)
}

/// Loads the source at `path` with one loader.
fn load_with<L: DataLoader + ?Sized>(
    loader: &L,
    path: &str,
    myself_chooser: &dyn MyselfChooser,
) -> (loaded: Result<LoadedDataset, HistoryError>)
    ensures
        call_ensures(L::load, (loader, path, myself_chooser), loaded),
{
    loader.load(path, myself_chooser)
}

/// The loaders of all the source formats that are read, in the order in
/// which they are tried.
pub struct Loader {
    pub loaders: Vec<Box<dyn DataLoader>>,
}

impl Loader {
    /// Whether `verdicts` are what the loaders answered, each in its turn,
    /// when they were asked whether the source at `path` looks about right.
    pub open spec fn were_answered(&self, path: &str, verdicts: Seq<Result<(), HistoryError>>) -> bool {
        &&& verdicts.len() == self.loaders@.len()
        &&& forall|i: int|
            0 <= i < verdicts.len() ==> is_verdict_of::<dyn DataLoader>(
                &*self.loaders@[i],
                path,
                #[trigger] verdicts[i],
            )
    }

    /// What each loader says of the source at `path`, in the order of the
    /// loaders.
    pub fn verdicts(&self, path: &str) -> (verdicts: Vec<Result<(), HistoryError>>)
        ensures
            self.were_answered(path, verdicts@),
    {
        let mut verdicts: Vec<Result<(), HistoryError>> = Vec::new();
        let mut i: usize = 0;
        while i < self.loaders.len()
            invariant
                i <= self.loaders.len(),
                verdicts@.len() == i,
                forall|j: int|
                    0 <= j < i ==> is_verdict_of::<dyn DataLoader>(
                        &*self.loaders@[j],
                        path,
                        #[trigger] verdicts@[j],
                    ),
            decreases self.loaders.len() - i,
        {
            verdicts.push(ask::<dyn DataLoader>(&*self.loaders[i], path));
            i += 1;
        }
        verdicts
    }

    /// The position of the first loader that accepts the source at `path`;
    /// every loader is asked, in its turn. It is a mismatch of format for
    /// all loaders to refuse the source.
    pub fn first_fitting(&self, path: &str) -> (fitting: Result<usize, HistoryError>)
        ensures
            exists|verdicts: Seq<Result<(), HistoryError>>|
                {
                    &&& #[trigger] self.were_answered(path, verdicts)
                    &&& match fitting {
                        Ok(index) => is_first_accepted(verdicts, index as int),
                        Err(error) => all_refused(verdicts) && error@
                            == HistoryErrorView::FormatMismatch(NO_LOADER_FITS@ + path@),
                    }
                },
    {
        let verdicts = self.verdicts(path);
        first_accepted(&verdicts, path)
    }
}

impl DataLoader for Loader {
    /// Succeeds where one of the loaders accepts the source; every loader
    /// is asked, in its turn. It is a mismatch of format for all of them to
    /// refuse the source.
    fn looks_about_right(&self, path: &str) -> (verdict: Result<(), HistoryError>)
        ensures
            exists|verdicts: Seq<Result<(), HistoryError>>|
                {
                    &&& #[trigger] self.were_answered(path, verdicts)
                    &&& match verdict {
                        Ok(_) => !all_refused(verdicts),
                        Err(error) => all_refused(verdicts) && error@
                            == HistoryErrorView::FormatMismatch(NO_LOADER_FITS@ + path@),
                    }
                },
    {
        match self.first_fitting(path) {
            Ok(_) => Ok(()),
            Err(error) => Err(error),
        }
    }

    /// Loads the source with the first loader that accepts it, and gives
    /// back what that loader makes of the source; every loader is asked, in
    /// its turn, whether it accepts. It is a mismatch of format for all of
    /// them to refuse the source.
    fn load(&self, path: &str, myself_chooser: &dyn MyselfChooser) -> (loaded: Result<
        LoadedDataset,
        HistoryError,
    >)
        ensures
            exists|verdicts: Seq<Result<(), HistoryError>>|
                {
                    &&& #[trigger] self.were_answered(path, verdicts)
                    &&& all_refused(verdicts) ==> loaded is Err && loaded->Err_0@
                        == HistoryErrorView::FormatMismatch(NO_LOADER_FITS@ + path@)
                    &&& forall|index: int|
                        is_first_accepted(verdicts, index) ==> is_load_of::<dyn DataLoader>(
                            &*self.loaders@[index],
                            path,
                            myself_chooser,
                            loaded,
                        )
                },
    {
        match self.first_fitting(path) {
            Ok(index) => load_with::<dyn DataLoader>(&*self.loaders[index], path, myself_chooser),
            Err(error) => Err(error),
        }
    }
}

} // verus!
