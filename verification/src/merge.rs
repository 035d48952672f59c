//! Reconciling two histories of one chat: the master, which is the
//! baseline, and the slave, which is held against it. Both are walked in the
//! order of their messages, messages are paired by the identifier that the
//! source gave them, and what differs is reported.

use vstd::prelude::*;
use vstd::string::*;
use crate::content::{same_content_view, Content};
use crate::ids::{MasterInternalId, SlaveInternalId};
use crate::message::{join_element_texts, joined_element_texts, Message, Typed};
use crate::rich_text::{same_rich_text, text_view};
use crate::text::{append_all, decimal, decimal_string, join_texts, joined, texts_of};

verus! {

/// Gives the identifier of a message, typed by the side that the message is
/// on.
pub trait WithTypedId {
    type Item: Clone;

    fn typed_id(&self) -> Self::Item;
}

/// A message of the master.
#[derive(Clone, Debug)]
pub struct MasterMessage(pub Message);

/// A message of the slave.
#[derive(Clone, Debug)]
pub struct SlaveMessage(pub Message);

/// Whether two messages of one side are the same message: they have the
/// same internal identifier and the same source identifier. What the
/// messages hold is not looked at.
pub open spec fn same_identity(a: Message, b: Message) -> bool {
    a.internal_id == b.internal_id && a.source_id_option == b.source_id_option
}

fn identity_eq(a: &Message, b: &Message) -> (same: bool)
    ensures
        same == same_identity(*a, *b),
{
    a.internal_id == b.internal_id && match (a.source_id_option, b.source_id_option) {
        (Some(x), Some(y)) => x == y,
        (None, None) => true,
        _ => false,
    }
}

impl PartialEq for MasterMessage {
    fn eq(&self, other: &Self) -> (same: bool) {
        identity_eq(&self.0, &other.0)
    }
}

impl vstd::std_specs::cmp::PartialEqSpecImpl for MasterMessage {
    open spec fn obeys_eq_spec() -> bool {
        true
    }

    open spec fn eq_spec(&self, other: &Self) -> bool {
        same_identity(self.0, other.0)
    }
}

impl WithTypedId for MasterMessage {
    type Item = MasterInternalId;

    fn typed_id(&self) -> (id: MasterInternalId)
        ensures
            id.0 == self.0.internal_id,
    {
        MasterInternalId(self.0.internal_id)
    }
}

impl PartialEq for SlaveMessage {
    fn eq(&self, other: &Self) -> (same: bool) {
        identity_eq(&self.0, &other.0)
    }
}

impl vstd::std_specs::cmp::PartialEqSpecImpl for SlaveMessage {
    open spec fn obeys_eq_spec() -> bool {
        true
    }

    open spec fn eq_spec(&self, other: &Self) -> bool {
        same_identity(self.0, other.0)
    }
}

impl WithTypedId for SlaveMessage {
    type Item = SlaveInternalId;

    fn typed_id(&self) -> (id: SlaveInternalId)
        ensures
            id.0 == self.0.internal_id,
    {
        SlaveInternalId(self.0.internal_id)
    }
}

/// Whether a source identifier `a` comes no later than `b`; an absent one
/// comes first.
pub open spec fn source_le(a: Option<i64>, b: Option<i64>) -> bool {
    match (a, b) {
        (None, _) => true,
        (Some(_), None) => false,
        (Some(x), Some(y)) => x <= y,
    }
}

/// Whether `a` comes no later than `b` in the walk: by timestamp, then by
/// source identifier.
pub open spec fn walks_before(a: Message, b: Message) -> bool {
    a.timestamp < b.timestamp || (a.timestamp == b.timestamp && source_le(
        a.source_id_option,
        b.source_id_option,
    ))
}

/// Whether `a` comes no later than `b` in the walk.
pub fn comes_before(a: &Message, b: &Message) -> (before: bool)
    ensures
        before == walks_before(*a, *b),
{
    if a.timestamp != b.timestamp {
        a.timestamp < b.timestamp
    } else {
        match (a.source_id_option, b.source_id_option) {
            (None, _) => true,
            (Some(_), None) => false,
            (Some(x), Some(y)) => x <= y,
        }
    }
}

/// `sorted` with `m` put behind the last message that comes no later than
/// `m`.
pub open spec fn inserted(sorted: Seq<Message>, m: Message) -> Seq<Message>
    decreases sorted.len(),
{
    if sorted.len() == 0 || walks_before(sorted.last(), m) {
        sorted.push(m)
    } else {
        inserted(sorted.drop_last(), m).push(sorted.last())
    }
}

/// The messages in the order of the walk: ascending by timestamp and source
/// identifier, and those that tie in the order in which they were given.
pub open spec fn walk_order(messages: Seq<Message>) -> Seq<Message>
    decreases messages.len(),
{
    if messages.len() == 0 {
        Seq::empty()
    } else {
        inserted(walk_order(messages.drop_last()), messages.last())
    }
}

/// Whether each message comes no later than the next.
pub open spec fn is_walk_ordered(messages: Seq<Message>) -> bool {
    forall|i: int, j: int|
        0 <= i < j < messages.len() ==> walks_before(#[trigger] messages[i], #[trigger] messages[j])
}

/// The messages that the references point to.
pub open spec fn messages_of(refs: Seq<&Message>) -> Seq<Message> {
    Seq::new(refs.len(), |i: int| *refs[i])
}

proof fn lemma_inserted_at(sorted: Seq<Message>, m: Message, p: int)
    requires
        0 <= p <= sorted.len(),
        p > 0 ==> walks_before(sorted[p - 1], m),
        forall|j: int| p <= j < sorted.len() ==> !walks_before(#[trigger] sorted[j], m),
    ensures
        inserted(sorted, m) == sorted.insert(p, m),
    decreases sorted.len(),
{
    if p < sorted.len() {
        lemma_inserted_at(sorted.drop_last(), m, p);
    }
}

/// The messages in the order of the walk.
pub fn sort_for_walk<'a>(messages: &Vec<&'a Message>) -> (sorted: Vec<&'a Message>)
    ensures
        messages_of(sorted@) == walk_order(messages_of(messages@)),
{
    let mut sorted: Vec<&Message> = Vec::new();
    let mut k: usize = 0;
    let ghost given = messages_of(messages@);
    while k < messages.len()
        invariant
            k <= messages.len(),
            given == messages_of(messages@),
            sorted.len() == k,
            messages_of(sorted@) == walk_order(given.take(k as int)),
        decreases messages.len() - k,
    {
        let m = messages[k];
        let mut p: usize = sorted.len();
        while p > 0 && !comes_before(sorted[p - 1], m)
            invariant
                p <= sorted.len(),
                forall|j: int|
                    p <= j < sorted.len() ==> !walks_before(
                        #[trigger] messages_of(sorted@)[j],
                        *m,
                    ),
            decreases p,
        {
            p -= 1;
        }
        proof {
            lemma_inserted_at(messages_of(sorted@), *m, p as int);
            assert(given.take(k + 1).drop_last() =~= given.take(k as int));
        }
        sorted.insert(p, m);
        k += 1;
    }
    assert(given.take(messages.len() as int) =~= given);
    sorted
}

/// Any two messages can be walked one no later than the other.
pub proof fn lemma_walks_before_total(a: Message, b: Message)
    ensures
        walks_before(a, b) || walks_before(b, a),
{
}

/// If `a` comes no later than `b`, and `b` no later than `c`, then `a` comes
/// no later than `c`.
pub proof fn lemma_walks_before_transitive(a: Message, b: Message, c: Message)
    requires
        walks_before(a, b),
        walks_before(b, c),
    ensures
        walks_before(a, c),
{
}

proof fn lemma_inserted_holds(sorted: Seq<Message>, m: Message)
    ensures
        inserted(sorted, m).len() == sorted.len() + 1,
        inserted(sorted, m).to_multiset() == sorted.to_multiset().insert(m),
        forall|i: int|
            0 <= i < inserted(sorted, m).len() ==> #[trigger] inserted(sorted, m)[i] == m
                || sorted.contains(inserted(sorted, m)[i]),
    decreases sorted.len(),
{
    broadcast use vstd::seq_lib::group_to_multiset_ensures;

    if sorted.len() > 0 && !walks_before(sorted.last(), m) {
        let shorter = sorted.drop_last();
        lemma_inserted_holds(shorter, m);
        assert(shorter.push(sorted.last()) =~= sorted);
    }
}

proof fn lemma_inserted_ordered(sorted: Seq<Message>, m: Message)
    requires
        is_walk_ordered(sorted),
    ensures
        is_walk_ordered(inserted(sorted, m)),
    decreases sorted.len(),
{
    if sorted.len() == 0 || walks_before(sorted.last(), m) {
        let out = sorted.push(m);
        assert forall|i: int, j: int| 0 <= i < j < out.len() implies walks_before(
            #[trigger] out[i],
            #[trigger] out[j],
        ) by {
            if j == sorted.len() {
                lemma_walks_before_transitive(sorted[i], sorted.last(), m);
            }
        }
    } else {
        let shorter = sorted.drop_last();
        let last = sorted.last();
        lemma_inserted_ordered(shorter, m);
        lemma_inserted_holds(shorter, m);
        let inner = inserted(shorter, m);
        let out = inner.push(last);
        assert forall|i: int, j: int| 0 <= i < j < out.len() implies walks_before(
            #[trigger] out[i],
            #[trigger] out[j],
        ) by {
            if j == inner.len() && inner[i] == m {
                lemma_walks_before_total(last, m);
            }
        }
    }
}

/// The order of the walk holds the messages that were given, each as often
/// as it was given, and each comes no later than the next.
pub proof fn lemma_walk_order_sorts(messages: Seq<Message>)
    ensures
        walk_order(messages).len() == messages.len(),
        walk_order(messages).to_multiset() == messages.to_multiset(),
        is_walk_ordered(walk_order(messages)),
    decreases messages.len(),
{
    broadcast use vstd::seq_lib::group_to_multiset_ensures;

    if messages.len() > 0 {
        let shorter = messages.drop_last();
        lemma_walk_order_sorts(shorter);
        lemma_inserted_holds(walk_order(shorter), messages.last());
        lemma_inserted_ordered(walk_order(shorter), messages.last());
        assert(shorter.push(messages.last()) =~= messages);
    }
}

/// Messages that are given in the order of the walk stay as they are; so
/// messages that tie keep the order in which they were given.
pub proof fn lemma_walk_order_keeps_ordered(messages: Seq<Message>)
    requires
        is_walk_ordered(messages),
    ensures
        walk_order(messages) == messages,
    decreases messages.len(),
{
    if messages.len() > 0 {
        let shorter = messages.drop_last();
        lemma_walk_order_keeps_ordered(shorter);
    }
}

/// The two values of a field that differs: the master's and the slave's.
#[derive(Clone, Debug, PartialEq, Eq)]
pub struct DifferenceValues {
    pub old: String,
    pub new: String,
}

/// One thing in which the slave differs from the master.
#[derive(Clone, Debug, PartialEq, Eq)]
pub struct Difference {
    pub message: String,
    pub values: Option<DifferenceValues>,
}

/// What a `Difference` holds, as mathematical values.
pub struct DifferenceView {
    pub message: Seq<char>,
    pub values: Option<(Seq<char>, Seq<char>)>,
}

impl View for Difference {
    type V = DifferenceView;

    open spec fn view(&self) -> DifferenceView {
        DifferenceView {
            message: self.message@,
            values: match self.values {
                Some(values) => Some((values.old@, values.new@)),
                None => None,
            },
        }
    }
}

impl DifferenceView {
    /// The difference written out: the message, and below it the two values
    /// if there are any.
    pub open spec fn text(self) -> Seq<char> {
        match self.values {
            Some((old, new)) => self.message + "\nWas:    "@ + old + "\nBecame: "@ + new,
            None => self.message,
        }
    }
}

impl Difference {
    /// The difference written out: the message, and below it the two values
    /// if there are any.
    pub fn to_text(&self) -> (text: String)
        ensures
            text@ == self@.text(),
    {
        let mut text = self.message.clone();
        match &self.values {
            Some(values) => {
                text.append("\nWas:    ");
                text.append(values.old.as_str());
                text.append("\nBecame: ");
                text.append(values.new.as_str());
            },
            None => {},
        }
        text
    }
}

/// The views of a sequence of differences.
pub open spec fn differences_view(differences: Seq<Difference>) -> Seq<DifferenceView> {
    Seq::new(differences.len(), |i: int| differences[i]@)
}

/// How a message is named in a difference: by its source identifier after
/// a hash sign, or without one by its timestamp.
pub open spec fn label_of(m: Message) -> Seq<char> {
    match m.source_id_option {
        Some(id) => "#"@ + decimal(id as int),
        None => "at "@ + decimal(m.timestamp as int),
    }
}

fn label(m: &Message) -> (text: String)
    ensures
        text@ == label_of(*m),
{
    match m.source_id_option {
        Some(id) => {
            let mut text = "#".to_owned();
            text.append(decimal_string(id).as_str());
            text
        },
        None => {
            let mut text = "at ".to_owned();
            text.append(decimal_string(m.timestamp).as_str());
            text
        },
    }
}

/// The report of a message that only the master has.
pub open spec fn removed(m: Message) -> DifferenceView {
    DifferenceView { message: "Removed in slave: message "@ + label_of(m), values: None }
}

/// The report of a message that only the slave has.
pub open spec fn added(m: Message) -> DifferenceView {
    DifferenceView { message: "Added in master's view: message "@ + label_of(m), values: None }
}

/// The report of a field that differs between a message of the master and
/// its counterpart; `start` names the field.
pub open spec fn mismatch(start: Seq<char>, m: Message, old: Seq<char>, new: Seq<char>) -> DifferenceView {
    DifferenceView { message: start + label_of(m), values: Some((old, new)) }
}

fn report(start: &str, m: &Message, values: Option<DifferenceValues>) -> (difference: Difference)
    ensures
        difference.message@ == start@ + label_of(*m),
        difference.values == values,
{
    let mut message = start.to_owned();
    message.append(label(m).as_str());
    Difference { message, values }
}

/// The time of the last edit of a message, if it was edited.
pub open spec fn edit_timestamp_of(m: Message) -> Option<i64> {
    match m.typed {
        Typed::Regular(regular) => regular.edit_timestamp_option,
        Typed::Service(_) => None,
    }
}

/// Whether a message is marked as deleted.
pub open spec fn is_deleted(m: Message) -> bool {
    match m.typed {
        Typed::Regular(regular) => regular.is_deleted,
        Typed::Service(_) => false,
    }
}

/// The content of a message, if it has any.
pub open spec fn content_of(m: Message) -> Option<Content> {
    match m.typed {
        Typed::Regular(regular) => regular.content_option,
        Typed::Service(_) => None,
    }
}

/// How the time of an edit is shown.
pub open spec fn shown_timestamp(t: Option<i64>) -> Seq<char> {
    match t {
        Some(seconds) => decimal(seconds as int),
        None => "none"@,
    }
}

/// How a flag is shown.
pub open spec fn shown_flag(flag: bool) -> Seq<char> {
    if flag {
        "true"@
    } else {
        "false"@
    }
}

/// The name of the kind of a content.
pub open spec fn kind_name(content: Content) -> Seq<char> {
    match content {
        Content::Sticker(_) => "Sticker"@,
        Content::Photo(_) => "Photo"@,
        Content::VoiceMsg(_) => "VoiceMsg"@,
        Content::Audio(_) => "Audio"@,
        Content::VideoMsg(_) => "VideoMsg"@,
        Content::Video(_) => "Video"@,
        Content::File(_) => "File"@,
        Content::Location(_) => "Location"@,
        Content::Poll(_) => "Poll"@,
        Content::SharedContact(_) => "SharedContact"@,
    }
}

/// How a content is shown: the name of its kind, its files, and the text by
/// which it is found.
pub open spec fn shown_content(content: Option<Content>) -> Seq<char> {
    match content {
        Some(c) => joined(seq![kind_name(c)] + c@.files() + c@.searchable_parts(), " "@),
        None => "none"@,
    }
}

fn show_timestamp(t: Option<i64>) -> (text: String)
    ensures
        text@ == shown_timestamp(t),
{
    match t {
        Some(seconds) => decimal_string(seconds),
        None => "none".to_owned(),
    }
}

fn show_flag(flag: bool) -> (text: String)
    ensures
        text@ == shown_flag(flag),
{
    if flag {
        "true".to_owned()
    } else {
        "false".to_owned()
    }
}

fn kind_name_of(content: &Content) -> (name: &'static str)
    ensures
        name@ == kind_name(*content),
{
    match content {
        Content::Sticker(_) => "Sticker",
        Content::Photo(_) => "Photo",
        Content::VoiceMsg(_) => "VoiceMsg",
        Content::Audio(_) => "Audio",
        Content::VideoMsg(_) => "VideoMsg",
        Content::Video(_) => "Video",
        Content::File(_) => "File",
        Content::Location(_) => "Location",
        Content::Poll(_) => "Poll",
        Content::SharedContact(_) => "SharedContact",
    }
}

fn show_content(content: &Option<Content>) -> (text: String)
    ensures
        text@ == shown_content(*content),
{
    match content {
        Some(c) => {
            let mut parts: Vec<&str> = Vec::new();
            parts.push(kind_name_of(c));
            assert(texts_of(parts@) =~= seq![kind_name(*c)]);
            let files = c.files();
            append_all(&mut parts, &files);
            let found_by = c.searchable_parts();
            append_all(&mut parts, &found_by);
            join_texts(&parts, " ")
        },
        None => "none".to_owned(),
    }
}

fn edit_timestamp(m: &Message) -> (t: Option<i64>)
    ensures
        t == edit_timestamp_of(*m),
{
    match &m.typed {
        Typed::Regular(regular) => regular.edit_timestamp_option,
        Typed::Service(_) => None,
    }
}

fn deleted(m: &Message) -> (flag: bool)
    ensures
        flag == is_deleted(*m),
{
    match &m.typed {
        Typed::Regular(regular) => regular.is_deleted,
        Typed::Service(_) => false,
    }
}

fn content(m: &Message) -> (content: &Option<Content>)
    ensures
        *content == content_of(*m),
{
    match &m.typed {
        Typed::Regular(regular) => &regular.content_option,
        Typed::Service(_) => &None,
    }
}

/// `differences` with `difference` behind them if `differs` holds.
pub open spec fn with_difference(
    differences: Seq<DifferenceView>,
    differs: bool,
    difference: DifferenceView,
) -> Seq<DifferenceView> {
    if differs {
        differences.push(difference)
    } else {
        differences
    }
}

/// What differs between a message `m` of the master and its counterpart
/// `s` in the slave, field by field: the text, the time of the last edit,
/// the mark of deletion, the content. A field that is the same on both
/// sides is not reported.
pub open spec fn field_differences(m: Message, s: Message) -> Seq<DifferenceView> {
    let none = Seq::<DifferenceView>::empty();
    let text = with_difference(
        none,
        text_view(m.text@) != text_view(s.text@),
        mismatch("Text differs for message "@, m, joined_element_texts(m.text@), joined_element_texts(s.text@)),
    );
    let edit = with_difference(
        text,
        edit_timestamp_of(m) != edit_timestamp_of(s),
        mismatch(
            "Edit timestamp differs for message "@,
            m,
            shown_timestamp(edit_timestamp_of(m)),
            shown_timestamp(edit_timestamp_of(s)),
        ),
    );
    let deletion = with_difference(
        edit,
        is_deleted(m) != is_deleted(s),
        mismatch(
            "Deletion flag differs for message "@,
            m, shown_flag(is_deleted(m)), shown_flag(is_deleted(s))),
    );
    with_difference(
        deletion,
        !same_content_view(content_of(m), content_of(s)),
        mismatch(
            "Content differs for message "@,
            m, shown_content(content_of(m)), shown_content(content_of(s))),
    )
}

fn same_timestamp(a: Option<i64>, b: Option<i64>) -> (same: bool)
    ensures
        same == (a == b),
{
    match (a, b) {
        (Some(x), Some(y)) => x == y,
        (None, None) => true,
        _ => false,
    }
}

fn same_content(a: &Option<Content>, b: &Option<Content>) -> (same: bool)
    ensures
        same == same_content_view(*a, *b),
{
    match (a, b) {
        (Some(x), Some(y)) => x.same(y),
        (None, None) => true,
        _ => false,
    }
}

/// Holds a message of the master against its counterpart in the slave and
/// appends to `differences` what differs.
pub fn compare_fields(m: &Message, s: &Message, differences: &mut Vec<Difference>)
    ensures
        differences_view(final(differences)@) == differences_view(old(differences)@)
            + field_differences(*m, *s),
{
    if !same_rich_text(&m.text, &s.text) {
        let values = DifferenceValues {
            old: join_element_texts(m.text.as_slice()),
            new: join_element_texts(s.text.as_slice()),
        };
        differences.push(report("Text differs for message ", m, Some(values)));
    }
    if !same_timestamp(edit_timestamp(m), edit_timestamp(s)) {
        let values = DifferenceValues {
            old: show_timestamp(edit_timestamp(m)),
            new: show_timestamp(edit_timestamp(s)),
        };
        differences.push(report("Edit timestamp differs for message ", m, Some(values)));
    }
    if deleted(m) != deleted(s) {
        let values = DifferenceValues { old: show_flag(deleted(m)), new: show_flag(deleted(s)) };
        differences.push(report("Deletion flag differs for message ", m, Some(values)));
    }
    if !same_content(content(m), content(s)) {
        let values = DifferenceValues {
            old: show_content(content(m)),
            new: show_content(content(s)),
        };
        differences.push(report("Content differs for message ", m, Some(values)));
    }
}

/// Whether a message of the master and a message of the slave are
/// counterparts: both have a source identifier, and it is the same.
pub open spec fn same_source(m: Message, s: Message) -> bool {
    m.source_id_option is Some && m.source_id_option == s.source_id_option
}

/// What the walk reports from the positions `i` in the master and `j` in
/// the slave on, both in the order of the walk. Counterparts that meet are
/// held against each other. Otherwise the message that comes no later is
/// reported as being on its side only, the master's first where the two
/// tie, and the walk goes on behind it.
pub open spec fn walk_from(master: Seq<Message>, slave: Seq<Message>, i: int, j: int) -> Seq<
    DifferenceView,
>
    decreases master.len() - i + slave.len() - j,
{
    if i < 0 || j < 0 || i > master.len() || j > slave.len() {
        Seq::empty()
    } else if i == master.len() && j == slave.len() {
        Seq::empty()
    } else if i == master.len() {
        seq![added(slave[j])] + walk_from(master, slave, i, j + 1)
    } else if j == slave.len() {
        seq![removed(master[i])] + walk_from(master, slave, i + 1, j)
    } else if same_source(master[i], slave[j]) {
        field_differences(master[i], slave[j]) + walk_from(master, slave, i + 1, j + 1)
    } else if walks_before(master[i], slave[j]) {
        seq![removed(master[i])] + walk_from(master, slave, i + 1, j)
    } else {
        seq![added(slave[j])] + walk_from(master, slave, i, j + 1)
    }
}

/// What differs between a master and a slave, in the order of the walk.
pub open spec fn spec_differences(master: Seq<Message>, slave: Seq<Message>) -> Seq<DifferenceView> {
    walk_from(walk_order(master), walk_order(slave), 0, 0)
}

fn is_counterpart(m: &Message, s: &Message) -> (same: bool)
    ensures
        same == same_source(*m, *s),
{
    match (m.source_id_option, s.source_id_option) {
        (Some(x), Some(y)) => x == y,
        _ => false,
    }
}

/// Walks a master and a slave that are both in the order of the walk, and
/// reports what differs.
pub fn walk(master: &Vec<&Message>, slave: &Vec<&Message>) -> (differences: Vec<Difference>)
    ensures
        differences_view(differences@) == walk_from(
            messages_of(master@),
            messages_of(slave@),
            0,
            0,
        ),
{
    let mut differences: Vec<Difference> = Vec::new();
    let mut i: usize = 0;
    let mut j: usize = 0;
    let ghost ms = messages_of(master@);
    let ghost ss = messages_of(slave@);
    while i < master.len() || j < slave.len()
        invariant
            i <= master.len(),
            j <= slave.len(),
            ms == messages_of(master@),
            ss == messages_of(slave@),
            differences_view(differences@) + walk_from(ms, ss, i as int, j as int) == walk_from(
                ms,
                ss,
                0,
                0,
            ),
        decreases master.len() - i + slave.len() - j,
    {
        if i == master.len() {
            differences.push(report("Added in master's view: message ", slave[j], None));
            j += 1;
        } else if j == slave.len() {
            differences.push(report("Removed in slave: message ", master[i], None));
            i += 1;
        } else if is_counterpart(master[i], slave[j]) {
            compare_fields(master[i], slave[j], &mut differences);
            i += 1;
            j += 1;
        } else if comes_before(master[i], slave[j]) {
            differences.push(report("Removed in slave: message ", master[i], None));
            i += 1;
        } else {
            differences.push(report("Added in master's view: message ", slave[j], None));
            j += 1;
        }
    }
    differences
}

/// The messages of a master.
pub open spec fn master_messages(master: Seq<MasterMessage>) -> Seq<Message> {
    Seq::new(master.len(), |i: int| master[i].0)
}

/// The messages of a slave.
pub open spec fn slave_messages(slave: Seq<SlaveMessage>) -> Seq<Message> {
    Seq::new(slave.len(), |i: int| slave[i].0)
}

/// Holds the slave against the master and reports, in the order of the
/// walk, what differs: a message that only one side has, and each field in
/// which a message of the master differs from its counterpart. Neither side
/// is changed.
pub fn differences(master: &Vec<MasterMessage>, slave: &Vec<SlaveMessage>) -> (differences: Vec<
    Difference,
>)
    ensures
        differences_view(differences@) == spec_differences(
            master_messages(master@),
            slave_messages(slave@),
        ),
{
    let mut master_refs: Vec<&Message> = Vec::new();
    let mut i: usize = 0;
    while i < master.len()
        invariant
            i <= master.len(),
            messages_of(master_refs@) == master_messages(master@).take(i as int),
        decreases master.len() - i,
    {
        let ghost before = messages_of(master_refs@);
        master_refs.push(&master[i].0);
        i += 1;
        assert(master_messages(master@).take(i as int) =~= before.push(master@[i - 1].0));
    }
    let mut slave_refs: Vec<&Message> = Vec::new();
    let mut j: usize = 0;
    while j < slave.len()
        invariant
            j <= slave.len(),
            messages_of(slave_refs@) == slave_messages(slave@).take(j as int),
        decreases slave.len() - j,
    {
        let ghost before = messages_of(slave_refs@);
        slave_refs.push(&slave[j].0);
        j += 1;
        assert(slave_messages(slave@).take(j as int) =~= before.push(slave@[j - 1].0));
    }
    assert(master_messages(master@).take(master.len() as int) =~= master_messages(master@));
    assert(slave_messages(slave@).take(slave.len() as int) =~= slave_messages(slave@));
    let master_sorted = sort_for_walk(&master_refs);
    let slave_sorted = sort_for_walk(&slave_refs);
    walk(&master_sorted, &slave_sorted)
}

proof fn lemma_walk_order_members(messages: Seq<Message>)
    ensures
        walk_order(messages).len() == messages.len(),
        forall|i: int|
            0 <= i < messages.len() ==> messages.contains(#[trigger] walk_order(messages)[i]),
    decreases messages.len(),
{
    if messages.len() > 0 {
        let shorter = messages.drop_last();
        lemma_walk_order_members(shorter);
        lemma_inserted_holds(walk_order(shorter), messages.last());
    }
}

proof fn lemma_walk_without_counterparts(master: Seq<Message>, slave: Seq<Message>, i: int, j: int)
    requires
        0 <= i <= master.len(),
        0 <= j <= slave.len(),
        forall|a: int, b: int|
            0 <= a < master.len() && 0 <= b < slave.len() ==> !same_source(
                #[trigger] master[a],
                #[trigger] slave[b],
            ),
    ensures
        walk_from(master, slave, i, j).len() == master.len() - i + slave.len() - j,
        forall|k: int|
            0 <= k < walk_from(master, slave, i, j).len() ==> (#[trigger] walk_from(
                master,
                slave,
                i,
                j,
            )[k]).values is None,
    decreases master.len() - i + slave.len() - j,
{
    if i < master.len() && (j == slave.len() || walks_before(master[i], slave[j])) {
        lemma_walk_without_counterparts(master, slave, i + 1, j);
    } else if j < slave.len() {
        lemma_walk_without_counterparts(master, slave, i, j + 1);
    }
}

/// Where no message of the master has a counterpart in the slave, every
/// message of either side is reported once, as being on its side only, and
/// no field is reported. So it is, in particular, with messages that have
/// no source identifier.
pub proof fn lemma_no_counterparts(master: Seq<Message>, slave: Seq<Message>)
    requires
        forall|a: int, b: int|
            0 <= a < master.len() && 0 <= b < slave.len() ==> !same_source(
                #[trigger] master[a],
                #[trigger] slave[b],
            ),
    ensures
        spec_differences(master, slave).len() == master.len() + slave.len(),
        forall|k: int|
            0 <= k < spec_differences(master, slave).len() ==> (#[trigger] spec_differences(
                master,
                slave,
            )[k]).values is None,
{
    let ms = walk_order(master);
    let ss = walk_order(slave);
    lemma_walk_order_members(master);
    lemma_walk_order_members(slave);
    lemma_walk_without_counterparts(ms, ss, 0, 0);
}

proof fn lemma_walk_with_itself(messages: Seq<Message>, i: int)
    requires
        0 <= i <= messages.len(),
        forall|a: int| 0 <= a < messages.len() ==> (#[trigger] messages[a]).source_id_option is Some,
    ensures
        walk_from(messages, messages, i, i) == Seq::<DifferenceView>::empty(),
    decreases messages.len() - i,
{
    if i < messages.len() {
        lemma_walk_with_itself(messages, i + 1);
    }
}

/// A history in which every message has a source identifier does not differ
/// from itself.
pub proof fn lemma_history_agrees_with_itself(messages: Seq<Message>)
    requires
        forall|a: int| 0 <= a < messages.len() ==> (#[trigger] messages[a]).source_id_option is Some,
    ensures
        spec_differences(messages, messages) == Seq::<DifferenceView>::empty(),
{
    let sorted = walk_order(messages);
    lemma_walk_order_members(messages);
    lemma_walk_with_itself(sorted, 0);
}

} // verus!
