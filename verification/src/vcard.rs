//! Contacts as they are shared in a chat: a vCard, of which the name and
//! the phone number are kept.

use vstd::prelude::*;
use crate::content::{ContentSharedContact, ContentSharedContactView};
use crate::error::{HistoryError, HistoryErrorView};
use crate::text::{
    chars_of, is_word, pieces_of, same_word, split, split_chars, sub_chars, text_between, text_opt,
    trim_chars, trimmed,
};

verus! {

/// `line` without the carriage return that may end it.
pub open spec fn without_cr(line: Seq<char>) -> Seq<char> {
    if line.len() > 0 && line.last() == '\r' {
        line.drop_last()
    } else {
        line
    }
}

/// Whether `line` continues the line before it: it starts with a space or a
/// tab.
pub open spec fn is_continuation(line: Seq<char>) -> bool {
    line.len() > 0 && (line[0] == ' ' || line[0] == '\t')
}

/// The lines as they were meant: each line that continues the one before
/// it is joined to it, without the character that marks it.
pub open spec fn unfolded(lines: Seq<Seq<char>>) -> Seq<Seq<char>>
    decreases lines.len(),
{
    if lines.len() == 0 {
        Seq::empty()
    } else {
        let before = unfolded(lines.drop_last());
        let line = without_cr(lines.last());
        if before.len() > 0 && is_continuation(line) {
            before.drop_last().push(before.last() + line.skip(1))
        } else {
            before.push(line)
        }
    }
}

/// The lines of a vCard as they were meant.
pub open spec fn logical_lines(vcard: Seq<char>) -> Seq<Seq<char>> {
    unfolded(split(vcard, '\n'))
}

/// Whether `index` is the first position of `s` of which `wanted` holds.
pub open spec fn is_first_such<T>(s: Seq<T>, wanted: spec_fn(T) -> bool, index: int) -> bool {
    &&& 0 <= index < s.len()
    &&& wanted(s[index])
    &&& forall|j: int| 0 <= j < index ==> !wanted(#[trigger] s[j])
}

/// The first position of `s` of which `wanted` holds, if there is one.
pub open spec fn first_such<T>(s: Seq<T>, wanted: spec_fn(T) -> bool) -> Option<int> {
    if exists|index: int| is_first_such(s, wanted, index) {
        Some(choose|index: int| is_first_such(s, wanted, index))
    } else {
        None
    }
}

/// A first position is the only one.
pub proof fn lemma_first_such<T>(s: Seq<T>, wanted: spec_fn(T) -> bool, index: int)
    requires
        is_first_such(s, wanted, index),
    ensures
        first_such(s, wanted) == Some(index),
{
}

/// Where `wanted` holds somewhere, there is a first position, and `wanted`
/// holds there.
pub proof fn lemma_some_such<T>(s: Seq<T>, wanted: spec_fn(T) -> bool, index: int)
    requires
        0 <= index < s.len(),
        wanted(s[index]),
    ensures
        first_such(s, wanted) matches Some(first) && is_first_such(s, wanted, first) && first
            <= index,
    decreases index,
{
    if exists|j: int| 0 <= j < index && wanted(#[trigger] s[j]) {
        let j = choose|j: int| 0 <= j < index && wanted(#[trigger] s[j]);
        lemma_some_such(s, wanted, j);
    } else {
        lemma_first_such(s, wanted, index);
    }
}

/// Where `wanted` holds nowhere, there is no first position.
pub proof fn lemma_none_such<T>(s: Seq<T>, wanted: spec_fn(T) -> bool)
    requires
        forall|j: int| 0 <= j < s.len() ==> !wanted(#[trigger] s[j]),
    ensures
        first_such(s, wanted) is None,
{
}

/// One line of a vCard: the name of a property, without the group that may
/// stand before it; its parameters; and its value, trimmed.
#[derive(Clone, Debug, PartialEq, Eq)]
pub struct VcardProperty {
    pub name: Vec<char>,
    pub params: Vec<Vec<char>>,
    pub value: Vec<char>,
}

/// What a `VcardProperty` holds, as mathematical values.
pub struct VcardPropertyView {
    pub name: Seq<char>,
    pub params: Seq<Seq<char>>,
    pub value: Seq<char>,
}

impl View for VcardProperty {
    type V = VcardPropertyView;

    open spec fn view(&self) -> VcardPropertyView {
        VcardPropertyView { name: self.name@, params: pieces_of(self.params@), value: self.value@ }
    }
}

/// The views of a sequence of properties.
pub open spec fn properties_view(properties: Seq<VcardProperty>) -> Seq<VcardPropertyView> {
    Seq::new(properties.len(), |i: int| properties[i]@)
}

/// The property that `line` writes: what stands before the first colon is
/// the name with its parameters, parted by semicolons, and what follows is
/// the value. A line without a colon writes none.
pub open spec fn property_of(line: Seq<char>) -> Option<VcardPropertyView> {
    match first_such(line, |c: char| c == ':') {
        Some(colon) => {
            let head = split(line.take(colon), ';');
            Some(
                VcardPropertyView {
                    name: split(head[0], '.').last(),
                    params: head.skip(1),
                    value: trimmed(line.skip(colon + 1)),
                },
            )
        },
        None => None,
    }
}

/// `properties` with `property` behind them if there is one.
pub open spec fn with_property(
    properties: Seq<VcardPropertyView>,
    property: Option<VcardPropertyView>,
) -> Seq<VcardPropertyView> {
    match property {
        Some(p) => properties.push(p),
        None => properties,
    }
}

/// The properties that the lines write, in order.
pub open spec fn properties_of(lines: Seq<Seq<char>>) -> Seq<VcardPropertyView>
    decreases lines.len(),
{
    if lines.len() == 0 {
        Seq::empty()
    } else {
        with_property(properties_of(lines.drop_last()), property_of(lines.last()))
    }
}

fn append_from(line: &mut Vec<char>, more: &Vec<char>, from: usize)
    requires
        from <= more.len(),
    ensures
        final(line)@ == old(line)@ + more@.skip(from as int),
{
    let mut i: usize = from;
    while i < more.len()
        invariant
            from <= i <= more.len(),
            line@ == old(line)@ + more@.subrange(from as int, i as int),
        decreases more.len() - i,
    {
        line.push(more[i]);
        i += 1;
    }
}

fn strip_cr(line: &Vec<char>) -> (stripped: Vec<char>)
    ensures
        stripped@ == without_cr(line@),
{
    let len = line.len();
    if len > 0 && line[len - 1] == '\r' {
        sub_chars(line, 0, len - 1)
    } else {
        sub_chars(line, 0, len)
    }
}

/// Joins to each line the lines that continue it.
pub fn unfold(lines: &Vec<Vec<char>>) -> (logical: Vec<Vec<char>>)
    ensures
        pieces_of(logical@) == unfolded(pieces_of(lines@)),
{
    let mut logical: Vec<Vec<char>> = Vec::new();
    if lines.len() == 0 {
        return logical;
    }
    let ghost raw = pieces_of(lines@);
    let mut current = strip_cr(&lines[0]);
    let mut i: usize = 1;
    assert(raw.take(1).drop_last() =~= raw.take(0));
    assert(unfolded(raw.take(0)) =~= Seq::<Seq<char>>::empty());
    while i < lines.len()
        invariant
            1 <= i <= lines.len(),
            raw == pieces_of(lines@),
            pieces_of(logical@).push(current@) == unfolded(raw.take(i as int)),
        decreases lines.len() - i,
    {
        assert(raw.take(i + 1).drop_last() =~= raw.take(i as int));
        let line = strip_cr(&lines[i]);
        if line.len() > 0 && (line[0] == ' ' || line[0] == '\t') {
            append_from(&mut current, &line, 1);
        } else {
            logical.push(current);
            current = line;
        }
        i += 1;
    }
    assert(raw.take(lines.len() as int) =~= raw);
    logical.push(current);
    logical
}

fn copy_pieces(pieces: &Vec<Vec<char>>, from: usize) -> (copy: Vec<Vec<char>>)
    requires
        from <= pieces.len(),
    ensures
        pieces_of(copy@) == pieces_of(pieces@).skip(from as int),
{
    let mut copy: Vec<Vec<char>> = Vec::new();
    let mut i: usize = from;
    while i < pieces.len()
        invariant
            from <= i <= pieces.len(),
            pieces_of(copy@) == pieces_of(pieces@).subrange(from as int, i as int),
        decreases pieces.len() - i,
    {
        let ghost before = pieces_of(copy@);
        let piece = sub_chars(&pieces[i], 0, pieces[i].len());
        assert(piece@ =~= pieces@[i as int]@);
        copy.push(piece);
        i += 1;
        assert(pieces_of(copy@) =~= before.push(pieces@[i - 1]@));
    }
    copy
}

/// Reads the property that `line` writes, if it writes one.
pub fn read_property(line: &Vec<char>) -> (property: Option<VcardProperty>)
    ensures
        match property {
            Some(p) => property_of(line@) == Some(p@),
            None => property_of(line@) is None,
        },
{
    let mut colon: usize = 0;
    while colon < line.len() && line[colon] != ':'
        invariant
            colon <= line.len(),
            forall|j: int| 0 <= j < colon ==> (#[trigger] line@[j]) != ':',
        decreases line.len() - colon,
    {
        colon += 1;
    }
    let ghost is_colon = |c: char| c == ':';
    if colon == line.len() {
        proof {
            lemma_none_such(line@, is_colon);
        }
        return None;
    }
    proof {
        lemma_first_such(line@, is_colon, colon as int);
    }
    let before = sub_chars(line, 0, colon);
    let head = split_chars(&before, ';');
    let key = split_chars(&head[0], '.');
    let last = key.len() - 1;
    let name = sub_chars(&key[last], 0, key[last].len());
    assert(name@ =~= key@[last as int]@);
    let params = copy_pieces(&head, 1);
    let after = sub_chars(line, colon + 1, line.len());
    let value = trim_chars(&after);
    Some(VcardProperty { name, params, value })
}

/// The properties of a vCard, in the order of its lines.
pub fn vcard_properties(vcard: &str) -> (properties: Vec<VcardProperty>)
    ensures
        properties_view(properties@) == properties_of(logical_lines(vcard@)),
{
    let chars = chars_of(vcard);
    let raw = split_chars(&chars, '\n');
    let lines = unfold(&raw);
    let ghost all = pieces_of(lines@);
    let mut properties: Vec<VcardProperty> = Vec::new();
    let mut i: usize = 0;
    while i < lines.len()
        invariant
            i <= lines.len(),
            all == pieces_of(lines@),
            properties_view(properties@) == properties_of(all.take(i as int)),
        decreases lines.len() - i,
    {
        assert(all.take(i + 1).drop_last() =~= all.take(i as int));
        match read_property(&lines[i]) {
            Some(p) => {
                properties.push(p);
            },
            None => {},
        }
        i += 1;
    }
    assert(all.take(lines.len() as int) =~= all);
    properties
}

/// Whether `p` is named by the word that `upper` and `lower` spell.
pub open spec fn is_named(p: VcardPropertyView, upper: Seq<char>, lower: Seq<char>) -> bool {
    same_word(p.name, upper, lower)
}

/// Whether a parameter says that a phone is a mobile one: its value, or the
/// parameter itself where it has no name, is `MOBILE` or `CELL`, and its
/// name, where it has one, is `TYPE`; in capitals or in small letters.
pub open spec fn tags_mobile(param: Seq<char>) -> bool {
    let parts = split(param, '=');
    let kind = if parts.len() == 1 {
        parts[0]
    } else {
        parts[1]
    };
    &&& parts.len() <= 2
    &&& parts.len() == 2 ==> same_word(parts[0], "TYPE"@, "type"@)
    &&& same_word(kind, "MOBILE"@, "mobile"@) || same_word(kind, "CELL"@, "cell"@)
}

/// Whether a parameter gives the identifier that the messenger has for a
/// phone number: its name is `WAID`, in capitals or in small letters.
pub open spec fn carries_waid(param: Seq<char>) -> bool {
    same_word(split(param, '=')[0], "WAID"@, "waid"@)
}

/// Whether one of the parameters of `p` says that the phone is a mobile
/// one.
pub open spec fn is_mobile(p: VcardPropertyView) -> bool {
    exists|i: int| 0 <= i < p.params.len() && tags_mobile(#[trigger] p.params[i])
}

/// Whether one of the parameters of `p` gives the messenger's identifier.
pub open spec fn has_waid(p: VcardPropertyView) -> bool {
    exists|i: int| 0 <= i < p.params.len() && carries_waid(#[trigger] p.params[i])
}

/// Whether `p` is a phone number, a mobile one if `mobile` asks for it, and
/// one with the messenger's identifier if `waid` asks for it.
pub open spec fn is_phone(p: VcardPropertyView, mobile: bool, waid: bool) -> bool {
    &&& is_named(p, "TEL"@, "tel"@)
    &&& mobile ==> is_mobile(p)
    &&& waid ==> has_waid(p)
}

/// The value of the first property of which `wanted` holds.
pub open spec fn value_of_first(properties: Seq<VcardPropertyView>, wanted: spec_fn(VcardPropertyView) -> bool) -> Option<
    Seq<char>,
> {
    match first_such(properties, wanted) {
        Some(index) => Some(properties[index].value),
        None => None,
    }
}

/// `first` if it is there, else `second`.
pub open spec fn or_else(first: Option<Seq<char>>, second: Option<Seq<char>>) -> Option<Seq<char>> {
    match first {
        Some(_) => first,
        None => second,
    }
}

/// The phone number of a contact: that of the first mobile phone, else
/// that of the first phone of any kind; among the phones of the same kind
/// one with the messenger's identifier goes before the others.
pub open spec fn phone_of(properties: Seq<VcardPropertyView>) -> Option<Seq<char>> {
    or_else(
        value_of_first(properties, |p: VcardPropertyView| is_phone(p, true, true)),
        or_else(
            value_of_first(properties, |p: VcardPropertyView| is_phone(p, true, false)),
            or_else(
                value_of_first(properties, |p: VcardPropertyView| is_phone(p, false, true)),
                value_of_first(properties, |p: VcardPropertyView| is_phone(p, false, false)),
            ),
        ),
    )
}

/// Where a contact has a mobile phone, the number of a mobile phone is
/// taken, whatever other phones stand before it.
pub proof fn lemma_mobile_phone_wins(properties: Seq<VcardPropertyView>, index: int)
    requires
        0 <= index < properties.len(),
        is_phone(properties[index], true, false),
    ensures
        exists|taken: int|
            0 <= taken < properties.len() && is_phone(#[trigger] properties[taken], true, false)
                && phone_of(properties) == Some(properties[taken].value),
{
    let mobile_with_waid = |p: VcardPropertyView| is_phone(p, true, true);
    let mobile = |p: VcardPropertyView| is_phone(p, true, false);
    match first_such(properties, mobile_with_waid) {
        Some(taken) => {
        },
        None => {
            lemma_some_such(properties, mobile, index);
        },
    }
}

/// A contact without any phone has no phone number.
pub proof fn lemma_no_phone(properties: Seq<VcardPropertyView>)
    requires
        forall|i: int|
            0 <= i < properties.len() ==> !is_phone(#[trigger] properties[i], false, false),
    ensures
        phone_of(properties) is None,
{
    lemma_none_such(properties, |p: VcardPropertyView| is_phone(p, true, true));
    lemma_none_such(properties, |p: VcardPropertyView| is_phone(p, true, false));
    lemma_none_such(properties, |p: VcardPropertyView| is_phone(p, false, true));
    lemma_none_such(properties, |p: VcardPropertyView| is_phone(p, false, false));
}

/// The components of a structured name, each trimmed.
pub open spec fn name_components(value: Seq<char>) -> Seq<Seq<char>> {
    split(value, ';').map_values(|part: Seq<char>| trimmed(part))
}

/// The first component of a structured name that is not empty.
pub open spec fn first_component(value: Seq<char>) -> Option<Seq<char>> {
    let components = name_components(value);
    match first_such(components, |part: Seq<char>| part.len() > 0) {
        Some(index) => Some(components[index]),
        None => None,
    }
}

/// The name of a contact: the full name, if the vCard gives one that is not
/// empty, else the first component of the structured name that is not
/// empty.
pub open spec fn name_of(properties: Seq<VcardPropertyView>) -> Option<Seq<char>> {
    or_else(
        value_of_first(
            properties,
            |p: VcardPropertyView| is_named(p, "FN"@, "fn"@) && p.value.len() > 0,
        ),
        match first_such(properties, |p: VcardPropertyView| is_named(p, "N"@, "n"@)) {
            Some(index) => first_component(properties[index].value),
            None => None,
        },
    )
}

fn whole_is_word(chars: &Vec<char>, upper: &str, lower: &str) -> (same: bool)
    ensures
        same == same_word(chars@, upper@, lower@),
{
    assert(chars@.subrange(0, chars.len() as int) =~= chars@);
    is_word(chars, 0, chars.len(), upper, lower)
}

fn param_tags_mobile(param: &Vec<char>) -> (mobile: bool)
    ensures
        mobile == tags_mobile(param@),
{
    let parts = split_chars(param, '=');
    if parts.len() > 2 {
        return false;
    }
    if parts.len() == 2 {
        if !whole_is_word(&parts[0], "TYPE", "type") {
            return false;
        }
        whole_is_word(&parts[1], "MOBILE", "mobile") || whole_is_word(&parts[1], "CELL", "cell")
    } else {
        whole_is_word(&parts[0], "MOBILE", "mobile") || whole_is_word(&parts[0], "CELL", "cell")
    }
}

fn param_carries_waid(param: &Vec<char>) -> (waid: bool)
    ensures
        waid == carries_waid(param@),
{
    let parts = split_chars(param, '=');
    whole_is_word(&parts[0], "WAID", "waid")
}

fn property_is_mobile(p: &VcardProperty) -> (mobile: bool)
    ensures
        mobile == is_mobile(p@),
{
    let mut i: usize = 0;
    while i < p.params.len()
        invariant
            i <= p.params.len(),
            forall|j: int| 0 <= j < i ==> !tags_mobile(#[trigger] p@.params[j]),
        decreases p.params.len() - i,
    {
        assert(p@.params[i as int] == p.params@[i as int]@);
        if param_tags_mobile(&p.params[i]) {
            return true;
        }
        i += 1;
    }
    false
}

fn property_has_waid(p: &VcardProperty) -> (waid: bool)
    ensures
        waid == has_waid(p@),
{
    let mut i: usize = 0;
    while i < p.params.len()
        invariant
            i <= p.params.len(),
            forall|j: int| 0 <= j < i ==> !carries_waid(#[trigger] p@.params[j]),
        decreases p.params.len() - i,
    {
        assert(p@.params[i as int] == p.params@[i as int]@);
        if param_carries_waid(&p.params[i]) {
            return true;
        }
        i += 1;
    }
    false
}

fn property_is_phone(p: &VcardProperty, mobile: bool, waid: bool) -> (phone: bool)
    ensures
        phone == is_phone(p@, mobile, waid),
{
    whole_is_word(&p.name, "TEL", "tel") && (!mobile || property_is_mobile(p)) && (!waid
        || property_has_waid(p))
}

fn find_phone(properties: &Vec<VcardProperty>, mobile: bool, waid: bool) -> (value: Option<String>)
    ensures
        text_opt(value) == value_of_first(
            properties_view(properties@),
            |p: VcardPropertyView| is_phone(p, mobile, waid),
        ),
{
    let ghost all = properties_view(properties@);
    let ghost wanted = |p: VcardPropertyView| is_phone(p, mobile, waid);
    let mut i: usize = 0;
    while i < properties.len()
        invariant
            i <= properties.len(),
            all == properties_view(properties@),
            wanted == (|p: VcardPropertyView| is_phone(p, mobile, waid)),
            forall|j: int| 0 <= j < i ==> !wanted(#[trigger] all[j]),
        decreases properties.len() - i,
    {
        if property_is_phone(&properties[i], mobile, waid) {
            proof {
                lemma_first_such(all, wanted, i as int);
            }
            let value = &properties[i].value;
            let text = text_between(value, 0, value.len());
            return Some(text);
        }
        i += 1;
    }
    proof {
        lemma_none_such(all, wanted);
    }
    None
}

/// The phone number of the contact that the properties describe.
pub fn vcard_phone(properties: &Vec<VcardProperty>) -> (phone: Option<String>)
    ensures
        text_opt(phone) == phone_of(properties_view(properties@)),
{
    match find_phone(properties, true, true) {
        Some(phone) => Some(phone),
        None => match find_phone(properties, true, false) {
            Some(phone) => Some(phone),
            None => match find_phone(properties, false, true) {
                Some(phone) => Some(phone),
                None => find_phone(properties, false, false),
            },
        },
    }
}

fn find_first_component(value: &Vec<char>) -> (component: Option<String>)
    ensures
        text_opt(component) == first_component(value@),
{
    let parts = split_chars(value, ';');
    let ghost components = name_components(value@);
    let ghost wanted = |part: Seq<char>| part.len() > 0;
    let mut i: usize = 0;
    while i < parts.len()
        invariant
            i <= parts.len(),
            pieces_of(parts@) == split(value@, ';'),
            components == name_components(value@),
            wanted == (|part: Seq<char>| part.len() > 0),
            forall|j: int| 0 <= j < i ==> !wanted(#[trigger] components[j]),
        decreases parts.len() - i,
    {
        let part = trim_chars(&parts[i]);
        if part.len() > 0 {
            proof {
                lemma_first_such(components, wanted, i as int);
            }
            let text = text_between(&part, 0, part.len());
            return Some(text);
        }
        i += 1;
    }
    proof {
        lemma_none_such(components, wanted);
    }
    None
}

/// The name of the contact that the properties describe.
pub fn vcard_name(properties: &Vec<VcardProperty>) -> (name: Option<String>)
    ensures
        text_opt(name) == name_of(properties_view(properties@)),
{
    let ghost all = properties_view(properties@);
    let ghost full = |p: VcardPropertyView| is_named(p, "FN"@, "fn"@) && p.value.len() > 0;
    let mut i: usize = 0;
    while i < properties.len()
        invariant
            i <= properties.len(),
            all == properties_view(properties@),
            full == (|p: VcardPropertyView| is_named(p, "FN"@, "fn"@) && p.value.len() > 0),
            forall|j: int| 0 <= j < i ==> !full(#[trigger] all[j]),
        decreases properties.len() - i,
    {
        let p = &properties[i];
        if whole_is_word(&p.name, "FN", "fn") && p.value.len() > 0 {
            proof {
                lemma_first_such(all, full, i as int);
            }
            let text = text_between(&p.value, 0, p.value.len());
            return Some(text);
        }
        i += 1;
    }
    proof {
        lemma_none_such(all, full);
    }
    let ghost structured = |p: VcardPropertyView| is_named(p, "N"@, "n"@);
    let mut k: usize = 0;
    while k < properties.len()
        invariant
            k <= properties.len(),
            all == properties_view(properties@),
            structured == (|p: VcardPropertyView| is_named(p, "N"@, "n"@)),
            forall|j: int| 0 <= j < k ==> !structured(#[trigger] all[j]),
            first_such(all, full) is None,
            full == (|p: VcardPropertyView| is_named(p, "FN"@, "fn"@) && p.value.len() > 0),
        decreases properties.len() - k,
    {
        let p = &properties[k];
        if whole_is_word(&p.name, "N", "n") {
            proof {
                lemma_first_such(all, structured, k as int);
            }
            return find_first_component(&p.value);
        }
        k += 1;
    }
    proof {
        lemma_none_such(all, structured);
    }
    None
}

/// What is said of a vCard that names nobody.
pub const VCARD_WITHOUT_NAME: &'static str = "vCard has no name";

/// The contact that a vCard describes, as far as it is kept: the name, as
/// first name, and the phone number.
pub open spec fn contact_of(vcard: Seq<char>) -> Option<ContentSharedContactView> {
    let properties = properties_of(logical_lines(vcard));
    match name_of(properties) {
        Some(name) => Some(
            ContentSharedContactView {
                first_name_option: Some(name),
                last_name_option: None,
                phone_number_option: phone_of(properties),
                vcard_path_option: None,
            },
        ),
        None => None,
    }
}

/// Reads the contact that a vCard describes. The lines of the vCard have no
/// white space before them, but for the lines that continue another. It is
/// a failure to parse for the vCard to give no name.
pub fn parse_vcard(vcard: &str) -> (contact: Result<ContentSharedContact, HistoryError>)
    ensures
        match contact {
            Ok(c) => contact_of(vcard@) == Some(c@),
            Err(e) => contact_of(vcard@) is None && e@ == HistoryErrorView::ParseFailure(
                VCARD_WITHOUT_NAME@,
            ),
        },
{
    let properties = vcard_properties(vcard);
    match vcard_name(&properties) {
        Some(name) => Ok(
            ContentSharedContact {
                first_name_option: Some(name),
                last_name_option: None,
                phone_number_option: vcard_phone(&properties),
                vcard_path_option: None,
            },
        ),
        None => Err(HistoryError::ParseFailure(VCARD_WITHOUT_NAME.to_owned())),
    }
}

} // verus!
