use crate::value::number::{Number, Repr};
use vstd::prelude::*;

verus! {

/// A JSON document as a tree. An object keeps its entries in the order in
/// which they were written.
#[derive(Debug, PartialEq)]
pub enum Json {
    Null,
    Bool(bool),
    Number(Number),
    String(String),
    Array(Vec<Json>),
    Object(Vec<(String, Json)>),
}

/// The mathematical tree that a `Json` stands for.
pub enum JsonView {
    Null,
    Bool(bool),
    Number(Repr),
    String(Seq<char>),
    Array(Seq<JsonView>),
    Object(Seq<(Seq<char>, JsonView)>),
}

impl View for Json {
    type V = JsonView;

    open spec fn view(&self) -> JsonView
        decreases self,
    {
        match self {
            Json::Null => JsonView::Null,
            Json::Bool(b) => JsonView::Bool(*b),
            Json::Number(n) => JsonView::Number(n@),
            Json::String(s) => JsonView::String(s@),
            Json::Array(items) => JsonView::Array(
                Seq::new(
                    items@.len(),
                    |i: int|
                        if 0 <= i < items@.len() {
                            items@[i]@
                        } else {
                            JsonView::Null
                        },
                ),
            ),
            Json::Object(entries) => JsonView::Object(
                Seq::new(
                    entries@.len(),
                    |i: int|
                        if 0 <= i < entries@.len() {
                            (entries@[i].0@, entries@[i].1@)
                        } else {
                            (Seq::empty(), JsonView::Null)
                        },
                ),
            ),
        }
    }
}

impl JsonView {
    /// The object with one entry.
    pub open spec fn single(key: Seq<char>, value: JsonView) -> JsonView {
        JsonView::Object(Seq::empty().push((key, value)))
    }

    /// The keys of an object, in the order written; none for anything else.
    #[verifier::opaque]
    pub open spec fn keys(self) -> Seq<Seq<char>> {
        match self {
            JsonView::Object(entries) => Seq::new(entries.len(), |i: int| entries[i].0),
            _ => Seq::empty(),
        }
    }

    /// Whether an object has an entry under `key`.
    pub open spec fn has_key(self, key: Seq<char>) -> bool {
        self.keys().contains(key)
    }
}

/// The views of the items of an array, in order.
pub open spec fn items_view(items: Seq<Json>) -> Seq<JsonView> {
    Seq::new(items.len(), |i: int| items[i]@)
}

/// The views of the entries of an object, in order.
pub open spec fn entries_view(entries: Seq<(String, Json)>) -> Seq<(Seq<char>, JsonView)> {
    Seq::new(entries.len(), |i: int| (entries[i].0@, entries[i].1@))
}

/// A slot is a key with the value to write under it, if there is one. The
/// entries that a list of slots is written as are those of the slots that
/// hold a value, in the order of the slots.
pub open spec fn written(slots: Seq<(Seq<char>, Option<JsonView>)>) -> Seq<(Seq<char>, JsonView)>
    decreases slots.len(),
{
    if slots.len() == 0 {
        Seq::empty()
    } else {
        let before = written(slots.drop_last());
        match slots.last().1 {
            Some(value) => before.push((slots.last().0, value)),
            None => before,
        }
    }
}

/// The keys of the slots that hold a value, in the order of the slots.
pub open spec fn written_keys(slots: Seq<(Seq<char>, Option<JsonView>)>) -> Seq<Seq<char>>
    decreases slots.len(),
{
    if slots.len() == 0 {
        Seq::empty()
    } else {
        let before = written_keys(slots.drop_last());
        match slots.last().1 {
            Some(_) => before.push(slots.last().0),
            None => before,
        }
    }
}

/// A slot that is always written.
pub open spec fn always(key: Seq<char>, value: JsonView) -> (Seq<char>, Option<JsonView>) {
    (key, Some(value))
}

/// A slot that is written when there is a value.
pub open spec fn optional(key: Seq<char>, value: Option<JsonView>) -> (Seq<char>, Option<JsonView>) {
    (key, value)
}

/// An object without entries has no keys.
pub proof fn lemma_keys_empty()
    ensures
        JsonView::Object(Seq::empty()).keys() == Seq::<Seq<char>>::empty(),
{
    reveal(JsonView::keys);
    assert(JsonView::Object(Seq::empty()).keys() =~= Seq::<Seq<char>>::empty());
}

/// Writing an entry adds its key at the end and changes no other.
pub proof fn lemma_keys_push(entries: Seq<(Seq<char>, JsonView)>, key: Seq<char>, value: JsonView)
    ensures
        JsonView::Object(entries.push((key, value))).keys() == JsonView::Object(entries).keys().push(
            key,
        ),
{
    reveal(JsonView::keys);
    assert(JsonView::Object(entries.push((key, value))).keys() =~= JsonView::Object(
        entries,
    ).keys().push(key));
}

/// The keys of the object that a list of slots is written as are the keys of
/// the slots that hold a value, in order; there are as many entries as such
/// slots.
pub proof fn lemma_written_keys(slots: Seq<(Seq<char>, Option<JsonView>)>)
    ensures
        JsonView::Object(written(slots)).keys() == written_keys(slots),
        written(slots).len() == written_keys(slots).len(),
    decreases slots.len(),
{
    if slots.len() == 0 {
        lemma_keys_empty();
    } else {
        lemma_written_keys(slots.drop_last());
        if slots.last().1 is Some {
            lemma_keys_push(written(slots.drop_last()), slots.last().0, slots.last().1.unwrap());
        }
    }
}

/// A slot without a value leaves no trace: every key written belongs to a
/// slot that holds a value, and every slot that holds a value has its key
/// written.
pub proof fn lemma_written_keys_are_set_slots(slots: Seq<(Seq<char>, Option<JsonView>)>)
    ensures
        forall|i: int|
            0 <= i < slots.len() && (#[trigger] slots[i]).1 is Some ==> written_keys(
                slots,
            ).contains(slots[i].0),
        forall|key: Seq<char>| #[trigger]
            written_keys(slots).contains(key) ==> exists|i: int|
                0 <= i < slots.len() && (#[trigger] slots[i]).1 is Some && slots[i].0 == key,
        written_keys(slots).len() <= slots.len(),
    decreases slots.len(),
{
    if slots.len() > 0 {
        let init = slots.drop_last();
        let last = slots.last();
        lemma_written_keys_are_set_slots(init);
        let keys = written_keys(slots);
        let keys_before = written_keys(init);
        assert forall|i: int| 0 <= i < slots.len() && (#[trigger] slots[i]).1 is Some implies keys.contains(
            slots[i].0,
        ) by {
            if i < init.len() {
                assert(init[i] == slots[i]);
                assert(keys_before.contains(init[i].0));
                let k = choose|k: int| 0 <= k < keys_before.len() && keys_before[k] == init[i].0;
                assert(keys[k] == slots[i].0);
            } else {
                assert(keys[keys.len() - 1] == slots[i].0);
            }
        }
        assert forall|key: Seq<char>| #[trigger] keys.contains(key) implies exists|i: int|
            0 <= i < slots.len() && (#[trigger] slots[i]).1 is Some && slots[i].0 == key by {
            let k = choose|k: int| 0 <= k < keys.len() && keys[k] == key;
            if k < keys_before.len() {
                assert(keys_before[k] == key);
                assert(keys_before.contains(key));
                let i = choose|i: int|
                    0 <= i < init.len() && (#[trigger] init[i]).1 is Some && init[i].0 == key;
                assert(slots[i] == init[i]);
            } else {
                assert(slots[slots.len() - 1] == last);
            }
        }
    }
}

/// The keys of the object that slots are written as are exactly the keys of
/// the slots that hold a value: a parameter that was set has its key, a key
/// that is there belongs to a parameter that was set, and the keys stand in
/// the order of the slots.
pub proof fn lemma_object_keys_are_set_slots(slots: Seq<(Seq<char>, Option<JsonView>)>)
    ensures
        JsonView::Object(written(slots)).keys() == written_keys(slots),
        forall|i: int|
            0 <= i < slots.len() && (#[trigger] slots[i]).1 is Some ==> JsonView::Object(
                written(slots),
            ).has_key(slots[i].0),
        forall|key: Seq<char>| #[trigger]
            JsonView::Object(written(slots)).has_key(key) ==> exists|i: int|
                0 <= i < slots.len() && (#[trigger] slots[i]).1 is Some && slots[i].0 == key,
{
    lemma_written_keys(slots);
    lemma_written_keys_are_set_slots(slots);
}

/// Where no other slot has the same key, the key of a slot is written
/// exactly when the slot holds a value.
pub proof fn lemma_key_of_slot(slots: Seq<(Seq<char>, Option<JsonView>)>, i: int)
    requires
        0 <= i < slots.len(),
        forall|j: int| 0 <= j < slots.len() && j != i ==> (#[trigger] slots[j]).0 != slots[i].0,
    ensures
        JsonView::Object(written(slots)).has_key(slots[i].0) <==> slots[i].1 is Some,
{
    lemma_object_keys_are_set_slots(slots);
    if JsonView::Object(written(slots)).has_key(slots[i].0) {
        let j = choose|j: int|
            0 <= j < slots.len() && (#[trigger] slots[j]).1 is Some && slots[j].0 == slots[i].0;
        assert(j == i);
    }
}

/// Entries with one more slot written after them: its entry comes last when
/// it holds a value, and nothing changes when it does not.
pub open spec fn with_slot(
    entries: Seq<(Seq<char>, JsonView)>,
    slot: (Seq<char>, Option<JsonView>),
) -> Seq<(Seq<char>, JsonView)> {
    match slot.1 {
        Some(value) => entries.push((slot.0, value)),
        None => entries,
    }
}

/// Slots are written one after the other.
pub proof fn lemma_written_push(
    slots: Seq<(Seq<char>, Option<JsonView>)>,
    slot: (Seq<char>, Option<JsonView>),
)
    ensures
        written(slots.push(slot)) == with_slot(written(slots), slot),
{
    assert(slots.push(slot).drop_last() =~= slots);
}

/// The view of a document that may be absent.
pub open spec fn view_of_option(j: Option<Json>) -> Option<JsonView> {
    match j {
        Some(j) => Some(j@),
        None => None,
    }
}

/// The views of slots under construction, in order.
pub open spec fn slots_view(slots: Seq<(&'static str, Option<Json>)>) -> Seq<
    (Seq<char>, Option<JsonView>),
> {
    Seq::new(slots.len(), |i: int| (slots[i].0@, view_of_option(slots[i].1)))
}

impl Json {
    /// The object that a list of slots is written as: one entry for each slot
    /// that holds a value, in the order of the slots.
    pub fn object_of(slots: Vec<(&'static str, Option<Json>)>) -> (j: Json)
        ensures
            j@ == JsonView::Object(written(slots_view(slots@))),
    {
        let ghost all = slots_view(slots@);
        let ghost given = slots@;
        let mut entries = new_entries();
        for slot in it: slots.into_iter()
            invariant
                it.seq() == given,
                all == slots_view(given),
                entries_view(entries@) == written(all.take(it.index() as int)),
        {
            proof {
                let i = it.index() as int;
                assert(all.take(i + 1) =~= all.take(i).push(all[i]));
                lemma_written_push(all.take(i), all[i]);
            }
            let (key, value) = slot;
            match value {
                Some(v) => push_entry(&mut entries, key, v),
                None => {},
            }
        }
        assert(all.take(all.len() as int) =~= all);
        Json::object(entries)
    }

    /// The array of the given items.
    pub fn array(items: Vec<Json>) -> (j: Json)
        ensures
            j@ == JsonView::Array(items_view(items@)),
    {
        let ghost want = items_view(items@);
        let j = Json::Array(items);
        proof {
            reveal_with_fuel(<Json as View>::view, 2);
            assert(j@->Array_0 =~= want);
        }
        j
    }

    /// The object of the given entries.
    pub fn object(entries: Vec<(String, Json)>) -> (j: Json)
        ensures
            j@ == JsonView::Object(entries_view(entries@)),
    {
        let ghost want = entries_view(entries@);
        let j = Json::Object(entries);
        proof {
            reveal_with_fuel(<Json as View>::view, 2);
            assert(j@->Object_0 =~= want);
        }
        j
    }

    /// The object with one entry.
    pub fn single(key: &str, value: Json) -> (j: Json)
        ensures
            j@ == JsonView::single(key@, value@),
    {
        let mut entries = new_entries();
        push_entry(&mut entries, key, value);
        Json::object(entries)
    }

    /// The leaf for a piece of text.
    pub fn text(s: &str) -> (j: Json)
        ensures
            j@ == JsonView::String(s@),
    {
        Json::String(s.to_owned())
    }
}

/// An object under construction, with nothing written yet.
pub fn new_entries() -> (entries: Vec<(String, Json)>)
    ensures
        entries_view(entries@) == Seq::<(Seq<char>, JsonView)>::empty(),
{
    let entries: Vec<(String, Json)> = Vec::new();
    assert(entries_view(entries@) =~= Seq::<(Seq<char>, JsonView)>::empty());
    entries
}

/// An array under construction, with nothing written yet.
pub fn new_items() -> (items: Vec<Json>)
    ensures
        items_view(items@) == Seq::<JsonView>::empty(),
{
    let items: Vec<Json> = Vec::new();
    assert(items_view(items@) =~= Seq::<JsonView>::empty());
    items
}

/// Writes one more entry at the end of an object under construction.
pub fn push_entry(entries: &mut Vec<(String, Json)>, key: &str, value: Json)
    ensures
        entries_view(final(entries)@) == entries_view(old(entries)@).push((key@, value@)),
{
    entries.push((key.to_owned(), value));
    assert(entries_view(entries@) =~= entries_view(old(entries)@).push((key@, value@)));
}

/// Slots under construction, with none yet.
pub fn new_slots() -> (slots: Vec<(&'static str, Option<Json>)>)
    ensures
        slots_view(slots@) == Seq::<(Seq<char>, Option<JsonView>)>::empty(),
{
    let slots: Vec<(&'static str, Option<Json>)> = Vec::new();
    assert(slots_view(slots@) =~= Seq::<(Seq<char>, Option<JsonView>)>::empty());
    slots
}

/// Adds a slot that is written when there is a value.
pub fn push_optional(
    slots: &mut Vec<(&'static str, Option<Json>)>,
    key: &'static str,
    value: Option<Json>,
)
    ensures
        slots_view(final(slots)@) == slots_view(old(slots)@).push(
            optional(key@, view_of_option(value)),
        ),
{
    slots.push((key, value));
    assert(slots_view(slots@) =~= slots_view(old(slots)@).push(
        optional(key@, view_of_option(value)),
    ));
}

/// Adds a slot that is always written.
pub fn push_always(slots: &mut Vec<(&'static str, Option<Json>)>, key: &'static str, value: Json)
    ensures
        slots_view(final(slots)@) == slots_view(old(slots)@).push(always(key@, value@)),
{
    slots.push((key, Some(value)));
    assert(slots_view(slots@) =~= slots_view(old(slots)@).push(always(key@, value@)));
}

/// Writes one more item at the end of an array under construction.
pub fn push_item(items: &mut Vec<Json>, value: Json)
    ensures
        items_view(final(items)@) == items_view(old(items)@).push(value@),
{
    items.push(value);
    assert(items_view(items@) =~= items_view(old(items)@).push(value@));
}

} // verus!
