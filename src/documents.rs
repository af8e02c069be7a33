//! Field values of stored documents, ordered field lists (used both as the
//! `$set` part of an update and as equality filters), and what applying a
//! `$set` does to a document.

use vstd::prelude::*;
use crate::ids::DocumentId;

verus! {

/// A value stored in a document field. `Real` holds the IEEE-754 binary64
/// bits of a floating-point number, which this library never computes with.
#[derive(Debug)]
pub enum FieldValue {
    Null,
    Bool(bool),
    Int32(i32),
    Int(i64),
    Real(u64),
    Text(String),
    TextList(Vec<String>),
    Time(i64),
    Id(DocumentId),
}

pub enum ValueView {
    Null,
    Bool(bool),
    Int32(i32),
    Int(i64),
    Real(u64),
    Text(Seq<char>),
    TextList(Seq<Seq<char>>),
    Time(i64),
    Id(Seq<u8>),
}

pub open spec fn texts_view(v: Seq<String>) -> Seq<Seq<char>> {
    v.map_values(|s: String| s@)
}

impl View for FieldValue {
    type V = ValueView;

    open spec fn view(&self) -> ValueView {
        match self {
            FieldValue::Null => ValueView::Null,
            FieldValue::Bool(b) => ValueView::Bool(*b),
            FieldValue::Int32(n) => ValueView::Int32(*n),
            FieldValue::Int(n) => ValueView::Int(*n),
            FieldValue::Real(bits) => ValueView::Real(*bits),
            FieldValue::Text(s) => ValueView::Text(s@),
            FieldValue::TextList(v) => ValueView::TextList(texts_view(v@)),
            FieldValue::Time(t) => ValueView::Time(*t),
            FieldValue::Id(id) => ValueView::Id(id@),
        }
    }
}

/// Entry for `key` when a value is present, nothing otherwise.
pub open spec fn entry(key: Seq<char>, v: Option<ValueView>) -> Seq<(Seq<char>, ValueView)> {
    match v {
        Some(x) => seq![(key, x)],
        None => seq![],
    }
}

pub open spec fn opt_bool(o: Option<bool>) -> Option<ValueView> {
    match o {
        Some(b) => Some(ValueView::Bool(b)),
        None => None,
    }
}

pub open spec fn opt_int32(o: Option<i32>) -> Option<ValueView> {
    match o {
        Some(n) => Some(ValueView::Int32(n)),
        None => None,
    }
}

pub open spec fn opt_real(o: Option<u64>) -> Option<ValueView> {
    match o {
        Some(n) => Some(ValueView::Real(n)),
        None => None,
    }
}

pub open spec fn opt_text_value(o: Option<String>) -> Option<ValueView> {
    match o {
        Some(s) => Some(ValueView::Text(s@)),
        None => None,
    }
}

pub open spec fn opt_texts(o: Option<Vec<String>>) -> Option<ValueView> {
    match o {
        Some(v) => Some(ValueView::TextList(texts_view(v@))),
        None => None,
    }
}

/// An ordered list of field names and values.
#[derive(Debug)]
pub struct Fields {
    pub entries: Vec<(String, FieldValue)>,
}

impl View for Fields {
    type V = Seq<(Seq<char>, ValueView)>;

    open spec fn view(&self) -> Seq<(Seq<char>, ValueView)> {
        self.entries@.map_values(|e: (String, FieldValue)| (e.0@, e.1@))
    }
}

impl Fields {
    pub fn new() -> (r: Fields)
        ensures
            r@ == Seq::<(Seq<char>, ValueView)>::empty(),
    {
        let r = Fields { entries: Vec::new() };
        assert(r@ =~= Seq::<(Seq<char>, ValueView)>::empty());
        r
    }

    /// Appends `key` with `value`.
    pub fn set(&mut self, key: &str, value: FieldValue)
        ensures
            final(self)@ == old(self)@.push((key@, value@)),
    {
        self.entries.push((key.to_string(), value));
        assert(final(self)@ =~= old(self)@.push((key@, value@)));
    }

    pub fn set_opt_bool(&mut self, key: &str, value: Option<bool>)
        ensures
            final(self)@ == old(self)@ + entry(key@, opt_bool(value)),
    {
        match value {
            Some(b) => self.set(key, FieldValue::Bool(b)),
            None => {
                assert(self@ =~= self@ + entry(key@, opt_bool(value)));
            },
        }
    }

    pub fn set_opt_int32(&mut self, key: &str, value: Option<i32>)
        ensures
            final(self)@ == old(self)@ + entry(key@, opt_int32(value)),
    {
        match value {
            Some(n) => self.set(key, FieldValue::Int32(n)),
            None => {
                assert(self@ =~= self@ + entry(key@, opt_int32(value)));
            },
        }
    }

    pub fn set_opt_real(&mut self, key: &str, value: Option<u64>)
        ensures
            final(self)@ == old(self)@ + entry(key@, opt_real(value)),
    {
        match value {
            Some(n) => self.set(key, FieldValue::Real(n)),
            None => {
                assert(self@ =~= self@ + entry(key@, opt_real(value)));
            },
        }
    }

    pub fn set_opt_text(&mut self, key: &str, value: Option<String>)
        ensures
            final(self)@ == old(self)@ + entry(key@, opt_text_value(value)),
    {
        match value {
            Some(s) => self.set(key, FieldValue::Text(s)),
            None => {
                assert(self@ =~= self@ + entry(key@, opt_text_value(value)));
            },
        }
    }

    pub fn set_opt_texts(&mut self, key: &str, value: Option<Vec<String>>)
        ensures
            final(self)@ == old(self)@ + entry(key@, opt_texts(value)),
    {
        match value {
            Some(v) => self.set(key, FieldValue::TextList(v)),
            None => {
                assert(self@ =~= self@ + entry(key@, opt_texts(value)));
            },
        }
    }
}

/// A document after a `$set` of `set`: each listed field takes its value,
/// later entries winning over earlier ones; the others keep theirs.
pub open spec fn apply_set(
    doc: Map<Seq<char>, ValueView>,
    set: Seq<(Seq<char>, ValueView)>,
) -> Map<Seq<char>, ValueView>
    decreases set.len(),
{
    if set.len() == 0 {
        doc
    } else {
        apply_set(doc, set.drop_last()).insert(set.last().0, set.last().1)
    }
}

/// Names of the fields that `set` lists.
pub open spec fn keys_of(set: Seq<(Seq<char>, ValueView)>) -> Set<Seq<char>> {
    Set::new(|k: Seq<char>| exists|i: int| 0 <= i < set.len() && (#[trigger] set[i]).0 == k)
}

/// A `$set` leaves every field it does not list as it was, present or absent.
pub proof fn lemma_apply_set_keeps_others(
    doc: Map<Seq<char>, ValueView>,
    set: Seq<(Seq<char>, ValueView)>,
    k: Seq<char>,
)
    requires
        !keys_of(set).contains(k),
    ensures
        apply_set(doc, set).contains_key(k) == doc.contains_key(k),
        doc.contains_key(k) ==> apply_set(doc, set)[k] == doc[k],
    decreases set.len(),
{
    if set.len() > 0 {
        let rest = set.drop_last();
        assert(set.last() == set[set.len() - 1]);
        assert(!keys_of(rest).contains(k)) by {
            if keys_of(rest).contains(k) {
                let i = choose|i: int| 0 <= i < rest.len() && (#[trigger] rest[i]).0 == k;
                assert(set[i] == rest[i]);
            }
        }
        lemma_apply_set_keeps_others(doc, rest, k);
    }
}

/// After a `$set`, a field listed last (or only once) holds the listed value.
pub proof fn lemma_apply_set_last_wins(
    doc: Map<Seq<char>, ValueView>,
    set: Seq<(Seq<char>, ValueView)>,
    i: int,
)
    requires
        0 <= i < set.len(),
        forall|j: int| i < j < set.len() ==> (#[trigger] set[j]).0 != set[i].0,
    ensures
        apply_set(doc, set).contains_key(set[i].0),
        apply_set(doc, set)[set[i].0] == set[i].1,
    decreases set.len(),
{
    if i < set.len() - 1 {
        let rest = set.drop_last();
        assert(rest[i] == set[i]);
        assert forall|j: int| i < j < rest.len() implies (#[trigger] rest[j]).0 != rest[i].0 by {
            assert(rest[j] == set[j]);
        }
        lemma_apply_set_last_wins(doc, rest, i);
        assert(set[set.len() - 1].0 != set[i].0);
    }
}

} // verus!
