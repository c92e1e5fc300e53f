//! A property value as it comes from the bus: a tree of texts, arrays and
//! key-value sequences whose shape is only known once it is inspected.

use vstd::prelude::*;

verus! {

/// The mathematical value of a property: texts are sequences of characters,
/// arrays and key-value sequences are sequences in the order in which the bus gave them.
pub enum PropertyModel {
    Scalar(Seq<char>),
    Sequence(Seq<PropertyModel>),
    Entries(Seq<EntryModel>),
}

/// The mathematical value of one keyed value.
pub struct EntryModel {
    pub key: Seq<char>,
    pub value: PropertyModel,
}

/// A dynamically typed value read from the bus.
#[derive(Debug)]
pub enum RemoteProperty {
    /// A single text value.
    Scalar(String),
    /// An array of values.
    Sequence(Vec<RemoteProperty>),
    /// A sequence of keyed values, in the order in which the bus gave them.
    Entries(Vec<Entry>),
}

/// One keyed value of a key-value sequence.
#[derive(Debug)]
pub struct Entry {
    pub key: String,
    pub value: RemoteProperty,
}

impl View for RemoteProperty {
    type V = PropertyModel;

    open spec fn view(&self) -> PropertyModel
        decreases self,
    {
        match self {
            RemoteProperty::Scalar(s) => PropertyModel::Scalar(s@),
            RemoteProperty::Sequence(items) => PropertyModel::Sequence(
                Seq::new(
                    items@.len(),
                    |i: int|
                        if 0 <= i < items@.len() {
                            items@[i].view()
                        } else {
                            PropertyModel::Scalar(Seq::empty())
                        },
                ),
            ),
            RemoteProperty::Entries(entries) => PropertyModel::Entries(
                Seq::new(
                    entries@.len(),
                    |i: int|
                        if 0 <= i < entries@.len() {
                            EntryModel {
                                key: entries@[i].key@,
                                value: entries@[i].value.view(),
                            }
                        } else {
                            EntryModel {
                                key: Seq::empty(),
                                value: PropertyModel::Scalar(Seq::empty()),
                            }
                        },
                ),
            ),
        }
    }
}

/// The models of the items of an array, in order.
pub open spec fn item_views(items: Seq<RemoteProperty>) -> Seq<PropertyModel> {
    Seq::new(items.len(), |i: int| items[i]@)
}

/// The models of keyed values, in order: each key's text with its value's model.
pub open spec fn entry_views(entries: Seq<Entry>) -> Seq<EntryModel> {
    Seq::new(entries.len(), |i: int| EntryModel { key: entries[i].key@, value: entries[i].value@ })
}

/// The model of an array is the array of its items' models.
pub proof fn lemma_sequence_view(p: RemoteProperty)
    requires
        p is Sequence,
    ensures
        p@ == PropertyModel::Sequence(item_views(p->Sequence_0@)),
{
    assert(p@->Sequence_0 =~= item_views(p->Sequence_0@));
}

/// The model of a key-value sequence is the sequence of its entries' models.
pub proof fn lemma_entries_view(p: RemoteProperty)
    requires
        p is Entries,
    ensures
        p@ == PropertyModel::Entries(entry_views(p->Entries_0@)),
{
    assert(p@->Entries_0 =~= entry_views(p->Entries_0@));
}

/// A value and its model have the same shape, and the model of a text value
/// is its text.
pub proof fn lemma_view_keeps_shape(p: RemoteProperty)
    ensures
        p is Scalar <==> p@ is Scalar,
        p is Sequence <==> p@ is Sequence,
        p is Entries <==> p@ is Entries,
        p is Scalar ==> p@ == PropertyModel::Scalar(p->Scalar_0@),
{
}

} // verus!
