use vstd::prelude::*;

verus! {

broadcast use vstd::std_specs::vec::group_vec_axioms;

/// One field of an untyped record: a key and its value.
#[derive(Debug, PartialEq)]
pub struct DocField {
    pub key: String,
    pub value: DocValue,
}

/// An untyped document tree, as handed over by whatever read and lexed
/// the configuration text. Scalars the model has no use for (numbers,
/// booleans, nulls) arrive as `Other` and fail with a wrong-type error
/// at whichever field they sit in. Records keep their fields in document
/// order and may, unlike a parsed map, carry the same key twice; the
/// validator rejects that.
#[derive(Debug, PartialEq)]
pub enum DocValue {
    Text(String),
    List(Vec<DocValue>),
    Record(Vec<DocField>),
    Other,
}

/// The abstract value of one untyped record field.
pub struct DocFieldV {
    pub key: Seq<char>,
    pub value: DocV,
}

/// The abstract value of an untyped document tree.
pub enum DocV {
    Text(Seq<char>),
    List(Seq<DocV>),
    Record(Seq<DocFieldV>),
    Other,
}

/// The abstract value of a document tree, computed structurally.
pub open spec fn doc_view(v: DocValue) -> DocV
    decreases v,
{
    match v {
        DocValue::Text(s) => DocV::Text(s@),
        DocValue::List(items) => DocV::List(
            Seq::new(
                items@.len(),
                |i: int|
                    if 0 <= i < items@.len() {
                        doc_view(items@[i])
                    } else {
                        DocV::Other
                    },
            ),
        ),
        DocValue::Record(fields) => DocV::Record(
            Seq::new(
                fields@.len(),
                |i: int|
                    if 0 <= i < fields@.len() {
                        DocFieldV { key: fields@[i].key@, value: doc_view(fields@[i].value) }
                    } else {
                        DocFieldV { key: Seq::empty(), value: DocV::Other }
                    },
            ),
        ),
        DocValue::Other => DocV::Other,
    }
}

impl View for DocValue {
    type V = DocV;

    open spec fn view(&self) -> DocV {
        doc_view(*self)
    }
}

impl View for DocField {
    type V = DocFieldV;

    open spec fn view(&self) -> DocFieldV {
        DocFieldV { key: self.key@, value: doc_view(self.value) }
    }
}

/// The abstract values of a record's fields.
pub open spec fn fields_v(s: Seq<DocField>) -> Seq<DocFieldV> {
    Seq::new(s.len(), |i: int| s[i]@)
}

/// The abstract values of a list's items.
pub open spec fn items_v(s: Seq<DocValue>) -> Seq<DocV> {
    Seq::new(s.len(), |i: int| doc_view(s[i]))
}

/// The view of a record is the field-wise view of its fields, and the
/// view of a list the item-wise view of its items.
pub proof fn lemma_doc_view_parts(v: DocValue)
    ensures
        v matches DocValue::Record(fields) ==> doc_view(v) == DocV::Record(fields_v(fields@)),
        v matches DocValue::List(items) ==> doc_view(v) == DocV::List(items_v(items@)),
{
    match v {
        DocValue::Record(fields) => {
            assert(doc_view(v)->Record_0 =~= fields_v(fields@));
        },
        DocValue::List(items) => {
            assert(doc_view(v)->List_0 =~= items_v(items@));
        },
        _ => {},
    }
}

} // verus!
