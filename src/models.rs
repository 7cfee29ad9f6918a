//! An example record that stores labels in each of the four column shapes.
use vstd::prelude::*;

use crate::codec::{
    array_result, decode, decode_array, decode_nullable, decode_nullable_array, encode,
    encode_array, label_texts, nullable_array_result, nullable_result, opt_label_text,
    opt_label_texts, opt_string_texts, opt_text, string_texts,
};
use crate::label::{label_result, Label, LabelError};

verus! {

/// A stored record: an identifier that storage assigns, a label, an optional
/// label, a sequence of labels and an optional sequence of labels.
#[derive(Debug, Clone)]
pub struct ExampleModel {
    id: i32,
    label: Label,
    label_nullable: Option<Label>,
    label_array: Vec<Label>,
    label_array_nullable: Option<Vec<Label>>,
}

/// What a record holds, with each label seen as its text.
pub struct ExampleModelView {
    pub id: int,
    pub label: Seq<char>,
    pub label_nullable: Option<Seq<char>>,
    pub label_array: Seq<Seq<char>>,
    pub label_array_nullable: Option<Seq<Seq<char>>>,
}

impl View for ExampleModel {
    type V = ExampleModelView;

    closed spec fn view(&self) -> ExampleModelView {
        ExampleModelView {
            id: self.id as int,
            label: self.label@,
            label_nullable: opt_label_text(self.label_nullable),
            label_array: label_texts(self.label_array@),
            label_array_nullable: opt_label_texts(self.label_array_nullable),
        }
    }
}

/// What reading a stored row gives: the record, when every stored text is
/// a valid label text, and the error otherwise.
pub open spec fn row_result(
    id: int,
    label: Seq<char>,
    label_nullable: Option<Seq<char>>,
    label_array: Seq<Seq<char>>,
    label_array_nullable: Option<Seq<Seq<char>>>,
) -> Result<ExampleModelView, LabelError> {
    match (
        label_result(label),
        nullable_result(label_nullable),
        array_result(label_array),
        nullable_array_result(label_array_nullable),
    ) {
        (Ok(a), Ok(b), Ok(c), Ok(d)) => Ok(
            ExampleModelView {
                id,
                label: a,
                label_nullable: b,
                label_array: c,
                label_array_nullable: d,
            },
        ),
        _ => Err(LabelError::InvalidLabel),
    }
}

/// A read record, viewed through `row_result`'s shape.
pub open spec fn row_outcome(r: Result<ExampleModel, LabelError>) -> Result<ExampleModelView, LabelError> {
    match r {
        Ok(m) => Ok(m@),
        Err(e) => Err(e),
    }
}

impl ExampleModel {
    /// The column values to insert for a new record made from `label`: the
    /// label's text, and a sequence holding that text once. The other
    /// columns are left to storage (the identifier) or absent.
    pub fn insert_columns(label: &Label) -> (r: (String, Vec<String>))
        ensures
            r.0@ == label@,
            string_texts(r.1@) == seq![label@],
    {
        let text = encode(label);
        let mut array: Vec<Label> = Vec::new();
        array.push(label.clone());
        let texts = encode_array(&array);
        assert(label_texts(array@) =~= seq![label@]);
        (text, texts)
    }

    /// Builds a record from a stored row, decoding each stored text as a
    /// label. Any invalid text fails the whole row.
    pub fn from_columns(
        id: i32,
        label: String,
        label_nullable: Option<String>,
        label_array: Vec<String>,
        label_array_nullable: Option<Vec<String>>,
    ) -> (r: Result<ExampleModel, LabelError>)
        ensures
            row_outcome(r) == row_result(
                id as int,
                label@,
                opt_text(label_nullable),
                string_texts(label_array@),
                opt_string_texts(label_array_nullable),
            ),
    {
        let label = match decode(label) {
            Ok(l) => l,
            Err(e) => return Err(e),
        };
        let label_nullable = match decode_nullable(label_nullable) {
            Ok(l) => l,
            Err(e) => return Err(e),
        };
        let label_array = match decode_array(label_array) {
            Ok(l) => l,
            Err(e) => return Err(e),
        };
        let label_array_nullable = match decode_nullable_array(label_array_nullable) {
            Ok(l) => l,
            Err(e) => return Err(e),
        };
        Ok(ExampleModel { id, label, label_nullable, label_array, label_array_nullable })
    }

    /// The identifier that storage assigned.
    pub fn id(&self) -> (r: i32)
        ensures
            r as int == self@.id,
    {
        self.id
    }

    /// The record's label.
    pub fn label(&self) -> (r: &Label)
        ensures
            r@ == self@.label,
    {
        &self.label
    }

    /// The record's optional label.
    pub fn label_nullable(&self) -> (r: &Option<Label>)
        ensures
            opt_label_text(*r) == self@.label_nullable,
    {
        &self.label_nullable
    }

    /// The record's sequence of labels.
    pub fn label_array(&self) -> (r: &Vec<Label>)
        ensures
            label_texts(r@) == self@.label_array,
    {
        &self.label_array
    }

    /// The record's optional sequence of labels.
    pub fn label_array_nullable(&self) -> (r: &Option<Vec<Label>>)
        ensures
            opt_label_texts(*r) == self@.label_array_nullable,
    {
        &self.label_array_nullable
    }
}

} // verus!
