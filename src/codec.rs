//! Conversion between labels and their stored text form, for the four column
//! shapes: a label, an optional label, a sequence of labels, and an optional
//! sequence of labels. Stored text is never trusted: decoding validates it
//! exactly as fresh construction does.
use vstd::prelude::*;

use crate::label::{label_outcome, label_result, valid_label, Label, LabelError};

verus! {

/// The texts of a sequence of labels.
pub open spec fn label_texts(ls: Seq<Label>) -> Seq<Seq<char>> {
    ls.map_values(|l: Label| l@)
}

/// The texts of a sequence of strings.
pub open spec fn string_texts(ss: Seq<String>) -> Seq<Seq<char>> {
    ss.map_values(|s: String| s@)
}

/// What decoding a sequence of stored texts gives: the same texts when every
/// one of them is valid, and the error otherwise.
pub open spec fn array_result(ts: Seq<Seq<char>>) -> Result<Seq<Seq<char>>, LabelError> {
    if forall|i: int| 0 <= i < ts.len() ==> valid_label(#[trigger] ts[i]) {
        Ok(ts)
    } else {
        Err(LabelError::InvalidLabel)
    }
}

/// The texts of a decoded sequence, viewed through `array_result`'s shape.
pub open spec fn array_outcome(r: Result<Vec<Label>, LabelError>) -> Result<Seq<Seq<char>>, LabelError> {
    match r {
        Ok(ls) => Ok(label_texts(ls@)),
        Err(e) => Err(e),
    }
}

/// The text to store for a label: exactly its own text.
pub fn encode(l: &Label) -> (r: String)
    ensures
        r@ == l@,
{
    l.to_text()
}

/// Reads a label back from stored text, validating it.
pub fn decode(s: String) -> (r: Result<Label, LabelError>)
    ensures
        label_outcome(r) == label_result(s@),
{
    Label::from_string(s)
}

/// The texts to store for a sequence of labels, in order.
pub fn encode_array(ls: &Vec<Label>) -> (r: Vec<String>)
    ensures
        string_texts(r@) == label_texts(ls@),
{
    let mut out: Vec<String> = Vec::new();
    for i in 0..ls.len()
        invariant
            out.len() == i,
            forall|k: int| 0 <= k < i ==> (#[trigger] out@[k])@ == ls@[k]@,
    {
        out.push(encode(&ls[i]));
    }
    assert(string_texts(out@) =~= label_texts(ls@));
    out
}

/// Reads a sequence of labels back from stored texts. One invalid text fails
/// the whole sequence; otherwise the labels keep the texts' order.
pub fn decode_array(ss: Vec<String>) -> (r: Result<Vec<Label>, LabelError>)
    ensures
        array_outcome(r) == array_result(string_texts(ss@)),
{
    let mut out: Vec<Label> = Vec::new();
    for i in 0..ss.len()
        invariant
            out.len() == i,
            forall|k: int| 0 <= k < i ==> (#[trigger] out@[k])@ == ss@[k]@,
            forall|k: int| 0 <= k < i ==> valid_label(#[trigger] ss@[k]@),
    {
        match decode(ss[i].clone()) {
            Ok(l) => {
                out.push(l);
            },
            Err(e) => {
                assert(!valid_label(string_texts(ss@)[i as int]));
                return Err(e);
            },
        }
    }
    assert(label_texts(out@) =~= string_texts(ss@));
    assert(forall|k: int| 0 <= k < ss.len() ==> valid_label(#[trigger] string_texts(ss@)[k]));
    Ok(out)
}

/// What decoding an optional stored text gives: nothing for nothing, and
/// otherwise what decoding the text gives.
pub open spec fn nullable_result(o: Option<Seq<char>>) -> Result<Option<Seq<char>>, LabelError> {
    match o {
        None => Ok(None),
        Some(t) => match label_result(t) {
            Ok(t) => Ok(Some(t)),
            Err(e) => Err(e),
        },
    }
}

/// The text of a decoded optional label, viewed through `nullable_result`'s shape.
pub open spec fn nullable_outcome(r: Result<Option<Label>, LabelError>) -> Result<Option<Seq<char>>, LabelError> {
    match r {
        Ok(None) => Ok(None),
        Ok(Some(l)) => Ok(Some(l@)),
        Err(e) => Err(e),
    }
}

/// What decoding an optional sequence of stored texts gives: nothing for
/// nothing, and otherwise what decoding the sequence gives.
pub open spec fn nullable_array_result(o: Option<Seq<Seq<char>>>) -> Result<Option<Seq<Seq<char>>>, LabelError> {
    match o {
        None => Ok(None),
        Some(ts) => match array_result(ts) {
            Ok(ts) => Ok(Some(ts)),
            Err(e) => Err(e),
        },
    }
}

/// The texts of a decoded optional sequence, viewed through
/// `nullable_array_result`'s shape.
pub open spec fn nullable_array_outcome(r: Result<Option<Vec<Label>>, LabelError>) -> Result<Option<Seq<Seq<char>>>, LabelError> {
    match r {
        Ok(None) => Ok(None),
        Ok(Some(ls)) => Ok(Some(label_texts(ls@))),
        Err(e) => Err(e),
    }
}

/// The text of an optional string.
pub open spec fn opt_text(o: Option<String>) -> Option<Seq<char>> {
    match o {
        None => None,
        Some(s) => Some(s@),
    }
}

/// The texts of an optional sequence of strings.
pub open spec fn opt_string_texts(o: Option<Vec<String>>) -> Option<Seq<Seq<char>>> {
    match o {
        None => None,
        Some(ss) => Some(string_texts(ss@)),
    }
}

/// The text of an optional label.
pub open spec fn opt_label_text(o: Option<Label>) -> Option<Seq<char>> {
    match o {
        None => None,
        Some(l) => Some(l@),
    }
}

/// The texts of an optional sequence of labels.
pub open spec fn opt_label_texts(o: Option<Vec<Label>>) -> Option<Seq<Seq<char>>> {
    match o {
        None => None,
        Some(ls) => Some(label_texts(ls@)),
    }
}

/// The text to store for an optional label: nothing for nothing.
pub fn encode_nullable(o: &Option<Label>) -> (r: Option<String>)
    ensures
        opt_text(r) == opt_label_text(*o),
{
    match o {
        None => None,
        Some(l) => Some(encode(l)),
    }
}

/// The texts to store for an optional sequence of labels: nothing for nothing.
pub fn encode_nullable_array(o: &Option<Vec<Label>>) -> (r: Option<Vec<String>>)
    ensures
        opt_string_texts(r) == opt_label_texts(*o),
{
    match o {
        None => None,
        Some(ls) => Some(encode_array(ls)),
    }
}

/// Reads an optional label back: nothing stored gives no label, without any
/// decoding; stored text is decoded as a single label.
pub fn decode_nullable(o: Option<String>) -> (r: Result<Option<Label>, LabelError>)
    ensures
        nullable_outcome(r) == nullable_result(opt_text(o)),
{
    match o {
        None => Ok(None),
        Some(s) => match decode(s) {
            Ok(l) => Ok(Some(l)),
            Err(e) => Err(e),
        },
    }
}

/// Reads an optional sequence of labels back: nothing stored gives nothing,
/// without any decoding; a stored sequence is decoded as a whole.
pub fn decode_nullable_array(o: Option<Vec<String>>) -> (r: Result<Option<Vec<Label>>, LabelError>)
    ensures
        nullable_array_outcome(r) == nullable_array_result(opt_string_texts(o)),
{
    match o {
        None => Ok(None),
        Some(ss) => match decode_array(ss) {
            Ok(ls) => Ok(Some(ls)),
            Err(e) => Err(e),
        },
    }
}

/// Encoding a label and decoding the text gives back a label with the same
/// text, so a label equal to the first.
pub proof fn lemma_round_trip(l: Label, s: String)
    requires
        valid_label(l@),
        s@ == l@,
    ensures
        label_result(s@) == Ok::<Seq<char>, LabelError>(l@),
{
}

/// Encoding a sequence of labels and decoding the texts gives back labels
/// with the same texts, in the same order.
pub proof fn lemma_array_round_trip(ls: Seq<Label>, ss: Seq<String>)
    requires
        forall|i: int| 0 <= i < ls.len() ==> valid_label(#[trigger] ls[i]@),
        string_texts(ss) == label_texts(ls),
    ensures
        array_result(string_texts(ss)) == Ok::<Seq<Seq<char>>, LabelError>(label_texts(ls)),
{
    assert forall|i: int| 0 <= i < label_texts(ls).len() implies valid_label(#[trigger] label_texts(ls)[i]) by {
        assert(label_texts(ls)[i] == ls[i]@);
    }
}

/// A sequence with an invalid text fails to decode as a whole.
pub proof fn lemma_array_one_invalid(ts: Seq<Seq<char>>, i: int)
    requires
        0 <= i < ts.len(),
        !valid_label(ts[i]),
    ensures
        array_result(ts) == Err::<Seq<Seq<char>>, LabelError>(LabelError::InvalidLabel),
{
}

} // verus!
