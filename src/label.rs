//! The label newtype: text that is non-empty and alphanumeric throughout.
use vstd::prelude::*;

verus! {

/// Whether `c` is alphanumeric in Unicode's sense: it has the `Alphabetic`
/// or the `Numeric` property.
pub uninterp spec fn is_alnum(c: char) -> bool;

/// Relies on `char::is_alphanumeric`: the result depends on the character
/// alone (its Unicode `Alphabetic` and `Numeric` properties).
#[verifier::external_body]
fn char_is_alphanumeric(c: char) -> (r: bool)
    ensures
        r == is_alnum(c),
{
    c.is_alphanumeric()
}

/// Every character of `s` is alphanumeric.
pub open spec fn all_alnum(s: Seq<char>) -> bool {
    forall|i: int| 0 <= i < s.len() ==> is_alnum(#[trigger] s[i])
}

/// The text a label may hold: non-empty, and alphanumeric throughout.
pub open spec fn valid_label(s: Seq<char>) -> bool {
    s.len() > 0 && all_alnum(s)
}

/// Tests every character of `s` for being alphanumeric.
pub fn is_all_alphanumeric(s: &str) -> (r: bool)
    ensures
        r == all_alnum(s@),
{
    broadcast use vstd::string::axiom_spec_iter;
    for c in it: s.chars()
        invariant
            it.seq() == s@,
            forall|i: int| 0 <= i < it.index() ==> is_alnum(#[trigger] s@[i]),
    {
        if !char_is_alphanumeric(c) {
            return false;
        }
    }
    true
}

/// Whether `s` may be held by a label.
pub fn is_valid_label(s: &str) -> (r: bool)
    ensures
        r == valid_label(s@),
{
    !s.is_empty() && is_all_alphanumeric(s)
}

/// Why text could not become a label.
#[derive(Debug, Clone, Copy, PartialEq, Eq, Structural)]
pub enum LabelError {
    /// The text was empty, or held a character that is not alphanumeric.
    InvalidLabel,
}

impl LabelError {
    /// A short human-readable description of the error.
    pub fn message(&self) -> (r: String)
        ensures
            r@ == label_error_message(*self),
    {
        match self {
            LabelError::InvalidLabel => String::from_str("Invalid label"),
        }
    }
}

/// The description of each error.
pub open spec fn label_error_message(e: LabelError) -> Seq<char> {
    match e {
        LabelError::InvalidLabel => "Invalid label"@,
    }
}

/// What constructing a label from `s` gives: its text, or the error.
pub open spec fn label_result(s: Seq<char>) -> Result<Seq<char>, LabelError> {
    if valid_label(s) {
        Ok(s)
    } else {
        Err(LabelError::InvalidLabel)
    }
}

/// The text of a label viewed through `label_result`'s shape.
pub open spec fn label_outcome(r: Result<Label, LabelError>) -> Result<Seq<char>, LabelError> {
    match r {
        Ok(l) => Ok(l@),
        Err(e) => Err(e),
    }
}

/// Text that is non-empty and alphanumeric throughout. It can only be built
/// by a validating constructor and is never changed afterwards.
#[derive(Debug)]
pub struct Label {
    label: String,
}

impl View for Label {
    type V = Seq<char>;

    closed spec fn view(&self) -> Seq<char> {
        self.label@
    }
}

impl Label {
    #[verifier::type_invariant]
    closed spec fn inv(self) -> bool {
        valid_label(self.label@)
    }

    /// Builds a label from owned text, keeping it exactly as given.
    pub fn from_string(s: String) -> (r: Result<Label, LabelError>)
        ensures
            label_outcome(r) == label_result(s@),
            r == label_from(s),
    {
        if is_valid_label(s.as_str()) {
            Ok(Label { label: s })
        } else {
            Err(LabelError::InvalidLabel)
        }
    }

    /// Builds a label from borrowed text, copying it exactly.
    pub fn parse(s: &str) -> (r: Result<Label, LabelError>)
        ensures
            label_outcome(r) == label_result(s@),
    {
        if is_valid_label(s) {
            Ok(Label { label: s.to_owned() })
        } else {
            Err(LabelError::InvalidLabel)
        }
    }

    /// The label's text, borrowed. It is always a valid label text.
    pub fn as_str(&self) -> (r: &str)
        ensures
            r@ == self@,
            valid_label(r@),
    {
        proof {
            use_type_invariant(self);
        }
        self.label.as_str()
    }

    /// The label's text as a borrowed `String`.
    pub fn as_string(&self) -> (r: &String)
        ensures
            r@ == self@,
    {
        &self.label
    }

    /// The label's text, taken out of the label.
    pub fn into_string(self) -> (r: String)
        ensures
            r@ == self@,
    {
        self.label
    }

    /// An owned copy of the label's text.
    pub fn to_text(&self) -> (r: String)
        ensures
            r@ == self@,
    {
        self.label.clone()
    }

    /// Whether two labels hold the same text.
    pub fn same_text(&self, other: &Label) -> (r: bool)
        ensures
            r == (self@ == other@),
    {
        self.label == other.label
    }
}

impl Clone for Label {
    fn clone(&self) -> (r: Label)
        ensures
            r@ == self@,
    {
        proof {
            use_type_invariant(self);
        }
        Label { label: self.label.clone() }
    }
}

impl PartialEq for Label {
    fn eq(&self, other: &Label) -> (r: bool) {
        self.label == other.label
    }
}

impl vstd::std_specs::cmp::PartialEqSpecImpl for Label {
    open spec fn obeys_eq_spec() -> bool {
        true
    }

    open spec fn eq_spec(&self, other: &Label) -> bool {
        self@ == other@
    }
}

impl Eq for Label {
}

/// The label that construction from `s` gives, as a value.
pub closed spec fn label_from(s: String) -> Result<Label, LabelError> {
    if valid_label(s@) {
        Ok(Label { label: s })
    } else {
        Err(LabelError::InvalidLabel)
    }
}

impl TryFrom<String> for Label {
    type Error = LabelError;

    fn try_from(s: String) -> (r: Result<Label, LabelError>) {
        Label::from_string(s)
    }
}

impl vstd::std_specs::convert::TryFromSpecImpl<String> for Label {
    open spec fn obeys_try_from_spec() -> bool {
        true
    }

    open spec fn try_from_spec(s: String) -> Result<Label, LabelError> {
        label_from(s)
    }
}

} // verus!
