//! A switch the backend takes as `on`, `off`, or a word of its own.

use vstd::prelude::*;
use vstd::string::*;

verus! {

/// The lower-case form of a text, as `str::to_lowercase` gives it.
pub uninterp spec fn lowercased(s: Seq<char>) -> Seq<char>;

/// `str::to_lowercase`: the result is the lower-case form of the text, a
/// function of the text alone.
#[verifier::external_body]
fn lowercase(s: &str) -> (r: String)
    ensures
        r@ == lowercased(s@),
{
    s.to_lowercase()
}

/// `on`, `off`, or any other word, passed through as it is.
#[derive(Debug, Clone, PartialEq)]
pub enum OnOffValue {
    On,
    Off,
    Other(String),
}

/// Mathematical model of [`OnOffValue`].
pub ghost enum OnOffModel {
    On,
    Off,
    Other(Seq<char>),
}

impl View for OnOffValue {
    type V = OnOffModel;

    open spec fn view(&self) -> OnOffModel {
        match *self {
            OnOffValue::On => OnOffModel::On,
            OnOffValue::Off => OnOffModel::Off,
            OnOffValue::Other(s) => OnOffModel::Other(s@),
        }
    }
}

/// The word a switch is written as.
pub open spec fn on_off_text(v: OnOffModel) -> Seq<char> {
    match v {
        OnOffModel::On => "on"@,
        OnOffModel::Off => "off"@,
        OnOffModel::Other(s) => s,
    }
}

/// The switch a word stands for, given the word and its lower-case form.
pub open spec fn on_off_of(lowered: Seq<char>, word: Seq<char>) -> OnOffModel {
    if lowered == "on"@ {
        OnOffModel::On
    } else if lowered == "off"@ {
        OnOffModel::Off
    } else {
        OnOffModel::Other(word)
    }
}

/// View of an optional switch.
pub open spec fn opt_on_off_view(o: Option<OnOffValue>) -> Option<OnOffModel> {
    match o {
        Some(v) => Some(v@),
        None => None,
    }
}

impl OnOffValue {
    /// The switch `word` stands for, `lowered` being its lower-case form.
    pub fn from_lowered(lowered: &str, word: String) -> (v: OnOffValue)
        ensures
            v@ == on_off_of(lowered@, word@),
    {
        let lowered = String::from_str(lowered);
        if lowered == String::from_str("on") {
            OnOffValue::On
        } else if lowered == String::from_str("off") {
            OnOffValue::Off
        } else {
            OnOffValue::Other(word)
        }
    }

    /// The switch `word` stands for: `on` and `off` in any letter case, any
    /// other word as it is.
    pub fn from_string(word: String) -> (v: OnOffValue)
        ensures
            v@ == on_off_of(lowercased(word@), word@),
    {
        let lowered = lowercase(word.as_str());
        Self::from_lowered(lowered.as_str(), word)
    }

    /// The word the switch is written as.
    pub fn to_text(&self) -> (s: String)
        ensures
            s@ == on_off_text(self@),
    {
        match self {
            OnOffValue::On => String::from_str("on"),
            OnOffValue::Off => String::from_str("off"),
            OnOffValue::Other(s) => s.clone(),
        }
    }

    /// Equality by value.
    pub fn same_as(&self, other: &OnOffValue) -> (r: bool)
        ensures
            r == (self@ == other@),
    {
        match (self, other) {
            (OnOffValue::On, OnOffValue::On) => true,
            (OnOffValue::Off, OnOffValue::Off) => true,
            (OnOffValue::Other(a), OnOffValue::Other(b)) => *a == *b,
            _ => false,
        }
    }

    /// A copy equal by value.
    pub fn duplicate(&self) -> (r: OnOffValue)
        ensures
            r@ == self@,
    {
        match self {
            OnOffValue::On => OnOffValue::On,
            OnOffValue::Off => OnOffValue::Off,
            OnOffValue::Other(s) => OnOffValue::Other(s.clone()),
        }
    }
}

/// Equality by value of two optional switches.
pub fn same_opt_on_off(a: &Option<OnOffValue>, b: &Option<OnOffValue>) -> (r: bool)
    ensures
        r == (opt_on_off_view(*a) == opt_on_off_view(*b)),
{
    match (a, b) {
        (Some(x), Some(y)) => x.same_as(y),
        (None, None) => true,
        _ => false,
    }
}

/// A copy, equal by value, of an optional switch.
pub fn duplicate_opt_on_off(a: &Option<OnOffValue>) -> (r: Option<OnOffValue>)
    ensures
        opt_on_off_view(r) == opt_on_off_view(*a),
{
    match a {
        Some(x) => Some(x.duplicate()),
        None => None,
    }
}

} // verus!
