//! Model aliases that carry a context-size tier as a hyphenated suffix.

use crate::context_size::ContextSize;
use crate::text::{chars_of, slice_of, string_of};
use vstd::prelude::*;
use vstd::std_specs::convert::{FromSpec, FromSpecImpl};
use vstd::string::*;

verus! {

/// The suffix that names a tier.
pub open spec fn suffix_of(tier: ContextSize) -> Seq<char> {
    match tier {
        ContextSize::T262144 => "max"@,
        ContextSize::T131072 => "large"@,
        ContextSize::T65536 => "moderate"@,
        ContextSize::T32768 => "small"@,
        ContextSize::T16384 => "tiny"@,
        ContextSize::T8192 => "min"@,
    }
}

/// The tier a suffix names, if it names one.
pub open spec fn tier_of_suffix(suffix: Seq<char>) -> Option<ContextSize> {
    if suffix == "max"@ {
        Some(ContextSize::T262144)
    } else if suffix == "large"@ {
        Some(ContextSize::T131072)
    } else if suffix == "moderate"@ {
        Some(ContextSize::T65536)
    } else if suffix == "small"@ {
        Some(ContextSize::T32768)
    } else if suffix == "tiny"@ {
        Some(ContextSize::T16384)
    } else if suffix == "min"@ {
        Some(ContextSize::T8192)
    } else {
        None
    }
}

/// The alias of a model at a tier: the model's own alias, a hyphen, the
/// suffix of the tier.
pub open spec fn spec_format(model: Seq<char>, tier: ContextSize) -> Seq<char> {
    model + seq!['-'] + suffix_of(tier)
}

/// Position of the last occurrence of `c` in `s`, or -1 if there is none.
pub open spec fn last_index_of(s: Seq<char>, c: char) -> int
    decreases s.len(),
{
    if s.len() == 0 {
        -1
    } else if s.last() == c {
        s.len() - 1
    } else {
        last_index_of(s.drop_last(), c)
    }
}

/// Outcome of reading a text as an alias with a tier.
pub ghost enum ParsedAlias {
    /// Model alias and tier.
    Hinted(Seq<char>, ContextSize),
    /// The text after the last hyphen names no tier.
    InvalidHint(Seq<char>),
    /// The text holds no hyphen.
    MissingHint,
}

/// Splits a text at its last hyphen and reads what follows as a tier.
pub open spec fn spec_parse(value: Seq<char>) -> ParsedAlias {
    let at = last_index_of(value, '-');
    if at < 0 {
        ParsedAlias::MissingHint
    } else {
        let hint = value.subrange(at + 1, value.len() as int);
        match tier_of_suffix(hint) {
            Some(tier) => ParsedAlias::Hinted(value.subrange(0, at), tier),
            None => ParsedAlias::InvalidHint(hint),
        }
    }
}

/// A model alias together with a context-size tier.
#[derive(Debug, Clone, PartialEq)]
pub struct ContextSizeAwareAlias(String, ContextSize);

/// Why a text is no alias with a tier.
#[derive(Debug, Clone, PartialEq)]
pub enum AliasError {
    /// The text after the last hyphen names no tier.
    InvalidHint { value: String, hint: String },
    /// The text holds no hyphen.
    MissingHint { value: String },
}

impl View for ContextSizeAwareAlias {
    type V = (Seq<char>, ContextSize);

    closed spec fn view(&self) -> (Seq<char>, ContextSize) {
        (self.0@, self.1)
    }
}

/// What the outcome of [`ContextSizeAwareAlias::parse`] stands for.
pub open spec fn outcome_view(r: Result<ContextSizeAwareAlias, AliasError>) -> ParsedAlias {
    match r {
        Ok(a) => ParsedAlias::Hinted(a@.0, a@.1),
        Err(AliasError::InvalidHint { value, hint }) => ParsedAlias::InvalidHint(hint@),
        Err(AliasError::MissingHint { value }) => ParsedAlias::MissingHint,
    }
}

/// The text an error carries: the value that was read.
pub open spec fn error_value(e: AliasError) -> Seq<char> {
    match e {
        AliasError::InvalidHint { value, hint } => value@,
        AliasError::MissingHint { value } => value@,
    }
}

/// The message of an error.
pub open spec fn error_text(e: AliasError) -> Seq<char> {
    match e {
        AliasError::InvalidHint { value, hint } => "value '"@ + value@
            + "' contains invalid content-size-hint '"@ + hint@ + "'"@,
        AliasError::MissingHint { value } => "value '"@ + value@
            + "' does not contain context-size-hint"@,
    }
}

impl AliasError {
    /// The message of the error.
    pub fn to_text(&self) -> (s: String)
        ensures
            s@ == error_text(*self),
    {
        let mut s = String::from_str("value '");
        match self {
            AliasError::InvalidHint { value, hint } => {
                s.append(value.as_str());
                s.append("' contains invalid content-size-hint '");
                s.append(hint.as_str());
                s.append("'");
            },
            AliasError::MissingHint { value } => {
                s.append(value.as_str());
                s.append("' does not contain context-size-hint");
            },
        }
        s
    }
}

/// The suffix that names a tier.
pub fn suffix_text(tier: ContextSize) -> (s: &'static str)
    ensures
        s@ == suffix_of(tier),
{
    match tier {
        ContextSize::T262144 => "max",
        ContextSize::T131072 => "large",
        ContextSize::T65536 => "moderate",
        ContextSize::T32768 => "small",
        ContextSize::T16384 => "tiny",
        ContextSize::T8192 => "min",
    }
}

/// The tier a suffix names, if it names one.
pub fn tier_named(suffix: &String) -> (tier: Option<ContextSize>)
    ensures
        tier == tier_of_suffix(suffix@),
{
    if *suffix == String::from_str("max") {
        Some(ContextSize::T262144)
    } else if *suffix == String::from_str("large") {
        Some(ContextSize::T131072)
    } else if *suffix == String::from_str("moderate") {
        Some(ContextSize::T65536)
    } else if *suffix == String::from_str("small") {
        Some(ContextSize::T32768)
    } else if *suffix == String::from_str("tiny") {
        Some(ContextSize::T16384)
    } else if *suffix == String::from_str("min") {
        Some(ContextSize::T8192)
    } else {
        None
    }
}

impl ContextSizeAwareAlias {
    /// The alias of `model` at `tier`.
    pub fn new(model: String, tier: ContextSize) -> (a: ContextSizeAwareAlias)
        ensures
            a@ == (model@, tier),
    {
        ContextSizeAwareAlias(model, tier)
    }

    /// Alias of the model itself.
    pub fn model(&self) -> (s: String)
        ensures
            s@ == self@.0,
    {
        self.0.clone()
    }

    /// The tier.
    pub fn context_size(&self) -> (tier: ContextSize)
        ensures
            tier == self@.1,
    {
        self.1
    }

    /// The alias as one text: model alias, hyphen, suffix of the tier.
    pub fn alias(&self) -> (s: String)
        ensures
            s@ == spec_format(self@.0, self@.1),
    {
        let mut s = self.0.clone();
        s.append("-");
        s.append(suffix_text(self.1));
        proof {
            reveal_strlit("-");
            assert("-"@ =~= seq!['-']);
        }
        s
    }

    /// Reads a text as an alias with a tier: the text is split at its last
    /// hyphen, and what follows must be the suffix of a tier.
    pub fn parse(value: &str) -> (r: Result<ContextSizeAwareAlias, AliasError>)
        ensures
            outcome_view(r) == spec_parse(value@),
            r is Err ==> error_value(r->Err_0) == value@,
    {
        let chars = chars_of(value);
        let mut i: usize = chars.len();
        proof {
            assert(chars@.take(i as int) =~= chars@);
        }
        while i > 0
            invariant
                i <= chars.len(),
                chars@ == value@,
                last_index_of(chars@, '-') == last_index_of(chars@.take(i as int), '-'),
            decreases i,
        {
            let ghost prefix = chars@.take(i as int);
            i -= 1;
            proof {
                assert(prefix.drop_last() =~= chars@.take(i as int));
                assert(prefix.last() == chars@[i as int]);
            }
            if chars[i] == '-' {
                proof {
                    assert(last_index_of(prefix, '-') == i);
                    assert(value@.subrange(0, i as int) == chars@.subrange(0, i as int));
                }
                let hint = string_of(&slice_of(&chars, i + 1, chars.len()));
                return match tier_named(&hint) {
                    Some(tier) => Ok(
                        ContextSizeAwareAlias(string_of(&slice_of(&chars, 0, i)), tier),
                    ),
                    None => Err(AliasError::InvalidHint { value: String::from_str(value), hint }),
                };
            }
        }
        Err(AliasError::MissingHint { value: String::from_str(value) })
    }
}

/// A text without the character has no last occurrence of it behind a prefix:
/// the last occurrence in the whole is the one in the prefix.
pub proof fn lemma_last_index_skips_tail(head: Seq<char>, tail: Seq<char>, c: char)
    requires
        forall|i: int| 0 <= i < tail.len() ==> tail[i] != c,
    ensures
        last_index_of(head + tail, c) == last_index_of(head, c),
    decreases tail.len(),
{
    if tail.len() == 0 {
        assert(head + tail =~= head);
    } else {
        assert((head + tail).drop_last() =~= head + tail.drop_last());
        assert((head + tail).last() == tail.last());
        lemma_last_index_skips_tail(head, tail.drop_last(), c);
    }
}

/// No suffix holds a hyphen, and each names its own tier.
pub proof fn lemma_suffixes(tier: ContextSize)
    ensures
        forall|i: int| 0 <= i < suffix_of(tier).len() ==> suffix_of(tier)[i] != '-',
        tier_of_suffix(suffix_of(tier)) == Some(tier),
{
    reveal_strlit("max");
    reveal_strlit("large");
    reveal_strlit("moderate");
    reveal_strlit("small");
    reveal_strlit("tiny");
    reveal_strlit("min");
    assert("max"@.len() == 3 && "min"@.len() == 3 && "tiny"@.len() == 4);
    assert("large"@.len() == 5 && "small"@.len() == 5 && "moderate"@.len() == 8);
    assert("max"@[1] == 'a' && "min"@[1] == 'i');
    assert("large"@[0] == 'l' && "small"@[0] == 's');
    assert("max"@ != "min"@);
    assert("large"@ != "small"@);
}

/// Round trip: for every tier, the alias formatted from a model alias and the
/// tier is read back as that model alias and that tier.
pub proof fn lemma_parse_format_roundtrip(model: Seq<char>, tier: ContextSize)
    ensures
        spec_parse(spec_format(model, tier)) == ParsedAlias::Hinted(model, tier),
{
    let text = spec_format(model, tier);
    let head = model + seq!['-'];
    lemma_suffixes(tier);
    lemma_last_index_skips_tail(head, suffix_of(tier), '-');
    assert(head.last() == '-');
    assert(last_index_of(head, '-') == model.len());
    assert(text.subrange(model.len() as int + 1, text.len() as int) =~= suffix_of(tier));
    assert(text.subrange(0, model.len() as int) =~= model);
}

/// A text whose part after the last hyphen names no tier, or which holds no
/// hyphen, is not read as an alias with a tier.
pub proof fn lemma_unknown_suffix_gives_no_hint(value: Seq<char>)
    requires
        last_index_of(value, '-') < 0 || tier_of_suffix(
            value.subrange(last_index_of(value, '-') + 1, value.len() as int),
        ) is None,
    ensures
        !(spec_parse(value) is Hinted),
{
}

impl From<(String, ContextSize)> for ContextSizeAwareAlias {
    fn from(value: (String, ContextSize)) -> (alias: ContextSizeAwareAlias) {
        ContextSizeAwareAlias(value.0, value.1)
    }
}

impl FromSpecImpl<(String, ContextSize)> for ContextSizeAwareAlias {
    open spec fn obeys_from_spec() -> bool {
        true
    }

    closed spec fn from_spec(value: (String, ContextSize)) -> ContextSizeAwareAlias {
        ContextSizeAwareAlias(value.0, value.1)
    }
}

/// The alias made from a pair stands for the pair.
pub proof fn lemma_from_pair(value: (String, ContextSize))
    ensures
        <ContextSizeAwareAlias as FromSpec<(String, ContextSize)>>::from_spec(value)@ == (
            value.0@,
            value.1,
        ),
{
}

} // verus!
