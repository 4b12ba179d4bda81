use vstd::prelude::*;

verus! {

/// The key of an interned name. Two names are the same name exactly when
/// their keys are equal.
pub type Word = u32;

#[verifier::external_type_specification]
#[verifier::external_body]
#[verifier::reject_recursive_types(K)]
#[verifier::reject_recursive_types(S)]
pub struct ExThreadedRodeo<K, S>(lasso::ThreadedRodeo<K, S>);

#[verifier::external_type_specification]
#[verifier::external_body]
pub struct ExSpur(lasso::Spur);

/// The text that `interner` holds under the key whose index is `word`.
pub uninterp spec fn interned_text(interner: lasso::ThreadedRodeo, word: u32) -> Seq<char>;

/// `lasso::ThreadedRodeo::try_resolve`, for the key that `lasso::Key::try_from_usize`
/// makes of `word`. A text that comes back is the text interned under that
/// key; nothing is said of when one comes back.
#[verifier::external_body]
pub(crate) fn resolve_word<'a>(interner: &'a lasso::ThreadedRodeo, word: Word) -> (text: Option<
    &'a str,
>)
    ensures
        text matches Some(found) ==> found@ == interned_text(*interner, word),
{
    interner.try_resolve(&lasso::Key::try_from_usize(word as usize)?)
}

/// A text that was looked up, as a string of its own: the same text where
/// one was found, and nothing where none was.
pub fn owned_text(found: Option<&str>) -> (text: Option<String>)
    ensures
        match found {
            Some(borrowed) => text matches Some(owned) && owned@ == borrowed@,
            None => text is None,
        },
{
    match found {
        Some(borrowed) => Some(borrowed.to_owned()),
        None => None,
    }
}

/// The text of the name `word`, if `interner` knows the name.
pub fn word_text(interner: &lasso::ThreadedRodeo, word: Word) -> (text: Option<String>)
    ensures
        text matches Some(found) ==> found@ == interned_text(*interner, word),
{
    owned_text(resolve_word(interner, word))
}

} // verus!
