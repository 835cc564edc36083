//! Violation messages and their locale data.
//!
//! Every violation is recorded as a human-readable text paired with a
//! translatable message key and its arguments, so that a presentation layer
//! can re-render the message in another language. The core works with the
//! locale collaborator entirely absent: rendering then falls back to the
//! original text.

use vstd::prelude::*;

verus! {

/// One argument of a translatable message, e.g. the numeric bound that a
/// length rule was checked against.
#[derive(Debug)]
pub enum LocaleValue {
    StrVal(String),
    UintVal(usize),
    IntVal(i64),
}

/// The key of a translatable message together with its arguments.
#[derive(Debug)]
pub struct LocaleData {
    pub name: String,
    pub args: Vec<(String, LocaleValue)>,
}

/// One violation message: the fallback text and the locale data from which a
/// translation can be produced.
#[derive(Debug)]
pub struct MessageEntry {
    pub text: String,
    pub locale: LocaleData,
}

/// Ordered, append-only accumulator of violation messages for one field.
pub struct ValidateErrorCollector(pub Vec<MessageEntry>);

impl ValidateErrorCollector {
    pub fn new() -> (r: Self)
        ensures
            r.0@ == Seq::<MessageEntry>::empty(),
    {
        ValidateErrorCollector(Vec::new())
    }

    pub fn push(&mut self, entry: MessageEntry)
        ensures
            final(self).0@ == old(self).0@.push(entry),
    {
        self.0.push(entry);
    }

    pub fn is_empty(&self) -> (r: bool)
        ensures
            r == (self.0@.len() == 0),
    {
        self.0.len() == 0
    }

    pub fn len(&self) -> (r: usize)
        ensures
            r == self.0@.len(),
    {
        self.0.len()
    }

    /// Freezes the collected messages into a store.
    pub fn into_store(self) -> (r: ValidateErrorStore)
        ensures
            r.0@ == self.0@,
    {
        ValidateErrorStore(self.0)
    }
}

/// The complete message set of one failed field, frozen after collection.
#[derive(Debug)]
pub struct ValidateErrorStore(pub Vec<MessageEntry>);

/// Locale renderer collaborator (presentation layer). Returns the translated
/// message for the given locale data, or `None` when no translation exists.
pub trait MessageTranslator {
    fn translate(&self, data: &LocaleData, original: &str) -> Option<String>;
}

impl ValidateErrorStore {
    /// The untranslated message texts, in collection order.
    pub fn as_original_message(&self) -> (r: Vec<String>)
        ensures
            r@.len() == self.0@.len(),
            forall|i: int| 0 <= i < r@.len() ==> r@[i]@ == self.0@[i].text@,
    {
        let mut out: Vec<String> = Vec::new();
        let mut i: usize = 0;
        while i < self.0.len()
            invariant
                i <= self.0@.len(),
                out@.len() == i,
                forall|j: int| 0 <= j < i ==> out@[j]@ == self.0@[j].text@,
            decreases self.0@.len() - i,
        {
            out.push(self.0[i].text.clone());
            i = i + 1;
        }
        out
    }

    /// The message texts rendered through the locale collaborator, falling
    /// back to the original text wherever no translation exists.
    pub fn as_translated_message<T: MessageTranslator>(&self, translator: &T) -> (r: Vec<String>)
        ensures
            r@.len() == self.0@.len(),
    {
        let mut out: Vec<String> = Vec::new();
        let mut i: usize = 0;
        while i < self.0.len()
            invariant
                i <= self.0@.len(),
                out@.len() == i,
            decreases self.0@.len() - i,
        {
            let entry = &self.0[i];
            let translated = translator.translate(&entry.locale, entry.text.as_str());
            out.push(fallback_to_original(&entry.text, translated));
            i = i + 1;
        }
        out
    }
}

/// Keeps a translation when the collaborator produced one and falls back to
/// the original message text otherwise.
pub fn fallback_to_original(original: &String, translated: Option<String>) -> (r: String)
    ensures
        translated matches Some(t) ==> r@ == t@,
        translated is None ==> r@ == original@,
{
    match translated {
        Some(t) => t,
        None => original.clone(),
    }
}

} // verus!
