//! One dictionary of the engine: what it is, and what can be asked of it.
//!
//! Every operation comes in two halves. The first marshals the word and says
//! which call to make. The second reads what the engine answered.
use vstd::prelude::*;
use vstd::string::StringSliceAdditionalSpecFns;
use vstd::utf8::{encode_utf8, encode_utf8_valid_utf8, valid_utf8};
use crate::call::{Call, CallView, WordOp};
use crate::error::{outcome, unknown_failure_text, Error, ErrorView};
use crate::handle::{EnchantBroker, EnchantDict};
use crate::info::{dict_of, DictData, DictDataView};
use crate::text::{has_nul, lossy_text, message_or, owned_text, Text};

verus! {

/// A dictionary that a broker issued: its resource, the broker that it came
/// from, and the description that the engine gave of it when it was made.
#[derive(Debug)]
pub struct Dict {
    dict: EnchantDict,
    broker: EnchantBroker,
    data: DictData,
}

/// A dictionary as plain values.
pub struct DictView {
    /// The address of the dictionary resource.
    pub handle: usize,
    /// The address of the broker resource that issued it.
    pub broker: usize,
    /// The description taken when it was issued.
    pub data: DictDataView,
}

impl View for Dict {
    type V = DictView;

    closed spec fn view(&self) -> DictView {
        DictView { handle: self.dict@, broker: self.broker@, data: self.data@ }
    }
}

/// The bytes behind an optional borrowed span.
pub open spec fn span_view(span: Option<&[u8]>) -> Option<Seq<u8>> {
    match span {
        Some(bytes) => Some(bytes@),
        None => None,
    }
}

/// The call that an operation on one word turns into, or the refusal of a
/// word that cannot be marshalled.
pub open spec fn word_request(op: WordOp, dict: usize, word: Seq<u8>) -> Result<
    CallView,
    ErrorView,
> {
    if has_nul(word) {
        Err(ErrorView::InvalidInput)
    } else {
        Ok(CallView::Word { op, dict, word })
    }
}

/// The call that stores a replacement, or the refusal of a word that cannot
/// be marshalled.
pub open spec fn replacement_request(dict: usize, bad: Seq<u8>, good: Seq<u8>) -> Result<
    CallView,
    ErrorView,
> {
    if has_nul(bad) || has_nul(good) {
        Err(ErrorView::InvalidInput)
    } else {
        Ok(CallView::StoreReplacement { dict, bad, good })
    }
}

/// What a status of the engine's check means: zero for a word spelled
/// correctly, above zero for one that is not, below zero for a failure, which
/// carries the engine's message where it supplied one.
pub open spec fn check_outcome(status: i32, error: Option<Seq<u8>>) -> Result<bool, ErrorView> {
    if status == 0 {
        Ok(true)
    } else if status > 0 {
        Ok(false)
    } else {
        Err(ErrorView::Engine(message_or(error, unknown_failure_text())))
    }
}

/// The suggestions that the engine's list holds, in the engine's order; none
/// where it returned no list.
pub open spec fn suggestions_of(list: Option<&Vec<Vec<u8>>>) -> Seq<Seq<char>> {
    match list {
        Some(items) => Seq::new(items@.len(), |i: int| lossy_text(items@[i]@)),
        None => Seq::empty(),
    }
}

/// The characters of each string of a list, in order.
pub open spec fn texts_view(list: Seq<String>) -> Seq<Seq<char>> {
    Seq::new(list.len(), |i: int| list[i]@)
}

/// What the engine's callback does when it describes one dictionary: every
/// text is copied into the place that the caller handed in.
pub fn describe_fn(data: &mut DictData, lang: &[u8], name: &[u8], desc: &[u8], file: &[u8])
    ensures
        final(data)@ == dict_of(lang@, name@, desc@, file@),
{
    data.lang = owned_text(lang);
    data.provider.name = owned_text(name);
    data.provider.desc = owned_text(desc);
    data.provider.file = owned_text(file);
}

impl Dict {
    /// Wraps a dictionary resource with the description taken of it.
    pub(crate) fn new(dict: EnchantDict, broker: EnchantBroker, data: DictData) -> (r: Dict)
        ensures
            r@ == (DictView { handle: dict@, broker: broker@, data: data@ }),
    {
        Dict { dict, broker, data }
    }

    /// The dictionary resource.
    pub fn handle(&self) -> (h: EnchantDict)
        ensures
            h@ == self@.handle,
    {
        self.dict
    }

    /// The broker resource that issued the dictionary.
    pub fn broker(&self) -> (h: EnchantBroker)
        ensures
            h@ == self@.broker,
    {
        self.broker
    }

    /// The call that has the engine describe this dictionary.
    pub fn describe(&self) -> (c: Call)
        ensures
            c@ == (CallView::DescribeDict { dict: self@.handle }),
    {
        Call::DescribeDict { dict: self.dict }
    }

    fn word_call(&self, op: WordOp, word: &str) -> (r: Result<Call, Error>)
        ensures
            outcome(r) == word_request(op, self@.handle, word.spec_bytes()),
    {
        match Text::new(word) {
            Ok(text) => Ok(Call::Word { op, dict: self.dict, word: text }),
            Err(e) => Err(e),
        }
    }

    /// Asks whether a word is spelled correctly. An empty word is refused
    /// here, and so is one that cannot be marshalled: neither gets to the
    /// engine.
    pub fn check(&self, word: &str) -> (r: Result<Call, Error>)
        ensures
            word@.len() == 0 ==> outcome(r) == Err::<CallView, ErrorView>(ErrorView::InvalidInput),
            word@.len() != 0 ==> outcome(r) == word_request(
                WordOp::Check,
                self@.handle,
                word.spec_bytes(),
            ),
    {
        if word.is_empty() {
            return Err(Error::InvalidInput);
        }
        self.word_call(WordOp::Check, word)
    }

    /// The call to make once the engine has answered a check: after a failure
    /// its message is fetched, else nothing.
    pub fn after_check(&self, status: i32) -> (r: Option<Call>)
        ensures
            status < 0 <==> r is Some,
            r matches Some(c) ==> c@ == (CallView::DictGetError { dict: self@.handle }),
    {
        if status < 0 {
            Some(Call::DictGetError { dict: self.dict })
        } else {
            None
        }
    }

    /// Reads the engine's answer to a check.
    pub fn check_reply(status: i32, error: Option<&[u8]>) -> (r: Result<bool, Error>)
        ensures
            outcome(r) == check_outcome(status, span_view(error)),
    {
        if status == 0 {
            Ok(true)
        } else if status > 0 {
            Ok(false)
        } else {
            match error {
                Some(bytes) => Err(Error::Engine(owned_text(bytes))),
                None => Err(Error::Engine("unknown engine error".to_owned())),
            }
        }
    }

    /// Asks for words that could replace a word.
    pub fn suggest(&self, word: &str) -> (r: Result<Call, Error>)
        ensures
            outcome(r) == word_request(WordOp::Suggest, self@.handle, word.spec_bytes()),
    {
        self.word_call(WordOp::Suggest, word)
    }

    /// The call to make once the engine has answered a request for
    /// suggestions with the address of a list and a count: a list that is
    /// there and not empty is released, once.
    pub fn after_suggest(&self, list: usize, count: usize) -> (r: Option<Call>)
        ensures
            (list != 0 && count != 0) <==> r is Some,
            r matches Some(c) ==> c@ == (CallView::FreeStringList { dict: self@.handle, list }),
    {
        if list != 0 && count != 0 {
            Some(Call::FreeStringList { dict: self.dict, list })
        } else {
            None
        }
    }

    /// Reads the engine's answer to a request for suggestions: every string of
    /// the list is copied, in the engine's order. Whatever bytes the engine
    /// returned, each suggestion is valid UTF-8.
    pub fn suggest_reply(list: Option<&Vec<Vec<u8>>>) -> (r: Vec<String>)
        ensures
            texts_view(r@) == suggestions_of(list),
            forall|i: int| 0 <= i < r@.len() ==> valid_utf8(encode_utf8(#[trigger] r@[i]@)),
    {
        let mut out: Vec<String> = Vec::new();
        if let Some(items) = list {
            let mut i: usize = 0;
            while i < items.len()
                invariant
                    i <= items@.len(),
                    out@.len() == i,
                    forall|j: int| 0 <= j < i ==> out@[j]@ == lossy_text(#[trigger] items@[j]@),
                decreases items@.len() - i,
            {
                out.push(owned_text(items[i].as_slice()));
                i += 1;
            }
        }
        proof {
            assert forall|i: int| 0 <= i < out@.len() implies valid_utf8(
                encode_utf8(#[trigger] out@[i]@),
            ) by {
                encode_utf8_valid_utf8(out@[i]@);
            }
        }
        out
    }

    /// Asks that a word be accepted from now on.
    pub fn add(&self, word: &str) -> (r: Result<Call, Error>)
        ensures
            outcome(r) == word_request(WordOp::Add, self@.handle, word.spec_bytes()),
    {
        self.word_call(WordOp::Add, word)
    }

    /// Asks that a word be accepted while this dictionary lives.
    pub fn add_to_session(&self, word: &str) -> (r: Result<Call, Error>)
        ensures
            outcome(r) == word_request(WordOp::AddToSession, self@.handle, word.spec_bytes()),
    {
        self.word_call(WordOp::AddToSession, word)
    }

    /// Asks whether a word has been added.
    pub fn is_added(&self, word: &str) -> (r: Result<Call, Error>)
        ensures
            outcome(r) == word_request(WordOp::IsAdded, self@.handle, word.spec_bytes()),
    {
        self.word_call(WordOp::IsAdded, word)
    }

    /// Asks that a word be refused from now on.
    pub fn remove(&self, word: &str) -> (r: Result<Call, Error>)
        ensures
            outcome(r) == word_request(WordOp::Remove, self@.handle, word.spec_bytes()),
    {
        self.word_call(WordOp::Remove, word)
    }

    /// Asks that a word be refused while this dictionary lives.
    pub fn remove_from_session(&self, word: &str) -> (r: Result<Call, Error>)
        ensures
            outcome(r) == word_request(
                WordOp::RemoveFromSession,
                self@.handle,
                word.spec_bytes(),
            ),
    {
        self.word_call(WordOp::RemoveFromSession, word)
    }

    /// Asks whether a word has been removed.
    pub fn is_removed(&self, word: &str) -> (r: Result<Call, Error>)
        ensures
            outcome(r) == word_request(WordOp::IsRemoved, self@.handle, word.spec_bytes()),
    {
        self.word_call(WordOp::IsRemoved, word)
    }

    /// Reads the engine's answer to `is_added` or `is_removed`: one for yes.
    pub fn membership_reply(status: i32) -> (r: bool)
        ensures
            r == (status == 1),
    {
        status == 1
    }

    /// Asks the engine to remember that one word was replaced by another.
    pub fn store_replacement(&self, bad: &str, good: &str) -> (r: Result<Call, Error>)
        ensures
            outcome(r) == replacement_request(self@.handle, bad.spec_bytes(), good.spec_bytes()),
    {
        let bad_text = match Text::new(bad) {
            Ok(text) => text,
            Err(e) => {
                return Err(e);
            },
        };
        let good_text = match Text::new(good) {
            Ok(text) => text,
            Err(e) => {
                return Err(e);
            },
        };
        Ok(Call::StoreReplacement { dict: self.dict, bad: bad_text, good: good_text })
    }

    /// The language tag, as the engine reported it.
    pub fn get_lang(&self) -> (r: &str)
        ensures
            r@ == self@.data.lang,
    {
        self.data.lang.as_str()
    }

    /// The name of the provider that serves the dictionary.
    pub fn get_provider_name(&self) -> (r: &str)
        ensures
            r@ == self@.data.provider.name,
    {
        self.data.provider.name.as_str()
    }

    /// The description of the provider that serves the dictionary.
    pub fn get_provider_desc(&self) -> (r: &str)
        ensures
            r@ == self@.data.provider.desc,
    {
        self.data.provider.desc.as_str()
    }

    /// The file that the provider was loaded from.
    pub fn get_provider_file(&self) -> (r: &str)
        ensures
            r@ == self@.data.provider.file,
    {
        self.data.provider.file.as_str()
    }
}

} // verus!
