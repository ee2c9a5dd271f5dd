//! The calls into the engine that the binding asks its caller to make.
use vstd::prelude::*;
use crate::handle::{EnchantBroker, EnchantDict};
use crate::text::Text;

verus! {

/// The engine's operations on one word of one dictionary.
#[derive(Debug, Clone, Copy, PartialEq, Eq, Structural)]
pub enum WordOp {
    /// Is the word spelled correctly?
    Check,
    /// Which words could replace it?
    Suggest,
    /// Accept the word from now on.
    Add,
    /// Accept the word while this dictionary lives.
    AddToSession,
    /// Has the word been added?
    IsAdded,
    /// Refuse the word from now on.
    Remove,
    /// Refuse the word while this dictionary lives.
    RemoveFromSession,
    /// Has the word been removed?
    IsRemoved,
}

/// One call into the engine, with its arguments marshalled.
#[derive(Debug, PartialEq, Eq)]
pub enum Call {
    /// Release the broker resource.
    FreeBroker { broker: EnchantBroker },
    /// Ask for the dictionary of a language tag.
    RequestDict { broker: EnchantBroker, tag: Text },
    /// Ask for a dictionary backed by a personal word list file.
    RequestPwlDict { broker: EnchantBroker, pwl: Text },
    /// Release a dictionary resource.
    FreeDict { broker: EnchantBroker, dict: EnchantDict },
    /// Ask whether a dictionary for a language tag can be had.
    DictExists { broker: EnchantBroker, tag: Text },
    /// Set the order in which providers are tried for a language tag.
    SetOrdering { broker: EnchantBroker, tag: Text, ordering: Text },
    /// Fetch the message of the broker's last failure.
    BrokerGetError { broker: EnchantBroker },
    /// Have every loaded provider described, one callback each.
    DescribeBroker { broker: EnchantBroker },
    /// Have every installed dictionary described, one callback each.
    ListDicts { broker: EnchantBroker },
    /// Have one dictionary described, by one callback.
    DescribeDict { dict: EnchantDict },
    /// An operation on one word; the word goes with its length in bytes.
    Word { op: WordOp, dict: EnchantDict, word: Text },
    /// Remember that one word was replaced by another; both go with their
    /// lengths in bytes.
    StoreReplacement { dict: EnchantDict, bad: Text, good: Text },
    /// Release the list that a request for suggestions returned, by its
    /// address.
    FreeStringList { dict: EnchantDict, list: usize },
    /// Fetch the message of a dictionary's last failure.
    DictGetError { dict: EnchantDict },
}

/// A call as plain values: addresses for resources, bytes for texts.
pub enum CallView {
    FreeBroker { broker: usize },
    RequestDict { broker: usize, tag: Seq<u8> },
    RequestPwlDict { broker: usize, pwl: Seq<u8> },
    FreeDict { broker: usize, dict: usize },
    DictExists { broker: usize, tag: Seq<u8> },
    SetOrdering { broker: usize, tag: Seq<u8>, ordering: Seq<u8> },
    BrokerGetError { broker: usize },
    DescribeBroker { broker: usize },
    ListDicts { broker: usize },
    DescribeDict { dict: usize },
    Word { op: WordOp, dict: usize, word: Seq<u8> },
    StoreReplacement { dict: usize, bad: Seq<u8>, good: Seq<u8> },
    FreeStringList { dict: usize, list: usize },
    DictGetError { dict: usize },
}

impl View for Call {
    type V = CallView;

    open spec fn view(&self) -> CallView {
        match self {
            Call::FreeBroker { broker } => CallView::FreeBroker { broker: broker@ },
            Call::RequestDict { broker, tag } => CallView::RequestDict {
                broker: broker@,
                tag: tag@,
            },
            Call::RequestPwlDict { broker, pwl } => CallView::RequestPwlDict {
                broker: broker@,
                pwl: pwl@,
            },
            Call::FreeDict { broker, dict } => CallView::FreeDict {
                broker: broker@,
                dict: dict@,
            },
            Call::DictExists { broker, tag } => CallView::DictExists {
                broker: broker@,
                tag: tag@,
            },
            Call::SetOrdering { broker, tag, ordering } => CallView::SetOrdering {
                broker: broker@,
                tag: tag@,
                ordering: ordering@,
            },
            Call::BrokerGetError { broker } => CallView::BrokerGetError { broker: broker@ },
            Call::DescribeBroker { broker } => CallView::DescribeBroker { broker: broker@ },
            Call::ListDicts { broker } => CallView::ListDicts { broker: broker@ },
            Call::DescribeDict { dict } => CallView::DescribeDict { dict: dict@ },
            Call::Word { op, dict, word } => CallView::Word {
                op: *op,
                dict: dict@,
                word: word@,
            },
            Call::StoreReplacement { dict, bad, good } => CallView::StoreReplacement {
                dict: dict@,
                bad: bad@,
                good: good@,
            },
            Call::FreeStringList { dict, list } => CallView::FreeStringList {
                dict: dict@,
                list: *list,
            },
            Call::DictGetError { dict } => CallView::DictGetError { dict: dict@ },
        }
    }
}

/// A list of calls as plain values, in order.
pub open spec fn calls_view(calls: Seq<Call>) -> Seq<CallView> {
    calls.map_values(|c: Call| c@)
}

} // verus!
