//! The broker: the engine's top-level resource, and the books on what
//! depends on it.
//!
//! A broker issues dictionaries, and each of them needs the broker's resource
//! for as long as it lives. So the broker counts: it knows whether its owner
//! still holds it, and which dictionaries are out. Its resource is released
//! when the owner has let go and the last dictionary has come back, whichever
//! happens last, and never before.
use vstd::prelude::*;
use vstd::multiset::Multiset;
use vstd::string::StringSliceAdditionalSpecFns;
use crate::call::{calls_view, Call, CallView};
use crate::dict::{span_view, Dict, DictView};
use crate::error::{not_found_text, outcome, unknown_failure_text, Error, ErrorView};
use crate::handle::{EnchantBroker, EnchantDict};
use crate::info::{
    dict_of, dicts_view, provider_of, providers_view, DictData, DictDataView, ProviderData,
};
use crate::text::{has_nul, lossy_text, message_or, owned_text, Text};

verus! {

/// A broker resource together with the record of who still needs it.
#[derive(Debug)]
pub struct Broker {
    handle: EnchantBroker,
    held: bool,
    live: Vec<usize>,
}

/// A broker as plain values.
pub struct BrokerState {
    /// The address of the broker resource.
    pub handle: usize,
    /// Whether the owner still holds the broker.
    pub held: bool,
    /// The dictionaries that were issued and have not come back, by address.
    /// The engine may hand out one address more than once.
    pub live: Multiset<usize>,
}

impl View for Broker {
    type V = BrokerState;

    closed spec fn view(&self) -> BrokerState {
        BrokerState { handle: self.handle@, held: self.held, live: self.live@.to_multiset() }
    }
}

impl BrokerState {
    /// A broker as it is made: held, with no dictionary out.
    pub open spec fn fresh(handle: usize) -> BrokerState {
        BrokerState { handle, held: true, live: Multiset::empty() }
    }

    /// Whether the broker resource has been released: nobody needs it.
    pub open spec fn is_freed(self) -> bool {
        !self.held && self.live.len() == 0
    }

    /// Whether a dictionary was issued by this broker and has not come back.
    pub open spec fn issued(self, dict: DictView) -> bool {
        dict.broker == self.handle && self.live.count(dict.handle) > 0
    }

    /// The broker after it has issued a dictionary.
    pub open spec fn issue(self, dict: usize) -> BrokerState {
        BrokerState { live: self.live.insert(dict), ..self }
    }

    /// The broker after its owner has let go of it.
    pub open spec fn release(self) -> BrokerState {
        BrokerState { held: false, ..self }
    }

    /// The calls to make when the owner lets go: the resource is released if
    /// no dictionary is out, and left alone otherwise.
    pub open spec fn release_calls(self) -> Seq<CallView> {
        if self.held && self.live.len() == 0 {
            seq![CallView::FreeBroker { broker: self.handle }]
        } else {
            Seq::empty()
        }
    }

    /// The broker after a dictionary has come back. A dictionary that is not
    /// on the books changes nothing.
    pub open spec fn release_dict(self, dict: DictView) -> BrokerState {
        if self.issued(dict) {
            BrokerState { live: self.live.remove(dict.handle), ..self }
        } else {
            self
        }
    }

    /// The calls to make when a dictionary comes back: its resource is
    /// released, and after it the broker's, if the owner has let go and this
    /// was the last dictionary out.
    pub open spec fn release_dict_calls(self, dict: DictView) -> Seq<CallView> {
        if !self.issued(dict) {
            Seq::empty()
        } else if !self.held && self.live.len() == 1 {
            seq![
                CallView::FreeDict { broker: self.handle, dict: dict.handle },
                CallView::FreeBroker { broker: self.handle },
            ]
        } else {
            seq![CallView::FreeDict { broker: self.handle, dict: dict.handle }]
        }
    }
}

/// The call that a request with one text turns into, or the refusal of a
/// text that cannot be marshalled.
pub open spec fn text_request(call: CallView, text: Seq<u8>) -> Result<CallView, ErrorView> {
    if has_nul(text) {
        Err(ErrorView::InvalidInput)
    } else {
        Ok(call)
    }
}

/// What the engine's answer to a request for a dictionary comes to: the
/// dictionary, or `NotFound` with the engine's message, or with the given one
/// where the engine supplied none.
pub open spec fn request_outcome(
    broker: usize,
    addr: usize,
    error: Option<Seq<u8>>,
    fallback: Seq<char>,
    data: DictDataView,
) -> Result<DictView, ErrorView> {
    if addr == 0 {
        Err(ErrorView::NotFound(message_or(error, fallback)))
    } else {
        Ok(DictView { handle: addr, broker, data })
    }
}

/// The broker after the engine has answered a request for a dictionary.
pub open spec fn request_effect(before: BrokerState, addr: usize) -> BrokerState {
    if addr == 0 {
        before
    } else {
        before.issue(addr)
    }
}

/// What the engine's callback does when it describes one provider: every text
/// is copied, and the provider goes to the end of the list.
pub fn add_provider(providers: &mut Vec<ProviderData>, name: &[u8], desc: &[u8], file: &[u8])
    ensures
        providers_view(final(providers)@) == providers_view(old(providers)@).push(
            provider_of(name@, desc@, file@),
        ),
{
    let provider = ProviderData::from_native(name, desc, file);
    providers.push(provider);
}

/// What the engine's callback does when it lists one dictionary: every text
/// is copied, and the dictionary goes to the end of the list.
pub fn add_dict(dicts: &mut Vec<DictData>, lang: &[u8], name: &[u8], desc: &[u8], file: &[u8])
    ensures
        dicts_view(final(dicts)@) == dicts_view(old(dicts)@).push(
            dict_of(lang@, name@, desc@, file@),
        ),
{
    let dict = DictData::from_native(lang, name, desc, file);
    dicts.push(dict);
}

/// The engine's version, from the text that it reports.
pub fn version(raw: &[u8]) -> (r: String)
    ensures
        r@ == lossy_text(raw@),
{
    owned_text(raw)
}

impl Broker {
    /// Takes charge of what the engine returned when asked for a broker. A
    /// null address is a failure of the engine.
    pub fn new(addr: usize) -> (r: Result<Broker, Error>)
        ensures
            outcome(r) == if addr == 0 {
                Err::<BrokerState, ErrorView>(ErrorView::Engine(unknown_failure_text()))
            } else {
                Ok(BrokerState::fresh(addr))
            },
    {
        match EnchantBroker::from_addr(addr) {
            Some(handle) => {
                let live: Vec<usize> = Vec::new();
                assert(live@.to_multiset() =~= Multiset::empty()) by {
                    broadcast use vstd::seq_lib::group_to_multiset_ensures;
                }
                Ok(Broker { handle, held: true, live })
            },
            None => Err(Error::Engine("unknown engine error".to_owned())),
        }
    }

    /// The broker resource.
    pub fn handle(&self) -> (h: EnchantBroker)
        ensures
            h@ == self@.handle,
    {
        self.handle
    }

    /// Whether the owner still holds the broker.
    pub fn is_held(&self) -> (r: bool)
        ensures
            r == self@.held,
    {
        self.held
    }

    /// How many dictionaries are out.
    pub fn live_dicts(&self) -> (n: usize)
        ensures
            n == self@.live.len(),
    {
        proof {
            vstd::seq_lib::to_multiset_len(self.live@);
        }
        self.live.len()
    }

    /// Whether the broker resource has been released.
    pub fn is_freed(&self) -> (r: bool)
        ensures
            r == self@.is_freed(),
    {
        proof {
            vstd::seq_lib::to_multiset_len(self.live@);
        }
        !self.held && self.live.len() == 0
    }

    /// Asks for the dictionary of a language tag.
    pub fn request_dict(&self, lang: &str) -> (r: Result<Call, Error>)
        requires
            !self@.is_freed(),
        ensures
            outcome(r) == text_request(
                CallView::RequestDict { broker: self@.handle, tag: lang.spec_bytes() },
                lang.spec_bytes(),
            ),
    {
        match Text::new(lang) {
            Ok(tag) => Ok(Call::RequestDict { broker: self.handle, tag }),
            Err(e) => Err(e),
        }
    }

    /// Asks for a dictionary backed by the personal word list in a file.
    pub fn request_pwl_dict(&self, pwl: &str) -> (r: Result<Call, Error>)
        requires
            !self@.is_freed(),
        ensures
            outcome(r) == text_request(
                CallView::RequestPwlDict { broker: self@.handle, pwl: pwl.spec_bytes() },
                pwl.spec_bytes(),
            ),
    {
        match Text::new(pwl) {
            Ok(text) => Ok(Call::RequestPwlDict { broker: self.handle, pwl: text }),
            Err(e) => Err(e),
        }
    }

    /// The call to make once the engine has answered a request for a
    /// dictionary: a dictionary is described, a failure explained.
    pub fn after_request(&self, addr: usize) -> (c: Call)
        ensures
            c@ == if addr == 0 {
                CallView::BrokerGetError { broker: self@.handle }
            } else {
                CallView::DescribeDict { dict: addr }
            },
    {
        match EnchantDict::from_addr(addr) {
            Some(dict) => Call::DescribeDict { dict },
            None => Call::BrokerGetError { broker: self.handle },
        }
    }

    fn reply(&mut self, addr: usize, error: Option<&[u8]>, fallback: String, data: DictData) -> (r:
        Result<Dict, Error>)
        ensures
            outcome(r) == request_outcome(
                old(self)@.handle,
                addr,
                span_view(error),
                fallback@,
                data@,
            ),
            final(self)@ == request_effect(old(self)@, addr),
    {
        match EnchantDict::from_addr(addr) {
            Some(dict) => {
                proof {
                    vstd::seq_lib::to_multiset_build(self.live@, addr);
                }
                self.live.push(addr);
                Ok(Dict::new(dict, self.handle, data))
            },
            None => match error {
                Some(bytes) => Err(Error::NotFound(owned_text(bytes))),
                None => Err(Error::NotFound(fallback)),
            },
        }
    }

    /// Reads the engine's answer to `request_dict`. A dictionary that it
    /// returned goes on the books, with the description taken of it; a null
    /// address is `NotFound`, with the engine's message where it gave one.
    pub fn request_dict_reply(
        &mut self,
        addr: usize,
        error: Option<&[u8]>,
        data: DictData,
    ) -> (r: Result<Dict, Error>)
        requires
            !old(self)@.is_freed(),
        ensures
            outcome(r) == request_outcome(
                old(self)@.handle,
                addr,
                span_view(error),
                not_found_text(),
                data@,
            ),
            final(self)@ == request_effect(old(self)@, addr),
    {
        self.reply(addr, error, "dictionary not found".to_owned(), data)
    }

    /// Reads the engine's answer to `request_pwl_dict`. As for
    /// `request_dict_reply`, but a failure without a message has an empty one.
    pub fn request_pwl_dict_reply(
        &mut self,
        addr: usize,
        error: Option<&[u8]>,
        data: DictData,
    ) -> (r: Result<Dict, Error>)
        requires
            !old(self)@.is_freed(),
        ensures
            outcome(r) == request_outcome(
                old(self)@.handle,
                addr,
                span_view(error),
                Seq::empty(),
                data@,
            ),
            final(self)@ == request_effect(old(self)@, addr),
    {
        self.reply(addr, error, String::new(), data)
    }

    /// Asks whether a dictionary for a language tag can be had.
    pub fn dict_exists(&self, lang: &str) -> (r: Result<Call, Error>)
        requires
            !self@.is_freed(),
        ensures
            outcome(r) == text_request(
                CallView::DictExists { broker: self@.handle, tag: lang.spec_bytes() },
                lang.spec_bytes(),
            ),
    {
        match Text::new(lang) {
            Ok(tag) => Ok(Call::DictExists { broker: self.handle, tag }),
            Err(e) => Err(e),
        }
    }

    /// Reads the engine's answer to `dict_exists`: one for a dictionary that
    /// can be had, anything else for none.
    pub fn dict_exists_reply(status: i32) -> (r: bool)
        ensures
            r == (status == 1),
    {
        status == 1
    }

    /// Sets the order in which providers are tried for a language tag, or for
    /// every tag where the tag is `*`.
    pub fn set_ordering(&self, tag: &str, ordering: &str) -> (r: Result<Call, Error>)
        requires
            !self@.is_freed(),
        ensures
            outcome(r) == if has_nul(tag.spec_bytes()) || has_nul(ordering.spec_bytes()) {
                Err::<CallView, ErrorView>(ErrorView::InvalidInput)
            } else {
                Ok(
                    CallView::SetOrdering {
                        broker: self@.handle,
                        tag: tag.spec_bytes(),
                        ordering: ordering.spec_bytes(),
                    },
                )
            },
    {
        let tag_text = match Text::new(tag) {
            Ok(text) => text,
            Err(e) => {
                return Err(e);
            },
        };
        let ordering_text = match Text::new(ordering) {
            Ok(text) => text,
            Err(e) => {
                return Err(e);
            },
        };
        Ok(Call::SetOrdering { broker: self.handle, tag: tag_text, ordering: ordering_text })
    }

    /// The call that has the engine describe every loaded provider. Each
    /// callback is answered by `add_provider`.
    pub fn list_providers(&self) -> (c: Call)
        requires
            !self@.is_freed(),
        ensures
            c@ == (CallView::DescribeBroker { broker: self@.handle }),
    {
        Call::DescribeBroker { broker: self.handle }
    }

    /// The call that has the engine list every installed dictionary. Each
    /// callback is answered by `add_dict`.
    pub fn list_dicts(&self) -> (c: Call)
        requires
            !self@.is_freed(),
        ensures
            c@ == (CallView::ListDicts { broker: self@.handle }),
    {
        Call::ListDicts { broker: self.handle }
    }

    /// The owner lets go of the broker. The resource is released now if no
    /// dictionary is out; else the last dictionary to come back releases it.
    pub fn release(&mut self) -> (calls: Vec<Call>)
        ensures
            final(self)@ == old(self)@.release(),
            calls_view(calls@) == old(self)@.release_calls(),
            calls@.len() == old(self)@.release_calls().len(),
    {
        proof {
            vstd::seq_lib::to_multiset_len(self.live@);
        }
        let mut calls: Vec<Call> = Vec::new();
        if self.held && self.live.len() == 0 {
            calls.push(Call::FreeBroker { broker: self.handle });
        }
        self.held = false;
        calls
    }

    fn position(&self, addr: usize) -> (r: Option<usize>)
        ensures
            r is Some <==> self@.live.count(addr) > 0,
            r matches Some(i) ==> i < self.live@.len() && self.live@[i as int] == addr,
    {
        proof {
            vstd::seq_lib::to_multiset_contains(self.live@, addr);
        }
        let mut i: usize = 0;
        while i < self.live.len()
            invariant
                i <= self.live@.len(),
                forall|j: int| 0 <= j < i ==> self.live@[j] != addr,
                self.live@.contains(addr) <==> self@.live.count(addr) > 0,
            decreases self.live@.len() - i,
        {
            if self.live[i] == addr {
                return Some(i);
            }
            i += 1;
        }
        None
    }

    /// Whether a dictionary was issued by this broker and has not come back.
    /// While it is so, the broker's resource is there for the dictionary.
    pub fn has_out(&self, dict: &Dict) -> (r: bool)
        ensures
            r == self@.issued(dict@),
            r ==> !self@.is_freed(),
    {
        dict.broker().addr() == self.handle.addr() && self.position(dict.handle().addr()).is_some()
    }

    /// A dictionary comes back. Its resource is released; the broker's too,
    /// if the owner has let go and no other dictionary is out. A dictionary
    /// that this broker has not out is handed back untouched, and nothing is
    /// released.
    pub fn release_dict(&mut self, dict: Dict) -> (r: Result<Vec<Call>, Dict>)
        ensures
            final(self)@ == old(self)@.release_dict(dict@),
            old(self)@.issued(dict@) <==> r is Ok,
            r matches Ok(calls) ==> calls_view(calls@) == old(self)@.release_dict_calls(dict@)
                && calls@.len() == old(self)@.release_dict_calls(dict@).len(),
            r matches Err(d) ==> d == dict,
    {
        if dict.broker().addr() != self.handle.addr() {
            return Err(dict);
        }
        let i: usize = match self.position(dict.handle().addr()) {
            Some(i) => i,
            None => {
                return Err(dict);
            },
        };
        proof {
            vstd::seq_lib::to_multiset_remove(self.live@, i as int);
            vstd::seq_lib::to_multiset_len(self.live@.remove(i as int));
        }
        self.live.remove(i);
        let mut calls: Vec<Call> = Vec::new();
        calls.push(Call::FreeDict { broker: self.handle, dict: dict.handle() });
        if !self.held && self.live.len() == 0 {
            calls.push(Call::FreeBroker { broker: self.handle });
        }
        Ok(calls)
    }
}

/// A dictionary that a request returned is on the books of the broker that
/// issued it, and the broker's resource is there for it.
pub proof fn law_issued_dict_is_out(
    before: BrokerState,
    addr: usize,
    error: Option<Seq<u8>>,
    fallback: Seq<char>,
    data: DictDataView,
)
    requires
        addr != 0,
    ensures
        request_outcome(before.handle, addr, error, fallback, data) matches Ok(d)
            && request_effect(before, addr).issued(d),
        !request_effect(before, addr).is_freed(),
{
}

/// A dictionary that the engine returned reports the language that the
/// engine's description gave for it, whatever tag was asked for.
pub proof fn law_language_is_reported(
    broker: usize,
    addr: usize,
    error: Option<Seq<u8>>,
    fallback: Seq<char>,
    lang: Seq<u8>,
    name: Seq<u8>,
    desc: Seq<u8>,
    file: Seq<u8>,
)
    requires
        addr != 0,
    ensures
        request_outcome(broker, addr, error, fallback, dict_of(lang, name, desc, file))
            matches Ok(d) && d.data.lang == lossy_text(lang) && d.data.provider == provider_of(
            name,
            desc,
            file,
        ),
{
}

/// While the owner holds the broker, a dictionary that comes back never takes
/// the broker's resource with it.
pub proof fn law_dict_release_spares_held_broker(broker: BrokerState, dict: DictView)
    requires
        broker.held,
    ensures
        !broker.release_dict_calls(dict).contains(CallView::FreeBroker { broker: broker.handle }),
        !broker.release_dict(dict).is_freed(),
        broker.release_dict(dict).held,
{
}

/// A dictionary that is out keeps the broker's resource: the resource is not
/// released while the dictionary is out, and the owner's letting go releases
/// nothing and leaves the dictionary on the books.
pub proof fn law_live_dict_keeps_broker(broker: BrokerState, dict: DictView)
    requires
        broker.issued(dict),
    ensures
        !broker.is_freed(),
        broker.release_calls() == Seq::<CallView>::empty(),
        broker.release().issued(dict),
        !broker.release().is_freed(),
{
}

/// The broker's resource is released at the very step that leaves nobody in
/// need of it, and at no other: by the owner's letting go, or by a dictionary
/// coming back.
pub proof fn law_broker_freed_when_last_leaves(broker: BrokerState, dict: DictView)
    ensures
        broker.release_calls().contains(CallView::FreeBroker { broker: broker.handle }) <==> (
        !broker.is_freed() && broker.release().is_freed()),
        broker.release_dict_calls(dict).contains(CallView::FreeBroker { broker: broker.handle })
            <==> (!broker.is_freed() && broker.release_dict(dict).is_freed()),
{
    let free = CallView::FreeBroker { broker: broker.handle };
    let a = broker.release_calls();
    if broker.held && broker.live.len() == 0 {
        assert(a[0] == free);
    }
}

/// Once the broker's resource has been released, nothing is released again:
/// no step asks for any call, and none changes the books.
pub proof fn law_freed_is_final(broker: BrokerState, dict: DictView)
    requires
        broker.is_freed(),
    ensures
        broker.release_calls() == Seq::<CallView>::empty(),
        broker.release() == broker,
        broker.release_dict_calls(dict) == Seq::<CallView>::empty(),
        broker.release_dict(dict) == broker,
{
}

} // verus!
