//! What the engine tells about its providers and dictionaries.
//!
//! The engine describes each item by calling back once, with texts that are
//! valid only during that one invocation. The functions here are what such a
//! callback does: copy every text into an owned string at once, and store the
//! item where the caller will find it.
use vstd::prelude::*;
use crate::text::{lossy_text, owned_text};

verus! {

/// A provider: a spell-checking backend that the engine has loaded.
#[derive(Debug, PartialEq, Eq)]
pub struct ProviderData {
    /// The provider's identifier.
    pub name: String,
    /// The provider's description.
    pub desc: String,
    /// The file that the provider was loaded from.
    pub file: String,
}

/// A dictionary as the engine describes it.
#[derive(Debug, PartialEq, Eq)]
pub struct DictData {
    /// The language tag.
    pub lang: String,
    /// The provider that serves the dictionary.
    pub provider: ProviderData,
}

/// The texts of a `ProviderData`.
pub struct ProviderDataView {
    pub name: Seq<char>,
    pub desc: Seq<char>,
    pub file: Seq<char>,
}

/// The texts of a `DictData`.
pub struct DictDataView {
    pub lang: Seq<char>,
    pub provider: ProviderDataView,
}

impl View for ProviderData {
    type V = ProviderDataView;

    open spec fn view(&self) -> ProviderDataView {
        ProviderDataView { name: self.name@, desc: self.desc@, file: self.file@ }
    }
}

impl View for DictData {
    type V = DictDataView;

    open spec fn view(&self) -> DictDataView {
        DictDataView { lang: self.lang@, provider: self.provider@ }
    }
}

/// The provider that one invocation of the engine's callback describes.
pub open spec fn provider_of(name: Seq<u8>, desc: Seq<u8>, file: Seq<u8>) -> ProviderDataView {
    ProviderDataView { name: lossy_text(name), desc: lossy_text(desc), file: lossy_text(file) }
}

/// The dictionary that one invocation of the engine's callback describes.
pub open spec fn dict_of(lang: Seq<u8>, name: Seq<u8>, desc: Seq<u8>, file: Seq<u8>)
    -> DictDataView {
    DictDataView { lang: lossy_text(lang), provider: provider_of(name, desc, file) }
}

/// The texts of a list of providers, in order.
pub open spec fn providers_view(list: Seq<ProviderData>) -> Seq<ProviderDataView> {
    list.map_values(|p: ProviderData| p@)
}

/// The texts of a list of dictionaries, in order.
pub open spec fn dicts_view(list: Seq<DictData>) -> Seq<DictDataView> {
    list.map_values(|d: DictData| d@)
}

impl ProviderData {
    /// Copies the three texts of one callback invocation.
    pub fn from_native(name: &[u8], desc: &[u8], file: &[u8]) -> (r: ProviderData)
        ensures
            r@ == provider_of(name@, desc@, file@),
    {
        ProviderData { name: owned_text(name), desc: owned_text(desc), file: owned_text(file) }
    }
}

impl Default for ProviderData {
    /// A provider with three empty texts.
    fn default() -> (r: ProviderData)
        ensures
            r.name@.len() == 0,
            r.desc@.len() == 0,
            r.file@.len() == 0,
    {
        ProviderData { name: String::new(), desc: String::new(), file: String::new() }
    }
}

impl DictData {
    /// Copies the four texts of one callback invocation.
    pub fn from_native(lang: &[u8], name: &[u8], desc: &[u8], file: &[u8]) -> (r: DictData)
        ensures
            r@ == dict_of(lang@, name@, desc@, file@),
    {
        DictData { lang: owned_text(lang), provider: ProviderData::from_native(name, desc, file) }
    }
}

impl Default for DictData {
    /// A dictionary with four empty texts.
    fn default() -> (r: DictData)
        ensures
            r.lang@.len() == 0,
            r.provider.name@.len() == 0,
            r.provider.desc@.len() == 0,
            r.provider.file@.len() == 0,
    {
        DictData {
            lang: String::new(),
            provider: ProviderData {
                name: String::new(),
                desc: String::new(),
                file: String::new(),
            },
        }
    }
}

} // verus!
