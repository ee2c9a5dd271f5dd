//! Verified core of a binding to a native spell-checking engine.
//!
//! The engine itself lives behind a C interface. This library holds everything
//! that a binding decides: which engine call an operation turns into, how text
//! is marshalled across the boundary, how the engine's answers are read, and in
//! which order the native resources are released. The caller performs the
//! calls; the library says which ones, and what their answers mean.
//!
//! An operation runs in turns. Its first function takes the arguments and
//! returns a [`Call`], or refuses them. The caller makes that call. Where
//! another call must follow, an `after_` function names it from the answer;
//! a `_reply` function then reads the answers and gives the result. Resources
//! go the same way: [`Broker::release`] and [`Broker::release_dict`] return the
//! calls that release what nobody needs any more, in the order to make them.
//!
//! Text goes out as [`Text`], UTF-8 bytes with their length and a terminator,
//! and comes in through [`owned_text`], which replaces what is not UTF-8.
pub mod broker;
pub mod call;
pub mod dict;
pub mod error;
pub mod handle;
pub mod info;
pub mod lifetime;
pub mod text;

pub use broker::{add_dict, add_provider, version, Broker, BrokerState};
pub use call::{Call, CallView, WordOp};
pub use dict::{describe_fn, Dict, DictView};
pub use error::{Error, ErrorView};
pub use handle::{EnchantBroker, EnchantDict};
pub use info::{DictData, DictDataView, ProviderData, ProviderDataView};
pub use text::{owned_text, Text};
