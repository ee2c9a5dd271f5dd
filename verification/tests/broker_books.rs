use enchant::{add_dict, add_provider, version, Broker, Call, DictData, Error, ProviderData, WordOp};

fn described(lang: &[u8]) -> DictData {
    let mut data = DictData::default();
    enchant::describe_fn(&mut data, lang, b"aspell", b"Aspell Provider", b"/lib/aspell.so");
    data
}

#[test]
fn null_broker_is_an_engine_failure() {
    match Broker::new(0) {
        Err(Error::Engine(m)) => assert_eq!(m, "unknown engine error"),
        other => panic!("unexpected {:?}", other),
    }
}

#[test]
fn fresh_broker_is_held_and_has_nothing_out() {
    let broker = Broker::new(64).unwrap();
    assert!(broker.is_held());
    assert!(!broker.is_freed());
    assert_eq!(broker.live_dicts(), 0);
    assert_eq!(broker.handle().addr(), 64);
}

#[test]
fn request_dict_marshals_the_tag() {
    let broker = Broker::new(64).unwrap();
    match broker.request_dict("en_US").unwrap() {
        Call::RequestDict { broker, tag } => {
            assert_eq!(broker.addr(), 64);
            assert_eq!(tag.len(), 5);
            assert_eq!(tag.as_bytes_with_nul(), b"en_US\0");
        }
        other => panic!("unexpected {:?}", other),
    }
    assert_eq!(broker.request_dict("en\0US"), Err(Error::InvalidInput));
}

#[test]
fn request_pwl_dict_marshals_the_path() {
    let broker = Broker::new(64).unwrap();
    match broker.request_pwl_dict("/tmp/words.pwl").unwrap() {
        Call::RequestPwlDict { broker, pwl } => {
            assert_eq!(broker.addr(), 64);
            assert_eq!(pwl.as_bytes_with_nul(), b"/tmp/words.pwl\0");
        }
        other => panic!("unexpected {:?}", other),
    }
    assert_eq!(broker.request_pwl_dict("\0"), Err(Error::InvalidInput));
}

#[test]
fn after_request_describes_or_explains() {
    let broker = Broker::new(64).unwrap();
    match broker.after_request(0) {
        Call::BrokerGetError { broker } => assert_eq!(broker.addr(), 64),
        other => panic!("unexpected {:?}", other),
    }
    match broker.after_request(128) {
        Call::DescribeDict { dict } => assert_eq!(dict.addr(), 128),
        other => panic!("unexpected {:?}", other),
    }
}

#[test]
fn missing_dictionary_carries_the_engine_message() {
    let mut broker = Broker::new(64).unwrap();
    let r = broker.request_dict_reply(0, Some(b"no provider for xx_XX"), DictData::default());
    match r {
        Err(Error::NotFound(m)) => assert_eq!(m, "no provider for xx_XX"),
        other => panic!("unexpected {:?}", other.map(|_| ())),
    }
    assert_eq!(broker.live_dicts(), 0);
}

#[test]
fn missing_dictionary_without_message_has_the_fixed_one() {
    let mut broker = Broker::new(64).unwrap();
    let r = broker.request_dict_reply(0, None, DictData::default());
    match r {
        Err(Error::NotFound(m)) => assert_eq!(m, "dictionary not found"),
        other => panic!("unexpected {:?}", other.map(|_| ())),
    }
}

#[test]
fn missing_word_list_without_message_has_an_empty_one() {
    let mut broker = Broker::new(64).unwrap();
    match broker.request_pwl_dict_reply(0, None, DictData::default()) {
        Err(Error::NotFound(m)) => assert_eq!(m, ""),
        other => panic!("unexpected {:?}", other.map(|_| ())),
    }
    match broker.request_pwl_dict_reply(0, Some(b"cannot open file"), DictData::default()) {
        Err(Error::NotFound(m)) => assert_eq!(m, "cannot open file"),
        other => panic!("unexpected {:?}", other.map(|_| ())),
    }
    let dict = broker.request_pwl_dict_reply(8, None, described(b"Personal Wordlist")).unwrap();
    assert_eq!(dict.get_lang(), "Personal Wordlist");
    assert_eq!(broker.live_dicts(), 1);
}

#[test]
fn issued_dictionary_reports_what_the_engine_described() {
    let mut broker = Broker::new(64).unwrap();
    let dict = broker.request_dict_reply(128, None, described(b"en_GB")).unwrap();
    assert_eq!(dict.get_lang(), "en_GB");
    assert_eq!(dict.get_provider_name(), "aspell");
    assert_eq!(dict.get_provider_desc(), "Aspell Provider");
    assert_eq!(dict.get_provider_file(), "/lib/aspell.so");
    assert_eq!(dict.handle().addr(), 128);
    assert_eq!(dict.broker().addr(), 64);
    assert_eq!(broker.live_dicts(), 1);
    match dict.describe() {
        Call::DescribeDict { dict } => assert_eq!(dict.addr(), 128),
        other => panic!("unexpected {:?}", other),
    }
}

#[test]
fn dict_exists_is_true_for_one_only() {
    let broker = Broker::new(64).unwrap();
    match broker.dict_exists("de_AT").unwrap() {
        Call::DictExists { broker, tag } => {
            assert_eq!(broker.addr(), 64);
            assert_eq!(tag.as_bytes_with_nul(), b"de_AT\0");
        }
        other => panic!("unexpected {:?}", other),
    }
    assert_eq!(broker.dict_exists("de\0"), Err(Error::InvalidInput));
    assert!(Broker::dict_exists_reply(1));
    assert!(!Broker::dict_exists_reply(0));
    assert!(!Broker::dict_exists_reply(-1));
    assert!(!Broker::dict_exists_reply(2));
}

#[test]
fn set_ordering_marshals_both_texts() {
    let broker = Broker::new(64).unwrap();
    match broker.set_ordering("*", "aspell,hunspell").unwrap() {
        Call::SetOrdering { broker, tag, ordering } => {
            assert_eq!(broker.addr(), 64);
            assert_eq!(tag.as_bytes_with_nul(), b"*\0");
            assert_eq!(ordering.as_bytes_with_nul(), b"aspell,hunspell\0");
        }
        other => panic!("unexpected {:?}", other),
    }
    assert_eq!(broker.set_ordering("a\0", "b"), Err(Error::InvalidInput));
    assert_eq!(broker.set_ordering("a", "\0b"), Err(Error::InvalidInput));
}

#[test]
fn enumeration_calls_name_the_broker() {
    let broker = Broker::new(64).unwrap();
    match broker.list_providers() {
        Call::DescribeBroker { broker } => assert_eq!(broker.addr(), 64),
        other => panic!("unexpected {:?}", other),
    }
    match broker.list_dicts() {
        Call::ListDicts { broker } => assert_eq!(broker.addr(), 64),
        other => panic!("unexpected {:?}", other),
    }
}

fn enumerate_providers() -> Vec<ProviderData> {
    let mut providers = Vec::new();
    add_provider(&mut providers, b"hunspell", b"Hunspell Provider", b"/lib/hunspell.so");
    add_provider(&mut providers, b"aspell", b"Aspell Provider", b"/lib/aspell.so");
    providers
}

#[test]
fn providers_come_in_the_order_of_the_callbacks() {
    let providers = enumerate_providers();
    assert_eq!(providers.len(), 2);
    assert_eq!(providers[0].name, "hunspell");
    assert_eq!(providers[0].desc, "Hunspell Provider");
    assert_eq!(providers[0].file, "/lib/hunspell.so");
    assert_eq!(providers[1].name, "aspell");
    assert_eq!(
        providers[1],
        ProviderData::from_native(b"aspell", b"Aspell Provider", b"/lib/aspell.so")
    );
}

#[test]
fn two_passes_over_the_same_callbacks_agree() {
    let first = enumerate_providers();
    let second = enumerate_providers();
    assert_eq!(first.len(), second.len());
    assert_eq!(first, second);
    let mut a = Vec::new();
    let mut b = Vec::new();
    add_dict(&mut a, b"en_US", b"hunspell", b"Hunspell Provider", b"/lib/hunspell.so");
    add_dict(&mut b, b"en_US", b"hunspell", b"Hunspell Provider", b"/lib/hunspell.so");
    assert_eq!(a.len(), b.len());
    assert_eq!(a, b);
}

#[test]
fn dictionaries_come_in_the_order_of_the_callbacks() {
    let mut dicts = Vec::new();
    add_dict(&mut dicts, b"en_US", b"hunspell", b"Hunspell Provider", b"/lib/hunspell.so");
    add_dict(&mut dicts, b"fr_FR", b"aspell", b"Aspell Provider", b"/lib/aspell.so");
    assert_eq!(dicts.len(), 2);
    assert_eq!(dicts[0].lang, "en_US");
    assert_eq!(dicts[0].provider.name, "hunspell");
    assert_eq!(dicts[1].lang, "fr_FR");
    assert_eq!(dicts[1].provider.file, "/lib/aspell.so");
    assert_eq!(
        dicts[1],
        DictData::from_native(b"fr_FR", b"aspell", b"Aspell Provider", b"/lib/aspell.so")
    );
}

#[test]
fn enumeration_replaces_what_is_not_utf8() {
    let mut providers = Vec::new();
    add_provider(&mut providers, b"hun\xffspell", b"", b"/lib/\xc3");
    assert_eq!(providers[0].name, "hun\u{FFFD}spell");
    assert_eq!(providers[0].desc, "");
    assert_eq!(providers[0].file, "/lib/\u{FFFD}");
}

#[test]
fn default_descriptions_are_empty() {
    let p = ProviderData::default();
    assert_eq!(p.name, "");
    assert_eq!(p.desc, "");
    assert_eq!(p.file, "");
    let d = DictData::default();
    assert_eq!(d.lang, "");
    assert_eq!(d.provider, p);
}

#[test]
fn version_is_the_reported_text() {
    assert_eq!(version(b"2.2.15"), "2.2.15");
    assert_eq!(version(b"2.\xfe"), "2.\u{FFFD}");
}

#[test]
fn releasing_a_dictionary_spares_a_held_broker() {
    let mut broker = Broker::new(64).unwrap();
    let dict = broker.request_dict_reply(128, None, described(b"en_US")).unwrap();
    let calls = broker.release_dict(dict).unwrap();
    assert_eq!(calls.len(), 1);
    assert!(matches!(calls[0], Call::FreeDict { .. }));
    assert!(broker.is_held());
    assert!(!broker.is_freed());
    assert_eq!(broker.live_dicts(), 0);
    let calls = broker.release();
    assert_eq!(calls.len(), 1);
    match &calls[0] {
        Call::FreeBroker { broker } => assert_eq!(broker.addr(), 64),
        other => panic!("unexpected {:?}", other),
    }
    assert!(broker.is_freed());
}

#[test]
fn broker_is_released_by_the_last_dictionary() {
    let mut broker = Broker::new(64).unwrap();
    let first = broker.request_dict_reply(128, None, described(b"en_US")).unwrap();
    let second = broker.request_dict_reply(256, None, described(b"fr_FR")).unwrap();
    assert!(broker.release().is_empty());
    assert!(!broker.is_freed());
    let calls = broker.release_dict(first).unwrap();
    assert_eq!(calls.len(), 1);
    assert!(!broker.is_freed());
    let calls = broker.release_dict(second).unwrap();
    assert_eq!(calls.len(), 2);
    assert!(matches!(calls[0], Call::FreeDict { .. }));
    assert!(matches!(calls[1], Call::FreeBroker { .. }));
    assert!(broker.is_freed());
}

#[test]
fn broker_is_released_once() {
    let mut broker = Broker::new(64).unwrap();
    assert_eq!(broker.release().len(), 1);
    assert!(broker.is_freed());
    assert!(broker.release().is_empty());
    assert!(broker.is_freed());
}

#[test]
fn one_address_issued_twice_is_counted_twice() {
    let mut broker = Broker::new(64).unwrap();
    let first = broker.request_dict_reply(128, None, described(b"en_US")).unwrap();
    let second = broker.request_dict_reply(128, None, described(b"en_US")).unwrap();
    assert_eq!(broker.live_dicts(), 2);
    assert_eq!(broker.release_dict(first).unwrap().len(), 1);
    assert_eq!(broker.live_dicts(), 1);
    assert_eq!(broker.release_dict(second).unwrap().len(), 1);
    assert_eq!(broker.live_dicts(), 0);
}

#[test]
fn a_dictionary_of_another_broker_is_left_alone() {
    let mut ours = Broker::new(64).unwrap();
    let mut theirs = Broker::new(72).unwrap();
    let mine = ours.request_dict_reply(128, None, described(b"en_US")).unwrap();
    let other = theirs.request_dict_reply(128, None, described(b"en_US")).unwrap();
    let other = ours.release_dict(other).unwrap_err();
    assert_eq!(other.broker().addr(), 72);
    assert_eq!(ours.live_dicts(), 1);
    assert_eq!(theirs.live_dicts(), 1);
    assert_eq!(ours.release_dict(mine).unwrap().len(), 1);
    assert_eq!(ours.live_dicts(), 0);
    assert_eq!(theirs.release_dict(other).unwrap().len(), 1);
    assert_eq!(theirs.live_dicts(), 0);
}

#[test]
fn word_operations_are_told_apart() {
    assert_ne!(WordOp::Add, WordOp::AddToSession);
    assert_ne!(WordOp::Remove, WordOp::RemoveFromSession);
    assert_ne!(WordOp::IsAdded, WordOp::IsRemoved);
    assert_ne!(WordOp::Check, WordOp::Suggest);
}

#[test]
fn a_dictionary_is_out_until_it_comes_back() {
    let mut ours = Broker::new(64).unwrap();
    let mut theirs = Broker::new(72).unwrap();
    let mine = ours.request_dict_reply(128, None, described(b"en_US")).unwrap();
    let other = theirs.request_dict_reply(128, None, described(b"en_US")).unwrap();
    assert!(ours.has_out(&mine));
    assert!(!ours.has_out(&other));
    assert!(theirs.has_out(&other));
    assert!(ours.release().is_empty());
    assert!(ours.has_out(&mine));
    assert!(!ours.is_freed());
    assert_eq!(ours.release_dict(mine).unwrap().len(), 2);
    assert!(ours.is_freed());
    assert!(!ours.has_out(&other));
}

#[test]
fn a_failed_request_leaves_the_books_alone() {
    let mut broker = Broker::new(64).unwrap();
    let first = broker.request_dict_reply(128, None, described(b"en_US")).unwrap();
    assert!(broker.request_dict_reply(0, None, DictData::default()).is_err());
    assert!(broker.request_pwl_dict_reply(0, None, DictData::default()).is_err());
    assert_eq!(broker.live_dicts(), 1);
    assert!(broker.has_out(&first));
    assert!(broker.is_held());
}
