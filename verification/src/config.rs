//! In-memory settings: one stored API key per provider, plus the
//! currently selected provider.
//!
//! The settings are loaded from and written back to durable storage by the
//! surrounding binary; this module holds the value itself and every rule
//! about it.  Its mathematical model is a map from provider to stored key
//! (`key_map`) together with an optional selection (`spec_selected`).

use vstd::prelude::*;

use crate::provider::Provider;

verus! {

/// Per-user settings of the tool.
///
/// At most one key is stored per provider.  The selected provider, if any,
/// need not have a stored key: the two states are told apart by
/// [`Config::get_selected_provider_api_key`].
pub struct Config {
    open_weather_key: Option<String>,
    weather_api_key: Option<String>,
    selected_provider: Option<Provider>,
}

impl Config {
    /// The stored keys, as a map from provider to key characters.
    /// A provider is in the domain exactly when a key is stored for it.
    pub closed spec fn key_map(self) -> Map<Provider, Seq<char>> {
        let m = Map::<Provider, Seq<char>>::empty();
        let m = if self.open_weather_key is Some {
            m.insert(Provider::OpenWeather, self.open_weather_key->Some_0@)
        } else {
            m
        };
        if self.weather_api_key is Some {
            m.insert(Provider::WeatherApi, self.weather_api_key->Some_0@)
        } else {
            m
        }
    }

    /// The currently selected provider, if one was chosen.
    pub closed spec fn spec_selected(self) -> Option<Provider> {
        self.selected_provider
    }

    /// What resolving the selection yields: nothing when no provider is
    /// selected; otherwise the provider together with its stored key, if any.
    pub open spec fn spec_selected_key(self) -> Option<(Provider, Option<Seq<char>>)> {
        match self.spec_selected() {
            Option::None => Option::None,
            Option::Some(p) => Option::Some(
                (
                    p,
                    if self.key_map().contains_key(p) {
                        Option::Some(self.key_map()[p])
                    } else {
                        Option::None
                    },
                ),
            ),
        }
    }

    /// Returns the selected provider together with its stored key:
    /// `None` when no provider is selected, `Some((p, None))` when `p` is
    /// selected but has no stored key, and `Some((p, Some(k)))` otherwise.
    pub fn get_selected_provider_api_key(&self) -> (r: Option<(Provider, Option<&String>)>)
        ensures
            r is None <==> self.spec_selected_key() is None,
            r matches Some((p, ko)) ==> self.spec_selected_key() == Some(
                (
                    p,
                    match ko {
                        Option::None => Option::<Seq<char>>::None,
                        Option::Some(k) => Option::Some(k@),
                    },
                ),
            ),
    {
        match self.selected_provider {
            None => None,
            Some(p) => {
                let key = match p {
                    Provider::OpenWeather => self.open_weather_key.as_ref(),
                    Provider::WeatherApi => self.weather_api_key.as_ref(),
                };
                Some((p, key))
            },
        }
    }

    /// Returns the currently selected provider, if any.
    pub fn get_selected_provider(&self) -> (r: Option<Provider>)
        ensures
            r == self.spec_selected(),
    {
        self.selected_provider
    }

    /// Returns the key stored for `provider`, if any.
    pub fn api_key(&self, provider: Provider) -> (r: Option<&String>)
        ensures
            r is Some <==> self.key_map().contains_key(provider),
            r matches Some(k) ==> self.key_map()[provider] == k@,
    {
        match provider {
            Provider::OpenWeather => self.open_weather_key.as_ref(),
            Provider::WeatherApi => self.weather_api_key.as_ref(),
        }
    }

    /// Stores `key` for `provider`, replacing any key stored before.
    /// The selection is untouched.
    pub fn set_api_key(&mut self, provider: Provider, key: String)
        ensures
            final(self).key_map() == old(self).key_map().insert(provider, key@),
            final(self).spec_selected() == old(self).spec_selected(),
    {
        match provider {
            Provider::OpenWeather => {
                self.open_weather_key = Some(key);
            },
            Provider::WeatherApi => {
                self.weather_api_key = Some(key);
            },
        }
        proof {
            assert(self.key_map() =~= old(self).key_map().insert(provider, key@));
        }
    }

    /// Replaces the selection.  The stored keys are untouched.
    pub fn set_selected_provider(&mut self, provider: Option<Provider>)
        ensures
            final(self).spec_selected() == provider,
            final(self).key_map() == old(self).key_map(),
    {
        self.selected_provider = provider;
        proof {
            assert(self.key_map() =~= old(self).key_map());
        }
    }
}

impl Default for Config {
    /// The state before any command ran: no keys stored, nothing selected.
    fn default() -> (r: Self)
        ensures
            r.key_map() == Map::<Provider, Seq<char>>::empty(),
            r.spec_selected() is None,
    {
        let r = Config { open_weather_key: None, weather_api_key: None, selected_provider: None };
        proof {
            assert(r.key_map() =~= Map::<Provider, Seq<char>>::empty());
        }
        r
    }
}

/// Law: storing a key overwrites.  After storing `k1` and then `k2` for the
/// same provider, the stored keys are exactly those after storing `k2`
/// alone; in particular storing the same key twice changes nothing further.
pub proof fn lemma_set_api_key_overwrites(
    m: Map<Provider, Seq<char>>,
    p: Provider,
    k1: Seq<char>,
    k2: Seq<char>,
)
    ensures
        m.insert(p, k1).insert(p, k2) == m.insert(p, k2),
        m.insert(p, k2).insert(p, k2) == m.insert(p, k2),
{
    assert(m.insert(p, k1).insert(p, k2) =~= m.insert(p, k2));
    assert(m.insert(p, k2).insert(p, k2) =~= m.insert(p, k2));
}

/// Law: resolving the selection distinguishes three states.  With no
/// selection it yields nothing; with `p` selected and no key stored for `p`
/// it yields `p` without a key; with `p` selected and a key stored it
/// yields `p` with that key.
pub proof fn lemma_selected_key_three_way(c: Config, p: Provider)
    ensures
        c.spec_selected() is None ==> c.spec_selected_key() is None,
        c.spec_selected() == Some(p) && !c.key_map().contains_key(p)
            ==> c.spec_selected_key() == Some((p, Option::<Seq<char>>::None)),
        c.spec_selected() == Some(p) && c.key_map().contains_key(p)
            ==> c.spec_selected_key() == Some((p, Option::Some(c.key_map()[p]))),
{
}

} // verus!
