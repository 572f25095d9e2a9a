//! Command dispatch: what each invocation does to the settings and what
//! the surrounding binary must print, persist or fetch.
//!
//! Each invocation is one command.  The binary parses the arguments, reads
//! the API key from standard input for `configure`, and supplies the
//! current time for `get` without a date; everything decided after that is
//! here.

use vstd::prelude::*;

use crate::config::Config;
use crate::provider::Provider;
use crate::session::WeatherSession;

verus! {

/// One parsed command-line invocation.
pub enum Command {
    /// `configure <provider>`: store the API key (already read from
    /// standard input and stripped of its trailing newline).
    Configure { provider: Provider, api_key: String },
    /// `get <address> [date]`: show weather for the address, at the given
    /// Unix timestamp or now.
    Get { address: String, date: Option<i64> },
    /// `set <provider>`: select the default provider.
    Select { provider: Provider },
    /// `provider`: show the selected provider.
    ShowProvider,
}

/// What an invocation comes to, for the surrounding binary to carry out.
pub enum CommandPlan {
    /// Print this message; the settings are unchanged.
    Reply { message: String },
    /// Persist the settings, then print this message.
    StoreAndReply { message: String },
    /// Run the weather exchange, starting with a GET of `url`.
    FetchWeather { session: WeatherSession, url: String },
}

/// The timestamp a `get` asks about: the date argument if one was given,
/// otherwise the current time.
pub open spec fn effective_date(date: Option<i64>, now: int) -> int {
    match date {
        Option::Some(d) => d as int,
        Option::None => now,
    }
}

/// Removes the trailing newline a line read from standard input carries,
/// if there is one.
pub fn strip_trailing_newline(s: &str) -> (r: String)
    ensures
        s@.len() > 0 && s@.last() == '\n' ==> r@ == s@.drop_last(),
        !(s@.len() > 0 && s@.last() == '\n') ==> r@ == s@,
{
    let n = s.unicode_len();
    if n > 0 && s.get_char(n - 1) == '\n' {
        let head = s.substring_char(0, n - 1);
        String::from_str(head)
    } else {
        String::from_str(s)
    }
}

/// Decides what `cmd` does: how the settings change and what the binary
/// must print, persist or fetch afterwards.
///
/// `configure` stores the key and asks for the settings to be persisted;
/// `set` replaces the selection and does the same; `provider` reports the
/// selection; `get` resolves the selection three ways — no provider
/// selected, provider without a key, provider with a key — and only in the
/// last case starts a weather exchange.
pub fn plan_command(cmd: Command, config: &mut Config, now_utc: i64) -> (r: CommandPlan)
    ensures
        cmd matches Command::Configure { provider, api_key } ==> {
            &&& final(config).key_map() == old(config).key_map().insert(provider, api_key@)
            &&& final(config).spec_selected() == old(config).spec_selected()
            &&& r matches CommandPlan::StoreAndReply { message } && message@
                == "Credentials have been configured successfully"@
        },
        cmd matches Command::Select { provider } ==> {
            &&& final(config).spec_selected() == Some(provider)
            &&& final(config).key_map() == old(config).key_map()
            &&& r matches CommandPlan::StoreAndReply { message } && message@
                == "Provider has been selected successfully"@
        },
        cmd is ShowProvider ==> {
            &&& *final(config) == *old(config)
            &&& r matches CommandPlan::Reply { message } && message@ == (
            match old(config).spec_selected() {
                Option::Some(p) => p.spec_name(),
                Option::None => "No selected provider. Select a provider using the `set` command"@,
            })
        },
        cmd matches Command::Get { address, date } ==> {
            &&& *final(config) == *old(config)
            &&& old(config).spec_selected_key() is None ==> (r matches CommandPlan::Reply {
                message,
            } && message@
                == "No selected provider. Please select a provider using the `set` command"@)
            &&& (old(config).spec_selected_key() matches Some((p, ko)) ==> {
                &&& (ko is None ==> (r matches CommandPlan::Reply { message } && message@
                    == "Credentials for the provider "@ + p.spec_name()
                    + " are not configured. Configure credentials using the 'configure' command"@))
                &&& (ko matches Some(k) ==> (r matches CommandPlan::FetchWeather { session, url }
                    && {
                    &&& session.spec_provider() == p
                    &&& session.spec_api_key() == k
                    &&& session.spec_address() == address@
                    &&& session.spec_date() == effective_date(date, now_utc as int)
                    &&& session.spec_stage() == WeatherSession::spec_start_stage(p)
                    &&& url@ == WeatherSession::spec_first_url(
                        p,
                        k,
                        address@,
                        effective_date(date, now_utc as int),
                    )
                }))
            })
        },
{
    match cmd {
        Command::Configure { provider, api_key } => {
            config.set_api_key(provider, api_key);
            CommandPlan::StoreAndReply {
                message: String::from_str("Credentials have been configured successfully"),
            }
        },
        Command::Select { provider } => {
            config.set_selected_provider(Some(provider));
            CommandPlan::StoreAndReply {
                message: String::from_str("Provider has been selected successfully"),
            }
        },
        Command::ShowProvider => {
            match config.get_selected_provider() {
                Some(p) => CommandPlan::Reply { message: p.name() },
                None => CommandPlan::Reply {
                    message: String::from_str(
                        "No selected provider. Select a provider using the `set` command",
                    ),
                },
            }
        },
        Command::Get { address, date } => {
            match config.get_selected_provider_api_key() {
                None => CommandPlan::Reply {
                    message: String::from_str(
                        "No selected provider. Please select a provider using the `set` command",
                    ),
                },
                Some((p, None)) => {
                    let mut message = String::from_str("Credentials for the provider ");
                    let name = p.name();
                    message.append(name.as_str());
                    message.append(
                        " are not configured. Configure credentials using the 'configure' command",
                    );
                    CommandPlan::Reply { message }
                },
                Some((p, Some(key))) => {
                    let date_val: i64 = match date {
                        Some(d) => d,
                        None => now_utc,
                    };
                    let key_owned = key.clone();
                    let (session, url) = WeatherSession::start(p, key_owned, address, date_val);
                    CommandPlan::FetchWeather { session, url }
                },
            }
        },
    }
}

} // verus!
