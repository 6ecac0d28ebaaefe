//! The configuration of the completion providers.

use crate::error::{ChatError, ChatErrorView};
use crate::text::name_of;
use vstd::prelude::*;

verus! {

/// A sampling temperature, held as the bit pattern of the single-precision
/// number that the configuration gives. The library hands it on and never
/// computes with it.
#[derive(Clone, Copy, Debug, PartialEq, Eq, Structural)]
pub struct Temperature {
    pub bits: u32,
}

/// How to reach one provider.
#[derive(Clone, Debug, PartialEq, Eq)]
pub struct ClientConfig {
    pub api_key: String,
    pub api_url: String,
    pub model: String,
    pub max_tokens: u32,
    pub temperature: Temperature,
}

/// [`ClientConfig`] as a mathematical value.
pub struct ClientConfigView {
    pub api_key: Seq<char>,
    pub api_url: Seq<char>,
    pub model: Seq<char>,
    pub max_tokens: u32,
    pub temperature: Temperature,
}

impl View for ClientConfig {
    type V = ClientConfigView;

    open spec fn view(&self) -> ClientConfigView {
        ClientConfigView {
            api_key: self.api_key@,
            api_url: self.api_url@,
            model: self.model@,
            max_tokens: self.max_tokens,
            temperature: self.temperature,
        }
    }
}

/// The providers by name, and the name of the one to use where none is asked
/// for.
#[derive(Clone, Debug, PartialEq, Eq)]
pub struct ClientsConfig {
    pub default: String,
    pub providers: Vec<(String, ClientConfig)>,
}

/// The configuration as far as the exchange with a provider needs it.
#[derive(Clone, Debug, PartialEq, Eq)]
pub struct Config {
    pub clients: ClientsConfig,
}

/// [`Config`] as a mathematical value.
pub struct ConfigView {
    pub default: Seq<char>,
    pub providers: Seq<(Seq<char>, ClientConfigView)>,
}

impl View for Config {
    type V = ConfigView;

    open spec fn view(&self) -> ConfigView {
        ConfigView {
            default: self.clients.default@,
            providers: self.clients.providers@.map_values(
                |p: (String, ClientConfig)| (p.0@, p.1@),
            ),
        }
    }
}

/// The first provider named `name`, if there is one.
pub open spec fn provider_named(
    providers: Seq<(Seq<char>, ClientConfigView)>,
    name: Seq<char>,
) -> Option<ClientConfigView>
    decreases providers.len(),
{
    if providers.len() == 0 {
        None
    } else if providers[0].0 == name {
        Some(providers[0].1)
    } else {
        provider_named(providers.drop_first(), name)
    }
}

impl ConfigView {
    /// The name of the provider that is meant: the one asked for, else the
    /// default.
    pub open spec fn wanted(self, asked: Option<Seq<char>>) -> Seq<char> {
        match asked {
            Some(name) => name,
            None => self.default,
        }
    }

    /// The provider that is meant, or the failure to find it.
    pub open spec fn client(self, asked: Option<Seq<char>>) -> Result<
        ClientConfigView,
        ChatErrorView,
    > {
        match provider_named(self.providers, self.wanted(asked)) {
            Some(c) => Ok(c),
            None => Err(ChatErrorView::ConfigError { provider: self.wanted(asked) }),
        }
    }
}

/// The token limit of a provider whose configuration gives none.
pub fn default_max_tokens() -> (n: u32)
    ensures
        n == 1000,
{
    1000
}

/// The temperature of a provider whose configuration gives none: seven
/// tenths, as a single-precision number.
pub fn default_temperature() -> (t: Temperature)
    ensures
        t.bits == 0x3f33_3333,
{
    Temperature { bits: 0x3f33_3333 }
}

impl Config {
    /// The configuration of the provider named `client_name`, or of the
    /// default provider where no name is given.
    pub fn get_client_config(&self, client_name: Option<&str>) -> (r: Result<
        &ClientConfig,
        ChatError,
    >)
        ensures
            match self@.client(name_of(client_name)) {
                Ok(c) => r matches Ok(found) && found@ == c,
                Err(e) => r matches Err(failure) && failure@ == e,
            },
    {
        let wanted = match client_name {
            Some(name) => name.to_owned(),
            None => self.clients.default.clone(),
        };
        let ghost all = self@.providers;
        assert(all.skip(0) =~= all);
        let mut i: usize = 0;
        while i < self.clients.providers.len()
            invariant
                i <= self.clients.providers.len(),
                wanted@ == self@.wanted(name_of(client_name)),
                all == self@.providers,
                provider_named(all, wanted@) == provider_named(all.skip(i as int), wanted@),
            decreases self.clients.providers.len() - i,
        {
            proof {
                assert(all.skip(i as int).drop_first() =~= all.skip(i as int + 1));
            }
            if self.clients.providers[i].0 == wanted {
                return Ok(&self.clients.providers[i].1);
            }
            i += 1;
        }
        Err(ChatError::ConfigError { provider: wanted })
    }
}

/// The text of the configuration that a first run writes.
pub open spec fn default_config_text() -> Seq<char> {
    "[clients]\n\
     default = \"openai\"\n\
     \n\
     [clients.openai]\n\
     api_key = \"your-api-key-here\"\n\
     api_url = \"https://api.openai.com/v1\"\n\
     model = \"your-model-here\"\n\
     max_tokens = 1000\n\
     temperature = 0.7\n\
     \n\
     [tools]\n\
     \n\
     [commands]\n"@
}

/// What to do about the configuration file.
#[derive(Clone, Debug, PartialEq, Eq)]
pub enum ConfigInit {
    /// A file is there and is to stay: nothing is written.
    Kept,
    /// `text` is to be written; `overwritten` says that a file was there.
    Written { text: String, overwritten: bool },
}

/// Decides what a first run does about the configuration file: where none
/// `exists`, or `force` is given, the default configuration is to be written,
/// else the file is kept.
pub fn create_default_config(exists: bool, force: bool) -> (r: ConfigInit)
    ensures
        exists && !force ==> r is Kept,
        !(exists && !force) ==> (r matches ConfigInit::Written { text, overwritten } && text@
            == default_config_text() && overwritten == exists),
{
    if exists && !force {
        ConfigInit::Kept
    } else {
        ConfigInit::Written {
            text: "[clients]\n\
                   default = \"openai\"\n\
                   \n\
                   [clients.openai]\n\
                   api_key = \"your-api-key-here\"\n\
                   api_url = \"https://api.openai.com/v1\"\n\
                   model = \"your-model-here\"\n\
                   max_tokens = 1000\n\
                   temperature = 0.7\n\
                   \n\
                   [tools]\n\
                   \n\
                   [commands]\n".to_owned(),
            overwritten: exists,
        }
    }
}

} // verus!
