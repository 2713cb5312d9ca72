//! What one run is configured with.

use crate::error::Error;
use crate::input::{has_alphanumeric, resolution, resolve, Texts, TextsView};
use crate::model::ModelKind;
use crate::persona::BroKind;
use vstd::prelude::*;

verus! {

/// The temperature a run has unless told otherwise: 1.0, as the bits of an
/// IEEE 754 single.
pub const DEFAULT_TEMPERATURE: u32 = 0x3f80_0000;

/// The seed a run has unless told otherwise.
pub const DEFAULT_SEED: i32 = 0;

/// The command line of a run, already parsed.
#[derive(Debug)]
pub struct Args {
    /// Selected persona
    pub bro: BroKind,
    /// Selected model
    pub model: ModelKind,
    /// Model temperature, as the bits of an IEEE 754 single. It is carried to
    /// the request as it is and never computed with.
    pub temperature: u32,
    /// Random seed value
    pub seed: i32,
    /// Authentication key; where given it goes before the environment's
    pub auth: Option<String>,
    /// The words of the prompt
    pub prompt: Vec<String>,
}

impl Default for Args {
    /// The command line with nothing on it.
    fn default() -> (args: Args)
        ensures
            args.bro == BroKind::Coder,
            args.model == ModelKind::Gpt4,
            args.temperature == DEFAULT_TEMPERATURE,
            args.seed == DEFAULT_SEED,
            args.auth is None,
            args.prompt@.len() == 0,
    {
        Args {
            bro: BroKind::Coder,
            model: ModelKind::Gpt4,
            temperature: DEFAULT_TEMPERATURE,
            seed: DEFAULT_SEED,
            auth: None,
            prompt: Vec::new(),
        }
    }
}

/// Everything a request is built from. The credential is in it, so it has
/// no `Debug`.
#[derive(PartialEq, Eq)]
pub struct Config {
    /// Text piped in, sent ahead of the prompt
    pub context: Option<String>,
    /// The instruction itself
    pub prompt: Option<String>,
    /// The credential
    pub auth: String,
    /// The persona's system prompt
    pub persona: String,
    /// The model's identifier
    pub model: String,
    /// Model temperature, as the bits of an IEEE 754 single
    pub temperature: u32,
    /// Random seed value
    pub seed: i32,
}

/// [`Config`] as plain mathematical values.
pub ghost struct ConfigView {
    pub context: Option<Seq<char>>,
    pub prompt: Option<Seq<char>>,
    pub auth: Seq<char>,
    pub persona: Seq<char>,
    pub model: Seq<char>,
    pub temperature: u32,
    pub seed: i32,
}

impl View for Config {
    type V = ConfigView;

    open spec fn view(&self) -> ConfigView {
        ConfigView {
            context: self.context.deep_view(),
            prompt: self.prompt.deep_view(),
            auth: self.auth@,
            persona: self.persona@,
            model: self.model@,
            temperature: self.temperature,
            seed: self.seed,
        }
    }
}

impl ConfigView {
    /// A configuration is well formed when it has something to send, every
    /// text in it holds an alphanumeric character, and its credential is not
    /// empty.
    pub open spec fn wf(self) -> bool {
        &&& self.context is Some || self.prompt is Some
        &&& self.context matches Some(text) ==> has_alphanumeric(text)
        &&& self.prompt matches Some(text) ==> has_alphanumeric(text)
        &&& self.auth.len() > 0
    }
}

/// A credential counts when it is there and not empty.
pub open spec fn present(credential: Option<Seq<char>>) -> bool {
    credential matches Some(key) && key.len() > 0
}

/// The credential a run uses: the flag's if present, else the environment's
/// if present.
pub open spec fn chosen(flag: Option<Seq<char>>, environment: Option<Seq<char>>) -> Option<
    Seq<char>,
> {
    if present(flag) {
        flag
    } else if present(environment) {
        environment
    } else {
        None
    }
}

/// The configuration that texts, a credential and the selections make.
pub open spec fn assembled(
    texts: TextsView,
    key: Seq<char>,
    bro: BroKind,
    model: ModelKind,
    temperature: u32,
    seed: i32,
) -> ConfigView {
    ConfigView {
        context: texts.context,
        prompt: texts.prompt,
        auth: key,
        persona: bro.text(),
        model: model.text(),
        temperature,
        seed,
    }
}

/// What [`Config::new`] comes to. Missing input is reported before a missing
/// credential.
pub open spec fn configured(
    args: Args,
    piped: Option<Seq<char>>,
    fallback: Option<Seq<char>>,
    key: Option<Seq<char>>,
) -> Result<ConfigView, Error> {
    match resolution(piped, args.prompt.deep_view(), fallback) {
        Err(e) => Err(e),
        Ok(texts) => match chosen(args.auth.deep_view(), key) {
            None => Err(Error::AuthenticationKey),
            Some(auth) => Ok(
                assembled(texts, auth, args.bro, args.model, args.temperature, args.seed),
            ),
        },
    }
}

/// Picks the credential: the flag's goes before the environment's, and an
/// empty one counts as not given.
pub fn credential(flag: Option<String>, environment: Option<String>) -> (key: Result<
    String,
    Error,
>)
    ensures
        match key {
            Ok(auth) => chosen(flag.deep_view(), environment.deep_view()) == Some(auth@),
            Err(e) => e == Error::AuthenticationKey && chosen(
                flag.deep_view(),
                environment.deep_view(),
            ) is None,
        },
{
    if let Some(auth) = flag {
        if !auth.as_str().is_empty() {
            return Ok(auth);
        }
    }
    if let Some(auth) = environment {
        if !auth.as_str().is_empty() {
            return Ok(auth);
        }
    }
    Err(Error::AuthenticationKey)
}

impl Config {
    /// Merges resolved texts, the credential and the selections. Nothing is
    /// checked here but that a credential is there.
    pub fn assemble(
        texts: Texts,
        flag: Option<String>,
        environment: Option<String>,
        bro: BroKind,
        model: ModelKind,
        temperature: u32,
        seed: i32,
    ) -> (config: Result<Config, Error>)
        ensures
            match config {
                Ok(c) => chosen(flag.deep_view(), environment.deep_view()) matches Some(auth)
                    && c@ == assembled(texts@, auth, bro, model, temperature, seed),
                Err(e) => e == Error::AuthenticationKey && chosen(
                    flag.deep_view(),
                    environment.deep_view(),
                ) is None,
            },
    {
        let auth = match credential(flag, environment) {
            Ok(auth) => auth,
            Err(e) => {
                return Err(e);
            },
        };
        Ok(
            Config {
                context: texts.context,
                prompt: texts.prompt,
                auth,
                persona: bro.to_string(),
                model: model.to_string(),
                temperature,
                seed,
            },
        )
    }

    /// Puts a run's configuration together. `piped` is what came in on
    /// standard input, if it was piped; `fallback` is the prompt to use when
    /// the command line has none; `key` is the environment's credential.
    pub fn new(
        args: Args,
        piped: Option<String>,
        fallback: Option<String>,
        key: Option<String>,
    ) -> (config: Result<Config, Error>)
        ensures
            match config {
                Ok(c) => c@.wf() && configured(
                    args,
                    piped.deep_view(),
                    fallback.deep_view(),
                    key.deep_view(),
                ) == Ok::<ConfigView, Error>(c@),
                Err(e) => configured(
                    args,
                    piped.deep_view(),
                    fallback.deep_view(),
                    key.deep_view(),
                ) == Err::<ConfigView, Error>(e),
            },
    {
        let texts = match resolve(piped, &args.prompt, fallback) {
            Ok(texts) => texts,
            Err(e) => {
                return Err(e);
            },
        };
        Config::assemble(texts, args.auth, key, args.bro, args.model, args.temperature, args.seed)
    }
}

/// A credential given by flag is the one used, whatever the environment
/// holds.
pub proof fn flag_goes_first(flag: Seq<char>, environment: Option<Seq<char>>)
    requires
        flag.len() > 0,
    ensures
        chosen(Some(flag), environment) == Some(flag),
        chosen(None, environment) == (if present(environment) {
            environment
        } else {
            None
        }),
{
}

/// A run that is configured holds the flag's credential wherever the flag
/// gave one.
pub proof fn configured_with_the_flag(
    args: Args,
    piped: Option<Seq<char>>,
    fallback: Option<Seq<char>>,
    key: Option<Seq<char>>,
)
    requires
        present(args.auth.deep_view()),
    ensures
        configured(args, piped, fallback, key) matches Ok(config) ==> Some(config.auth)
            == args.auth.deep_view(),
        configured(args, piped, fallback, key) matches Err(e) ==> e == Error::Input,
{
}

/// With nothing piped in, no words and no fallback there is no
/// configuration, for want of input, whatever else was given.
pub proof fn nothing_given_is_not_configured(args: Args, key: Option<Seq<char>>)
    requires
        args.prompt@.len() == 0,
    ensures
        configured(args, None, None, key) == Err::<ConfigView, Error>(Error::Input),
{
    assert(args.prompt.deep_view().len() == 0);
}

/// Every configuration is well formed, and the only errors are missing input
/// and a missing credential, in this order.
pub proof fn configured_is_well_formed(
    args: Args,
    piped: Option<Seq<char>>,
    fallback: Option<Seq<char>>,
    key: Option<Seq<char>>,
)
    ensures
        match configured(args, piped, fallback, key) {
            Ok(config) => config.wf(),
            Err(e) => if resolution(piped, args.prompt.deep_view(), fallback) is Err {
                e == Error::Input
            } else {
                e == Error::AuthenticationKey && !present(args.auth.deep_view()) && !present(key)
            },
        },
{
}

} // verus!
