//! Credentials, signers and the configuration that a REST client is built from.
use vstd::prelude::*;
use vstd::string::StringExecFns;
use vstd::string::StrSliceExecFns;

verus! {

/// An API key and the secret that request signatures are derived from.
pub struct ApiCred {
    pub key: String,
    pub secret: String,
}

/// An API key paired with signing logic supplied by the caller.
pub struct KeyClosure<F> {
    pub api_key: String,
    pub closure: F,
}

impl<F> KeyClosure<F> {
    pub fn new(api_key: String, closure: F) -> (r: KeyClosure<F>)
        ensures
            r.api_key == api_key,
            r.closure == closure,
    {
        KeyClosure { api_key, closure }
    }
}

/// Marks a signer that carries no caller-supplied signing logic.
pub struct NoClosure;

/// The one signer attached to a configuration.
pub enum Signer<F = NoClosure> {
    /// A placeholder for unauthenticated use.
    Unsigned,
    /// Signatures come from a stored secret.
    Cred(ApiCred),
    /// Signatures come from the caller's logic.
    Closure(KeyClosure<F>),
}

impl<F> Signer<F> {
    /// The API key that requests are sent with, if any.
    pub open spec fn spec_api_key(&self) -> Option<Seq<char>> {
        match self {
            Signer::Unsigned => None,
            Signer::Cred(c) => Some(c.key@),
            Signer::Closure(k) => Some(k.api_key@),
        }
    }

    pub fn api_key(&self) -> (r: Option<&str>)
        ensures
            match r {
                Some(k) => self.spec_api_key() == Some(k@),
                None => self.spec_api_key() is None,
            },
    {
        match self {
            Signer::Unsigned => None,
            Signer::Cred(c) => Some(c.key.as_str()),
            Signer::Closure(k) => Some(k.api_key.as_str()),
        }
    }
}

impl From<ApiCred> for Signer {
    fn from(cred: ApiCred) -> (r: Signer) {
        Signer::Cred(cred)
    }
}

impl vstd::std_specs::convert::FromSpecImpl<ApiCred> for Signer {
    open spec fn obeys_from_spec() -> bool {
        true
    }

    open spec fn from_spec(cred: ApiCred) -> Signer {
        Signer::Cred(cred)
    }
}

/// Where requests go and how they are signed.
pub struct Config<F = NoClosure> {
    pub api_base: String,
    pub merchant_id: u64,
    pub signer: Signer<F>,
}

/// The endpoint that a default configuration points at.
pub open spec fn default_api_base() -> Seq<char> {
    seq!['h', 't', 't', 'p', 's', ':', '/', '/', 'b', 'p', 'a', 'y', '.', 'b', 'i', 'n', 'a', 'n', 'c', 'e', 'a', 'p', 'i', '.', 'c', 'o', 'm']
}

impl<F> Config<F> {
    /// A configuration for `signer` with every other field at its default.
    pub fn with_signer(signer: Signer<F>) -> (r: Config<F>)
        ensures
            r.api_base@ == default_api_base(),
            r.merchant_id == 0,
            r.signer == signer,
    {
        proof {
            reveal_strlit("https://bpay.binanceapi.com");
        }
        let api_base = String::from_str("https://bpay.binanceapi.com");
        assert(api_base@ =~= default_api_base());
        Config { api_base, merchant_id: 0, signer }
    }
}

impl Default for Config {
    fn default() -> (r: Config)
        ensures
            r.api_base@ == default_api_base(),
            r.merchant_id == 0,
            r.signer is Unsigned,
    {
        Config::with_signer(Signer::Unsigned)
    }
}

/// Why credentials taken from the environment could not make a configuration.
#[derive(Clone, Copy, Debug, PartialEq, Eq)]
pub enum ConfigError {
    MissingApiKey,
    MissingApiSecret,
    MissingMerchantId,
    MalformedMerchantId,
}

/// The value of a decimal digit.
pub open spec fn digit_value(c: char) -> nat {
    (c as nat - '0' as nat) as nat
}

pub open spec fn is_digit(c: char) -> bool {
    '0' <= c && c <= '9'
}

/// A non-empty run of decimal digits.
pub open spec fn is_decimal(s: Seq<char>) -> bool {
    s.len() > 0 && forall|i: int| 0 <= i < s.len() ==> is_digit(#[trigger] s[i])
}

/// The number that a run of decimal digits writes, most significant digit first.
pub open spec fn decimal_value(s: Seq<char>) -> nat
    decreases s.len(),
{
    if s.len() == 0 {
        0
    } else {
        decimal_value(s.drop_last()) * 10 + digit_value(s.last())
    }
}

/// The merchant id that a text names: a decimal number that fits in 64 bits.
pub open spec fn merchant_id_of(s: Seq<char>) -> Option<u64> {
    if is_decimal(s) && decimal_value(s) <= u64::MAX {
        Some(decimal_value(s) as u64)
    } else {
        None
    }
}

proof fn lemma_decimal_prefix_grows(s: Seq<char>, i: int, j: int)
    requires
        0 <= i <= j <= s.len(),
        forall|k: int| 0 <= k < s.len() ==> is_digit(#[trigger] s[k]),
    ensures
        decimal_value(s.subrange(0, i)) <= decimal_value(s.subrange(0, j)),
    decreases j - i,
{
    if i < j {
        lemma_decimal_prefix_grows(s, i, j - 1);
        assert(s.subrange(0, j).drop_last() =~= s.subrange(0, j - 1));
    }
}

/// Reads a merchant id written as decimal digits.
pub fn parse_merchant_id(s: &str) -> (r: Option<u64>)
    ensures
        r == merchant_id_of(s@),
{
    let n = s.unicode_len();
    if n == 0 {
        return None;
    }
    let mut acc: u64 = 0;
    let mut i: usize = 0;
    while i < n
        invariant
            n == s@.len(),
            i <= n,
            forall|k: int| 0 <= k < i ==> is_digit(#[trigger] s@[k]),
            acc as nat == decimal_value(s@.subrange(0, i as int)),
        decreases n - i,
    {
        let c = s.get_char(i);
        if !('0' <= c && c <= '9') {
            return None;
        }
        let d = (c as u32 - '0' as u32) as u64;
        assert(s@.subrange(0, i as int + 1).drop_last() =~= s@.subrange(0, i as int));
        if acc > (u64::MAX - d) / 10 {
            proof {
                if is_decimal(s@) {
                    lemma_decimal_prefix_grows(s@, i as int + 1, n as int);
                    assert(s@.subrange(0, n as int) =~= s@);
                }
            }
            return None;
        }
        acc = acc * 10 + d;
        i = i + 1;
    }
    assert(s@.subrange(0, n as int) =~= s@);
    Some(acc)
}

impl Config {
    /// The configuration for credentials read from the environment: an API key, a
    /// secret and a decimal merchant id, each absent where its variable is unset.
    pub fn from_env_values(
        api_key: Option<String>,
        api_secret: Option<String>,
        merchant_id: Option<String>,
    ) -> (r: Result<Config, ConfigError>)
        ensures
            api_key is None ==> r == Err::<Config, ConfigError>(ConfigError::MissingApiKey),
            api_key is Some && api_secret is None ==> r == Err::<Config, ConfigError>(
                ConfigError::MissingApiSecret,
            ),
            api_key is Some && api_secret is Some && merchant_id is None ==> r == Err::<
                Config,
                ConfigError,
            >(ConfigError::MissingMerchantId),
            api_key is Some && api_secret is Some && merchant_id is Some ==> match merchant_id_of(
                merchant_id->Some_0@,
            ) {
                None => r == Err::<Config, ConfigError>(ConfigError::MalformedMerchantId),
                Some(id) => r is Ok && r->Ok_0.merchant_id == id && r->Ok_0.api_base@
                    == default_api_base() && r->Ok_0.signer == Signer::<NoClosure>::Cred(
                    ApiCred { key: api_key->Some_0, secret: api_secret->Some_0 },
                ),
            },
    {
        let key = match api_key {
            Some(k) => k,
            None => return Err(ConfigError::MissingApiKey),
        };
        let secret = match api_secret {
            Some(s) => s,
            None => return Err(ConfigError::MissingApiSecret),
        };
        let id_text = match merchant_id {
            Some(m) => m,
            None => return Err(ConfigError::MissingMerchantId),
        };
        let id = match parse_merchant_id(id_text.as_str()) {
            Some(id) => id,
            None => return Err(ConfigError::MalformedMerchantId),
        };
        let mut config = Config::with_signer(Signer::Cred(ApiCred { key, secret }));
        config.merchant_id = id;
        Ok(config)
    }
}

/// The transport client: owns one configuration for its whole life.
pub struct RestClient<F = NoClosure> {
    pub config: Config<F>,
}

impl<F> RestClient<F> {
    pub fn with_config(config: Config<F>) -> (r: RestClient<F>)
        ensures
            r.config == config,
    {
        RestClient { config }
    }

    /// The merchant this client acts for.
    pub open spec fn spec_merchant_id(&self) -> u64 {
        self.config.merchant_id
    }

    pub fn merchant_id(&self) -> (r: u64)
        ensures
            r == self.spec_merchant_id(),
    {
        self.config.merchant_id
    }
}

impl Default for RestClient {
    fn default() -> (r: RestClient)
        ensures
            r.config.api_base@ == default_api_base(),
            r.config.merchant_id == 0,
            r.config.signer is Unsigned,
    {
        RestClient::with_config(Config::with_signer(Signer::Unsigned))
    }
}

} // verus!
