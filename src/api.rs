//! The payments API client facade.
use vstd::prelude::*;
use crate::client::{default_api_base, merchant_id_of, ApiCred, Config, ConfigError, KeyClosure, NoClosure, RestClient, Signer};

verus! {

/// A client of the payments API.
pub struct Api<F = NoClosure> {
    pub client: RestClient<F>,
}

impl<F> Api<F> {
    /// The merchant that the client acts for.
    pub open spec fn spec_merchant_id(&self) -> u64 {
        self.client.spec_merchant_id()
    }

    /// A client built on `config`, used as it is.
    pub fn with_config(config: Config<F>) -> (r: Api<F>)
        ensures
            r.client.config == config,
            r.spec_merchant_id() == config.merchant_id,
    {
        let client = RestClient::with_config(config);
        Api { client }
    }

    /// The merchant id held by the client's configuration; no request is made.
    pub fn merchant_id(&self) -> (r: u64)
        ensures
            r == self.spec_merchant_id(),
            r == self.client.config.merchant_id,
    {
        self.client.merchant_id()
    }
}

impl Default for Api {
    fn default() -> (r: Api)
        ensures
            r.client.config.api_base@ == default_api_base(),
            r.client.config.signer is Unsigned,
            r.spec_merchant_id() == 0,
    {
        Api::with_config(Config::with_signer(Signer::Unsigned))
    }
}

impl Api {
    /// An unauthenticated client on the default endpoint.
    pub fn new() -> (r: Api)
        ensures
            r.client.config.api_base@ == default_api_base(),
            r.client.config.signer is Unsigned,
            r.spec_merchant_id() == 0,
    {
        Api::default()
    }

    /// A client for credentials read from the environment (see
    /// `Config::from_env_values`).
    pub fn from_env(
        api_key: Option<String>,
        api_secret: Option<String>,
        merchant_id: Option<String>,
    ) -> (r: Result<Api, ConfigError>)
        ensures
            api_key is None ==> r == Err::<Api, ConfigError>(ConfigError::MissingApiKey),
            api_key is Some && api_secret is None ==> r == Err::<Api, ConfigError>(
                ConfigError::MissingApiSecret,
            ),
            api_key is Some && api_secret is Some && merchant_id is None ==> r == Err::<
                Api,
                ConfigError,
            >(ConfigError::MissingMerchantId),
            api_key is Some && api_secret is Some && merchant_id is Some ==> match merchant_id_of(
                merchant_id->Some_0@,
            ) {
                None => r == Err::<Api, ConfigError>(ConfigError::MalformedMerchantId),
                Some(id) => r is Ok && r->Ok_0.spec_merchant_id() == id
                    && r->Ok_0.client.config.api_base@ == default_api_base()
                    && r->Ok_0.client.config.signer == Signer::<NoClosure>::Cred(
                    ApiCred { key: api_key->Some_0, secret: api_secret->Some_0 },
                ),
            },
    {
        match Config::from_env_values(api_key, api_secret, merchant_id) {
            Ok(config) => Ok(Api::with_config(config)),
            Err(e) => Err(e),
        }
    }

    /// A client that signs with `cred`; every other setting is the default.
    pub fn with_cred(cred: ApiCred) -> (r: Api)
        ensures
            r.client.config.signer == Signer::<NoClosure>::Cred(cred),
            r.client.config.api_base@ == default_api_base(),
            r.spec_merchant_id() == 0,
    {
        let signer = Signer::from(cred);
        Api::with_config(Config::with_signer(signer))
    }

    /// A client that signs with the caller's `closure` under `api_key`; every other
    /// setting is the default.
    pub fn with_closure<F>(api_key: String, closure: F) -> (r: Api<F>)
        where
            F: Fn(&[u8]) -> Vec<u8>,
        ensures
            r.client.config.signer == Signer::Closure(KeyClosure { api_key, closure }),
            r.client.config.api_base@ == default_api_base(),
            r.spec_merchant_id() == 0,
    {
        let signer = Signer::Closure(KeyClosure::new(api_key, closure));
        Api::with_config(Config::with_signer(signer))
    }
}

} // verus!
