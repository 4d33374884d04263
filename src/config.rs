use vstd::prelude::*;

verus! {

/// Name of the setting that gives the key-value store's address.
pub open spec fn redis_address_key() -> Seq<char> {
    "REDIS_ADDRESS"@
}

/// Name of the setting that gives the address the service listens on.
pub open spec fn api_address_key() -> Seq<char> {
    "API_ADDRESS"@
}

/// Name of the setting that gives the port the service listens on.
pub open spec fn api_port_key() -> Seq<char> {
    "API_PORT"@
}

/// The value that the last pair named `name` gives, if any pair does.
pub open spec fn last_setting(vars: Seq<(String, String)>, name: Seq<char>) -> Option<Seq<char>>
    decreases vars.len(),
{
    if vars.len() == 0 {
        None
    } else if vars.last().0@ == name {
        Some(vars.last().1@)
    } else {
        last_setting(vars.drop_last(), name)
    }
}

/// The view of an optional setting.
pub open spec fn opt_view(o: Option<String>) -> Option<Seq<char>> {
    match o {
        Some(s) => Some(s@),
        None => None,
    }
}

/// Process configuration: where the key-value store is, and where to listen.
pub struct Config {
    pub redis_address: Option<String>,
    pub api_address: Option<String>,
    pub api_port: Option<String>,
}

impl Default for Config {
    fn default() -> (r: Config)
        ensures
            r.redis_address is None,
            r.api_address is None,
            r.api_port is None,
    {
        Config { redis_address: None, api_address: None, api_port: None }
    }
}

impl Config {
    /// Every setting is present.
    pub open spec fn complete(&self) -> bool {
        self.redis_address is Some && self.api_address is Some && self.api_port is Some
    }

    pub fn new() -> (r: Config)
        ensures
            r.redis_address is None,
            r.api_address is None,
            r.api_port is None,
    {
        Config { redis_address: None, api_address: None, api_port: None }
    }

    pub fn set_redis_address(&mut self, redis_address: String)
        ensures
            opt_view(final(self).redis_address) == Some(redis_address@),
            opt_view(final(self).api_address) == opt_view(old(self).api_address),
            opt_view(final(self).api_port) == opt_view(old(self).api_port),
    {
        self.redis_address = Some(redis_address);
    }

    pub fn set_api_address(&mut self, api_address: String)
        ensures
            opt_view(final(self).api_address) == Some(api_address@),
            opt_view(final(self).redis_address) == opt_view(old(self).redis_address),
            opt_view(final(self).api_port) == opt_view(old(self).api_port),
    {
        self.api_address = Some(api_address);
    }

    pub fn set_api_port(&mut self, api_port: String)
        ensures
            opt_view(final(self).api_port) == Some(api_port@),
            opt_view(final(self).redis_address) == opt_view(old(self).redis_address),
            opt_view(final(self).api_address) == opt_view(old(self).api_address),
    {
        self.api_port = Some(api_port);
    }

    pub fn validate(&self) -> (r: bool)
        ensures
            r == self.complete(),
    {
        self.redis_address.is_some() && self.api_address.is_some() && self.api_port.is_some()
    }
}

/// Builds the configuration from `(name, value)` pairs, such as the process
/// environment. Unknown names are ignored; a later pair overrides an earlier
/// one of the same name.
pub fn config_from_vars(vars: Vec<(String, String)>) -> (r: Config)
    ensures
        opt_view(r.redis_address) == last_setting(vars@, redis_address_key()),
        opt_view(r.api_address) == last_setting(vars@, api_address_key()),
        opt_view(r.api_port) == last_setting(vars@, api_port_key()),
{
    let mut ret = Config::new();
    let redis_key = String::from_str("REDIS_ADDRESS");
    let address_key = String::from_str("API_ADDRESS");
    let port_key = String::from_str("API_PORT");
    proof {
        reveal_strlit("REDIS_ADDRESS");
        reveal_strlit("API_ADDRESS");
        reveal_strlit("API_PORT");
        assert(redis_address_key().len() != api_address_key().len());
        assert(redis_address_key().len() != api_port_key().len());
        assert(api_address_key().len() != api_port_key().len());
    }
    let mut i: usize = 0;
    while i < vars.len()
        invariant
            i <= vars@.len(),
            redis_key@ == redis_address_key(),
            address_key@ == api_address_key(),
            port_key@ == api_port_key(),
            redis_address_key() != api_address_key(),
            redis_address_key() != api_port_key(),
            api_address_key() != api_port_key(),
            opt_view(ret.redis_address) == last_setting(vars@.subrange(0, i as int), redis_address_key()),
            opt_view(ret.api_address) == last_setting(vars@.subrange(0, i as int), api_address_key()),
            opt_view(ret.api_port) == last_setting(vars@.subrange(0, i as int), api_port_key()),
        decreases vars.len() - i,
    {
        let key = &vars[i].0;
        let val = vars[i].1.clone();
        assert(vars@.subrange(0, i + 1).drop_last() =~= vars@.subrange(0, i as int));
        assert(vars@.subrange(0, i + 1).last() == vars@[i as int]);
        if *key == redis_key {
            ret.set_redis_address(val);
        } else if *key == address_key {
            ret.set_api_address(val);
        } else if *key == port_key {
            ret.set_api_port(val);
        }
        i = i + 1;
    }
    assert(vars@.subrange(0, i as int) =~= vars@);
    ret
}

/// The names of the settings that are absent, in the order API_ADDRESS,
/// API_PORT, REDIS_ADDRESS.
pub open spec fn missing_names(c: Config) -> Seq<Seq<char>> {
    (if c.api_address is None { seq![api_address_key()] } else { Seq::empty() })
        + (if c.api_port is None { seq![api_port_key()] } else { Seq::empty() })
        + (if c.redis_address is None { seq![redis_address_key()] } else { Seq::empty() })
}

/// Lists the names of the settings that a configuration lacks, so that the
/// caller can report each before refusing to start.
pub fn missing_settings(c: &Config) -> (r: Vec<String>)
    ensures
        r@.len() == missing_names(*c).len(),
        forall|k: int| 0 <= k < r@.len() ==> #[trigger] r@[k]@ == missing_names(*c)[k],
{
    let mut r: Vec<String> = Vec::new();
    proof {
        reveal_strlit("REDIS_ADDRESS");
        reveal_strlit("API_ADDRESS");
        reveal_strlit("API_PORT");
    }
    if c.api_address.is_none() {
        r.push(String::from_str("API_ADDRESS"));
    }
    if c.api_port.is_none() {
        r.push(String::from_str("API_PORT"));
    }
    if c.redis_address.is_none() {
        r.push(String::from_str("REDIS_ADDRESS"));
    }
    r
}

} // verus!
