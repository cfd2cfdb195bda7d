//! The sparse settings record contributed by one configuration layer,
//! and the fixed-precedence merge that folds one record onto another.

use vstd::prelude::*;

verus! {

/// One layer's contribution: every field optional, absence meaning
/// "this layer expresses no opinion" about the field.
pub struct Config {
    pub headed: Option<bool>,
    pub json: Option<bool>,
    pub debug: Option<bool>,
    pub session: Option<String>,
    pub session_name: Option<String>,
    pub executable_path: Option<String>,
    pub extensions: Option<Vec<String>>,
    pub profile: Option<String>,
    pub state: Option<String>,
    pub proxy: Option<String>,
    pub proxy_bypass: Option<String>,
    pub args: Option<String>,
    pub user_agent: Option<String>,
    pub provider: Option<String>,
    pub device: Option<String>,
    pub ignore_https_errors: Option<bool>,
    pub allow_file_access: Option<bool>,
    pub cdp: Option<String>,
    pub auto_connect: Option<bool>,
    pub headers: Option<String>,
}

/// The merge rule for every scalar field: the higher-precedence side
/// (`other`) wins exactly when it holds a value — presence, not
/// truthiness, decides — and the lower-precedence side is kept otherwise.
pub open spec fn scalar_merged<T>(base: Option<T>, other: Option<T>) -> Option<T> {
    if other is Some {
        other
    } else {
        base
    }
}

/// The record with no opinion on any field.
pub open spec fn empty_record() -> Config {
    Config {
        headed: None,
        json: None,
        debug: None,
        session: None,
        session_name: None,
        executable_path: None,
        extensions: None,
        profile: None,
        state: None,
        proxy: None,
        proxy_bypass: None,
        args: None,
        user_agent: None,
        provider: None,
        device: None,
        ignore_https_errors: None,
        allow_file_access: None,
        cdp: None,
        auto_connect: None,
        headers: None,
    }
}

/// What it means for `r` to be the merge of `base` under `other`:
/// every scalar field follows `scalar_merged` — `other`'s value wins
/// whenever present, even a present `false` — and the extension lists
/// concatenate, `base`'s entries first and each side's internal order
/// preserved, when both sides carry one.
pub open spec fn is_merged(base: Config, other: Config, r: Config) -> bool {
    &&& r.headed == scalar_merged(base.headed, other.headed)
    &&& r.json == scalar_merged(base.json, other.json)
    &&& r.debug == scalar_merged(base.debug, other.debug)
    &&& r.session == scalar_merged(base.session, other.session)
    &&& r.session_name == scalar_merged(base.session_name, other.session_name)
    &&& r.executable_path == scalar_merged(base.executable_path, other.executable_path)
    &&& r.profile == scalar_merged(base.profile, other.profile)
    &&& r.state == scalar_merged(base.state, other.state)
    &&& r.proxy == scalar_merged(base.proxy, other.proxy)
    &&& r.proxy_bypass == scalar_merged(base.proxy_bypass, other.proxy_bypass)
    &&& r.args == scalar_merged(base.args, other.args)
    &&& r.user_agent == scalar_merged(base.user_agent, other.user_agent)
    &&& r.provider == scalar_merged(base.provider, other.provider)
    &&& r.device == scalar_merged(base.device, other.device)
    &&& r.ignore_https_errors == scalar_merged(base.ignore_https_errors, other.ignore_https_errors)
    &&& r.allow_file_access == scalar_merged(base.allow_file_access, other.allow_file_access)
    &&& r.cdp == scalar_merged(base.cdp, other.cdp)
    &&& r.auto_connect == scalar_merged(base.auto_connect, other.auto_connect)
    &&& r.headers == scalar_merged(base.headers, other.headers)
    &&& base.extensions is Some && other.extensions is Some ==> (r.extensions matches Some(v)
        && v@ == base.extensions->0@ + other.extensions->0@)
    &&& base.extensions is None ==> r.extensions == other.extensions
    &&& other.extensions is None ==> r.extensions == base.extensions
}

impl Config {
    /// A record with no opinion on any field.
    pub fn empty() -> (r: Config)
        ensures
            r == empty_record(),
    {
        Config {
            headed: None,
            json: None,
            debug: None,
            session: None,
            session_name: None,
            executable_path: None,
            extensions: None,
            profile: None,
            state: None,
            proxy: None,
            proxy_bypass: None,
            args: None,
            user_agent: None,
            provider: None,
            device: None,
            ignore_https_errors: None,
            allow_file_access: None,
            cdp: None,
            auto_connect: None,
            headers: None,
        }
    }

    /// Fold a higher-precedence record onto this one. Every scalar field
    /// follows `scalar_merged`: `other`'s value wins whenever present —
    /// even a present `false` — else `self`'s value (possibly absent) is
    /// kept. The extension lists concatenate, `self`'s entries first and
    /// each side's internal order preserved, when both sides carry one;
    /// a list on one side alone wins; no list on either side yields none.
    pub fn merge(self, other: Config) -> (r: Config)
        ensures
            is_merged(self, other, r),
    {
        let merged_extensions: Option<Vec<String>> = match (self.extensions, other.extensions) {
            (Some(mut a), Some(mut b)) => {
                a.append(&mut b);
                Some(a)
            },
            (a, None) => a,
            (None, b) => b,
        };
        Config {
            headed: if other.headed.is_some() { other.headed } else { self.headed },
            json: if other.json.is_some() { other.json } else { self.json },
            debug: if other.debug.is_some() { other.debug } else { self.debug },
            session: if other.session.is_some() { other.session } else { self.session },
            session_name: if other.session_name.is_some() {
                other.session_name
            } else {
                self.session_name
            },
            executable_path: if other.executable_path.is_some() {
                other.executable_path
            } else {
                self.executable_path
            },
            extensions: merged_extensions,
            profile: if other.profile.is_some() { other.profile } else { self.profile },
            state: if other.state.is_some() { other.state } else { self.state },
            proxy: if other.proxy.is_some() { other.proxy } else { self.proxy },
            proxy_bypass: if other.proxy_bypass.is_some() {
                other.proxy_bypass
            } else {
                self.proxy_bypass
            },
            args: if other.args.is_some() { other.args } else { self.args },
            user_agent: if other.user_agent.is_some() { other.user_agent } else { self.user_agent },
            provider: if other.provider.is_some() { other.provider } else { self.provider },
            device: if other.device.is_some() { other.device } else { self.device },
            ignore_https_errors: if other.ignore_https_errors.is_some() {
                other.ignore_https_errors
            } else {
                self.ignore_https_errors
            },
            allow_file_access: if other.allow_file_access.is_some() {
                other.allow_file_access
            } else {
                self.allow_file_access
            },
            cdp: if other.cdp.is_some() { other.cdp } else { self.cdp },
            auto_connect: if other.auto_connect.is_some() {
                other.auto_connect
            } else {
                self.auto_connect
            },
            headers: if other.headers.is_some() { other.headers } else { self.headers },
        }
    }
}

impl Default for Config {
    /// Same record as `Config::empty`.
    fn default() -> (r: Config)
        ensures
            r == empty_record(),
    {
        Config::empty()
    }
}

} // verus!
