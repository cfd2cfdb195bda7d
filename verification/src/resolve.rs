//! The flag resolver: folds defaults, file-layer values, environment
//! variables and command-line flags — in that precedence order — into
//! one total settings object, with per-field provenance for values set
//! by an explicit command-line flag.

use vstd::prelude::*;
use crate::record::Config;
use crate::text::{list_of_env, split_list, str_eq};
use crate::tokens::{tokens_from, tokens_of, Tok};

verus! {

/// The process environment as the resolver sees it: one entry per
/// recognized variable, `Some` whenever the variable is present — even
/// with an empty value.
pub struct Env {
    pub session: Option<String>,
    pub session_name: Option<String>,
    pub executable_path: Option<String>,
    pub extensions: Option<String>,
    pub profile: Option<String>,
    pub state: Option<String>,
    pub proxy: Option<String>,
    pub proxy_bypass: Option<String>,
    pub args: Option<String>,
    pub user_agent: Option<String>,
    pub provider: Option<String>,
    pub device: Option<String>,
    pub allow_file_access: Option<String>,
    pub auto_connect: Option<String>,
}

impl Env {
    /// An environment with none of the recognized variables present.
    pub fn empty() -> (r: Env)
        ensures
            r.session is None,
            r.session_name is None,
            r.executable_path is None,
            r.extensions is None,
            r.profile is None,
            r.state is None,
            r.proxy is None,
            r.proxy_bypass is None,
            r.args is None,
            r.user_agent is None,
            r.provider is None,
            r.device is None,
            r.allow_file_access is None,
            r.auto_connect is None,
    {
        Env {
            session: None,
            session_name: None,
            executable_path: None,
            extensions: None,
            profile: None,
            state: None,
            proxy: None,
            proxy_bypass: None,
            args: None,
            user_agent: None,
            provider: None,
            device: None,
            allow_file_access: None,
            auto_connect: None,
        }
    }
}

/// The total, resolved settings, plus one provenance marker per
/// launch-time option recording whether an explicit command-line flag
/// produced the field's effective value.
pub struct Flags {
    pub json: bool,
    pub full: bool,
    pub headed: bool,
    pub debug: bool,
    pub session: String,
    pub headers: Option<String>,
    pub executable_path: Option<String>,
    pub cdp: Option<String>,
    pub extensions: Vec<String>,
    pub profile: Option<String>,
    pub state: Option<String>,
    pub proxy: Option<String>,
    pub proxy_bypass: Option<String>,
    pub args: Option<String>,
    pub user_agent: Option<String>,
    pub provider: Option<String>,
    pub ignore_https_errors: bool,
    pub allow_file_access: bool,
    pub device: Option<String>,
    pub auto_connect: bool,
    pub session_name: Option<String>,
    pub cli_executable_path: bool,
    pub cli_extensions: bool,
    pub cli_profile: bool,
    pub cli_state: bool,
    pub cli_args: bool,
    pub cli_user_agent: bool,
    pub cli_proxy: bool,
    pub cli_proxy_bypass: bool,
    pub cli_allow_file_access: bool,
}

/// The mathematical shadow of `Flags`.
#[verifier::ext_equal]
pub ghost struct FlagsV {
    pub json: bool,
    pub full: bool,
    pub headed: bool,
    pub debug: bool,
    pub session: Seq<char>,
    pub headers: Option<Seq<char>>,
    pub executable_path: Option<Seq<char>>,
    pub cdp: Option<Seq<char>>,
    pub extensions: Seq<Seq<char>>,
    pub profile: Option<Seq<char>>,
    pub state: Option<Seq<char>>,
    pub proxy: Option<Seq<char>>,
    pub proxy_bypass: Option<Seq<char>>,
    pub args: Option<Seq<char>>,
    pub user_agent: Option<Seq<char>>,
    pub provider: Option<Seq<char>>,
    pub ignore_https_errors: bool,
    pub allow_file_access: bool,
    pub device: Option<Seq<char>>,
    pub auto_connect: bool,
    pub session_name: Option<Seq<char>>,
    pub cli_executable_path: bool,
    pub cli_extensions: bool,
    pub cli_profile: bool,
    pub cli_state: bool,
    pub cli_args: bool,
    pub cli_user_agent: bool,
    pub cli_proxy: bool,
    pub cli_proxy_bypass: bool,
    pub cli_allow_file_access: bool,
}

impl Flags {
    /// The settings as their mathematical shadow.
    pub open spec fn v(&self) -> FlagsV {
        FlagsV {
            json: self.json,
            full: self.full,
            headed: self.headed,
            debug: self.debug,
            session: self.session@,
            headers: self.headers.deep_view(),
            executable_path: self.executable_path.deep_view(),
            cdp: self.cdp.deep_view(),
            extensions: self.extensions.deep_view(),
            profile: self.profile.deep_view(),
            state: self.state.deep_view(),
            proxy: self.proxy.deep_view(),
            proxy_bypass: self.proxy_bypass.deep_view(),
            args: self.args.deep_view(),
            user_agent: self.user_agent.deep_view(),
            provider: self.provider.deep_view(),
            ignore_https_errors: self.ignore_https_errors,
            allow_file_access: self.allow_file_access,
            device: self.device.deep_view(),
            auto_connect: self.auto_connect,
            session_name: self.session_name.deep_view(),
            cli_executable_path: self.cli_executable_path,
            cli_extensions: self.cli_extensions,
            cli_profile: self.cli_profile,
            cli_state: self.cli_state,
            cli_args: self.cli_args,
            cli_user_agent: self.cli_user_agent,
            cli_proxy: self.cli_proxy,
            cli_proxy_bypass: self.cli_proxy_bypass,
            cli_allow_file_access: self.cli_allow_file_access,
        }
    }
}

/// A present boolean `true`; an absent or `false` entry counts as
/// `false`.
pub open spec fn opt_true(o: Option<bool>) -> bool {
    o == Some(true)
}

/// The environment value when the variable is present, else the
/// file-layer value.
pub open spec fn env_or_config(env: Option<String>, file: Option<String>) -> Option<Seq<char>> {
    if env is Some {
        Some(env->0@)
    } else {
        file.deep_view()
    }
}

/// The session name before command-line flags: environment first, then
/// file layer, then the fixed default.
pub open spec fn base_session(c: Config, e: Env) -> Seq<char> {
    if e.session is Some {
        e.session->0@
    } else if c.session is Some {
        c.session->0@
    } else {
        "default"@
    }
}

/// The extension list before command-line flags. A present, non-empty
/// (after splitting and trimming) environment list replaces the
/// file-derived list entirely; otherwise the file-derived list stands.
pub open spec fn base_extensions(c: Config, e: Env) -> Seq<Seq<char>> {
    if e.extensions is Some && list_of_env(e.extensions->0@).len() > 0 {
        list_of_env(e.extensions->0@)
    } else if c.extensions is Some {
        c.extensions->0.deep_view()
    } else {
        Seq::<Seq<char>>::empty()
    }
}

/// The settings before any command-line flag is applied: built-in
/// defaults, overridden by the file layer, overridden by the
/// environment. The two presence-only booleans count the mere presence
/// of their variable as `true`; no provenance marker is set.
pub open spec fn base_of(c: Config, e: Env) -> FlagsV {
    FlagsV {
        json: opt_true(c.json),
        full: false,
        headed: opt_true(c.headed),
        debug: opt_true(c.debug),
        session: base_session(c, e),
        headers: c.headers.deep_view(),
        executable_path: env_or_config(e.executable_path, c.executable_path),
        cdp: c.cdp.deep_view(),
        extensions: base_extensions(c, e),
        profile: env_or_config(e.profile, c.profile),
        state: env_or_config(e.state, c.state),
        proxy: env_or_config(e.proxy, c.proxy),
        proxy_bypass: env_or_config(e.proxy_bypass, c.proxy_bypass),
        args: env_or_config(e.args, c.args),
        user_agent: env_or_config(e.user_agent, c.user_agent),
        provider: env_or_config(e.provider, c.provider),
        ignore_https_errors: opt_true(c.ignore_https_errors),
        allow_file_access: e.allow_file_access is Some || opt_true(c.allow_file_access),
        device: env_or_config(e.device, c.device),
        auto_connect: e.auto_connect is Some || opt_true(c.auto_connect),
        session_name: env_or_config(e.session_name, c.session_name),
        cli_executable_path: false,
        cli_extensions: false,
        cli_profile: false,
        cli_state: false,
        cli_args: false,
        cli_user_agent: false,
        cli_proxy: false,
        cli_proxy_bypass: false,
        cli_allow_file_access: false,
    }
}

/// One command-line token applied to the settings. Within the
/// command-line layer a later occurrence always wins; `--extension`
/// appends; the flags that carry a provenance marker set it on every
/// occurrence; `--config` was consumed by the loader and is inert here;
/// plain words change nothing.
#[verifier::opaque]
pub open spec fn apply_tok(m: FlagsV, t: Tok) -> FlagsV {
    match t {
        Tok::Valued(name, v) => {
            if name == "--session"@ {
                FlagsV { session: v, ..m }
            } else if name == "--headers"@ {
                FlagsV { headers: Some(v), ..m }
            } else if name == "--executable-path"@ {
                FlagsV { executable_path: Some(v), cli_executable_path: true, ..m }
            } else if name == "--cdp"@ {
                FlagsV { cdp: Some(v), ..m }
            } else if name == "--extension"@ {
                FlagsV { extensions: m.extensions.push(v), cli_extensions: true, ..m }
            } else if name == "--profile"@ {
                FlagsV { profile: Some(v), cli_profile: true, ..m }
            } else if name == "--state"@ {
                FlagsV { state: Some(v), cli_state: true, ..m }
            } else if name == "--proxy"@ {
                FlagsV { proxy: Some(v), cli_proxy: true, ..m }
            } else if name == "--proxy-bypass"@ {
                FlagsV { proxy_bypass: Some(v), cli_proxy_bypass: true, ..m }
            } else if name == "--args"@ {
                FlagsV { args: Some(v), cli_args: true, ..m }
            } else if name == "--user-agent"@ {
                FlagsV { user_agent: Some(v), cli_user_agent: true, ..m }
            } else if name == "-p"@ || name == "--provider"@ {
                FlagsV { provider: Some(v), ..m }
            } else if name == "--device"@ {
                FlagsV { device: Some(v), ..m }
            } else if name == "--session-name"@ {
                FlagsV { session_name: Some(v), ..m }
            } else {
                m
            }
        },
        Tok::Toggle(name) => {
            if name == "--json"@ {
                FlagsV { json: true, ..m }
            } else if name == "--full"@ || name == "-f"@ {
                FlagsV { full: true, ..m }
            } else if name == "--headed"@ {
                FlagsV { headed: true, ..m }
            } else if name == "--debug"@ {
                FlagsV { debug: true, ..m }
            } else if name == "--ignore-https-errors"@ {
                FlagsV { ignore_https_errors: true, ..m }
            } else if name == "--allow-file-access"@ {
                FlagsV { allow_file_access: true, cli_allow_file_access: true, ..m }
            } else if name == "--auto-connect"@ {
                FlagsV { auto_connect: true, ..m }
            } else if name == "--no-headed"@ {
                FlagsV { headed: false, ..m }
            } else if name == "--no-debug"@ {
                FlagsV { debug: false, ..m }
            } else if name == "--no-json"@ {
                FlagsV { json: false, ..m }
            } else if name == "--no-ignore-https-errors"@ {
                FlagsV { ignore_https_errors: false, ..m }
            } else if name == "--no-allow-file-access"@ {
                FlagsV { allow_file_access: false, ..m }
            } else if name == "--no-auto-connect"@ {
                FlagsV { auto_connect: false, ..m }
            } else {
                m
            }
        },
        Tok::Word(_) => m,
    }
}

/// A token stream applied left to right.
pub open spec fn apply_toks(m: FlagsV, toks: Seq<Tok>) -> FlagsV
    decreases toks.len(),
{
    if toks.len() == 0 {
        m
    } else {
        apply_toks(apply_tok(m, toks.first()), toks.drop_first())
    }
}

/// How `apply_toks` treats one leading token.
pub proof fn lemma_apply_toks_cons(m: FlagsV, t: Tok, rest: Seq<Tok>)
    ensures
        apply_toks(m, seq![t] + rest) == apply_toks(apply_tok(m, t), rest),
{
    assert((seq![t] + rest).first() == t);
    assert((seq![t] + rest).drop_first() =~= rest);
}

/// What the whole resolution yields: the layered base, then every
/// command-line token in positional order.
pub open spec fn resolved(c: Config, e: Env, args: Seq<Seq<char>>) -> FlagsV {
    apply_toks(base_of(c, e), tokens_of(args))
}

/// The environment value when present, else the file-layer value.
fn env_over(env: &Option<String>, file: Option<String>) -> (r: Option<String>)
    ensures
        r.deep_view() == env_or_config(*env, file),
{
    match env {
        Some(s) => Some(s.clone()),
        None => file,
    }
}

/// The settings before command-line flags: defaults, then the file
/// layer, then the environment.
fn base_flags(config: Config, env: &Env) -> (f: Flags)
    ensures
        f.v() == base_of(config, *env),
{
    let ghost cv = config;
    let session: String = match &env.session {
        Some(s) => s.clone(),
        None => match config.session {
            Some(s) => s,
            None => String::from_str("default"),
        },
    };
    proof {
        assert(session@ == base_session(cv, *env));
    }
    let ext_env: Vec<String> = match &env.extensions {
        Some(s) => split_list(s.as_str()),
        None => Vec::new(),
    };
    proof {
        if env.extensions is None {
            assert(ext_env.deep_view() =~= Seq::<Seq<char>>::empty());
        }
    }
    let extensions: Vec<String> = if ext_env.len() > 0 {
        ext_env
    } else {
        match config.extensions {
            Some(v) => v,
            None => Vec::new(),
        }
    };
    proof {
        assert(extensions.deep_view() == base_extensions(cv, *env)) by {
            if !(env.extensions is Some && list_of_env(env.extensions->0@).len() > 0)
                && cv.extensions is None {
                assert(extensions.deep_view() =~= Seq::<Seq<char>>::empty());
            }
        }
    }
    let f = Flags {
        json: config.json.unwrap_or(false),
        full: false,
        headed: config.headed.unwrap_or(false),
        debug: config.debug.unwrap_or(false),
        session,
        headers: config.headers,
        executable_path: env_over(&env.executable_path, config.executable_path),
        cdp: config.cdp,
        extensions,
        profile: env_over(&env.profile, config.profile),
        state: env_over(&env.state, config.state),
        proxy: env_over(&env.proxy, config.proxy),
        proxy_bypass: env_over(&env.proxy_bypass, config.proxy_bypass),
        args: env_over(&env.args, config.args),
        user_agent: env_over(&env.user_agent, config.user_agent),
        provider: env_over(&env.provider, config.provider),
        ignore_https_errors: config.ignore_https_errors.unwrap_or(false),
        allow_file_access: env.allow_file_access.is_some() || config.allow_file_access.unwrap_or(
            false,
        ),
        device: env_over(&env.device, config.device),
        auto_connect: env.auto_connect.is_some() || config.auto_connect.unwrap_or(false),
        session_name: env_over(&env.session_name, config.session_name),
        cli_executable_path: false,
        cli_extensions: false,
        cli_profile: false,
        cli_state: false,
        cli_args: false,
        cli_user_agent: false,
        cli_proxy: false,
        cli_proxy_bypass: false,
        cli_allow_file_access: false,
    };
    proof {
        assert(f.v() =~= base_of(cv, *env));
    }
    f
}

// Small helpers that perform one field update and relate it to the
// settings' mathematical shadow.
fn set_session(flags: &mut Flags, v: String)
    ensures
        final(flags).v() == (FlagsV { session: v@, ..old(flags).v() }),
{
    let ghost prev = flags.v();
    flags.session = v;
    proof {
        assert(flags.v() =~= (FlagsV { session: v@, ..prev }));
    }
}

fn set_headers(flags: &mut Flags, v: String)
    ensures
        final(flags).v() == (FlagsV { headers: Some(v@), ..old(flags).v() }),
{
    let ghost prev = flags.v();
    flags.headers = Some(v);
    proof {
        assert(flags.v() =~= (FlagsV { headers: Some(v@), ..prev }));
    }
}

fn set_executable_path(flags: &mut Flags, v: String)
    ensures
        final(flags).v() == (FlagsV { executable_path: Some(v@), cli_executable_path: true, ..old(flags).v() }),
{
    let ghost prev = flags.v();
    flags.executable_path = Some(v);
    flags.cli_executable_path = true;
    proof {
        assert(flags.v() =~= (FlagsV { executable_path: Some(v@), cli_executable_path: true, ..prev }));
    }
}

fn set_cdp(flags: &mut Flags, v: String)
    ensures
        final(flags).v() == (FlagsV { cdp: Some(v@), ..old(flags).v() }),
{
    let ghost prev = flags.v();
    flags.cdp = Some(v);
    proof {
        assert(flags.v() =~= (FlagsV { cdp: Some(v@), ..prev }));
    }
}

fn push_extension(flags: &mut Flags, v: String)
    ensures
        final(flags).v() == (FlagsV {
            extensions: old(flags).v().extensions.push(v@),
            cli_extensions: true,
            ..old(flags).v()
        }),
{
    let ghost prev = flags.v();
    let ghost vv = v@;
    flags.extensions.push(v);
    flags.cli_extensions = true;
    proof {
        assert(flags.extensions.deep_view() =~= prev.extensions.push(vv));
        assert(flags.v() =~= (FlagsV {
            extensions: prev.extensions.push(vv),
            cli_extensions: true,
            ..prev
        }));
    }
}

fn set_profile(flags: &mut Flags, v: String)
    ensures
        final(flags).v() == (FlagsV { profile: Some(v@), cli_profile: true, ..old(flags).v() }),
{
    let ghost prev = flags.v();
    flags.profile = Some(v);
    flags.cli_profile = true;
    proof {
        assert(flags.v() =~= (FlagsV { profile: Some(v@), cli_profile: true, ..prev }));
    }
}

fn set_state(flags: &mut Flags, v: String)
    ensures
        final(flags).v() == (FlagsV { state: Some(v@), cli_state: true, ..old(flags).v() }),
{
    let ghost prev = flags.v();
    flags.state = Some(v);
    flags.cli_state = true;
    proof {
        assert(flags.v() =~= (FlagsV { state: Some(v@), cli_state: true, ..prev }));
    }
}

fn set_proxy(flags: &mut Flags, v: String)
    ensures
        final(flags).v() == (FlagsV { proxy: Some(v@), cli_proxy: true, ..old(flags).v() }),
{
    let ghost prev = flags.v();
    flags.proxy = Some(v);
    flags.cli_proxy = true;
    proof {
        assert(flags.v() =~= (FlagsV { proxy: Some(v@), cli_proxy: true, ..prev }));
    }
}

fn set_proxy_bypass(flags: &mut Flags, v: String)
    ensures
        final(flags).v() == (FlagsV { proxy_bypass: Some(v@), cli_proxy_bypass: true, ..old(flags).v() }),
{
    let ghost prev = flags.v();
    flags.proxy_bypass = Some(v);
    flags.cli_proxy_bypass = true;
    proof {
        assert(flags.v() =~= (FlagsV { proxy_bypass: Some(v@), cli_proxy_bypass: true, ..prev }));
    }
}

fn set_args(flags: &mut Flags, v: String)
    ensures
        final(flags).v() == (FlagsV { args: Some(v@), cli_args: true, ..old(flags).v() }),
{
    let ghost prev = flags.v();
    flags.args = Some(v);
    flags.cli_args = true;
    proof {
        assert(flags.v() =~= (FlagsV { args: Some(v@), cli_args: true, ..prev }));
    }
}

fn set_user_agent(flags: &mut Flags, v: String)
    ensures
        final(flags).v() == (FlagsV { user_agent: Some(v@), cli_user_agent: true, ..old(flags).v() }),
{
    let ghost prev = flags.v();
    flags.user_agent = Some(v);
    flags.cli_user_agent = true;
    proof {
        assert(flags.v() =~= (FlagsV { user_agent: Some(v@), cli_user_agent: true, ..prev }));
    }
}

fn set_provider(flags: &mut Flags, v: String)
    ensures
        final(flags).v() == (FlagsV { provider: Some(v@), ..old(flags).v() }),
{
    let ghost prev = flags.v();
    flags.provider = Some(v);
    proof {
        assert(flags.v() =~= (FlagsV { provider: Some(v@), ..prev }));
    }
}

fn set_device(flags: &mut Flags, v: String)
    ensures
        final(flags).v() == (FlagsV { device: Some(v@), ..old(flags).v() }),
{
    let ghost prev = flags.v();
    flags.device = Some(v);
    proof {
        assert(flags.v() =~= (FlagsV { device: Some(v@), ..prev }));
    }
}

fn set_session_name(flags: &mut Flags, v: String)
    ensures
        final(flags).v() == (FlagsV { session_name: Some(v@), ..old(flags).v() }),
{
    let ghost prev = flags.v();
    flags.session_name = Some(v);
    proof {
        assert(flags.v() =~= (FlagsV { session_name: Some(v@), ..prev }));
    }
}

fn set_json(flags: &mut Flags, b: bool)
    ensures
        final(flags).v() == (FlagsV { json: b, ..old(flags).v() }),
{
    let ghost prev = flags.v();
    flags.json = b;
    proof {
        assert(flags.v() =~= (FlagsV { json: b, ..prev }));
    }
}

fn set_full(flags: &mut Flags, b: bool)
    ensures
        final(flags).v() == (FlagsV { full: b, ..old(flags).v() }),
{
    let ghost prev = flags.v();
    flags.full = b;
    proof {
        assert(flags.v() =~= (FlagsV { full: b, ..prev }));
    }
}

fn set_headed(flags: &mut Flags, b: bool)
    ensures
        final(flags).v() == (FlagsV { headed: b, ..old(flags).v() }),
{
    let ghost prev = flags.v();
    flags.headed = b;
    proof {
        assert(flags.v() =~= (FlagsV { headed: b, ..prev }));
    }
}

fn set_debug(flags: &mut Flags, b: bool)
    ensures
        final(flags).v() == (FlagsV { debug: b, ..old(flags).v() }),
{
    let ghost prev = flags.v();
    flags.debug = b;
    proof {
        assert(flags.v() =~= (FlagsV { debug: b, ..prev }));
    }
}

fn set_ignore_https_errors(flags: &mut Flags, b: bool)
    ensures
        final(flags).v() == (FlagsV { ignore_https_errors: b, ..old(flags).v() }),
{
    let ghost prev = flags.v();
    flags.ignore_https_errors = b;
    proof {
        assert(flags.v() =~= (FlagsV { ignore_https_errors: b, ..prev }));
    }
}

fn set_allow_file_access_marked(flags: &mut Flags, b: bool)
    ensures
        final(flags).v() == (FlagsV { allow_file_access: b, cli_allow_file_access: true, ..old(flags).v() }),
{
    let ghost prev = flags.v();
    flags.allow_file_access = b;
    flags.cli_allow_file_access = true;
    proof {
        assert(flags.v() =~= (FlagsV { allow_file_access: b, cli_allow_file_access: true, ..prev }));
    }
}

fn set_allow_file_access_plain(flags: &mut Flags, b: bool)
    ensures
        final(flags).v() == (FlagsV { allow_file_access: b, ..old(flags).v() }),
{
    let ghost prev = flags.v();
    flags.allow_file_access = b;
    proof {
        assert(flags.v() =~= (FlagsV { allow_file_access: b, ..prev }));
    }
}

fn set_auto_connect(flags: &mut Flags, b: bool)
    ensures
        final(flags).v() == (FlagsV { auto_connect: b, ..old(flags).v() }),
{
    let ghost prev = flags.v();
    flags.auto_connect = b;
    proof {
        assert(flags.v() =~= (FlagsV { auto_connect: b, ..prev }));
    }
}

// How `apply_tok` reads each recognized token, one lemma per flag.
proof fn lemma_tok_session(m: FlagsV, name: Seq<char>, v: Seq<char>)
    requires
        name == "--session"@,

    ensures
        apply_tok(m, Tok::Valued(name, v)) == (FlagsV { session: v, ..m }),
{
    reveal(apply_tok);
}

proof fn lemma_tok_headers(m: FlagsV, name: Seq<char>, v: Seq<char>)
    requires
        name == "--headers"@,
        name != "--session"@,
    ensures
        apply_tok(m, Tok::Valued(name, v)) == (FlagsV { headers: Some(v), ..m }),
{
    reveal(apply_tok);
}

proof fn lemma_tok_executable_path(m: FlagsV, name: Seq<char>, v: Seq<char>)
    requires
        name == "--executable-path"@,
        name != "--session"@,
        name != "--headers"@,
    ensures
        apply_tok(m, Tok::Valued(name, v)) == (FlagsV { executable_path: Some(v), cli_executable_path: true, ..m }),
{
    reveal(apply_tok);
}

proof fn lemma_tok_cdp(m: FlagsV, name: Seq<char>, v: Seq<char>)
    requires
        name == "--cdp"@,
        name != "--session"@,
        name != "--headers"@,
        name != "--executable-path"@,
    ensures
        apply_tok(m, Tok::Valued(name, v)) == (FlagsV { cdp: Some(v), ..m }),
{
    reveal(apply_tok);
}

proof fn lemma_tok_extension(m: FlagsV, name: Seq<char>, v: Seq<char>)
    requires
        name == "--extension"@,
        name != "--session"@,
        name != "--headers"@,
        name != "--executable-path"@,
        name != "--cdp"@,
    ensures
        apply_tok(m, Tok::Valued(name, v)) == (FlagsV { extensions: m.extensions.push(v), cli_extensions: true, ..m }),
{
    reveal(apply_tok);
}

proof fn lemma_tok_profile(m: FlagsV, name: Seq<char>, v: Seq<char>)
    requires
        name == "--profile"@,
        name != "--session"@,
        name != "--headers"@,
        name != "--executable-path"@,
        name != "--cdp"@,
        name != "--extension"@,
    ensures
        apply_tok(m, Tok::Valued(name, v)) == (FlagsV { profile: Some(v), cli_profile: true, ..m }),
{
    reveal(apply_tok);
}

proof fn lemma_tok_state(m: FlagsV, name: Seq<char>, v: Seq<char>)
    requires
        name == "--state"@,
        name != "--session"@,
        name != "--headers"@,
        name != "--executable-path"@,
        name != "--cdp"@,
        name != "--extension"@,
        name != "--profile"@,
    ensures
        apply_tok(m, Tok::Valued(name, v)) == (FlagsV { state: Some(v), cli_state: true, ..m }),
{
    reveal(apply_tok);
}

proof fn lemma_tok_proxy(m: FlagsV, name: Seq<char>, v: Seq<char>)
    requires
        name == "--proxy"@,
        name != "--session"@,
        name != "--headers"@,
        name != "--executable-path"@,
        name != "--cdp"@,
        name != "--extension"@,
        name != "--profile"@,
        name != "--state"@,
    ensures
        apply_tok(m, Tok::Valued(name, v)) == (FlagsV { proxy: Some(v), cli_proxy: true, ..m }),
{
    reveal(apply_tok);
}

proof fn lemma_tok_proxy_bypass(m: FlagsV, name: Seq<char>, v: Seq<char>)
    requires
        name == "--proxy-bypass"@,
        name != "--session"@,
        name != "--headers"@,
        name != "--executable-path"@,
        name != "--cdp"@,
        name != "--extension"@,
        name != "--profile"@,
        name != "--state"@,
        name != "--proxy"@,
    ensures
        apply_tok(m, Tok::Valued(name, v)) == (FlagsV { proxy_bypass: Some(v), cli_proxy_bypass: true, ..m }),
{
    reveal(apply_tok);
}

proof fn lemma_tok_args(m: FlagsV, name: Seq<char>, v: Seq<char>)
    requires
        name == "--args"@,
        name != "--session"@,
        name != "--headers"@,
        name != "--executable-path"@,
        name != "--cdp"@,
        name != "--extension"@,
        name != "--profile"@,
        name != "--state"@,
        name != "--proxy"@,
        name != "--proxy-bypass"@,
    ensures
        apply_tok(m, Tok::Valued(name, v)) == (FlagsV { args: Some(v), cli_args: true, ..m }),
{
    reveal(apply_tok);
}

proof fn lemma_tok_user_agent(m: FlagsV, name: Seq<char>, v: Seq<char>)
    requires
        name == "--user-agent"@,
        name != "--session"@,
        name != "--headers"@,
        name != "--executable-path"@,
        name != "--cdp"@,
        name != "--extension"@,
        name != "--profile"@,
        name != "--state"@,
        name != "--proxy"@,
        name != "--proxy-bypass"@,
        name != "--args"@,
    ensures
        apply_tok(m, Tok::Valued(name, v)) == (FlagsV { user_agent: Some(v), cli_user_agent: true, ..m }),
{
    reveal(apply_tok);
}

proof fn lemma_tok_provider(m: FlagsV, name: Seq<char>, v: Seq<char>)
    requires
        name == "-p"@ || name == "--provider"@,
        name != "--session"@,
        name != "--headers"@,
        name != "--executable-path"@,
        name != "--cdp"@,
        name != "--extension"@,
        name != "--profile"@,
        name != "--state"@,
        name != "--proxy"@,
        name != "--proxy-bypass"@,
        name != "--args"@,
        name != "--user-agent"@,
    ensures
        apply_tok(m, Tok::Valued(name, v)) == (FlagsV { provider: Some(v), ..m }),
{
    reveal(apply_tok);
}

proof fn lemma_tok_device(m: FlagsV, name: Seq<char>, v: Seq<char>)
    requires
        name == "--device"@,
        name != "--session"@,
        name != "--headers"@,
        name != "--executable-path"@,
        name != "--cdp"@,
        name != "--extension"@,
        name != "--profile"@,
        name != "--state"@,
        name != "--proxy"@,
        name != "--proxy-bypass"@,
        name != "--args"@,
        name != "--user-agent"@,
        name != "-p"@,
        name != "--provider"@,
    ensures
        apply_tok(m, Tok::Valued(name, v)) == (FlagsV { device: Some(v), ..m }),
{
    reveal(apply_tok);
}

proof fn lemma_tok_session_name(m: FlagsV, name: Seq<char>, v: Seq<char>)
    requires
        name == "--session-name"@,
        name != "--session"@,
        name != "--headers"@,
        name != "--executable-path"@,
        name != "--cdp"@,
        name != "--extension"@,
        name != "--profile"@,
        name != "--state"@,
        name != "--proxy"@,
        name != "--proxy-bypass"@,
        name != "--args"@,
        name != "--user-agent"@,
        name != "-p"@,
        name != "--provider"@,
        name != "--device"@,
    ensures
        apply_tok(m, Tok::Valued(name, v)) == (FlagsV { session_name: Some(v), ..m }),
{
    reveal(apply_tok);
}

proof fn lemma_tok_config(m: FlagsV, name: Seq<char>, v: Seq<char>)
    requires
        name == "--config"@,
        name != "--session"@,
        name != "--headers"@,
        name != "--executable-path"@,
        name != "--cdp"@,
        name != "--extension"@,
        name != "--profile"@,
        name != "--state"@,
        name != "--proxy"@,
        name != "--proxy-bypass"@,
        name != "--args"@,
        name != "--user-agent"@,
        name != "-p"@,
        name != "--provider"@,
        name != "--device"@,
        name != "--session-name"@,
    ensures
        apply_tok(m, Tok::Valued(name, v)) == m,
{
    reveal(apply_tok);
}

proof fn lemma_tok_json(m: FlagsV, name: Seq<char>)
    requires
        name == "--json"@,

    ensures
        apply_tok(m, Tok::Toggle(name)) == (FlagsV { json: true, ..m }),
{
    reveal(apply_tok);
}

proof fn lemma_tok_full(m: FlagsV, name: Seq<char>)
    requires
        name == "--full"@ || name == "-f"@,
        name != "--json"@,
    ensures
        apply_tok(m, Tok::Toggle(name)) == (FlagsV { full: true, ..m }),
{
    reveal(apply_tok);
}

proof fn lemma_tok_headed(m: FlagsV, name: Seq<char>)
    requires
        name == "--headed"@,
        name != "--json"@,
        name != "--full"@,
        name != "-f"@,
    ensures
        apply_tok(m, Tok::Toggle(name)) == (FlagsV { headed: true, ..m }),
{
    reveal(apply_tok);
}

proof fn lemma_tok_debug(m: FlagsV, name: Seq<char>)
    requires
        name == "--debug"@,
        name != "--json"@,
        name != "--full"@,
        name != "-f"@,
        name != "--headed"@,
    ensures
        apply_tok(m, Tok::Toggle(name)) == (FlagsV { debug: true, ..m }),
{
    reveal(apply_tok);
}

proof fn lemma_tok_ignore_https_errors(m: FlagsV, name: Seq<char>)
    requires
        name == "--ignore-https-errors"@,
        name != "--json"@,
        name != "--full"@,
        name != "-f"@,
        name != "--headed"@,
        name != "--debug"@,
    ensures
        apply_tok(m, Tok::Toggle(name)) == (FlagsV { ignore_https_errors: true, ..m }),
{
    reveal(apply_tok);
}

proof fn lemma_tok_allow_file_access(m: FlagsV, name: Seq<char>)
    requires
        name == "--allow-file-access"@,
        name != "--json"@,
        name != "--full"@,
        name != "-f"@,
        name != "--headed"@,
        name != "--debug"@,
        name != "--ignore-https-errors"@,
    ensures
        apply_tok(m, Tok::Toggle(name)) == (FlagsV { allow_file_access: true, cli_allow_file_access: true, ..m }),
{
    reveal(apply_tok);
}

proof fn lemma_tok_auto_connect(m: FlagsV, name: Seq<char>)
    requires
        name == "--auto-connect"@,
        name != "--json"@,
        name != "--full"@,
        name != "-f"@,
        name != "--headed"@,
        name != "--debug"@,
        name != "--ignore-https-errors"@,
        name != "--allow-file-access"@,
    ensures
        apply_tok(m, Tok::Toggle(name)) == (FlagsV { auto_connect: true, ..m }),
{
    reveal(apply_tok);
}

proof fn lemma_tok_no_headed(m: FlagsV, name: Seq<char>)
    requires
        name == "--no-headed"@,
        name != "--json"@,
        name != "--full"@,
        name != "-f"@,
        name != "--headed"@,
        name != "--debug"@,
        name != "--ignore-https-errors"@,
        name != "--allow-file-access"@,
        name != "--auto-connect"@,
    ensures
        apply_tok(m, Tok::Toggle(name)) == (FlagsV { headed: false, ..m }),
{
    reveal(apply_tok);
}

proof fn lemma_tok_no_debug(m: FlagsV, name: Seq<char>)
    requires
        name == "--no-debug"@,
        name != "--json"@,
        name != "--full"@,
        name != "-f"@,
        name != "--headed"@,
        name != "--debug"@,
        name != "--ignore-https-errors"@,
        name != "--allow-file-access"@,
        name != "--auto-connect"@,
        name != "--no-headed"@,
    ensures
        apply_tok(m, Tok::Toggle(name)) == (FlagsV { debug: false, ..m }),
{
    reveal(apply_tok);
}

proof fn lemma_tok_no_json(m: FlagsV, name: Seq<char>)
    requires
        name == "--no-json"@,
        name != "--json"@,
        name != "--full"@,
        name != "-f"@,
        name != "--headed"@,
        name != "--debug"@,
        name != "--ignore-https-errors"@,
        name != "--allow-file-access"@,
        name != "--auto-connect"@,
        name != "--no-headed"@,
        name != "--no-debug"@,
    ensures
        apply_tok(m, Tok::Toggle(name)) == (FlagsV { json: false, ..m }),
{
    reveal(apply_tok);
}

proof fn lemma_tok_no_ignore_https_errors(m: FlagsV, name: Seq<char>)
    requires
        name == "--no-ignore-https-errors"@,
        name != "--json"@,
        name != "--full"@,
        name != "-f"@,
        name != "--headed"@,
        name != "--debug"@,
        name != "--ignore-https-errors"@,
        name != "--allow-file-access"@,
        name != "--auto-connect"@,
        name != "--no-headed"@,
        name != "--no-debug"@,
        name != "--no-json"@,
    ensures
        apply_tok(m, Tok::Toggle(name)) == (FlagsV { ignore_https_errors: false, ..m }),
{
    reveal(apply_tok);
}

proof fn lemma_tok_no_allow_file_access(m: FlagsV, name: Seq<char>)
    requires
        name == "--no-allow-file-access"@,
        name != "--json"@,
        name != "--full"@,
        name != "-f"@,
        name != "--headed"@,
        name != "--debug"@,
        name != "--ignore-https-errors"@,
        name != "--allow-file-access"@,
        name != "--auto-connect"@,
        name != "--no-headed"@,
        name != "--no-debug"@,
        name != "--no-json"@,
        name != "--no-ignore-https-errors"@,
    ensures
        apply_tok(m, Tok::Toggle(name)) == (FlagsV { allow_file_access: false, ..m }),
{
    reveal(apply_tok);
}

proof fn lemma_tok_no_auto_connect(m: FlagsV, name: Seq<char>)
    requires
        name == "--no-auto-connect"@,
        name != "--json"@,
        name != "--full"@,
        name != "-f"@,
        name != "--headed"@,
        name != "--debug"@,
        name != "--ignore-https-errors"@,
        name != "--allow-file-access"@,
        name != "--auto-connect"@,
        name != "--no-headed"@,
        name != "--no-debug"@,
        name != "--no-json"@,
        name != "--no-ignore-https-errors"@,
        name != "--no-allow-file-access"@,
    ensures
        apply_tok(m, Tok::Toggle(name)) == (FlagsV { auto_connect: false, ..m }),
{
    reveal(apply_tok);
}

proof fn lemma_tok_word(m: FlagsV, w: Seq<char>)
    ensures
        apply_tok(m, Tok::Word(w)) == m,
{
    reveal(apply_tok);
}

// One helper per recognized flag: it applies the token starting at
// position `i` and returns the next position, preserving the relation
// between the settings so far and the remaining token stream.
fn do_session(flags: &mut Flags, args: &Vec<String>, i: usize) -> (ni: usize)
    requires
        i < args@.len(),
        args.deep_view()[i as int] == "--session"@,
    ensures
        i < ni <= args@.len(),
        apply_toks(final(flags).v(), tokens_from(args.deep_view(), ni as int)) == apply_toks(
            old(flags).v(),
            tokens_from(args.deep_view(), i as int),
        ),
{
    let ghost argsv = args.deep_view();
    let ghost prev = flags.v();
    let n = args.len();
    if i + 1 < n {
        let v = args[i + 1].clone();
        proof {
            assert(v@ == argsv[i + 1]);
        }
        set_session(flags, v);
        proof {
            let tok = Tok::Valued(argsv[i as int], argsv[i + 1]);
            assert(tokens_from(argsv, i as int) == seq![tok] + tokens_from(argsv, i + 2));
            lemma_tok_session(prev, argsv[i as int], argsv[i + 1]);
            lemma_apply_toks_cons(prev, tok, tokens_from(argsv, i + 2));
        }
        i + 2
    } else {
        i + 1
    }
}

fn do_headers(flags: &mut Flags, args: &Vec<String>, i: usize) -> (ni: usize)
    requires
        i < args@.len(),
        args.deep_view()[i as int] == "--headers"@,
        args.deep_view()[i as int] != "--session"@,
    ensures
        i < ni <= args@.len(),
        apply_toks(final(flags).v(), tokens_from(args.deep_view(), ni as int)) == apply_toks(
            old(flags).v(),
            tokens_from(args.deep_view(), i as int),
        ),
{
    let ghost argsv = args.deep_view();
    let ghost prev = flags.v();
    let n = args.len();
    if i + 1 < n {
        let v = args[i + 1].clone();
        proof {
            assert(v@ == argsv[i + 1]);
        }
        set_headers(flags, v);
        proof {
            let tok = Tok::Valued(argsv[i as int], argsv[i + 1]);
            assert(tokens_from(argsv, i as int) == seq![tok] + tokens_from(argsv, i + 2));
            lemma_tok_headers(prev, argsv[i as int], argsv[i + 1]);
            lemma_apply_toks_cons(prev, tok, tokens_from(argsv, i + 2));
        }
        i + 2
    } else {
        i + 1
    }
}

fn do_executable_path(flags: &mut Flags, args: &Vec<String>, i: usize) -> (ni: usize)
    requires
        i < args@.len(),
        args.deep_view()[i as int] == "--executable-path"@,
        args.deep_view()[i as int] != "--session"@,
        args.deep_view()[i as int] != "--headers"@,
    ensures
        i < ni <= args@.len(),
        apply_toks(final(flags).v(), tokens_from(args.deep_view(), ni as int)) == apply_toks(
            old(flags).v(),
            tokens_from(args.deep_view(), i as int),
        ),
{
    let ghost argsv = args.deep_view();
    let ghost prev = flags.v();
    let n = args.len();
    if i + 1 < n {
        let v = args[i + 1].clone();
        proof {
            assert(v@ == argsv[i + 1]);
        }
        set_executable_path(flags, v);
        proof {
            let tok = Tok::Valued(argsv[i as int], argsv[i + 1]);
            assert(tokens_from(argsv, i as int) == seq![tok] + tokens_from(argsv, i + 2));
            lemma_tok_executable_path(prev, argsv[i as int], argsv[i + 1]);
            lemma_apply_toks_cons(prev, tok, tokens_from(argsv, i + 2));
        }
        i + 2
    } else {
        i + 1
    }
}

fn do_cdp(flags: &mut Flags, args: &Vec<String>, i: usize) -> (ni: usize)
    requires
        i < args@.len(),
        args.deep_view()[i as int] == "--cdp"@,
        args.deep_view()[i as int] != "--session"@,
        args.deep_view()[i as int] != "--headers"@,
        args.deep_view()[i as int] != "--executable-path"@,
    ensures
        i < ni <= args@.len(),
        apply_toks(final(flags).v(), tokens_from(args.deep_view(), ni as int)) == apply_toks(
            old(flags).v(),
            tokens_from(args.deep_view(), i as int),
        ),
{
    let ghost argsv = args.deep_view();
    let ghost prev = flags.v();
    let n = args.len();
    if i + 1 < n {
        let v = args[i + 1].clone();
        proof {
            assert(v@ == argsv[i + 1]);
        }
        set_cdp(flags, v);
        proof {
            let tok = Tok::Valued(argsv[i as int], argsv[i + 1]);
            assert(tokens_from(argsv, i as int) == seq![tok] + tokens_from(argsv, i + 2));
            lemma_tok_cdp(prev, argsv[i as int], argsv[i + 1]);
            lemma_apply_toks_cons(prev, tok, tokens_from(argsv, i + 2));
        }
        i + 2
    } else {
        i + 1
    }
}

fn do_extension(flags: &mut Flags, args: &Vec<String>, i: usize) -> (ni: usize)
    requires
        i < args@.len(),
        args.deep_view()[i as int] == "--extension"@,
        args.deep_view()[i as int] != "--session"@,
        args.deep_view()[i as int] != "--headers"@,
        args.deep_view()[i as int] != "--executable-path"@,
        args.deep_view()[i as int] != "--cdp"@,
    ensures
        i < ni <= args@.len(),
        apply_toks(final(flags).v(), tokens_from(args.deep_view(), ni as int)) == apply_toks(
            old(flags).v(),
            tokens_from(args.deep_view(), i as int),
        ),
{
    let ghost argsv = args.deep_view();
    let ghost prev = flags.v();
    let n = args.len();
    if i + 1 < n {
        let v = args[i + 1].clone();
        proof {
            assert(v@ == argsv[i + 1]);
        }
        push_extension(flags, v);
        proof {
            let tok = Tok::Valued(argsv[i as int], argsv[i + 1]);
            assert(tokens_from(argsv, i as int) == seq![tok] + tokens_from(argsv, i + 2));
            lemma_tok_extension(prev, argsv[i as int], argsv[i + 1]);
            lemma_apply_toks_cons(prev, tok, tokens_from(argsv, i + 2));
        }
        i + 2
    } else {
        i + 1
    }
}

fn do_profile(flags: &mut Flags, args: &Vec<String>, i: usize) -> (ni: usize)
    requires
        i < args@.len(),
        args.deep_view()[i as int] == "--profile"@,
        args.deep_view()[i as int] != "--session"@,
        args.deep_view()[i as int] != "--headers"@,
        args.deep_view()[i as int] != "--executable-path"@,
        args.deep_view()[i as int] != "--cdp"@,
        args.deep_view()[i as int] != "--extension"@,
    ensures
        i < ni <= args@.len(),
        apply_toks(final(flags).v(), tokens_from(args.deep_view(), ni as int)) == apply_toks(
            old(flags).v(),
            tokens_from(args.deep_view(), i as int),
        ),
{
    let ghost argsv = args.deep_view();
    let ghost prev = flags.v();
    let n = args.len();
    if i + 1 < n {
        let v = args[i + 1].clone();
        proof {
            assert(v@ == argsv[i + 1]);
        }
        set_profile(flags, v);
        proof {
            let tok = Tok::Valued(argsv[i as int], argsv[i + 1]);
            assert(tokens_from(argsv, i as int) == seq![tok] + tokens_from(argsv, i + 2));
            lemma_tok_profile(prev, argsv[i as int], argsv[i + 1]);
            lemma_apply_toks_cons(prev, tok, tokens_from(argsv, i + 2));
        }
        i + 2
    } else {
        i + 1
    }
}

fn do_state(flags: &mut Flags, args: &Vec<String>, i: usize) -> (ni: usize)
    requires
        i < args@.len(),
        args.deep_view()[i as int] == "--state"@,
        args.deep_view()[i as int] != "--session"@,
        args.deep_view()[i as int] != "--headers"@,
        args.deep_view()[i as int] != "--executable-path"@,
        args.deep_view()[i as int] != "--cdp"@,
        args.deep_view()[i as int] != "--extension"@,
        args.deep_view()[i as int] != "--profile"@,
    ensures
        i < ni <= args@.len(),
        apply_toks(final(flags).v(), tokens_from(args.deep_view(), ni as int)) == apply_toks(
            old(flags).v(),
            tokens_from(args.deep_view(), i as int),
        ),
{
    let ghost argsv = args.deep_view();
    let ghost prev = flags.v();
    let n = args.len();
    if i + 1 < n {
        let v = args[i + 1].clone();
        proof {
            assert(v@ == argsv[i + 1]);
        }
        set_state(flags, v);
        proof {
            let tok = Tok::Valued(argsv[i as int], argsv[i + 1]);
            assert(tokens_from(argsv, i as int) == seq![tok] + tokens_from(argsv, i + 2));
            lemma_tok_state(prev, argsv[i as int], argsv[i + 1]);
            lemma_apply_toks_cons(prev, tok, tokens_from(argsv, i + 2));
        }
        i + 2
    } else {
        i + 1
    }
}

fn do_proxy(flags: &mut Flags, args: &Vec<String>, i: usize) -> (ni: usize)
    requires
        i < args@.len(),
        args.deep_view()[i as int] == "--proxy"@,
        args.deep_view()[i as int] != "--session"@,
        args.deep_view()[i as int] != "--headers"@,
        args.deep_view()[i as int] != "--executable-path"@,
        args.deep_view()[i as int] != "--cdp"@,
        args.deep_view()[i as int] != "--extension"@,
        args.deep_view()[i as int] != "--profile"@,
        args.deep_view()[i as int] != "--state"@,
    ensures
        i < ni <= args@.len(),
        apply_toks(final(flags).v(), tokens_from(args.deep_view(), ni as int)) == apply_toks(
            old(flags).v(),
            tokens_from(args.deep_view(), i as int),
        ),
{
    let ghost argsv = args.deep_view();
    let ghost prev = flags.v();
    let n = args.len();
    if i + 1 < n {
        let v = args[i + 1].clone();
        proof {
            assert(v@ == argsv[i + 1]);
        }
        set_proxy(flags, v);
        proof {
            let tok = Tok::Valued(argsv[i as int], argsv[i + 1]);
            assert(tokens_from(argsv, i as int) == seq![tok] + tokens_from(argsv, i + 2));
            lemma_tok_proxy(prev, argsv[i as int], argsv[i + 1]);
            lemma_apply_toks_cons(prev, tok, tokens_from(argsv, i + 2));
        }
        i + 2
    } else {
        i + 1
    }
}

fn do_proxy_bypass(flags: &mut Flags, args: &Vec<String>, i: usize) -> (ni: usize)
    requires
        i < args@.len(),
        args.deep_view()[i as int] == "--proxy-bypass"@,
        args.deep_view()[i as int] != "--session"@,
        args.deep_view()[i as int] != "--headers"@,
        args.deep_view()[i as int] != "--executable-path"@,
        args.deep_view()[i as int] != "--cdp"@,
        args.deep_view()[i as int] != "--extension"@,
        args.deep_view()[i as int] != "--profile"@,
        args.deep_view()[i as int] != "--state"@,
        args.deep_view()[i as int] != "--proxy"@,
    ensures
        i < ni <= args@.len(),
        apply_toks(final(flags).v(), tokens_from(args.deep_view(), ni as int)) == apply_toks(
            old(flags).v(),
            tokens_from(args.deep_view(), i as int),
        ),
{
    let ghost argsv = args.deep_view();
    let ghost prev = flags.v();
    let n = args.len();
    if i + 1 < n {
        let v = args[i + 1].clone();
        proof {
            assert(v@ == argsv[i + 1]);
        }
        set_proxy_bypass(flags, v);
        proof {
            let tok = Tok::Valued(argsv[i as int], argsv[i + 1]);
            assert(tokens_from(argsv, i as int) == seq![tok] + tokens_from(argsv, i + 2));
            lemma_tok_proxy_bypass(prev, argsv[i as int], argsv[i + 1]);
            lemma_apply_toks_cons(prev, tok, tokens_from(argsv, i + 2));
        }
        i + 2
    } else {
        i + 1
    }
}

fn do_args(flags: &mut Flags, args: &Vec<String>, i: usize) -> (ni: usize)
    requires
        i < args@.len(),
        args.deep_view()[i as int] == "--args"@,
        args.deep_view()[i as int] != "--session"@,
        args.deep_view()[i as int] != "--headers"@,
        args.deep_view()[i as int] != "--executable-path"@,
        args.deep_view()[i as int] != "--cdp"@,
        args.deep_view()[i as int] != "--extension"@,
        args.deep_view()[i as int] != "--profile"@,
        args.deep_view()[i as int] != "--state"@,
        args.deep_view()[i as int] != "--proxy"@,
        args.deep_view()[i as int] != "--proxy-bypass"@,
    ensures
        i < ni <= args@.len(),
        apply_toks(final(flags).v(), tokens_from(args.deep_view(), ni as int)) == apply_toks(
            old(flags).v(),
            tokens_from(args.deep_view(), i as int),
        ),
{
    let ghost argsv = args.deep_view();
    let ghost prev = flags.v();
    let n = args.len();
    if i + 1 < n {
        let v = args[i + 1].clone();
        proof {
            assert(v@ == argsv[i + 1]);
        }
        set_args(flags, v);
        proof {
            let tok = Tok::Valued(argsv[i as int], argsv[i + 1]);
            assert(tokens_from(argsv, i as int) == seq![tok] + tokens_from(argsv, i + 2));
            lemma_tok_args(prev, argsv[i as int], argsv[i + 1]);
            lemma_apply_toks_cons(prev, tok, tokens_from(argsv, i + 2));
        }
        i + 2
    } else {
        i + 1
    }
}

fn do_user_agent(flags: &mut Flags, args: &Vec<String>, i: usize) -> (ni: usize)
    requires
        i < args@.len(),
        args.deep_view()[i as int] == "--user-agent"@,
        args.deep_view()[i as int] != "--session"@,
        args.deep_view()[i as int] != "--headers"@,
        args.deep_view()[i as int] != "--executable-path"@,
        args.deep_view()[i as int] != "--cdp"@,
        args.deep_view()[i as int] != "--extension"@,
        args.deep_view()[i as int] != "--profile"@,
        args.deep_view()[i as int] != "--state"@,
        args.deep_view()[i as int] != "--proxy"@,
        args.deep_view()[i as int] != "--proxy-bypass"@,
        args.deep_view()[i as int] != "--args"@,
    ensures
        i < ni <= args@.len(),
        apply_toks(final(flags).v(), tokens_from(args.deep_view(), ni as int)) == apply_toks(
            old(flags).v(),
            tokens_from(args.deep_view(), i as int),
        ),
{
    let ghost argsv = args.deep_view();
    let ghost prev = flags.v();
    let n = args.len();
    if i + 1 < n {
        let v = args[i + 1].clone();
        proof {
            assert(v@ == argsv[i + 1]);
        }
        set_user_agent(flags, v);
        proof {
            let tok = Tok::Valued(argsv[i as int], argsv[i + 1]);
            assert(tokens_from(argsv, i as int) == seq![tok] + tokens_from(argsv, i + 2));
            lemma_tok_user_agent(prev, argsv[i as int], argsv[i + 1]);
            lemma_apply_toks_cons(prev, tok, tokens_from(argsv, i + 2));
        }
        i + 2
    } else {
        i + 1
    }
}

fn do_provider(flags: &mut Flags, args: &Vec<String>, i: usize) -> (ni: usize)
    requires
        i < args@.len(),
        args.deep_view()[i as int] == "-p"@ || args.deep_view()[i as int] == "--provider"@,
        args.deep_view()[i as int] != "--session"@,
        args.deep_view()[i as int] != "--headers"@,
        args.deep_view()[i as int] != "--executable-path"@,
        args.deep_view()[i as int] != "--cdp"@,
        args.deep_view()[i as int] != "--extension"@,
        args.deep_view()[i as int] != "--profile"@,
        args.deep_view()[i as int] != "--state"@,
        args.deep_view()[i as int] != "--proxy"@,
        args.deep_view()[i as int] != "--proxy-bypass"@,
        args.deep_view()[i as int] != "--args"@,
        args.deep_view()[i as int] != "--user-agent"@,
    ensures
        i < ni <= args@.len(),
        apply_toks(final(flags).v(), tokens_from(args.deep_view(), ni as int)) == apply_toks(
            old(flags).v(),
            tokens_from(args.deep_view(), i as int),
        ),
{
    let ghost argsv = args.deep_view();
    let ghost prev = flags.v();
    let n = args.len();
    if i + 1 < n {
        let v = args[i + 1].clone();
        proof {
            assert(v@ == argsv[i + 1]);
        }
        set_provider(flags, v);
        proof {
            let tok = Tok::Valued(argsv[i as int], argsv[i + 1]);
            assert(tokens_from(argsv, i as int) == seq![tok] + tokens_from(argsv, i + 2));
            lemma_tok_provider(prev, argsv[i as int], argsv[i + 1]);
            lemma_apply_toks_cons(prev, tok, tokens_from(argsv, i + 2));
        }
        i + 2
    } else {
        i + 1
    }
}

fn do_device(flags: &mut Flags, args: &Vec<String>, i: usize) -> (ni: usize)
    requires
        i < args@.len(),
        args.deep_view()[i as int] == "--device"@,
        args.deep_view()[i as int] != "--session"@,
        args.deep_view()[i as int] != "--headers"@,
        args.deep_view()[i as int] != "--executable-path"@,
        args.deep_view()[i as int] != "--cdp"@,
        args.deep_view()[i as int] != "--extension"@,
        args.deep_view()[i as int] != "--profile"@,
        args.deep_view()[i as int] != "--state"@,
        args.deep_view()[i as int] != "--proxy"@,
        args.deep_view()[i as int] != "--proxy-bypass"@,
        args.deep_view()[i as int] != "--args"@,
        args.deep_view()[i as int] != "--user-agent"@,
        args.deep_view()[i as int] != "-p"@,
        args.deep_view()[i as int] != "--provider"@,
    ensures
        i < ni <= args@.len(),
        apply_toks(final(flags).v(), tokens_from(args.deep_view(), ni as int)) == apply_toks(
            old(flags).v(),
            tokens_from(args.deep_view(), i as int),
        ),
{
    let ghost argsv = args.deep_view();
    let ghost prev = flags.v();
    let n = args.len();
    if i + 1 < n {
        let v = args[i + 1].clone();
        proof {
            assert(v@ == argsv[i + 1]);
        }
        set_device(flags, v);
        proof {
            let tok = Tok::Valued(argsv[i as int], argsv[i + 1]);
            assert(tokens_from(argsv, i as int) == seq![tok] + tokens_from(argsv, i + 2));
            lemma_tok_device(prev, argsv[i as int], argsv[i + 1]);
            lemma_apply_toks_cons(prev, tok, tokens_from(argsv, i + 2));
        }
        i + 2
    } else {
        i + 1
    }
}

fn do_session_name(flags: &mut Flags, args: &Vec<String>, i: usize) -> (ni: usize)
    requires
        i < args@.len(),
        args.deep_view()[i as int] == "--session-name"@,
        args.deep_view()[i as int] != "--session"@,
        args.deep_view()[i as int] != "--headers"@,
        args.deep_view()[i as int] != "--executable-path"@,
        args.deep_view()[i as int] != "--cdp"@,
        args.deep_view()[i as int] != "--extension"@,
        args.deep_view()[i as int] != "--profile"@,
        args.deep_view()[i as int] != "--state"@,
        args.deep_view()[i as int] != "--proxy"@,
        args.deep_view()[i as int] != "--proxy-bypass"@,
        args.deep_view()[i as int] != "--args"@,
        args.deep_view()[i as int] != "--user-agent"@,
        args.deep_view()[i as int] != "-p"@,
        args.deep_view()[i as int] != "--provider"@,
        args.deep_view()[i as int] != "--device"@,
    ensures
        i < ni <= args@.len(),
        apply_toks(final(flags).v(), tokens_from(args.deep_view(), ni as int)) == apply_toks(
            old(flags).v(),
            tokens_from(args.deep_view(), i as int),
        ),
{
    let ghost argsv = args.deep_view();
    let ghost prev = flags.v();
    let n = args.len();
    if i + 1 < n {
        let v = args[i + 1].clone();
        proof {
            assert(v@ == argsv[i + 1]);
        }
        set_session_name(flags, v);
        proof {
            let tok = Tok::Valued(argsv[i as int], argsv[i + 1]);
            assert(tokens_from(argsv, i as int) == seq![tok] + tokens_from(argsv, i + 2));
            lemma_tok_session_name(prev, argsv[i as int], argsv[i + 1]);
            lemma_apply_toks_cons(prev, tok, tokens_from(argsv, i + 2));
        }
        i + 2
    } else {
        i + 1
    }
}

fn do_config(flags: &mut Flags, args: &Vec<String>, i: usize) -> (ni: usize)
    requires
        i < args@.len(),
        args.deep_view()[i as int] == "--config"@,
        args.deep_view()[i as int] != "--session"@,
        args.deep_view()[i as int] != "--headers"@,
        args.deep_view()[i as int] != "--executable-path"@,
        args.deep_view()[i as int] != "--cdp"@,
        args.deep_view()[i as int] != "--extension"@,
        args.deep_view()[i as int] != "--profile"@,
        args.deep_view()[i as int] != "--state"@,
        args.deep_view()[i as int] != "--proxy"@,
        args.deep_view()[i as int] != "--proxy-bypass"@,
        args.deep_view()[i as int] != "--args"@,
        args.deep_view()[i as int] != "--user-agent"@,
        args.deep_view()[i as int] != "-p"@,
        args.deep_view()[i as int] != "--provider"@,
        args.deep_view()[i as int] != "--device"@,
        args.deep_view()[i as int] != "--session-name"@,
    ensures
        i < ni <= args@.len(),
        apply_toks(final(flags).v(), tokens_from(args.deep_view(), ni as int)) == apply_toks(
            old(flags).v(),
            tokens_from(args.deep_view(), i as int),
        ),
{
    let ghost argsv = args.deep_view();
    let ghost prev = flags.v();
    let n = args.len();
    if i + 1 < n {
        proof {
            let tok = Tok::Valued(argsv[i as int], argsv[i + 1]);
            assert(tokens_from(argsv, i as int) == seq![tok] + tokens_from(argsv, i + 2));
            lemma_tok_config(prev, argsv[i as int], argsv[i + 1]);
            lemma_apply_toks_cons(prev, tok, tokens_from(argsv, i + 2));
        }
        i + 2
    } else {
        i + 1
    }
}

fn do_json(flags: &mut Flags, args: &Vec<String>, i: usize) -> (ni: usize)
    requires
        i < args@.len(),
        args.deep_view()[i as int] == "--json"@,
        args.deep_view()[i as int] != "--session"@,
        args.deep_view()[i as int] != "--headers"@,
        args.deep_view()[i as int] != "--executable-path"@,
        args.deep_view()[i as int] != "--cdp"@,
        args.deep_view()[i as int] != "--extension"@,
        args.deep_view()[i as int] != "--profile"@,
        args.deep_view()[i as int] != "--state"@,
        args.deep_view()[i as int] != "--proxy"@,
        args.deep_view()[i as int] != "--proxy-bypass"@,
        args.deep_view()[i as int] != "--args"@,
        args.deep_view()[i as int] != "--user-agent"@,
        args.deep_view()[i as int] != "-p"@,
        args.deep_view()[i as int] != "--provider"@,
        args.deep_view()[i as int] != "--device"@,
        args.deep_view()[i as int] != "--session-name"@,
        args.deep_view()[i as int] != "--config"@,
    ensures
        i < ni <= args@.len(),
        apply_toks(final(flags).v(), tokens_from(args.deep_view(), ni as int)) == apply_toks(
            old(flags).v(),
            tokens_from(args.deep_view(), i as int),
        ),
{
    let ghost argsv = args.deep_view();
    let ghost prev = flags.v();
    let n = args.len();
    set_json(flags, true);
    proof {
        let tok = Tok::Toggle(argsv[i as int]);
        assert(tokens_from(argsv, i as int) == seq![tok] + tokens_from(argsv, i + 1));
        lemma_tok_json(prev, argsv[i as int]);
        lemma_apply_toks_cons(prev, tok, tokens_from(argsv, i + 1));
    }
    i + 1
}

fn do_full(flags: &mut Flags, args: &Vec<String>, i: usize) -> (ni: usize)
    requires
        i < args@.len(),
        args.deep_view()[i as int] == "--full"@ || args.deep_view()[i as int] == "-f"@,
        args.deep_view()[i as int] != "--session"@,
        args.deep_view()[i as int] != "--headers"@,
        args.deep_view()[i as int] != "--executable-path"@,
        args.deep_view()[i as int] != "--cdp"@,
        args.deep_view()[i as int] != "--extension"@,
        args.deep_view()[i as int] != "--profile"@,
        args.deep_view()[i as int] != "--state"@,
        args.deep_view()[i as int] != "--proxy"@,
        args.deep_view()[i as int] != "--proxy-bypass"@,
        args.deep_view()[i as int] != "--args"@,
        args.deep_view()[i as int] != "--user-agent"@,
        args.deep_view()[i as int] != "-p"@,
        args.deep_view()[i as int] != "--provider"@,
        args.deep_view()[i as int] != "--device"@,
        args.deep_view()[i as int] != "--session-name"@,
        args.deep_view()[i as int] != "--config"@,
        args.deep_view()[i as int] != "--json"@,
    ensures
        i < ni <= args@.len(),
        apply_toks(final(flags).v(), tokens_from(args.deep_view(), ni as int)) == apply_toks(
            old(flags).v(),
            tokens_from(args.deep_view(), i as int),
        ),
{
    let ghost argsv = args.deep_view();
    let ghost prev = flags.v();
    let n = args.len();
    set_full(flags, true);
    proof {
        let tok = Tok::Toggle(argsv[i as int]);
        assert(tokens_from(argsv, i as int) == seq![tok] + tokens_from(argsv, i + 1));
        lemma_tok_full(prev, argsv[i as int]);
        lemma_apply_toks_cons(prev, tok, tokens_from(argsv, i + 1));
    }
    i + 1
}

fn do_headed(flags: &mut Flags, args: &Vec<String>, i: usize) -> (ni: usize)
    requires
        i < args@.len(),
        args.deep_view()[i as int] == "--headed"@,
        args.deep_view()[i as int] != "--session"@,
        args.deep_view()[i as int] != "--headers"@,
        args.deep_view()[i as int] != "--executable-path"@,
        args.deep_view()[i as int] != "--cdp"@,
        args.deep_view()[i as int] != "--extension"@,
        args.deep_view()[i as int] != "--profile"@,
        args.deep_view()[i as int] != "--state"@,
        args.deep_view()[i as int] != "--proxy"@,
        args.deep_view()[i as int] != "--proxy-bypass"@,
        args.deep_view()[i as int] != "--args"@,
        args.deep_view()[i as int] != "--user-agent"@,
        args.deep_view()[i as int] != "-p"@,
        args.deep_view()[i as int] != "--provider"@,
        args.deep_view()[i as int] != "--device"@,
        args.deep_view()[i as int] != "--session-name"@,
        args.deep_view()[i as int] != "--config"@,
        args.deep_view()[i as int] != "--json"@,
        args.deep_view()[i as int] != "--full"@,
        args.deep_view()[i as int] != "-f"@,
    ensures
        i < ni <= args@.len(),
        apply_toks(final(flags).v(), tokens_from(args.deep_view(), ni as int)) == apply_toks(
            old(flags).v(),
            tokens_from(args.deep_view(), i as int),
        ),
{
    let ghost argsv = args.deep_view();
    let ghost prev = flags.v();
    let n = args.len();
    set_headed(flags, true);
    proof {
        let tok = Tok::Toggle(argsv[i as int]);
        assert(tokens_from(argsv, i as int) == seq![tok] + tokens_from(argsv, i + 1));
        lemma_tok_headed(prev, argsv[i as int]);
        lemma_apply_toks_cons(prev, tok, tokens_from(argsv, i + 1));
    }
    i + 1
}

fn do_debug(flags: &mut Flags, args: &Vec<String>, i: usize) -> (ni: usize)
    requires
        i < args@.len(),
        args.deep_view()[i as int] == "--debug"@,
        args.deep_view()[i as int] != "--session"@,
        args.deep_view()[i as int] != "--headers"@,
        args.deep_view()[i as int] != "--executable-path"@,
        args.deep_view()[i as int] != "--cdp"@,
        args.deep_view()[i as int] != "--extension"@,
        args.deep_view()[i as int] != "--profile"@,
        args.deep_view()[i as int] != "--state"@,
        args.deep_view()[i as int] != "--proxy"@,
        args.deep_view()[i as int] != "--proxy-bypass"@,
        args.deep_view()[i as int] != "--args"@,
        args.deep_view()[i as int] != "--user-agent"@,
        args.deep_view()[i as int] != "-p"@,
        args.deep_view()[i as int] != "--provider"@,
        args.deep_view()[i as int] != "--device"@,
        args.deep_view()[i as int] != "--session-name"@,
        args.deep_view()[i as int] != "--config"@,
        args.deep_view()[i as int] != "--json"@,
        args.deep_view()[i as int] != "--full"@,
        args.deep_view()[i as int] != "-f"@,
        args.deep_view()[i as int] != "--headed"@,
    ensures
        i < ni <= args@.len(),
        apply_toks(final(flags).v(), tokens_from(args.deep_view(), ni as int)) == apply_toks(
            old(flags).v(),
            tokens_from(args.deep_view(), i as int),
        ),
{
    let ghost argsv = args.deep_view();
    let ghost prev = flags.v();
    let n = args.len();
    set_debug(flags, true);
    proof {
        let tok = Tok::Toggle(argsv[i as int]);
        assert(tokens_from(argsv, i as int) == seq![tok] + tokens_from(argsv, i + 1));
        lemma_tok_debug(prev, argsv[i as int]);
        lemma_apply_toks_cons(prev, tok, tokens_from(argsv, i + 1));
    }
    i + 1
}

fn do_ignore_https_errors(flags: &mut Flags, args: &Vec<String>, i: usize) -> (ni: usize)
    requires
        i < args@.len(),
        args.deep_view()[i as int] == "--ignore-https-errors"@,
        args.deep_view()[i as int] != "--session"@,
        args.deep_view()[i as int] != "--headers"@,
        args.deep_view()[i as int] != "--executable-path"@,
        args.deep_view()[i as int] != "--cdp"@,
        args.deep_view()[i as int] != "--extension"@,
        args.deep_view()[i as int] != "--profile"@,
        args.deep_view()[i as int] != "--state"@,
        args.deep_view()[i as int] != "--proxy"@,
        args.deep_view()[i as int] != "--proxy-bypass"@,
        args.deep_view()[i as int] != "--args"@,
        args.deep_view()[i as int] != "--user-agent"@,
        args.deep_view()[i as int] != "-p"@,
        args.deep_view()[i as int] != "--provider"@,
        args.deep_view()[i as int] != "--device"@,
        args.deep_view()[i as int] != "--session-name"@,
        args.deep_view()[i as int] != "--config"@,
        args.deep_view()[i as int] != "--json"@,
        args.deep_view()[i as int] != "--full"@,
        args.deep_view()[i as int] != "-f"@,
        args.deep_view()[i as int] != "--headed"@,
        args.deep_view()[i as int] != "--debug"@,
    ensures
        i < ni <= args@.len(),
        apply_toks(final(flags).v(), tokens_from(args.deep_view(), ni as int)) == apply_toks(
            old(flags).v(),
            tokens_from(args.deep_view(), i as int),
        ),
{
    let ghost argsv = args.deep_view();
    let ghost prev = flags.v();
    let n = args.len();
    set_ignore_https_errors(flags, true);
    proof {
        let tok = Tok::Toggle(argsv[i as int]);
        assert(tokens_from(argsv, i as int) == seq![tok] + tokens_from(argsv, i + 1));
        lemma_tok_ignore_https_errors(prev, argsv[i as int]);
        lemma_apply_toks_cons(prev, tok, tokens_from(argsv, i + 1));
    }
    i + 1
}

fn do_allow_file_access(flags: &mut Flags, args: &Vec<String>, i: usize) -> (ni: usize)
    requires
        i < args@.len(),
        args.deep_view()[i as int] == "--allow-file-access"@,
        args.deep_view()[i as int] != "--session"@,
        args.deep_view()[i as int] != "--headers"@,
        args.deep_view()[i as int] != "--executable-path"@,
        args.deep_view()[i as int] != "--cdp"@,
        args.deep_view()[i as int] != "--extension"@,
        args.deep_view()[i as int] != "--profile"@,
        args.deep_view()[i as int] != "--state"@,
        args.deep_view()[i as int] != "--proxy"@,
        args.deep_view()[i as int] != "--proxy-bypass"@,
        args.deep_view()[i as int] != "--args"@,
        args.deep_view()[i as int] != "--user-agent"@,
        args.deep_view()[i as int] != "-p"@,
        args.deep_view()[i as int] != "--provider"@,
        args.deep_view()[i as int] != "--device"@,
        args.deep_view()[i as int] != "--session-name"@,
        args.deep_view()[i as int] != "--config"@,
        args.deep_view()[i as int] != "--json"@,
        args.deep_view()[i as int] != "--full"@,
        args.deep_view()[i as int] != "-f"@,
        args.deep_view()[i as int] != "--headed"@,
        args.deep_view()[i as int] != "--debug"@,
        args.deep_view()[i as int] != "--ignore-https-errors"@,
    ensures
        i < ni <= args@.len(),
        apply_toks(final(flags).v(), tokens_from(args.deep_view(), ni as int)) == apply_toks(
            old(flags).v(),
            tokens_from(args.deep_view(), i as int),
        ),
{
    let ghost argsv = args.deep_view();
    let ghost prev = flags.v();
    let n = args.len();
    set_allow_file_access_marked(flags, true);
    proof {
        let tok = Tok::Toggle(argsv[i as int]);
        assert(tokens_from(argsv, i as int) == seq![tok] + tokens_from(argsv, i + 1));
        lemma_tok_allow_file_access(prev, argsv[i as int]);
        lemma_apply_toks_cons(prev, tok, tokens_from(argsv, i + 1));
    }
    i + 1
}

fn do_auto_connect(flags: &mut Flags, args: &Vec<String>, i: usize) -> (ni: usize)
    requires
        i < args@.len(),
        args.deep_view()[i as int] == "--auto-connect"@,
        args.deep_view()[i as int] != "--session"@,
        args.deep_view()[i as int] != "--headers"@,
        args.deep_view()[i as int] != "--executable-path"@,
        args.deep_view()[i as int] != "--cdp"@,
        args.deep_view()[i as int] != "--extension"@,
        args.deep_view()[i as int] != "--profile"@,
        args.deep_view()[i as int] != "--state"@,
        args.deep_view()[i as int] != "--proxy"@,
        args.deep_view()[i as int] != "--proxy-bypass"@,
        args.deep_view()[i as int] != "--args"@,
        args.deep_view()[i as int] != "--user-agent"@,
        args.deep_view()[i as int] != "-p"@,
        args.deep_view()[i as int] != "--provider"@,
        args.deep_view()[i as int] != "--device"@,
        args.deep_view()[i as int] != "--session-name"@,
        args.deep_view()[i as int] != "--config"@,
        args.deep_view()[i as int] != "--json"@,
        args.deep_view()[i as int] != "--full"@,
        args.deep_view()[i as int] != "-f"@,
        args.deep_view()[i as int] != "--headed"@,
        args.deep_view()[i as int] != "--debug"@,
        args.deep_view()[i as int] != "--ignore-https-errors"@,
        args.deep_view()[i as int] != "--allow-file-access"@,
    ensures
        i < ni <= args@.len(),
        apply_toks(final(flags).v(), tokens_from(args.deep_view(), ni as int)) == apply_toks(
            old(flags).v(),
            tokens_from(args.deep_view(), i as int),
        ),
{
    let ghost argsv = args.deep_view();
    let ghost prev = flags.v();
    let n = args.len();
    set_auto_connect(flags, true);
    proof {
        let tok = Tok::Toggle(argsv[i as int]);
        assert(tokens_from(argsv, i as int) == seq![tok] + tokens_from(argsv, i + 1));
        lemma_tok_auto_connect(prev, argsv[i as int]);
        lemma_apply_toks_cons(prev, tok, tokens_from(argsv, i + 1));
    }
    i + 1
}

fn do_no_headed(flags: &mut Flags, args: &Vec<String>, i: usize) -> (ni: usize)
    requires
        i < args@.len(),
        args.deep_view()[i as int] == "--no-headed"@,
        args.deep_view()[i as int] != "--session"@,
        args.deep_view()[i as int] != "--headers"@,
        args.deep_view()[i as int] != "--executable-path"@,
        args.deep_view()[i as int] != "--cdp"@,
        args.deep_view()[i as int] != "--extension"@,
        args.deep_view()[i as int] != "--profile"@,
        args.deep_view()[i as int] != "--state"@,
        args.deep_view()[i as int] != "--proxy"@,
        args.deep_view()[i as int] != "--proxy-bypass"@,
        args.deep_view()[i as int] != "--args"@,
        args.deep_view()[i as int] != "--user-agent"@,
        args.deep_view()[i as int] != "-p"@,
        args.deep_view()[i as int] != "--provider"@,
        args.deep_view()[i as int] != "--device"@,
        args.deep_view()[i as int] != "--session-name"@,
        args.deep_view()[i as int] != "--config"@,
        args.deep_view()[i as int] != "--json"@,
        args.deep_view()[i as int] != "--full"@,
        args.deep_view()[i as int] != "-f"@,
        args.deep_view()[i as int] != "--headed"@,
        args.deep_view()[i as int] != "--debug"@,
        args.deep_view()[i as int] != "--ignore-https-errors"@,
        args.deep_view()[i as int] != "--allow-file-access"@,
        args.deep_view()[i as int] != "--auto-connect"@,
    ensures
        i < ni <= args@.len(),
        apply_toks(final(flags).v(), tokens_from(args.deep_view(), ni as int)) == apply_toks(
            old(flags).v(),
            tokens_from(args.deep_view(), i as int),
        ),
{
    let ghost argsv = args.deep_view();
    let ghost prev = flags.v();
    let n = args.len();
    set_headed(flags, false);
    proof {
        let tok = Tok::Toggle(argsv[i as int]);
        assert(tokens_from(argsv, i as int) == seq![tok] + tokens_from(argsv, i + 1));
        lemma_tok_no_headed(prev, argsv[i as int]);
        lemma_apply_toks_cons(prev, tok, tokens_from(argsv, i + 1));
    }
    i + 1
}

fn do_no_debug(flags: &mut Flags, args: &Vec<String>, i: usize) -> (ni: usize)
    requires
        i < args@.len(),
        args.deep_view()[i as int] == "--no-debug"@,
        args.deep_view()[i as int] != "--session"@,
        args.deep_view()[i as int] != "--headers"@,
        args.deep_view()[i as int] != "--executable-path"@,
        args.deep_view()[i as int] != "--cdp"@,
        args.deep_view()[i as int] != "--extension"@,
        args.deep_view()[i as int] != "--profile"@,
        args.deep_view()[i as int] != "--state"@,
        args.deep_view()[i as int] != "--proxy"@,
        args.deep_view()[i as int] != "--proxy-bypass"@,
        args.deep_view()[i as int] != "--args"@,
        args.deep_view()[i as int] != "--user-agent"@,
        args.deep_view()[i as int] != "-p"@,
        args.deep_view()[i as int] != "--provider"@,
        args.deep_view()[i as int] != "--device"@,
        args.deep_view()[i as int] != "--session-name"@,
        args.deep_view()[i as int] != "--config"@,
        args.deep_view()[i as int] != "--json"@,
        args.deep_view()[i as int] != "--full"@,
        args.deep_view()[i as int] != "-f"@,
        args.deep_view()[i as int] != "--headed"@,
        args.deep_view()[i as int] != "--debug"@,
        args.deep_view()[i as int] != "--ignore-https-errors"@,
        args.deep_view()[i as int] != "--allow-file-access"@,
        args.deep_view()[i as int] != "--auto-connect"@,
        args.deep_view()[i as int] != "--no-headed"@,
    ensures
        i < ni <= args@.len(),
        apply_toks(final(flags).v(), tokens_from(args.deep_view(), ni as int)) == apply_toks(
            old(flags).v(),
            tokens_from(args.deep_view(), i as int),
        ),
{
    let ghost argsv = args.deep_view();
    let ghost prev = flags.v();
    let n = args.len();
    set_debug(flags, false);
    proof {
        let tok = Tok::Toggle(argsv[i as int]);
        assert(tokens_from(argsv, i as int) == seq![tok] + tokens_from(argsv, i + 1));
        lemma_tok_no_debug(prev, argsv[i as int]);
        lemma_apply_toks_cons(prev, tok, tokens_from(argsv, i + 1));
    }
    i + 1
}

fn do_no_json(flags: &mut Flags, args: &Vec<String>, i: usize) -> (ni: usize)
    requires
        i < args@.len(),
        args.deep_view()[i as int] == "--no-json"@,
        args.deep_view()[i as int] != "--session"@,
        args.deep_view()[i as int] != "--headers"@,
        args.deep_view()[i as int] != "--executable-path"@,
        args.deep_view()[i as int] != "--cdp"@,
        args.deep_view()[i as int] != "--extension"@,
        args.deep_view()[i as int] != "--profile"@,
        args.deep_view()[i as int] != "--state"@,
        args.deep_view()[i as int] != "--proxy"@,
        args.deep_view()[i as int] != "--proxy-bypass"@,
        args.deep_view()[i as int] != "--args"@,
        args.deep_view()[i as int] != "--user-agent"@,
        args.deep_view()[i as int] != "-p"@,
        args.deep_view()[i as int] != "--provider"@,
        args.deep_view()[i as int] != "--device"@,
        args.deep_view()[i as int] != "--session-name"@,
        args.deep_view()[i as int] != "--config"@,
        args.deep_view()[i as int] != "--json"@,
        args.deep_view()[i as int] != "--full"@,
        args.deep_view()[i as int] != "-f"@,
        args.deep_view()[i as int] != "--headed"@,
        args.deep_view()[i as int] != "--debug"@,
        args.deep_view()[i as int] != "--ignore-https-errors"@,
        args.deep_view()[i as int] != "--allow-file-access"@,
        args.deep_view()[i as int] != "--auto-connect"@,
        args.deep_view()[i as int] != "--no-headed"@,
        args.deep_view()[i as int] != "--no-debug"@,
    ensures
        i < ni <= args@.len(),
        apply_toks(final(flags).v(), tokens_from(args.deep_view(), ni as int)) == apply_toks(
            old(flags).v(),
            tokens_from(args.deep_view(), i as int),
        ),
{
    let ghost argsv = args.deep_view();
    let ghost prev = flags.v();
    let n = args.len();
    set_json(flags, false);
    proof {
        let tok = Tok::Toggle(argsv[i as int]);
        assert(tokens_from(argsv, i as int) == seq![tok] + tokens_from(argsv, i + 1));
        lemma_tok_no_json(prev, argsv[i as int]);
        lemma_apply_toks_cons(prev, tok, tokens_from(argsv, i + 1));
    }
    i + 1
}

fn do_no_ignore_https_errors(flags: &mut Flags, args: &Vec<String>, i: usize) -> (ni: usize)
    requires
        i < args@.len(),
        args.deep_view()[i as int] == "--no-ignore-https-errors"@,
        args.deep_view()[i as int] != "--session"@,
        args.deep_view()[i as int] != "--headers"@,
        args.deep_view()[i as int] != "--executable-path"@,
        args.deep_view()[i as int] != "--cdp"@,
        args.deep_view()[i as int] != "--extension"@,
        args.deep_view()[i as int] != "--profile"@,
        args.deep_view()[i as int] != "--state"@,
        args.deep_view()[i as int] != "--proxy"@,
        args.deep_view()[i as int] != "--proxy-bypass"@,
        args.deep_view()[i as int] != "--args"@,
        args.deep_view()[i as int] != "--user-agent"@,
        args.deep_view()[i as int] != "-p"@,
        args.deep_view()[i as int] != "--provider"@,
        args.deep_view()[i as int] != "--device"@,
        args.deep_view()[i as int] != "--session-name"@,
        args.deep_view()[i as int] != "--config"@,
        args.deep_view()[i as int] != "--json"@,
        args.deep_view()[i as int] != "--full"@,
        args.deep_view()[i as int] != "-f"@,
        args.deep_view()[i as int] != "--headed"@,
        args.deep_view()[i as int] != "--debug"@,
        args.deep_view()[i as int] != "--ignore-https-errors"@,
        args.deep_view()[i as int] != "--allow-file-access"@,
        args.deep_view()[i as int] != "--auto-connect"@,
        args.deep_view()[i as int] != "--no-headed"@,
        args.deep_view()[i as int] != "--no-debug"@,
        args.deep_view()[i as int] != "--no-json"@,
    ensures
        i < ni <= args@.len(),
        apply_toks(final(flags).v(), tokens_from(args.deep_view(), ni as int)) == apply_toks(
            old(flags).v(),
            tokens_from(args.deep_view(), i as int),
        ),
{
    let ghost argsv = args.deep_view();
    let ghost prev = flags.v();
    let n = args.len();
    set_ignore_https_errors(flags, false);
    proof {
        let tok = Tok::Toggle(argsv[i as int]);
        assert(tokens_from(argsv, i as int) == seq![tok] + tokens_from(argsv, i + 1));
        lemma_tok_no_ignore_https_errors(prev, argsv[i as int]);
        lemma_apply_toks_cons(prev, tok, tokens_from(argsv, i + 1));
    }
    i + 1
}

fn do_no_allow_file_access(flags: &mut Flags, args: &Vec<String>, i: usize) -> (ni: usize)
    requires
        i < args@.len(),
        args.deep_view()[i as int] == "--no-allow-file-access"@,
        args.deep_view()[i as int] != "--session"@,
        args.deep_view()[i as int] != "--headers"@,
        args.deep_view()[i as int] != "--executable-path"@,
        args.deep_view()[i as int] != "--cdp"@,
        args.deep_view()[i as int] != "--extension"@,
        args.deep_view()[i as int] != "--profile"@,
        args.deep_view()[i as int] != "--state"@,
        args.deep_view()[i as int] != "--proxy"@,
        args.deep_view()[i as int] != "--proxy-bypass"@,
        args.deep_view()[i as int] != "--args"@,
        args.deep_view()[i as int] != "--user-agent"@,
        args.deep_view()[i as int] != "-p"@,
        args.deep_view()[i as int] != "--provider"@,
        args.deep_view()[i as int] != "--device"@,
        args.deep_view()[i as int] != "--session-name"@,
        args.deep_view()[i as int] != "--config"@,
        args.deep_view()[i as int] != "--json"@,
        args.deep_view()[i as int] != "--full"@,
        args.deep_view()[i as int] != "-f"@,
        args.deep_view()[i as int] != "--headed"@,
        args.deep_view()[i as int] != "--debug"@,
        args.deep_view()[i as int] != "--ignore-https-errors"@,
        args.deep_view()[i as int] != "--allow-file-access"@,
        args.deep_view()[i as int] != "--auto-connect"@,
        args.deep_view()[i as int] != "--no-headed"@,
        args.deep_view()[i as int] != "--no-debug"@,
        args.deep_view()[i as int] != "--no-json"@,
        args.deep_view()[i as int] != "--no-ignore-https-errors"@,
    ensures
        i < ni <= args@.len(),
        apply_toks(final(flags).v(), tokens_from(args.deep_view(), ni as int)) == apply_toks(
            old(flags).v(),
            tokens_from(args.deep_view(), i as int),
        ),
{
    let ghost argsv = args.deep_view();
    let ghost prev = flags.v();
    let n = args.len();
    set_allow_file_access_plain(flags, false);
    proof {
        let tok = Tok::Toggle(argsv[i as int]);
        assert(tokens_from(argsv, i as int) == seq![tok] + tokens_from(argsv, i + 1));
        lemma_tok_no_allow_file_access(prev, argsv[i as int]);
        lemma_apply_toks_cons(prev, tok, tokens_from(argsv, i + 1));
    }
    i + 1
}

fn do_no_auto_connect(flags: &mut Flags, args: &Vec<String>, i: usize) -> (ni: usize)
    requires
        i < args@.len(),
        args.deep_view()[i as int] == "--no-auto-connect"@,
        args.deep_view()[i as int] != "--session"@,
        args.deep_view()[i as int] != "--headers"@,
        args.deep_view()[i as int] != "--executable-path"@,
        args.deep_view()[i as int] != "--cdp"@,
        args.deep_view()[i as int] != "--extension"@,
        args.deep_view()[i as int] != "--profile"@,
        args.deep_view()[i as int] != "--state"@,
        args.deep_view()[i as int] != "--proxy"@,
        args.deep_view()[i as int] != "--proxy-bypass"@,
        args.deep_view()[i as int] != "--args"@,
        args.deep_view()[i as int] != "--user-agent"@,
        args.deep_view()[i as int] != "-p"@,
        args.deep_view()[i as int] != "--provider"@,
        args.deep_view()[i as int] != "--device"@,
        args.deep_view()[i as int] != "--session-name"@,
        args.deep_view()[i as int] != "--config"@,
        args.deep_view()[i as int] != "--json"@,
        args.deep_view()[i as int] != "--full"@,
        args.deep_view()[i as int] != "-f"@,
        args.deep_view()[i as int] != "--headed"@,
        args.deep_view()[i as int] != "--debug"@,
        args.deep_view()[i as int] != "--ignore-https-errors"@,
        args.deep_view()[i as int] != "--allow-file-access"@,
        args.deep_view()[i as int] != "--auto-connect"@,
        args.deep_view()[i as int] != "--no-headed"@,
        args.deep_view()[i as int] != "--no-debug"@,
        args.deep_view()[i as int] != "--no-json"@,
        args.deep_view()[i as int] != "--no-ignore-https-errors"@,
        args.deep_view()[i as int] != "--no-allow-file-access"@,
    ensures
        i < ni <= args@.len(),
        apply_toks(final(flags).v(), tokens_from(args.deep_view(), ni as int)) == apply_toks(
            old(flags).v(),
            tokens_from(args.deep_view(), i as int),
        ),
{
    let ghost argsv = args.deep_view();
    let ghost prev = flags.v();
    let n = args.len();
    set_auto_connect(flags, false);
    proof {
        let tok = Tok::Toggle(argsv[i as int]);
        assert(tokens_from(argsv, i as int) == seq![tok] + tokens_from(argsv, i + 1));
        lemma_tok_no_auto_connect(prev, argsv[i as int]);
        lemma_apply_toks_cons(prev, tok, tokens_from(argsv, i + 1));
    }
    i + 1
}

fn do_word(flags: &mut Flags, args: &Vec<String>, i: usize) -> (ni: usize)
    requires
        i < args@.len(),
        args.deep_view()[i as int] != "--session"@,
        args.deep_view()[i as int] != "--headers"@,
        args.deep_view()[i as int] != "--executable-path"@,
        args.deep_view()[i as int] != "--cdp"@,
        args.deep_view()[i as int] != "--extension"@,
        args.deep_view()[i as int] != "--profile"@,
        args.deep_view()[i as int] != "--state"@,
        args.deep_view()[i as int] != "--proxy"@,
        args.deep_view()[i as int] != "--proxy-bypass"@,
        args.deep_view()[i as int] != "--args"@,
        args.deep_view()[i as int] != "--user-agent"@,
        args.deep_view()[i as int] != "-p"@,
        args.deep_view()[i as int] != "--provider"@,
        args.deep_view()[i as int] != "--device"@,
        args.deep_view()[i as int] != "--session-name"@,
        args.deep_view()[i as int] != "--config"@,
        args.deep_view()[i as int] != "--json"@,
        args.deep_view()[i as int] != "--full"@,
        args.deep_view()[i as int] != "-f"@,
        args.deep_view()[i as int] != "--headed"@,
        args.deep_view()[i as int] != "--debug"@,
        args.deep_view()[i as int] != "--ignore-https-errors"@,
        args.deep_view()[i as int] != "--allow-file-access"@,
        args.deep_view()[i as int] != "--auto-connect"@,
        args.deep_view()[i as int] != "--no-headed"@,
        args.deep_view()[i as int] != "--no-debug"@,
        args.deep_view()[i as int] != "--no-json"@,
        args.deep_view()[i as int] != "--no-ignore-https-errors"@,
        args.deep_view()[i as int] != "--no-allow-file-access"@,
        args.deep_view()[i as int] != "--no-auto-connect"@,
    ensures
        i < ni <= args@.len(),
        apply_toks(final(flags).v(), tokens_from(args.deep_view(), ni as int)) == apply_toks(
            old(flags).v(),
            tokens_from(args.deep_view(), i as int),
        ),
{
    let ghost argsv = args.deep_view();
    let ghost prev = flags.v();
    let n = args.len();
    proof {
        let tok = Tok::Word(argsv[i as int]);
        assert(tokens_from(argsv, i as int) == seq![tok] + tokens_from(argsv, i + 1));
        lemma_tok_word(prev, argsv[i as int]);
        lemma_apply_toks_cons(prev, tok, tokens_from(argsv, i + 1));
    }
    i + 1
}

/// Resolve the final settings from the merged file-layer record, the
/// environment, and the raw argument list. Precedence per field, lowest
/// to highest: built-in default, file layer, environment, command-line
/// flag; command-line tokens are applied in positional order, so for
/// toggle pairs the later occurrence wins, and a value flag standing
/// last with its value missing is a no-op.
#[verifier::rlimit(100)]
pub fn parse_flags(config: Config, env: &Env, args: &Vec<String>) -> (flags: Flags)
    ensures
        flags.v() == resolved(config, *env, args.deep_view()),
{
    let ghost cv = config;
    let ghost argsv = args.deep_view();
    let mut flags = base_flags(config, env);
    let ghost base = flags.v();
    let mut i: usize = 0;
    while i < args.len()
        invariant
            i <= args.len(),
            argsv == args.deep_view(),
            base == base_of(cv, *env),
            apply_toks(flags.v(), tokens_from(argsv, i as int)) == apply_toks(
                base,
                tokens_from(argsv, 0),
            ),
        decreases args.len() - i,
    {
        let a: &str = args[i].as_str();
        proof {
            assert(a@ == argsv[i as int]);
        }
        if str_eq(a, "--session") {
            i = do_session(&mut flags, args, i);
        } else if str_eq(a, "--headers") {
            i = do_headers(&mut flags, args, i);
        } else if str_eq(a, "--executable-path") {
            i = do_executable_path(&mut flags, args, i);
        } else if str_eq(a, "--cdp") {
            i = do_cdp(&mut flags, args, i);
        } else if str_eq(a, "--extension") {
            i = do_extension(&mut flags, args, i);
        } else if str_eq(a, "--profile") {
            i = do_profile(&mut flags, args, i);
        } else if str_eq(a, "--state") {
            i = do_state(&mut flags, args, i);
        } else if str_eq(a, "--proxy") {
            i = do_proxy(&mut flags, args, i);
        } else if str_eq(a, "--proxy-bypass") {
            i = do_proxy_bypass(&mut flags, args, i);
        } else if str_eq(a, "--args") {
            i = do_args(&mut flags, args, i);
        } else if str_eq(a, "--user-agent") {
            i = do_user_agent(&mut flags, args, i);
        } else if str_eq(a, "-p") || str_eq(a, "--provider") {
            i = do_provider(&mut flags, args, i);
        } else if str_eq(a, "--device") {
            i = do_device(&mut flags, args, i);
        } else if str_eq(a, "--session-name") {
            i = do_session_name(&mut flags, args, i);
        } else if str_eq(a, "--config") {
            i = do_config(&mut flags, args, i);
        } else if str_eq(a, "--json") {
            i = do_json(&mut flags, args, i);
        } else if str_eq(a, "--full") || str_eq(a, "-f") {
            i = do_full(&mut flags, args, i);
        } else if str_eq(a, "--headed") {
            i = do_headed(&mut flags, args, i);
        } else if str_eq(a, "--debug") {
            i = do_debug(&mut flags, args, i);
        } else if str_eq(a, "--ignore-https-errors") {
            i = do_ignore_https_errors(&mut flags, args, i);
        } else if str_eq(a, "--allow-file-access") {
            i = do_allow_file_access(&mut flags, args, i);
        } else if str_eq(a, "--auto-connect") {
            i = do_auto_connect(&mut flags, args, i);
        } else if str_eq(a, "--no-headed") {
            i = do_no_headed(&mut flags, args, i);
        } else if str_eq(a, "--no-debug") {
            i = do_no_debug(&mut flags, args, i);
        } else if str_eq(a, "--no-json") {
            i = do_no_json(&mut flags, args, i);
        } else if str_eq(a, "--no-ignore-https-errors") {
            i = do_no_ignore_https_errors(&mut flags, args, i);
        } else if str_eq(a, "--no-allow-file-access") {
            i = do_no_allow_file_access(&mut flags, args, i);
        } else if str_eq(a, "--no-auto-connect") {
            i = do_no_auto_connect(&mut flags, args, i);
        } else {
            i = do_word(&mut flags, args, i);
        }
    }
    flags
}


/// `apply_toks` applied to one more trailing token.
pub proof fn lemma_apply_toks_snoc(m: FlagsV, toks: Seq<Tok>, t: Tok)
    ensures
        apply_toks(m, toks.push(t)) == apply_tok(apply_toks(m, toks), t),
    decreases toks.len(),
{
    if toks.len() == 0 {
        assert(toks.push(t).len() == 1);
        assert(toks.push(t).first() == t);
        assert(toks.push(t).drop_first() =~= Seq::<Tok>::empty());
        assert(apply_toks(m, toks) == m);
        assert(apply_toks(apply_tok(m, t), Seq::<Tok>::empty()) == apply_tok(m, t));
        assert(apply_toks(m, toks.push(t)) == apply_toks(
            apply_tok(m, toks.push(t).first()),
            toks.push(t).drop_first(),
        ));
    } else {
        assert(toks.push(t).first() == toks.first());
        assert(toks.push(t).drop_first() =~= toks.drop_first().push(t));
        lemma_apply_toks_snoc(apply_tok(m, toks.first()), toks.drop_first(), t);
    }
}

proof fn lemma_profile_name_distinct()
    ensures
        "--profile"@ != "--session"@,
        "--profile"@ != "--headers"@,
        "--profile"@ != "--executable-path"@,
        "--profile"@ != "--cdp"@,
        "--profile"@ != "--extension"@,
{
    reveal_strlit("--profile");
    reveal_strlit("--session");
    reveal_strlit("--headers");
    reveal_strlit("--executable-path");
    reveal_strlit("--cdp");
    reveal_strlit("--extension");
    assert("--profile"@[2] != "--session"@[2]);
    assert("--profile"@[2] != "--headers"@[2]);
}

/// A standard scalar field takes the file-layer value when its
/// environment variable is absent, and a command-line occurrence
/// overrides whatever the lower layers provided (`--profile` here, as
/// the representative launch-time option).
pub proof fn lemma_env_fallthrough_cli_overrides(c: Config, e: Env, toks: Seq<Tok>, v: Seq<char>)
    ensures
        e.profile is None ==> base_of(c, e).profile == c.profile.deep_view(),
        e.executable_path is None ==> base_of(c, e).executable_path == c.executable_path.deep_view(),
        e.state is None ==> base_of(c, e).state == c.state.deep_view(),
        e.proxy is None ==> base_of(c, e).proxy == c.proxy.deep_view(),
        e.proxy_bypass is None ==> base_of(c, e).proxy_bypass == c.proxy_bypass.deep_view(),
        e.args is None ==> base_of(c, e).args == c.args.deep_view(),
        e.user_agent is None ==> base_of(c, e).user_agent == c.user_agent.deep_view(),
        e.provider is None ==> base_of(c, e).provider == c.provider.deep_view(),
        e.device is None ==> base_of(c, e).device == c.device.deep_view(),
        e.session_name is None ==> base_of(c, e).session_name == c.session_name.deep_view(),
        e.session is None && c.session is Some ==> base_of(c, e).session == c.session->0@,
        apply_toks(base_of(c, e), toks.push(Tok::Valued("--profile"@, v))).profile == Some(v),
{
    lemma_apply_toks_snoc(base_of(c, e), toks, Tok::Valued("--profile"@, v));
    lemma_profile_name_distinct();
    lemma_tok_profile(apply_toks(base_of(c, e), toks), "--profile"@, v);
}

proof fn lemma_toggle_names_distinct()
    ensures
        "--headed"@ != "--json"@ && "--headed"@ != "--full"@ && "--headed"@ != "-f"@,
        "--debug"@ != "--json"@ && "--debug"@ != "--full"@ && "--debug"@ != "-f"@ && "--debug"@
            != "--headed"@,
        "--ignore-https-errors"@ != "--json"@ && "--ignore-https-errors"@ != "--full"@
            && "--ignore-https-errors"@ != "-f"@ && "--ignore-https-errors"@ != "--headed"@
            && "--ignore-https-errors"@ != "--debug"@,
        "--allow-file-access"@ != "--json"@ && "--allow-file-access"@ != "--full"@
            && "--allow-file-access"@ != "-f"@ && "--allow-file-access"@ != "--headed"@
            && "--allow-file-access"@ != "--debug"@ && "--allow-file-access"@
            != "--ignore-https-errors"@,
        "--auto-connect"@ != "--json"@ && "--auto-connect"@ != "--full"@ && "--auto-connect"@
            != "-f"@ && "--auto-connect"@ != "--headed"@ && "--auto-connect"@ != "--debug"@
            && "--auto-connect"@ != "--ignore-https-errors"@ && "--auto-connect"@
            != "--allow-file-access"@,
        "--no-headed"@ != "--json"@ && "--no-headed"@ != "--full"@ && "--no-headed"@ != "-f"@
            && "--no-headed"@ != "--headed"@ && "--no-headed"@ != "--debug"@ && "--no-headed"@
            != "--ignore-https-errors"@ && "--no-headed"@ != "--allow-file-access"@
            && "--no-headed"@ != "--auto-connect"@,
        "--no-debug"@ != "--json"@ && "--no-debug"@ != "--full"@ && "--no-debug"@ != "-f"@
            && "--no-debug"@ != "--headed"@ && "--no-debug"@ != "--debug"@ && "--no-debug"@
            != "--ignore-https-errors"@ && "--no-debug"@ != "--allow-file-access"@
            && "--no-debug"@ != "--auto-connect"@ && "--no-debug"@ != "--no-headed"@,
        "--no-json"@ != "--json"@ && "--no-json"@ != "--full"@ && "--no-json"@ != "-f"@
            && "--no-json"@ != "--headed"@ && "--no-json"@ != "--debug"@ && "--no-json"@
            != "--ignore-https-errors"@ && "--no-json"@ != "--allow-file-access"@ && "--no-json"@
            != "--auto-connect"@ && "--no-json"@ != "--no-headed"@ && "--no-json"@
            != "--no-debug"@,
        "--no-ignore-https-errors"@ != "--json"@ && "--no-ignore-https-errors"@ != "--full"@
            && "--no-ignore-https-errors"@ != "-f"@ && "--no-ignore-https-errors"@ != "--headed"@
            && "--no-ignore-https-errors"@ != "--debug"@ && "--no-ignore-https-errors"@
            != "--ignore-https-errors"@ && "--no-ignore-https-errors"@ != "--allow-file-access"@
            && "--no-ignore-https-errors"@ != "--auto-connect"@ && "--no-ignore-https-errors"@
            != "--no-headed"@ && "--no-ignore-https-errors"@ != "--no-debug"@
            && "--no-ignore-https-errors"@ != "--no-json"@,
        "--no-allow-file-access"@ != "--json"@ && "--no-allow-file-access"@ != "--full"@
            && "--no-allow-file-access"@ != "-f"@ && "--no-allow-file-access"@ != "--headed"@
            && "--no-allow-file-access"@ != "--debug"@ && "--no-allow-file-access"@
            != "--ignore-https-errors"@ && "--no-allow-file-access"@ != "--allow-file-access"@
            && "--no-allow-file-access"@ != "--auto-connect"@ && "--no-allow-file-access"@
            != "--no-headed"@ && "--no-allow-file-access"@ != "--no-debug"@
            && "--no-allow-file-access"@ != "--no-json"@ && "--no-allow-file-access"@
            != "--no-ignore-https-errors"@,
        "--no-auto-connect"@ != "--json"@ && "--no-auto-connect"@ != "--full"@
            && "--no-auto-connect"@ != "-f"@ && "--no-auto-connect"@ != "--headed"@
            && "--no-auto-connect"@ != "--debug"@ && "--no-auto-connect"@
            != "--ignore-https-errors"@ && "--no-auto-connect"@ != "--allow-file-access"@
            && "--no-auto-connect"@ != "--auto-connect"@ && "--no-auto-connect"@
            != "--no-headed"@ && "--no-auto-connect"@ != "--no-debug"@ && "--no-auto-connect"@
            != "--no-json"@ && "--no-auto-connect"@ != "--no-ignore-https-errors"@
            && "--no-auto-connect"@ != "--no-allow-file-access"@,
{
    reveal_strlit("--json");
    reveal_strlit("--full");
    reveal_strlit("-f");
    reveal_strlit("--headed");
    reveal_strlit("--debug");
    reveal_strlit("--ignore-https-errors");
    reveal_strlit("--allow-file-access");
    reveal_strlit("--auto-connect");
    reveal_strlit("--no-headed");
    reveal_strlit("--no-debug");
    reveal_strlit("--no-json");
    reveal_strlit("--no-ignore-https-errors");
    reveal_strlit("--no-allow-file-access");
    reveal_strlit("--no-auto-connect");
    assert("--json"@.len() == 6);
    assert("--full"@.len() == 6);
    assert("-f"@.len() == 2);
    assert("--headed"@.len() == 8);
    assert("--debug"@.len() == 7);
    assert("--ignore-https-errors"@.len() == 21);
    assert("--allow-file-access"@.len() == 19);
    assert("--auto-connect"@.len() == 14);
    assert("--no-headed"@.len() == 11);
    assert("--no-debug"@.len() == 10);
    assert("--no-json"@.len() == 9);
    assert("--no-ignore-https-errors"@.len() == 24);
    assert("--no-allow-file-access"@.len() == 22);
    assert("--no-auto-connect"@.len() == 17);
    assert("--json"@[2] != "--full"@[2]);
}

#[verifier::rlimit(100)]
#[verifier::spinoff_prover]
proof fn lemma_pair_headed(m: FlagsV, toks: Seq<Tok>)
    ensures
        apply_toks(
            m,
            toks.push(Tok::Toggle("--headed"@)).push(Tok::Toggle("--no-headed"@)),
        ).headed == false,
        apply_toks(
            m,
            toks.push(Tok::Toggle("--no-headed"@)).push(Tok::Toggle("--headed"@)),
        ).headed == true,
{
    lemma_toggle_names_distinct();
    let x = apply_toks(m, toks);
    lemma_toggle_pair(m, toks, "--headed"@, "--no-headed"@);
    lemma_toggle_pair(m, toks, "--no-headed"@, "--headed"@);
    lemma_tok_headed(x, "--headed"@);
    lemma_tok_no_headed(apply_tok(x, Tok::Toggle("--headed"@)), "--no-headed"@);
    lemma_tok_no_headed(x, "--no-headed"@);
    lemma_tok_headed(apply_tok(x, Tok::Toggle("--no-headed"@)), "--headed"@);
}

#[verifier::rlimit(100)]
#[verifier::spinoff_prover]
proof fn lemma_pair_debug(m: FlagsV, toks: Seq<Tok>)
    ensures
        apply_toks(
            m,
            toks.push(Tok::Toggle("--debug"@)).push(Tok::Toggle("--no-debug"@)),
        ).debug == false,
        apply_toks(
            m,
            toks.push(Tok::Toggle("--no-debug"@)).push(Tok::Toggle("--debug"@)),
        ).debug == true,
{
    lemma_toggle_names_distinct();
    let x = apply_toks(m, toks);
    lemma_toggle_pair(m, toks, "--debug"@, "--no-debug"@);
    lemma_toggle_pair(m, toks, "--no-debug"@, "--debug"@);
    lemma_tok_debug(x, "--debug"@);
    lemma_tok_no_debug(apply_tok(x, Tok::Toggle("--debug"@)), "--no-debug"@);
    lemma_tok_no_debug(x, "--no-debug"@);
    lemma_tok_debug(apply_tok(x, Tok::Toggle("--no-debug"@)), "--debug"@);
}

#[verifier::rlimit(100)]
#[verifier::spinoff_prover]
proof fn lemma_pair_json(m: FlagsV, toks: Seq<Tok>)
    ensures
        apply_toks(
            m,
            toks.push(Tok::Toggle("--json"@)).push(Tok::Toggle("--no-json"@)),
        ).json == false,
        apply_toks(
            m,
            toks.push(Tok::Toggle("--no-json"@)).push(Tok::Toggle("--json"@)),
        ).json == true,
{
    lemma_toggle_names_distinct();
    let x = apply_toks(m, toks);
    lemma_toggle_pair(m, toks, "--json"@, "--no-json"@);
    lemma_toggle_pair(m, toks, "--no-json"@, "--json"@);
    lemma_tok_json(x, "--json"@);
    lemma_tok_no_json(apply_tok(x, Tok::Toggle("--json"@)), "--no-json"@);
    lemma_tok_no_json(x, "--no-json"@);
    lemma_tok_json(apply_tok(x, Tok::Toggle("--no-json"@)), "--json"@);
}

#[verifier::rlimit(100)]
#[verifier::spinoff_prover]
proof fn lemma_pair_ignore_https_errors(m: FlagsV, toks: Seq<Tok>)
    ensures
        apply_toks(
            m,
            toks.push(Tok::Toggle("--ignore-https-errors"@)).push(Tok::Toggle("--no-ignore-https-errors"@)),
        ).ignore_https_errors == false,
        apply_toks(
            m,
            toks.push(Tok::Toggle("--no-ignore-https-errors"@)).push(Tok::Toggle("--ignore-https-errors"@)),
        ).ignore_https_errors == true,
{
    lemma_toggle_names_distinct();
    let x = apply_toks(m, toks);
    lemma_toggle_pair(m, toks, "--ignore-https-errors"@, "--no-ignore-https-errors"@);
    lemma_toggle_pair(m, toks, "--no-ignore-https-errors"@, "--ignore-https-errors"@);
    lemma_tok_ignore_https_errors(x, "--ignore-https-errors"@);
    lemma_tok_no_ignore_https_errors(apply_tok(x, Tok::Toggle("--ignore-https-errors"@)), "--no-ignore-https-errors"@);
    lemma_tok_no_ignore_https_errors(x, "--no-ignore-https-errors"@);
    lemma_tok_ignore_https_errors(apply_tok(x, Tok::Toggle("--no-ignore-https-errors"@)), "--ignore-https-errors"@);
}

#[verifier::rlimit(100)]
#[verifier::spinoff_prover]
proof fn lemma_pair_allow_file_access(m: FlagsV, toks: Seq<Tok>)
    ensures
        apply_toks(
            m,
            toks.push(Tok::Toggle("--allow-file-access"@)).push(Tok::Toggle("--no-allow-file-access"@)),
        ).allow_file_access == false,
        apply_toks(
            m,
            toks.push(Tok::Toggle("--no-allow-file-access"@)).push(Tok::Toggle("--allow-file-access"@)),
        ).allow_file_access == true,
{
    lemma_toggle_names_distinct();
    let x = apply_toks(m, toks);
    lemma_toggle_pair(m, toks, "--allow-file-access"@, "--no-allow-file-access"@);
    lemma_toggle_pair(m, toks, "--no-allow-file-access"@, "--allow-file-access"@);
    lemma_tok_allow_file_access(x, "--allow-file-access"@);
    lemma_tok_no_allow_file_access(apply_tok(x, Tok::Toggle("--allow-file-access"@)), "--no-allow-file-access"@);
    lemma_tok_no_allow_file_access(x, "--no-allow-file-access"@);
    lemma_tok_allow_file_access(apply_tok(x, Tok::Toggle("--no-allow-file-access"@)), "--allow-file-access"@);
}

#[verifier::rlimit(100)]
#[verifier::spinoff_prover]
proof fn lemma_pair_auto_connect(m: FlagsV, toks: Seq<Tok>)
    ensures
        apply_toks(
            m,
            toks.push(Tok::Toggle("--auto-connect"@)).push(Tok::Toggle("--no-auto-connect"@)),
        ).auto_connect == false,
        apply_toks(
            m,
            toks.push(Tok::Toggle("--no-auto-connect"@)).push(Tok::Toggle("--auto-connect"@)),
        ).auto_connect == true,
{
    lemma_toggle_names_distinct();
    let x = apply_toks(m, toks);
    lemma_toggle_pair(m, toks, "--auto-connect"@, "--no-auto-connect"@);
    lemma_toggle_pair(m, toks, "--no-auto-connect"@, "--auto-connect"@);
    lemma_tok_auto_connect(x, "--auto-connect"@);
    lemma_tok_no_auto_connect(apply_tok(x, Tok::Toggle("--auto-connect"@)), "--no-auto-connect"@);
    lemma_tok_no_auto_connect(x, "--no-auto-connect"@);
    lemma_tok_auto_connect(apply_tok(x, Tok::Toggle("--no-auto-connect"@)), "--auto-connect"@);
}

/// For every toggle field with a negation flag, the later of the two
/// command-line occurrences wins: the pair positive-then-negative ends
/// `false`, and negative-then-positive ends `true`, whatever came
/// before.
pub proof fn lemma_toggle_last_wins(m: FlagsV, toks: Seq<Tok>)
    ensures
        apply_toks(
            m,
            toks.push(Tok::Toggle("--headed"@)).push(Tok::Toggle("--no-headed"@)),
        ).headed == false,
        apply_toks(
            m,
            toks.push(Tok::Toggle("--no-headed"@)).push(Tok::Toggle("--headed"@)),
        ).headed == true,
        apply_toks(
            m,
            toks.push(Tok::Toggle("--debug"@)).push(Tok::Toggle("--no-debug"@)),
        ).debug == false,
        apply_toks(
            m,
            toks.push(Tok::Toggle("--no-debug"@)).push(Tok::Toggle("--debug"@)),
        ).debug == true,
        apply_toks(
            m,
            toks.push(Tok::Toggle("--json"@)).push(Tok::Toggle("--no-json"@)),
        ).json == false,
        apply_toks(
            m,
            toks.push(Tok::Toggle("--no-json"@)).push(Tok::Toggle("--json"@)),
        ).json == true,
        apply_toks(
            m,
            toks.push(Tok::Toggle("--ignore-https-errors"@)).push(Tok::Toggle("--no-ignore-https-errors"@)),
        ).ignore_https_errors == false,
        apply_toks(
            m,
            toks.push(Tok::Toggle("--no-ignore-https-errors"@)).push(Tok::Toggle("--ignore-https-errors"@)),
        ).ignore_https_errors == true,
        apply_toks(
            m,
            toks.push(Tok::Toggle("--allow-file-access"@)).push(Tok::Toggle("--no-allow-file-access"@)),
        ).allow_file_access == false,
        apply_toks(
            m,
            toks.push(Tok::Toggle("--no-allow-file-access"@)).push(Tok::Toggle("--allow-file-access"@)),
        ).allow_file_access == true,
        apply_toks(
            m,
            toks.push(Tok::Toggle("--auto-connect"@)).push(Tok::Toggle("--no-auto-connect"@)),
        ).auto_connect == false,
        apply_toks(
            m,
            toks.push(Tok::Toggle("--no-auto-connect"@)).push(Tok::Toggle("--auto-connect"@)),
        ).auto_connect == true,
{
    lemma_pair_headed(m, toks);
    lemma_pair_debug(m, toks);
    lemma_pair_json(m, toks);
    lemma_pair_ignore_https_errors(m, toks);
    lemma_pair_allow_file_access(m, toks);
    lemma_pair_auto_connect(m, toks);
}

proof fn lemma_toggle_pair(m: FlagsV, toks: Seq<Tok>, first: Seq<char>, second: Seq<char>)
    ensures
        apply_toks(m, toks.push(Tok::Toggle(first)).push(Tok::Toggle(second))) == apply_tok(
            apply_tok(apply_toks(m, toks), Tok::Toggle(first)),
            Tok::Toggle(second),
        ),
{
    lemma_apply_toks_snoc(m, toks.push(Tok::Toggle(first)), Tok::Toggle(second));
    lemma_apply_toks_snoc(m, toks, Tok::Toggle(first));
}

/// Whether a token stream contains a `--profile` occurrence that
/// consumed a value.
pub open spec fn mentions_profile(toks: Seq<Tok>) -> bool
    decreases toks.len(),
{
    if toks.len() == 0 {
        false
    } else {
        (toks.first() matches Tok::Valued(n, _) && n == "--profile"@) || mentions_profile(
            toks.drop_first(),
        )
    }
}

proof fn lemma_cli_profile_step(m: FlagsV, toks: Seq<Tok>)
    ensures
        apply_toks(m, toks).cli_profile == (m.cli_profile || mentions_profile(toks)),
    decreases toks.len(),
{
    reveal(apply_tok);
    lemma_profile_name_distinct();
    if toks.len() == 0 {
    } else {
        lemma_cli_profile_step(apply_tok(m, toks.first()), toks.drop_first());
    }
}

/// Provenance for the profile field: the marker is set exactly when a
/// `--profile` flag consumed a value on the command line — never by the
/// environment or the file layer, and whatever the field's final value.
pub proof fn lemma_profile_provenance(c: Config, e: Env, toks: Seq<Tok>)
    ensures
        apply_toks(base_of(c, e), toks).cli_profile == mentions_profile(toks),
{
    lemma_cli_profile_step(base_of(c, e), toks);
}

} // verus!
