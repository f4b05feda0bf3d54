//! The options resolver: turns the raw values produced by a generic argument
//! parser (`RawMatches`), together with a snapshot of the process environment
//! (`EnvInfo`), into the immutable `Options` record that the rest of the
//! application consumes.
//!
//! Resolution either yields a complete record or fails: a missing (or empty)
//! target and an unparsable `--timeout` value are the only two errors.
//! Defaults are substituted only for values that are entirely absent, never
//! for values that are present but invalid; `base_url`, `cookie_file`,
//! `encoding` and `output` fall back to their declared schema defaults, while
//! `timeout` and `user_agent` fall back to the resolver's own constants.

use vstd::prelude::*;

use crate::num::spec_parse_u64;
use crate::num::parse_u64;

verus! {

/// The fallback network timeout, in seconds, substituted when no `--timeout`
/// value was supplied. The schema's declared default shown in the help text
/// is `60`; the resolver's own fallback layer is this constant, and it is
/// the resolver's layer that decides the resolved record.
pub const DEFAULT_NETWORK_TIMEOUT: u64 = 120;

/// A cookie entry. The resolver never constructs or inspects one: the cookie
/// list of a fresh `Options` record starts empty and is filled by an external
/// collaborator from the file that `cookie_file` points to.
pub struct Cookie;

/// Why resolution aborted instead of producing an `Options` record.
#[derive(Clone, Copy, Debug, PartialEq, Eq, Structural)]
pub enum ResolveError {
    /// The mandatory positional target was not supplied.
    MissingRequiredArgument,
    /// The `--timeout` value could not be parsed as an unsigned integer.
    MalformedNumericOption,
}

/// The raw token-name to value(s) map that the generic argument parser
/// produced: one `bool` per presence flag, the supplied text (if any) of each
/// single-value option, and the `--domain` occurrences in command-line order.
pub struct RawMatches {
    pub target: Option<String>,
    pub base_url: Option<String>,
    pub cookie_file: Option<String>,
    pub encoding: Option<String>,
    pub output: Option<String>,
    pub timeout: Option<String>,
    pub user_agent: Option<String>,
    pub domains: Vec<String>,
    pub no_audio: bool,
    pub blacklist_domains: bool,
    pub no_css: bool,
    pub ignore_errors: bool,
    pub no_frames: bool,
    pub no_fonts: bool,
    pub no_images: bool,
    pub isolate: bool,
    pub no_js: bool,
    pub insecure: bool,
    pub no_metadata: bool,
    pub silent: bool,
    pub unwrap_noscript: bool,
    pub no_video: bool,
}

/// The mathematical view of `RawMatches`.
#[verifier::ext_equal]
pub struct RawModel {
    pub target: Option<Seq<char>>,
    pub base_url: Option<Seq<char>>,
    pub cookie_file: Option<Seq<char>>,
    pub encoding: Option<Seq<char>>,
    pub output: Option<Seq<char>>,
    pub timeout: Option<Seq<char>>,
    pub user_agent: Option<Seq<char>>,
    pub domains: Seq<Seq<char>>,
    pub no_audio: bool,
    pub blacklist_domains: bool,
    pub no_css: bool,
    pub ignore_errors: bool,
    pub no_frames: bool,
    pub no_fonts: bool,
    pub no_images: bool,
    pub isolate: bool,
    pub no_js: bool,
    pub insecure: bool,
    pub no_metadata: bool,
    pub silent: bool,
    pub unwrap_noscript: bool,
    pub no_video: bool,
}

impl View for RawMatches {
    type V = RawModel;

    open spec fn view(&self) -> RawModel {
        RawModel {
            target: self.target.deep_view(),
            base_url: self.base_url.deep_view(),
            cookie_file: self.cookie_file.deep_view(),
            encoding: self.encoding.deep_view(),
            output: self.output.deep_view(),
            timeout: self.timeout.deep_view(),
            user_agent: self.user_agent.deep_view(),
            domains: self.domains.deep_view(),
            no_audio: self.no_audio,
            blacklist_domains: self.blacklist_domains,
            no_css: self.no_css,
            ignore_errors: self.ignore_errors,
            no_frames: self.no_frames,
            no_fonts: self.no_fonts,
            no_images: self.no_images,
            isolate: self.isolate,
            no_js: self.no_js,
            insecure: self.insecure,
            no_metadata: self.no_metadata,
            silent: self.silent,
            unwrap_noscript: self.unwrap_noscript,
            no_video: self.no_video,
        }
    }
}

/// A read-only snapshot of the environment signals that resolution consumes:
/// whether the "no color" variable is set (to any value), the terminal-type
/// variable's value if set, and whether the error-output stream is connected
/// to an interactive terminal.
pub struct EnvInfo {
    pub no_color_var_set: bool,
    pub term: Option<String>,
    pub stderr_is_tty: bool,
}

/// The mathematical view of `EnvInfo`.
#[verifier::ext_equal]
pub struct EnvModel {
    pub no_color_var_set: bool,
    pub term: Option<Seq<char>>,
    pub stderr_is_tty: bool,
}

impl View for EnvInfo {
    type V = EnvModel;

    open spec fn view(&self) -> EnvModel {
        EnvModel {
            no_color_var_set: self.no_color_var_set,
            term: self.term.deep_view(),
            stderr_is_tty: self.stderr_is_tty,
        }
    }
}

/// The resolved configuration record: constructed exactly once per
/// invocation, immutable afterward.
pub struct Options {
    pub no_audio: bool,
    pub base_url: Option<String>,
    pub blacklist_domains: bool,
    pub no_css: bool,
    pub cookie_file: Option<String>,
    pub cookies: Vec<Cookie>,
    pub domains: Option<Vec<String>>,
    pub ignore_errors: bool,
    pub encoding: Option<String>,
    pub no_frames: bool,
    pub no_fonts: bool,
    pub no_images: bool,
    pub isolate: bool,
    pub no_js: bool,
    pub insecure: bool,
    pub no_metadata: bool,
    pub output: String,
    pub silent: bool,
    pub timeout: u64,
    pub user_agent: Option<String>,
    pub no_video: bool,
    pub target: String,
    pub no_color: bool,
    pub unwrap_noscript: bool,
}

/// The mathematical view of `Options`.
#[verifier::ext_equal]
pub struct OptionsModel {
    pub no_audio: bool,
    pub base_url: Option<Seq<char>>,
    pub blacklist_domains: bool,
    pub no_css: bool,
    pub cookie_file: Option<Seq<char>>,
    pub cookies: Seq<Cookie>,
    pub domains: Option<Seq<Seq<char>>>,
    pub ignore_errors: bool,
    pub encoding: Option<Seq<char>>,
    pub no_frames: bool,
    pub no_fonts: bool,
    pub no_images: bool,
    pub isolate: bool,
    pub no_js: bool,
    pub insecure: bool,
    pub no_metadata: bool,
    pub output: Seq<char>,
    pub silent: bool,
    pub timeout: u64,
    pub user_agent: Option<Seq<char>>,
    pub no_video: bool,
    pub target: Seq<char>,
    pub no_color: bool,
    pub unwrap_noscript: bool,
}

impl View for Options {
    type V = OptionsModel;

    open spec fn view(&self) -> OptionsModel {
        OptionsModel {
            no_audio: self.no_audio,
            base_url: self.base_url.deep_view(),
            blacklist_domains: self.blacklist_domains,
            no_css: self.no_css,
            cookie_file: self.cookie_file.deep_view(),
            cookies: self.cookies@,
            domains: self.domains.deep_view(),
            ignore_errors: self.ignore_errors,
            encoding: self.encoding.deep_view(),
            no_frames: self.no_frames,
            no_fonts: self.no_fonts,
            no_images: self.no_images,
            isolate: self.isolate,
            no_js: self.no_js,
            insecure: self.insecure,
            no_metadata: self.no_metadata,
            output: self.output@,
            silent: self.silent,
            timeout: self.timeout,
            user_agent: self.user_agent.deep_view(),
            no_video: self.no_video,
            target: self.target@,
            no_color: self.no_color,
            unwrap_noscript: self.unwrap_noscript,
        }
    }
}

/// The output file name substituted when no `--output` value was supplied:
/// the schema's declared default.
pub open spec fn default_output() -> Seq<char> {
    "document.html"@
}

/// The base URL substituted when no `--base-url` value was supplied: the
/// schema's declared default.
pub open spec fn default_base_url() -> Seq<char> {
    "http://localhost/"@
}

/// The cookie-file path substituted when no `--cookies` value was supplied:
/// the schema's declared default.
pub open spec fn default_cookie_file() -> Seq<char> {
    "cookies.txt"@
}

/// The character set substituted when no `--encoding` value was supplied:
/// the schema's declared default.
pub open spec fn default_encoding() -> Seq<char> {
    "UTF-8"@
}

/// The fixed desktop-browser identification substituted when no
/// `--user-agent` value was supplied.
pub open spec fn default_user_agent() -> Seq<char> {
    "Mozilla/5.0 (X11; Ubuntu; Linux x86_64; rv:73.0) Gecko/20100101 Firefox/73.0"@
}

/// The supplied value where there is one, else the given default.
pub open spec fn or_default_view(value: Option<Seq<char>>, default: Seq<char>) -> Seq<char> {
    match value {
        Some(v) => v,
        None => default,
    }
}

/// True when the mandatory positional target was supplied and is non-empty.
pub open spec fn target_supplied(raw: RawModel) -> bool {
    raw.target matches Some(t) && t.len() > 0
}

/// True when the `--timeout` value, if supplied, parses as a `u64`.
/// An absent value is well-formed: the fallback takes its place.
pub open spec fn timeout_wellformed(raw: RawModel) -> bool {
    raw.timeout matches Some(text) ==> spec_parse_u64(text) is Some
}

/// The resolved timeout: the supplied text parsed as a `u64`, or the
/// resolver-level fallback when no text was supplied.
pub open spec fn spec_timeout(timeout: Option<Seq<char>>) -> Option<u64> {
    match timeout {
        Some(text) => spec_parse_u64(text),
        None => Some(DEFAULT_NETWORK_TIMEOUT),
    }
}

/// The resolved domain list: absent when no `--domain` occurrence was
/// supplied, otherwise exactly the occurrences in command-line order,
/// duplicates kept.
pub open spec fn spec_domains(domains: Seq<Seq<char>>) -> Option<Seq<Seq<char>>> {
    if domains.len() == 0 {
        None
    } else {
        Some(domains)
    }
}

/// Whether colored terminal output is suppressed: the "no color" variable is
/// set, or the error-output stream is not an interactive terminal, or the
/// terminal type is the literal `dumb`. The terminal-type check can only add
/// suppression, never remove it.
pub open spec fn spec_no_color(env: EnvModel) -> bool {
    env.no_color_var_set || !env.stderr_is_tty || (env.term matches Some(t) && t == "dumb"@)
}

/// The record that a successful resolution of `raw` under `env` produces,
/// given the already-resolved target and timeout.
pub open spec fn spec_options(raw: RawModel, env: EnvModel, target: Seq<char>, timeout: u64) -> OptionsModel {
    OptionsModel {
        no_audio: raw.no_audio,
        base_url: Some(or_default_view(raw.base_url, default_base_url())),
        blacklist_domains: raw.blacklist_domains,
        no_css: raw.no_css,
        cookie_file: Some(or_default_view(raw.cookie_file, default_cookie_file())),
        cookies: Seq::empty(),
        domains: spec_domains(raw.domains),
        ignore_errors: raw.ignore_errors,
        encoding: Some(or_default_view(raw.encoding, default_encoding())),
        no_frames: raw.no_frames,
        no_fonts: raw.no_fonts,
        no_images: raw.no_images,
        isolate: raw.isolate,
        no_js: raw.no_js,
        insecure: raw.insecure,
        no_metadata: raw.no_metadata,
        output: or_default_view(raw.output, default_output()),
        silent: raw.silent,
        timeout,
        user_agent: Some(or_default_view(raw.user_agent, default_user_agent())),
        no_video: raw.no_video,
        target,
        no_color: spec_no_color(env),
        unwrap_noscript: raw.unwrap_noscript,
    }
}

/// What resolving `raw` under `env` yields: the complete record, or the one
/// error that aborts it. A missing or empty target fails first; a supplied
/// but unparsable `--timeout` fails next; nothing else can fail.
pub open spec fn spec_resolve(raw: RawModel, env: EnvModel) -> Result<OptionsModel, ResolveError> {
    match raw.target {
        None => Err(ResolveError::MissingRequiredArgument),
        Some(target) => {
            if target.len() == 0 {
                Err(ResolveError::MissingRequiredArgument)
            } else {
                match spec_timeout(raw.timeout) {
                    None => Err(ResolveError::MalformedNumericOption),
                    Some(timeout) => Ok(spec_options(raw, env, target, timeout)),
                }
            }
        },
    }
}

/// The view of a resolution result.
pub open spec fn result_view(r: Result<Options, ResolveError>) -> Result<OptionsModel, ResolveError> {
    match r {
        Ok(options) => Ok(options@),
        Err(e) => Err(e),
    }
}

/// The supplied value where there is one, else the given default.
fn value_or(value: Option<String>, default: &str) -> (r: String)
    ensures
        r@ == or_default_view(value.deep_view(), default@),
{
    match value {
        Some(v) => v,
        None => default.to_owned(),
    }
}

/// True when the terminal-type value is the literal `dumb`.
fn term_is_dumb(term: &Option<String>) -> (r: bool)
    ensures
        r == (term.deep_view() matches Some(t) && t == "dumb"@),
{
    match term {
        Some(t) => {
            let dumb: String = "dumb".to_owned();
            *t == dumb
        },
        None => false,
    }
}

/// The record assembled by the resolver matches `spec_options` once each
/// field carries the resolved value.
proof fn lemma_options_view(options: Options, raw: RawModel, env: EnvModel, timeout: u64)
    requires
        raw.target is Some,
        options.no_audio == raw.no_audio,
        options.base_url.deep_view() == Some(or_default_view(raw.base_url, default_base_url())),
        options.blacklist_domains == raw.blacklist_domains,
        options.no_css == raw.no_css,
        options.cookie_file.deep_view() == Some(or_default_view(raw.cookie_file, default_cookie_file())),
        options.cookies@.len() == 0,
        options.domains.deep_view() == spec_domains(raw.domains),
        options.ignore_errors == raw.ignore_errors,
        options.encoding.deep_view() == Some(or_default_view(raw.encoding, default_encoding())),
        options.no_frames == raw.no_frames,
        options.no_fonts == raw.no_fonts,
        options.no_images == raw.no_images,
        options.isolate == raw.isolate,
        options.no_js == raw.no_js,
        options.insecure == raw.insecure,
        options.no_metadata == raw.no_metadata,
        options.output@ == or_default_view(raw.output, default_output()),
        options.silent == raw.silent,
        options.timeout == timeout,
        options.user_agent.deep_view() == Some(or_default_view(raw.user_agent, default_user_agent())),
        options.no_video == raw.no_video,
        options.target@ == raw.target->Some_0,
        options.no_color == spec_no_color(env),
        options.unwrap_noscript == raw.unwrap_noscript,
    ensures
        options@ == spec_options(raw, env, raw.target->Some_0, timeout),
{
    assert(options@ =~= spec_options(raw, env, raw.target->Some_0, timeout));
}

/// Builds the record from the already-resolved values. The ghost arguments
/// carry the raw map and the environment the values were resolved from, so
/// the result can be pinned to `spec_options`.
#[verifier::rlimit(100)]
fn assemble(
    target: String,
    base_url: String,
    cookie_file: String,
    encoding: String,
    output: String,
    timeout: u64,
    user_agent: String,
    domains: Vec<String>,
    no_color: bool,
    no_audio: bool,
    blacklist_domains: bool,
    no_css: bool,
    ignore_errors: bool,
    no_frames: bool,
    no_fonts: bool,
    no_images: bool,
    isolate: bool,
    no_js: bool,
    insecure: bool,
    no_metadata: bool,
    silent: bool,
    unwrap_noscript: bool,
    no_video: bool,
    Ghost(raw): Ghost<RawModel>,
    Ghost(env): Ghost<EnvModel>,
) -> (options: Options)
    requires
        raw.target is Some,
        target@ == raw.target->Some_0,
        base_url@ == or_default_view(raw.base_url, default_base_url()),
        cookie_file@ == or_default_view(raw.cookie_file, default_cookie_file()),
        encoding@ == or_default_view(raw.encoding, default_encoding()),
        output@ == or_default_view(raw.output, default_output()),
        user_agent@ == or_default_view(raw.user_agent, default_user_agent()),
        domains.deep_view() == raw.domains,
        no_color == spec_no_color(env),
        no_audio == raw.no_audio,
        blacklist_domains == raw.blacklist_domains,
        no_css == raw.no_css,
        ignore_errors == raw.ignore_errors,
        no_frames == raw.no_frames,
        no_fonts == raw.no_fonts,
        no_images == raw.no_images,
        isolate == raw.isolate,
        no_js == raw.no_js,
        insecure == raw.insecure,
        no_metadata == raw.no_metadata,
        silent == raw.silent,
        unwrap_noscript == raw.unwrap_noscript,
        no_video == raw.no_video,
    ensures
        options@ == spec_options(raw, env, raw.target->Some_0, timeout),
{
    let domains: Option<Vec<String>> = if domains.len() == 0 {
        None
    } else {
        Some(domains)
    };
    let options = Options {
        no_audio,
        base_url: Some(base_url),
        blacklist_domains,
        no_css,
        cookie_file: Some(cookie_file),
        cookies: Vec::new(),
        domains,
        ignore_errors,
        encoding: Some(encoding),
        no_frames,
        no_fonts,
        no_images,
        isolate,
        no_js,
        insecure,
        no_metadata,
        output,
        silent,
        timeout,
        user_agent: Some(user_agent),
        no_video,
        target,
        no_color,
        unwrap_noscript,
    };
    proof {
        lemma_options_view(options, raw, env, timeout);
    }
    options
}

impl Options {
    /// Resolves the raw parsed values and the environment snapshot into the
    /// final configuration record, exactly as `spec_resolve` states it:
    /// `Ok` if and only if the target is supplied and non-empty and the
    /// timeout text, where supplied, parses; `MissingRequiredArgument` on a
    /// missing target even when the timeout is also malformed.
    #[verifier::rlimit(100)]
    pub fn resolve(raw: RawMatches, env: &EnvInfo) -> (r: Result<Options, ResolveError>)
        ensures
            result_view(r) == spec_resolve(raw@, env@),
            r is Ok <==> target_supplied(raw@) && timeout_wellformed(raw@),
            r matches Err(e) ==> ((e == ResolveError::MissingRequiredArgument) <==> !target_supplied(raw@)),
    {
        let ghost raw0 = raw@;
        let RawMatches {
            target,
            base_url,
            cookie_file,
            encoding,
            output,
            timeout,
            user_agent,
            domains,
            no_audio,
            blacklist_domains,
            no_css,
            ignore_errors,
            no_frames,
            no_fonts,
            no_images,
            isolate,
            no_js,
            insecure,
            no_metadata,
            silent,
            unwrap_noscript,
            no_video,
        } = raw;
        let target: String = match target {
            None => {
                return Err(ResolveError::MissingRequiredArgument);
            },
            Some(t) => {
                if t.as_str().is_empty() {
                    return Err(ResolveError::MissingRequiredArgument);
                }
                t
            },
        };
        let timeout: u64 = match timeout {
            None => DEFAULT_NETWORK_TIMEOUT,
            Some(text) => match parse_u64(text.as_str()) {
                Some(seconds) => seconds,
                None => {
                    return Err(ResolveError::MalformedNumericOption);
                },
            },
        };
        let output: String = value_or(output, "document.html");
        let base_url: String = value_or(base_url, "http://localhost/");
        let cookie_file: String = value_or(cookie_file, "cookies.txt");
        let encoding: String = value_or(encoding, "UTF-8");
        let user_agent: String = value_or(
            user_agent,
            "Mozilla/5.0 (X11; Ubuntu; Linux x86_64; rv:73.0) Gecko/20100101 Firefox/73.0",
        );
        let no_color: bool = env.no_color_var_set || !env.stderr_is_tty || term_is_dumb(&env.term);
        let options = assemble(
            target,
            base_url,
            cookie_file,
            encoding,
            output,
            timeout,
            user_agent,
            domains,
            no_color,
            no_audio,
            blacklist_domains,
            no_css,
            ignore_errors,
            no_frames,
            no_fonts,
            no_images,
            isolate,
            no_js,
            insecure,
            no_metadata,
            silent,
            unwrap_noscript,
            no_video,
            Ghost(raw0),
            Ghost(env@),
        );
        Ok(options)
    }
}

/// Law: an invocation that supplies only the required target resolves: every
/// boolean flag is false, `output`, `base_url`, `cookie_file` and `encoding`
/// carry their declared defaults, `timeout` is the resolver-level fallback
/// constant, `user_agent` is the fixed fallback string, the domain list is
/// absent, and the cookie list is empty.
pub proof fn lemma_only_target_defaults(raw: RawModel, env: EnvModel)
    requires
        target_supplied(raw),
        raw.base_url is None,
        raw.cookie_file is None,
        raw.encoding is None,
        raw.output is None,
        raw.timeout is None,
        raw.user_agent is None,
        raw.domains.len() == 0,
        !raw.no_audio,
        !raw.blacklist_domains,
        !raw.no_css,
        !raw.ignore_errors,
        !raw.no_frames,
        !raw.no_fonts,
        !raw.no_images,
        !raw.isolate,
        !raw.no_js,
        !raw.insecure,
        !raw.no_metadata,
        !raw.silent,
        !raw.unwrap_noscript,
        !raw.no_video,
    ensures
        spec_resolve(raw, env) matches Ok(m) && {
            &&& m.target == raw.target->Some_0
            &&& !m.no_audio
            &&& !m.blacklist_domains
            &&& !m.no_css
            &&& !m.ignore_errors
            &&& !m.no_frames
            &&& !m.no_fonts
            &&& !m.no_images
            &&& !m.isolate
            &&& !m.no_js
            &&& !m.insecure
            &&& !m.no_metadata
            &&& !m.silent
            &&& !m.unwrap_noscript
            &&& !m.no_video
            &&& m.output == default_output()
            &&& m.timeout == DEFAULT_NETWORK_TIMEOUT
            &&& m.user_agent == Some(default_user_agent())
            &&& m.domains is None
            &&& m.base_url == Some(default_base_url())
            &&& m.cookie_file == Some(default_cookie_file())
            &&& m.encoding == Some(default_encoding())
            &&& m.cookies.len() == 0
        },
{
}

/// Law: an invocation whose target is missing (or empty) fails with
/// `MissingRequiredArgument`; no record is produced.
pub proof fn lemma_missing_target_rejected(raw: RawModel, env: EnvModel)
    requires
        !target_supplied(raw),
    ensures
        spec_resolve(raw, env) == Err::<OptionsModel, ResolveError>(ResolveError::MissingRequiredArgument),
{
}

/// Law: an otherwise valid invocation whose `--timeout` value does not parse
/// as an unsigned integer fails with `MalformedNumericOption`; no default is
/// substituted for a present-but-invalid value.
pub proof fn lemma_malformed_timeout_rejected(raw: RawModel, env: EnvModel)
    requires
        target_supplied(raw),
        raw.timeout matches Some(text) && spec_parse_u64(text) is None,
    ensures
        spec_resolve(raw, env) == Err::<OptionsModel, ResolveError>(ResolveError::MalformedNumericOption),
{
}

/// Law: with at least one `--domain` occurrence, the resolved list is
/// present and is exactly the occurrences in command-line order, duplicates
/// kept.
pub proof fn lemma_domains_order_preserved(raw: RawModel, env: EnvModel)
    requires
        target_supplied(raw),
        timeout_wellformed(raw),
        raw.domains.len() >= 1,
    ensures
        spec_resolve(raw, env) matches Ok(m) && m.domains == Some(raw.domains),
{
}

/// Law: with no `--domain` occurrence, the resolved list is absent — never
/// an empty-but-present list.
pub proof fn lemma_no_domains_absent(raw: RawModel, env: EnvModel)
    requires
        target_supplied(raw),
        timeout_wellformed(raw),
        raw.domains.len() == 0,
    ensures
        spec_resolve(raw, env) matches Ok(m) && m.domains is None,
{
}

/// Law: when the "no color" variable is set — to any value — color is
/// suppressed, whatever the other flags and the terminal type say.
pub proof fn lemma_no_color_var_suppresses(raw: RawModel, env: EnvModel)
    requires
        target_supplied(raw),
        timeout_wellformed(raw),
        env.no_color_var_set,
    ensures
        spec_resolve(raw, env) matches Ok(m) && m.no_color,
{
}

/// Law: when the terminal type is the literal `dumb`, color is suppressed
/// even with the "no color" variable unset and an interactive error stream.
pub proof fn lemma_dumb_term_suppresses(raw: RawModel, env: EnvModel)
    requires
        target_supplied(raw),
        timeout_wellformed(raw),
        env.term matches Some(t) && t == "dumb"@,
    ensures
        spec_resolve(raw, env) matches Ok(m) && m.no_color,
{
}

} // verus!
