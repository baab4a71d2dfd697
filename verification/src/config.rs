//! Where the Docker daemon is and how to talk to it: the settings read from the environment
//! and from the properties file, and the order in which they are taken.
use std::str::FromStr;
use vstd::prelude::*;

use crate::env::{command_named, Command, GetEnvValue};
use crate::mounts::opt_view;
use crate::text::{parse_i64_range, parse_i64_seq, str_eq};

verus! {

/// The default `DOCKER_HOST` address that a client tries to connect to.
pub const DEFAULT_DOCKER_HOST: &'static str = "unix:///var/run/docker.sock";

/// Why the configuration could not be used.
#[derive(Debug, Clone, PartialEq, Eq)]
pub enum ConfigurationError {
    /// The Docker host is not a valid URL.
    InvalidDockerHost(String),
}

/// What `url::Url` makes of `text`: the serialization of the URL it parses to, or `None`
/// where `text` is not a valid URL.
pub uninterp spec fn url_serialization(text: Seq<char>) -> Option<Seq<char>>;

/// Parses `text` as a URL and gives back its serialization.
///
/// Calls `url::Url::from_str` and, where it succeeds, `String::from` on the URL; the result
/// is named by [`url_serialization`].
#[verifier::external_body]
fn normalize_url(text: &str) -> (r: Option<String>)
    ensures
        opt_view(r) == url_serialization(text@),
{
    match url::Url::from_str(text) {
        Ok(url) => Some(String::from(url)),
        Err(_) => None,
    }
}

/// Why the properties file could not be used.
#[derive(Debug, Clone, PartialEq, Eq)]
pub enum PropertiesError {
    /// A host is not a valid URL.
    InvalidUrl(String),
    /// The TLS verification flag is not `0` or `1`.
    InvalidFlag(String),
}

/// A flag written as an integer: `0` is off, `1` is on, anything else is none.
pub open spec fn bool_from_int(text: Seq<char>) -> Option<bool> {
    match parse_i64_seq(text) {
        Some(v) => if v == 0 {
            Some(false)
        } else if v == 1 {
            Some(true)
        } else {
            None
        },
        None => None,
    }
}

/// The settings of the client. URLs are held in their serialized form.
#[derive(Debug, Clone)]
pub struct Config {
    tc_host: Option<String>,
    host: Option<String>,
    tls_verify: Option<bool>,
    cert_path: Option<String>,
    command: Option<Command>,
}

/// The content of a [`Config`].
pub struct ConfigView {
    pub tc_host: Option<Seq<char>>,
    pub host: Option<Seq<char>>,
    pub tls_verify: Option<bool>,
    pub cert_path: Option<Seq<char>>,
    pub command: Option<Command>,
}

impl View for Config {
    type V = ConfigView;

    closed spec fn view(&self) -> ConfigView {
        ConfigView {
            tc_host: opt_view(self.tc_host),
            host: opt_view(self.host),
            tls_verify: self.tls_verify,
            cert_path: opt_view(self.cert_path),
            command: self.command,
        }
    }
}

/// The serialized URL of an optional `DOCKER_HOST` value; `None` where it is unset.
pub open spec fn env_host(docker_host: Option<Seq<char>>) -> Option<Seq<char>> {
    match docker_host {
        Some(h) => url_serialization(h),
        None => None,
    }
}

/// The optional `DOCKER_TLS_VERIFY` value turned on: it is set to `1`.
pub open spec fn env_tls_verify(value: Option<Seq<char>>) -> Option<bool> {
    match value {
        Some(v) => Some(v == "1"@),
        None => None,
    }
}

/// The command an optional `TESTCONTAINERS_COMMAND` value names; `None` where it is unset
/// or names none.
pub open spec fn env_command(value: Option<Seq<char>>) -> Option<Command> {
    match value {
        Some(v) => command_named(v),
        None => None,
    }
}

/// The view of an optional string slice.
pub open spec fn opt_str_view(s: Option<&str>) -> Option<Seq<char>> {
    match s {
        Some(v) => Some(v@),
        None => None,
    }
}

/// `r` is the configuration from the environment values `docker_host`, `tls_verify`,
/// `cert_path` and `command` (of `DOCKER_HOST`, `DOCKER_TLS_VERIFY`, `DOCKER_CERT_PATH` and
/// `TESTCONTAINERS_COMMAND`): refused, naming the Docker host, exactly where the Docker host
/// is not a valid URL; otherwise with no `tc.host`, the serialized Docker host, TLS
/// verification where the value is `1`, the certificate path, and the command named.
pub open spec fn env_config_outcome(
    r: Result<Config, ConfigurationError>,
    docker_host: Option<Seq<char>>,
    tls_verify: Option<Seq<char>>,
    cert_path: Option<Seq<char>>,
    command: Option<Seq<char>>,
) -> bool {
    &&& docker_host_valid(docker_host) <==> r is Ok
    &&& r matches Ok(c) ==> {
        &&& c@.tc_host is None
        &&& c@.host == env_host(docker_host)
        &&& c@.tls_verify == env_tls_verify(tls_verify)
        &&& c@.cert_path == cert_path
        &&& c@.command == env_command(command)
    }
    &&& r matches Err(ConfigurationError::InvalidDockerHost(h)) ==> docker_host == Some(h@)
}

/// The `DOCKER_HOST` value is absent, or a valid URL.
pub open spec fn docker_host_valid(docker_host: Option<Seq<char>>) -> bool {
    docker_host matches Some(h) ==> url_serialization(h) is Some
}

fn owned(s: Option<&str>) -> (r: Option<String>)
    ensures
        opt_view(r) == opt_str_view(s),
{
    match s {
        Some(v) => Some(v.to_owned()),
        None => None,
    }
}

fn borrowed(s: &Option<String>) -> (r: Option<&str>)
    ensures
        opt_str_view(r) == opt_view(*s),
{
    match s {
        Some(v) => Some(v.as_str()),
        None => None,
    }
}

fn either<T>(a: Option<T>, b: Option<T>) -> (r: Option<T>)
    ensures
        r == first_set(a, b),
{
    match a {
        Some(v) => Some(v),
        None => b,
    }
}

impl Config {
    /// The configuration from the values of `DOCKER_HOST`, `DOCKER_TLS_VERIFY`,
    /// `DOCKER_CERT_PATH` and `TESTCONTAINERS_COMMAND`, each as the environment holds it.
    ///
    /// The Docker host must be a valid URL; [`Config::try_from_env_values`] checks it.
    pub fn from_env_values(
        docker_host: Option<&str>,
        tls_verify: Option<&str>,
        cert_path: Option<&str>,
        command: Option<&str>,
    ) -> (r: Config)
        requires
            docker_host_valid(opt_str_view(docker_host)),
        ensures
            r@.tc_host is None,
            r@.host == env_host(opt_str_view(docker_host)),
            r@.tls_verify == env_tls_verify(opt_str_view(tls_verify)),
            r@.cert_path == opt_str_view(cert_path),
            r@.command == env_command(opt_str_view(command)),
    {
        let host = match docker_host {
            Some(h) => normalize_url(h),
            None => None,
        };
        let tls_verify = match tls_verify {
            Some(v) => Some(str_eq(v, "1")),
            None => None,
        };
        let command = match command {
            Some(v) => match Command::parse_command(v) {
                Ok(c) => Some(c),
                Err(_) => None,
            },
            None => None,
        };
        Config { tc_host: None, host, tls_verify, cert_path: owned(cert_path), command }
    }

    /// As [`Config::from_env_values`], where the Docker host is absent or a valid URL;
    /// otherwise the error names the Docker host.
    pub fn try_from_env_values(
        docker_host: Option<&str>,
        tls_verify: Option<&str>,
        cert_path: Option<&str>,
        command: Option<&str>,
    ) -> (r: Result<Config, ConfigurationError>)
        ensures
            docker_host_valid(opt_str_view(docker_host)) <==> r is Ok,
            r matches Ok(c) ==> {
                &&& c@.tc_host is None
                &&& c@.host == env_host(opt_str_view(docker_host))
                &&& c@.tls_verify == env_tls_verify(opt_str_view(tls_verify))
                &&& c@.cert_path == opt_str_view(cert_path)
                &&& c@.command == env_command(opt_str_view(command))
            },
            r matches Err(ConfigurationError::InvalidDockerHost(h)) ==> opt_str_view(docker_host)
                == Some(h@),
    {
        if let Some(h) = docker_host {
            if normalize_url(h).is_none() {
                return Err(ConfigurationError::InvalidDockerHost(h.to_owned()));
            }
        }
        Ok(Config::from_env_values(docker_host, tls_verify, cert_path, command))
    }

    /// The configuration from the environment that `E` reads: what
    /// [`Config::try_from_env_values`] makes of the values that `E` gives for `DOCKER_HOST`,
    /// `DOCKER_TLS_VERIFY`, `DOCKER_CERT_PATH` and `TESTCONTAINERS_COMMAND`, each read under
    /// its own key. What those values are is up to the implementation of `E`.
    pub fn load_from_env_config<E: GetEnvValue>() -> (r: Result<Config, ConfigurationError>)
        ensures
            exists|
                docker_host: Option<Seq<char>>,
                tls_verify: Option<Seq<char>>,
                cert_path: Option<Seq<char>>,
                command: Option<Seq<char>>,
            |
                #![trigger env_config_outcome(r, docker_host, tls_verify, cert_path, command)]
                E::env_holds("DOCKER_HOST"@, docker_host) && E::env_holds(
                    "DOCKER_TLS_VERIFY"@,
                    tls_verify,
                ) && E::env_holds("DOCKER_CERT_PATH"@, cert_path) && E::env_holds(
                    "TESTCONTAINERS_COMMAND"@,
                    command,
                ) && env_config_outcome(r, docker_host, tls_verify, cert_path, command),
    {
        let host = E::get_env_value("DOCKER_HOST");
        let tls_verify = E::get_env_value("DOCKER_TLS_VERIFY");
        let cert_path = E::get_env_value("DOCKER_CERT_PATH");
        let command = E::get_env_value("TESTCONTAINERS_COMMAND");
        let r = Config::try_from_env_values(
            borrowed(&host),
            borrowed(&tls_verify),
            borrowed(&cert_path),
            borrowed(&command),
        );
        assert(env_config_outcome(
            r,
            opt_view(host),
            opt_view(tls_verify),
            opt_view(cert_path),
            opt_view(command),
        ));
        r
    }

    /// The configuration from the properties file: its `tc.host`, `docker.host`,
    /// `docker.tls.verify` and `docker.cert.path`, with URLs in serialized form.
    pub fn from_properties(
        tc_host: Option<String>,
        host: Option<String>,
        tls_verify: Option<bool>,
        cert_path: Option<String>,
    ) -> (r: Config)
        ensures
            r@.tc_host == opt_view(tc_host),
            r@.host == opt_view(host),
            r@.tls_verify == tls_verify,
            r@.cert_path == opt_view(cert_path),
            r@.command is None,
    {
        Config { tc_host, host, tls_verify, cert_path, command: None }
    }

    /// The configuration from the values of the properties file, as it holds them: the
    /// `tc.host` and `docker.host` URLs, `docker.tls.verify` as `0` or `1`, and
    /// `docker.cert.path`. A URL that does not parse, or a verification flag other than `0`
    /// or `1`, is an error that names the value.
    pub fn from_property_values(
        tc_host: Option<&str>,
        host: Option<&str>,
        tls_verify: Option<&str>,
        cert_path: Option<&str>,
    ) -> (r: Result<Config, PropertiesError>)
        ensures
            r is Ok <==> (docker_host_valid(opt_str_view(tc_host)) && docker_host_valid(
                opt_str_view(host),
            ) && (tls_verify matches Some(v) ==> bool_from_int(v@) is Some)),
            r matches Ok(c) ==> {
                &&& c@.tc_host == env_host(opt_str_view(tc_host))
                &&& c@.host == env_host(opt_str_view(host))
                &&& c@.tls_verify == match tls_verify {
                    Some(v) => bool_from_int(v@),
                    None => None,
                }
                &&& c@.cert_path == opt_str_view(cert_path)
                &&& c@.command is None
            },
    {
        let tc = match tc_host {
            Some(t) => match normalize_url(t) {
                Some(u) => Some(u),
                None => return Err(PropertiesError::InvalidUrl(t.to_owned())),
            },
            None => None,
        };
        let h = match host {
            Some(t) => match normalize_url(t) {
                Some(u) => Some(u),
                None => return Err(PropertiesError::InvalidUrl(t.to_owned())),
            },
            None => None,
        };
        let verify = match tls_verify {
            Some(v) => {
                let n = v.unicode_len();
                proof {
                    assert(v@.subrange(0, n as int) =~= v@);
                }
                match parse_i64_range(v, 0, n) {
                    Some(0) => Some(false),
                    Some(1) => Some(true),
                    _ => return Err(PropertiesError::InvalidFlag(v.to_owned())),
                }
            },
            None => None,
        };
        Ok(Config { tc_host: tc, host: h, tls_verify: verify, cert_path: owned(cert_path), command: None })
    }

    /// The settings of `self`, the environment, where they are set, and those of
    /// `properties` elsewhere; the command comes from the environment alone.
    pub fn with_fallback(self, properties: Config) -> (r: Config)
        ensures
            r@ == merged_config(self@, properties@),
    {
        Config {
            tc_host: either(self.tc_host, properties.tc_host),
            host: either(self.host, properties.host),
            tls_verify: either(self.tls_verify, properties.tls_verify),
            cert_path: either(self.cert_path, properties.cert_path),
            command: self.command,
        }
    }

    /// The Docker host to use, resolved in this order: the `tc.host` property, the
    /// `DOCKER_HOST` environment variable, the `docker.host` property, and else the default
    /// Docker socket.
    pub fn docker_host(&self) -> (r: String)
        ensures
            r@ == resolved_docker_host(self@),
    {
        match &self.tc_host {
            Some(h) => h.clone(),
            None => match &self.host {
                Some(h) => h.clone(),
                None => match normalize_url(DEFAULT_DOCKER_HOST) {
                    Some(u) => u,
                    None => DEFAULT_DOCKER_HOST.to_owned(),
                },
            },
        }
    }

    /// Whether TLS is verified; by default it is not.
    pub fn tls_verify(&self) -> (r: bool)
        ensures
            r == (self@.tls_verify == Some(true)),
    {
        match self.tls_verify {
            Some(v) => v,
            None => false,
        }
    }

    /// The directory of the TLS certificates, if one is set.
    pub fn cert_path(&self) -> (r: Option<&str>)
        ensures
            opt_str_view(r) == self@.cert_path,
    {
        match &self.cert_path {
            Some(p) => Some(p.as_str()),
            None => None,
        }
    }

    /// What happens to containers when they are dropped; by default they are removed.
    pub fn command(&self) -> (r: Command)
        ensures
            r == (match self@.command {
                Some(c) => c,
                None => Command::Remove,
            }),
    {
        match self.command {
            Some(c) => c,
            None => Command::Remove,
        }
    }
}

/// The `User-Agent` header sent with every request to the Docker daemon.
pub const USER_AGENT_VALUE: &'static str = "tc-rust/0.26.0";

/// How long a request to the Docker daemon may take, in seconds.
pub const DEFAULT_TIMEOUT_SECS: u64 = 120;

/// The scheme of the URL that `text` parses to, lower-cased and without the `:`; `None`
/// where `text` is not a valid URL.
pub uninterp spec fn url_scheme_of(text: Seq<char>) -> Option<Seq<char>>;

/// The scheme of the URL `text`.
///
/// Calls `url::Url::from_str` and, where it succeeds, `Url::scheme`; the result is named by
/// [`url_scheme_of`].
#[verifier::external_body]
pub(crate) fn url_scheme(text: &str) -> (r: Option<String>)
    ensures
        opt_view(r) == url_scheme_of(text@),
{
    match url::Url::from_str(text) {
        Ok(url) => Some(url.scheme().to_owned()),
        Err(_) => None,
    }
}

/// The connector that reaches the Docker daemon.
#[derive(Debug, Clone, Copy, PartialEq, Eq, Structural)]
pub enum DockerTransport {
    /// HTTPS, with the certificates of the configured directory.
    Ssl,
    /// Plain HTTP.
    Http,
    /// A Unix socket.
    Unix,
    /// A Windows named pipe.
    NamedPipe,
}

/// Why no connection to the Docker daemon can be set up.
#[derive(Debug, Clone, PartialEq, Eq)]
pub enum ConnectError {
    /// The Docker host is not a valid URL.
    InvalidUrl(String),
    /// The Docker host's scheme has no connector.
    UnsupportedUriScheme { uri: String },
}

/// The connector for a URL scheme: `https`, and `http` or `tcp` where TLS is verified, go
/// over TLS; `http` and `tcp` otherwise over plain HTTP; `unix` and `npipe` over the local
/// socket or pipe.
pub open spec fn transport_for(scheme: Seq<char>, tls_verify: bool) -> Option<DockerTransport> {
    if scheme == "https"@ {
        Some(DockerTransport::Ssl)
    } else if scheme == "http"@ || scheme == "tcp"@ {
        if tls_verify {
            Some(DockerTransport::Ssl)
        } else {
            Some(DockerTransport::Http)
        }
    } else if scheme == "unix"@ {
        Some(DockerTransport::Unix)
    } else if scheme == "npipe"@ {
        Some(DockerTransport::NamedPipe)
    } else {
        None
    }
}

/// The connector for `scheme`.
pub fn transport_for_scheme(scheme: &str, tls_verify: bool) -> (r: Option<DockerTransport>)
    ensures
        r == transport_for(scheme@, tls_verify),
{
    if str_eq(scheme, "https") {
        Some(DockerTransport::Ssl)
    } else if str_eq(scheme, "http") || str_eq(scheme, "tcp") {
        if tls_verify {
            Some(DockerTransport::Ssl)
        } else {
            Some(DockerTransport::Http)
        }
    } else if str_eq(scheme, "unix") {
        Some(DockerTransport::Unix)
    } else if str_eq(scheme, "npipe") {
        Some(DockerTransport::NamedPipe)
    } else {
        None
    }
}

/// The connector of a configuration, and the Docker host it connects to.
pub fn docker_transport(config: &Config) -> (r: Result<(DockerTransport, String), ConnectError>)
    ensures
        ({
            let host = resolved_docker_host(config@);
            let tls = config@.tls_verify == Some(true);
            match url_scheme_of(host) {
                None => r matches Err(ConnectError::InvalidUrl(u)) && u@ == host,
                Some(scheme) => match transport_for(scheme, tls) {
                    Some(t) => r matches Ok((t2, h)) && t2 == t && h@ == host,
                    None => r matches Err(ConnectError::UnsupportedUriScheme { uri }) && uri@ == host,
                },
            }
        }),
{
    let host = config.docker_host();
    match url_scheme(host.as_str()) {
        None => Err(ConnectError::InvalidUrl(host)),
        Some(scheme) => match transport_for_scheme(scheme.as_str(), config.tls_verify()) {
            Some(t) => Ok((t, host)),
            None => Err(ConnectError::UnsupportedUriScheme { uri: host }),
        },
    }
}

/// The first of two optional settings that is set.
pub open spec fn first_set<T>(a: Option<T>, b: Option<T>) -> Option<T> {
    match a {
        Some(v) => Some(v),
        None => b,
    }
}

/// The settings of `env` where they are set, and those of `properties` elsewhere; the
/// command comes from `env` alone.
pub open spec fn merged_config(env: ConfigView, properties: ConfigView) -> ConfigView {
    ConfigView {
        tc_host: first_set(env.tc_host, properties.tc_host),
        host: first_set(env.host, properties.host),
        tls_verify: first_set(env.tls_verify, properties.tls_verify),
        cert_path: first_set(env.cert_path, properties.cert_path),
        command: env.command,
    }
}

/// The serialized default Docker host.
pub open spec fn default_docker_host() -> Seq<char> {
    match url_serialization(DEFAULT_DOCKER_HOST@) {
        Some(u) => u,
        None => DEFAULT_DOCKER_HOST@,
    }
}

/// The Docker host a configuration resolves to.
pub open spec fn resolved_docker_host(c: ConfigView) -> Seq<char> {
    match c.tc_host {
        Some(h) => h,
        None => match c.host {
            Some(h) => h,
            None => default_docker_host(),
        },
    }
}

/// The Docker host of the environment's settings, with the properties file behind them, is
/// resolved in the documented order: the `tc.host` property, then `DOCKER_HOST`, then the
/// `docker.host` property, and the default socket only where none of them is set.
pub proof fn law_docker_host_precedence(env: ConfigView, properties: ConfigView)
    requires
        env.tc_host is None,
    ensures
        resolved_docker_host(merged_config(env, properties)) == (match properties.tc_host {
            Some(t) => t,
            None => match env.host {
                Some(h) => h,
                None => match properties.host {
                    Some(h) => h,
                    None => default_docker_host(),
                },
            },
        }),
{
}

/// The environment's command is the one that counts: the properties file never changes it.
pub proof fn law_command_from_environment(env: ConfigView, properties: ConfigView)
    ensures
        merged_config(env, properties).command == env.command,
{
}

/// With TLS verification on, `http` and `tcp` Docker hosts alike are reached over TLS; and
/// `tcp` is reached as `http` is, whether TLS is verified or not.
pub proof fn law_tls_verification_secures_tcp_and_http(tls_verify: bool)
    ensures
        transport_for("tcp"@, true) == Some(DockerTransport::Ssl),
        transport_for("http"@, true) == Some(DockerTransport::Ssl),
        transport_for("tcp"@, tls_verify) == transport_for("http"@, tls_verify),
        transport_for("tcp"@, false) == Some(DockerTransport::Http),
{
    reveal_strlit("tcp");
    reveal_strlit("http");
    reveal_strlit("https");
    assert("tcp"@.len() != "https"@.len() && "http"@.len() != "https"@.len());
}

} // verus!
