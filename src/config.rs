use vstd::prelude::*;
use crate::stream::segment_end;

verus! {

/// The server's configuration: listeners, API, notifications, credentials, and
/// the static streams.
#[derive(Debug)]
pub struct Config {
    pub rtmp: Option<RtmpConfig>,
    pub http: Option<HttpConfig>,
    pub edit_auth: EditAuthConfig,
    pub api: Option<HttpApiConfig>,
    pub httpnotify: Option<HttpNotifierConfig>,
    pub authsecret: AuthSecretConfig,
    pub streams: Option<Vec<Streams>>,
    pub log: Option<LogConfig>,
}

/// A static stream entry.
#[derive(Debug)]
pub struct Streams {
    /// The stream path, `app/stream`.
    pub name: String,
    pub disabled: Option<bool>,
    pub max_bitrate: Option<usize>,
    pub on_publish_url: Option<String>,
    pub max_sessions: Option<usize>,
}

#[derive(Debug)]
pub struct RtmpConfig {
    pub enabled: bool,
    pub port: Vec<usize>,
    pub gop_num: Option<usize>,
    pub pull: Option<RtmpPullConfig>,
    pub push: Option<Vec<RtmpPushConfig>>,
    pub auth: Option<AuthConfig>,
}

#[derive(Debug)]
pub struct RtmpPullConfig {
    pub enabled: bool,
    pub address: String,
    pub port: u16,
}

#[derive(Debug)]
pub struct RtmpPushConfig {
    pub enabled: bool,
    pub address: String,
    pub port: usize,
}

#[derive(Debug)]
pub struct HttpConfig {
    pub enabled: bool,
    pub port: Vec<usize>,
    /// Whether HLS segments are kept on disk.
    pub need_record: bool,
    pub auth: Option<AuthConfig>,
}

#[derive(Clone, Copy, Debug, PartialEq, Eq, Structural)]
pub enum LogLevel {
    Info,
    Warn,
    Error,
    Trace,
    Debug,
}

#[derive(Debug)]
pub struct LogConfig {
    pub level: String,
    pub file: Option<LogFile>,
}

#[derive(Debug)]
pub struct LogFile {
    pub enabled: bool,
    pub rotate: String,
    pub path: String,
}

#[derive(Debug)]
pub struct HttpApiConfig {
    pub port: usize,
}

#[derive(Debug)]
pub struct HttpNotifierConfig {
    pub enabled: bool,
    pub on_publish: Option<String>,
    pub on_unpublish: Option<String>,
    pub on_play: Option<String>,
    pub on_stop: Option<String>,
}

#[derive(Debug)]
pub struct AuthSecretConfig {
    pub key: String,
    pub password: String,
    pub push_password: Option<String>,
}

#[derive(Debug)]
pub struct EditAuthConfig {
    pub username: String,
    pub password: String,
}

/// How stream credentials are checked.
#[derive(Clone, Copy, Debug, PartialEq, Eq, Structural)]
pub enum AuthAlgorithm {
    Simple,
    Md5,
}

#[derive(Debug)]
pub struct AuthConfig {
    pub pull_enabled: bool,
    pub push_enabled: Option<bool>,
    pub algorithm: AuthAlgorithm,
}

impl Default for AuthSecretConfig {
    fn default() -> (r: Self)
        ensures
            r.key@.len() == 0,
            r.password@.len() == 0,
            r.push_password is None,
    {
        AuthSecretConfig { key: String::new(), password: String::new(), push_password: None }
    }
}

impl Default for EditAuthConfig {
    fn default() -> (r: Self)
        ensures
            r.username@.len() == 0,
            r.password@.len() == 0,
    {
        EditAuthConfig { username: String::new(), password: String::new() }
    }
}

impl Default for AuthAlgorithm {
    fn default() -> (r: Self)
        ensures
            r == AuthAlgorithm::Simple,
    {
        AuthAlgorithm::Simple
    }
}

impl Default for AuthConfig {
    fn default() -> (r: Self)
        ensures
            !r.pull_enabled,
            r.push_enabled is None,
            r.algorithm == AuthAlgorithm::Simple,
    {
        AuthConfig { pull_enabled: false, push_enabled: None, algorithm: AuthAlgorithm::Simple }
    }
}

impl Config {
    /// A configuration with RTMP and HTTP listeners on the given ports (each
    /// enabled only when it has a port), logging at `log_level`, and the single
    /// static stream `live/live`.
    pub fn new(rtmp_port: Vec<usize>, http_port: Vec<usize>, log_level: String) -> (r: Config)
        ensures
            (rtmp_port@.len() > 0) == (r.rtmp is Some),
            r.rtmp matches Some(c) ==> {
                &&& c.enabled
                &&& c.port@ == rtmp_port@
                &&& c.gop_num is None
                &&& c.pull is None
                &&& c.push is None
                &&& c.auth is None
            },
            (http_port@.len() > 0) == (r.http is Some),
            r.http matches Some(c) ==> {
                &&& c.enabled
                &&& c.port@ == http_port@
                &&& !c.need_record
                &&& c.auth is None
            },
            r.edit_auth.username@.len() == 0,
            r.edit_auth.password@.len() == 0,
            r.api is None,
            r.httpnotify is None,
            r.authsecret.key@.len() == 0,
            r.authsecret.password@.len() == 0,
            r.authsecret.push_password is None,
            r.streams matches Some(s) && s@.len() == 1 && s@[0].name@ == "live/live"@ && s@[0].disabled == Some(false)
                && s@[0].max_bitrate is None && s@[0].on_publish_url is None && s@[0].max_sessions is None,
            r.log matches Some(l) && l.level@ == log_level@ && l.file is None,
    {
        let rtmp_config = if rtmp_port.len() > 0 {
            Some(RtmpConfig { enabled: true, port: rtmp_port, gop_num: None, pull: None, push: None, auth: None })
        } else {
            None
        };
        let http_config = if http_port.len() > 0 {
            Some(HttpConfig { enabled: true, port: http_port, need_record: false, auth: None })
        } else {
            None
        };
        let log_config = Some(LogConfig { level: log_level, file: None });
        let mut streams: Vec<Streams> = Vec::new();
        streams.push(
            Streams {
                name: String::from_str("live/live"),
                disabled: Some(false),
                max_bitrate: None,
                on_publish_url: None,
                max_sessions: None,
            },
        );
        Config {
            rtmp: rtmp_config,
            http: http_config,
            edit_auth: EditAuthConfig::default(),
            api: None,
            httpnotify: None,
            authsecret: AuthSecretConfig::default(),
            streams: Some(streams),
            log: log_config,
        }
    }
}

/// The stored form of a stream path: unchanged when it names an application
/// (`app/stream`), else placed under the `static` application.
pub open spec fn canonical_name(name: Seq<char>) -> Seq<char> {
    if segment_end(name, 0) < name.len() {
        name
    } else {
        "static/"@ + name
    }
}

/// Puts a stream path in its stored form.
pub fn canonical_stream_name(name: &str) -> (r: String)
    ensures
        r@ == canonical_name(name@),
{
    if crate::stream::has_app_part(name) {
        String::from_str(name)
    } else {
        let mut r = String::from_str("static/");
        r.append(name);
        r
    }
}


/// The mathematical value of a static stream entry.
pub struct StreamsEntry {
    pub name: Seq<char>,
    pub disabled: Option<bool>,
    pub max_bitrate: Option<usize>,
    pub on_publish_url: Option<Seq<char>>,
    pub max_sessions: Option<usize>,
}

impl View for Streams {
    type V = StreamsEntry;

    open spec fn view(&self) -> StreamsEntry {
        StreamsEntry {
            name: self.name@,
            disabled: self.disabled,
            max_bitrate: self.max_bitrate,
            on_publish_url: match self.on_publish_url {
                Some(u) => Some(u@),
                None => None,
            },
            max_sessions: self.max_sessions,
        }
    }
}

pub open spec fn entries(v: Seq<Streams>) -> Seq<StreamsEntry> {
    v.map_values(|s: Streams| s@)
}

/// The first position of an entry named `name`, or -1 when there is none.
pub open spec fn first_named(s: Seq<StreamsEntry>, name: Seq<char>) -> int {
    if exists|i: int| 0 <= i < s.len() && s[i].name == name && forall|j: int| 0 <= j < i ==> (#[trigger] s[j]).name != name {
        choose|i: int| 0 <= i < s.len() && s[i].name == name && forall|j: int| 0 <= j < i ==> (#[trigger] s[j]).name != name
    } else {
        -1
    }
}

/// `e` with its name in stored form.
pub open spec fn canonical_entry(e: StreamsEntry) -> StreamsEntry {
    StreamsEntry { name: canonical_name(e.name), ..e }
}

/// The static streams after `e` is saved: it replaces the first entry of the same
/// name, or is added at the end.
pub open spec fn saved_entries(s: Seq<StreamsEntry>, e: StreamsEntry) -> Seq<StreamsEntry> {
    let i = first_named(s, e.name);
    if i < 0 {
        s.push(e)
    } else {
        s.update(i, e)
    }
}

pub open spec fn named_other_than(name: Seq<char>) -> spec_fn(StreamsEntry) -> bool {
    |e: StreamsEntry| e.name != name
}

/// Why a static stream entry could not be deleted.
#[derive(Clone, Copy, Debug, PartialEq, Eq, Structural)]
pub enum StreamEditError {
    /// The configuration has no list of static streams.
    NoStreams,
    /// No entry has the name.
    NotFound,
}

fn find_named(v: &Vec<Streams>, name: &String) -> (r: Option<usize>)
    ensures
        match r {
            Some(i) => i as int == first_named(entries(v@), name@) && i < v@.len(),
            None => first_named(entries(v@), name@) == -1,
        },
{
    let ghost s = entries(v@);
    let mut i: usize = 0;
    while i < v.len()
        invariant
            s == entries(v@),
            0 <= i <= v@.len(),
            forall|j: int| 0 <= j < i ==> (#[trigger] s[j]).name != name@,
        decreases v@.len() - i,
    {
        if v[i].name == *name {
            proof {
                assert(s[i as int].name == name@);
                let k = first_named(s, name@);
                assert(0 <= k < s.len() && s[k].name == name@);
                if k < i {
                    assert(s[k].name != name@);
                }
                if k > i {
                    assert(s[i as int].name != name@);
                }
            }
            return Some(i);
        }
        assert(s[i as int].name != name@);
        i = i + 1;
    }
    None
}

/// Saves a static stream entry, its name first put in stored form: it replaces the
/// first entry of the same name, or is added at the end of the list (which is
/// created when missing). Nothing else in the configuration changes.
pub fn save_stream_entry(config: &mut Config, stream: Streams)
    ensures
        final(config).streams matches Some(v) && entries(v@) == saved_entries(
            match old(config).streams {
                Some(o) => entries(o@),
                None => Seq::empty(),
            },
            canonical_entry(stream@),
        ),
        final(config).rtmp == old(config).rtmp,
        final(config).http == old(config).http,
        final(config).edit_auth == old(config).edit_auth,
        final(config).api == old(config).api,
        final(config).httpnotify == old(config).httpnotify,
        final(config).authsecret == old(config).authsecret,
        final(config).log == old(config).log,
{
    let mut stream = stream;
    let ghost given = stream@;
    stream.name = canonical_stream_name(stream.name.as_str());
    assert(stream@ == canonical_entry(given));
    let mut list = match config.streams.take() {
        Some(v) => v,
        None => Vec::new(),
    };
    let ghost before = entries(list@);
    assert(before =~= match old(config).streams {
        Some(o) => entries(o@),
        None => Seq::empty(),
    });
    match find_named(&list, &stream.name) {
        Some(i) => {
            list[i] = stream;
            proof {
                assert(entries(list@) =~= saved_entries(before, canonical_entry(given)));
            }
        },
        None => {
            list.push(stream);
            proof {
                assert(entries(list@) =~= saved_entries(before, canonical_entry(given)));
            }
        },
    }
    config.streams = Some(list);
}

/// Deletes every static stream entry named `name` (in stored form). Fails with
/// `NoStreams` when the configuration has no list, and with `NotFound`, changing
/// nothing, when no entry has the name.
pub fn delete_stream_entry(config: &mut Config, name: &str) -> (r: Result<(), StreamEditError>)
    ensures
        match old(config).streams {
            None => r == Err::<(), StreamEditError>(StreamEditError::NoStreams) && *final(config) == *old(config),
            Some(o) => {
                let kept = entries(o@).filter(named_other_than(canonical_name(name@)));
                &&& (r is Ok) == (kept.len() < o@.len())
                &&& r is Err ==> r == Err::<(), StreamEditError>(StreamEditError::NotFound)
                &&& final(config).streams matches Some(v) && entries(v@) == kept
            },
        },
        final(config).rtmp == old(config).rtmp,
        final(config).http == old(config).http,
        final(config).edit_auth == old(config).edit_auth,
        final(config).api == old(config).api,
        final(config).httpnotify == old(config).httpnotify,
        final(config).authsecret == old(config).authsecret,
        final(config).log == old(config).log,
{
    let target = canonical_stream_name(name);
    let mut list = match config.streams.take() {
        Some(v) => v,
        None => {
            return Err(StreamEditError::NoStreams);
        },
    };
    let ghost o = entries(list@);
    let ghost pred = named_other_than(target@);
    let len_before = list.len();
    let mut i: usize = 0;
    let ghost mut j: int = 0;
    while i < list.len()
        invariant
            0 <= j <= o.len(),
            pred == named_other_than(target@),
            len_before == o.len(),
            entries(list@) == o.take(j).filter(pred) + o.subrange(j, o.len() as int),
            i as int == o.take(j).filter(pred).len(),
        decreases o.len() - j,
    {
        proof {
            reveal(Seq::filter);
            assert(o.take(j + 1).drop_last() =~= o.take(j));
            assert(entries(list@)[i as int] == o[j]);
        }
        if list[i].name == target {
            let ghost prev = entries(list@);
            list.remove(i);
            proof {
                assert(entries(list@) =~= prev.remove(i as int));
                assert(prev.remove(i as int) =~= o.take(j).filter(pred) + o.subrange(j + 1, o.len() as int));
                reveal(Seq::filter);
                assert(o.take(j + 1).drop_last() =~= o.take(j));
                assert(!pred(o[j]));
                assert(o.take(j + 1).filter(pred) == o.take(j).filter(pred));
                assert(entries(list@) =~= o.take(j + 1).filter(pred) + o.subrange(j + 1, o.len() as int));
            }
        } else {
            proof {
                reveal(Seq::filter);
                assert(o.take(j + 1).drop_last() =~= o.take(j));
                assert(pred(o[j]));
                assert(o.take(j + 1).filter(pred) == o.take(j).filter(pred).push(o[j]));
                assert(entries(list@) =~= o.take(j + 1).filter(pred) + o.subrange(j + 1, o.len() as int));
            }
            i = i + 1;
        }
        proof {
            j = j + 1;
        }
    }
    proof {
        assert(o.take(j) =~= o) by {
            if j < o.len() {
                assert(entries(list@).len() == i + (o.len() - j));
            }
        }
        assert(entries(list@) =~= o.filter(pred));
    }
    let removed_any = list.len() < len_before;
    config.streams = Some(list);
    if removed_any {
        Ok(())
    } else {
        Err(StreamEditError::NotFound)
    }
}


#[verifier::external_type_specification]
#[verifier::external_body]
pub struct ExIoError(std::io::Error);

/// Why the configuration could not be read or written.
#[derive(Debug)]
pub struct ConfigError {
    pub value: ConfigErrorValue,
}

#[derive(Debug)]
pub enum ConfigErrorValue {
    IOError(std::io::Error),
}

impl From<std::io::Error> for ConfigError {
    fn from(error: std::io::Error) -> (r: Self) {
        ConfigError { value: ConfigErrorValue::IOError(error) }
    }
}

impl vstd::std_specs::convert::FromSpecImpl<std::io::Error> for ConfigError {
    open spec fn obeys_from_spec() -> bool {
        true
    }

    open spec fn from_spec(error: std::io::Error) -> ConfigError {
        ConfigError { value: ConfigErrorValue::IOError(error) }
    }
}

/// A stream path from its application and stream names: `app/stream`.
pub fn stream_path(app_name: &str, stream_name: &str) -> (r: String)
    ensures
        r@ == app_name@ + "/"@ + stream_name@,
{
    let mut r = String::from_str(app_name);
    r.append("/");
    r.append(stream_name);
    r
}

} // verus!
