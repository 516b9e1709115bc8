//! Configuration: where the platform listens, and where it keeps what.

use vstd::prelude::*;
use vstd::string::*;

use crate::paths;
use crate::text;

verus! {

/// Global configuration.
#[derive(Debug)]
pub struct Config {
    /// Name of this instance.
    pub app_name: String,
    /// Root directory of everything the platform stores: apps, databases, buckets.
    pub data_dir: String,
    /// Host name or address that the server listens on.
    pub host: String,
    /// Port of the main HTTP server.
    pub port: u16,
    /// Port of the embedded S3 server.
    pub s3_port: u16,
    /// Base domain of the subdomains that apps have.
    pub domain: String,
    /// First port that an app can have.
    pub app_port_start: u16,
    /// Last port that an app can have.
    pub app_port_end: u16,
    /// Minutes without traffic after which an app is suspended.
    pub suspend_timeout_mins: u64,
}

/// The environment variables that the configuration is read from, where they are set.
#[derive(Debug)]
pub struct EnvVars {
    /// `APP_NAME`
    pub app_name: Option<String>,
    /// `MYPAAS_DATA_DIR`
    pub data_dir: Option<String>,
    /// `MYPAAS_HOST`
    pub host: Option<String>,
    /// `MYPAAS_PORT`
    pub port: Option<String>,
    /// `MYPAAS_S3_PORT`
    pub s3_port: Option<String>,
    /// `MYPAAS_DOMAIN`
    pub domain: Option<String>,
    /// `MYPAAS_APP_PORT_START`
    pub app_port_start: Option<String>,
    /// `MYPAAS_APP_PORT_END`
    pub app_port_end: Option<String>,
    /// `MYPAAS_SUSPEND_TIMEOUT_MINS`
    pub suspend_timeout_mins: Option<String>,
}

/// The variable whose value is not the number that it should be.
#[derive(Debug, Clone, Copy, PartialEq, Eq, Structural)]
pub enum ConfigError {
    Port,
    S3Port,
    AppPortStart,
    AppPortEnd,
    SuspendTimeout,
}

impl ConfigError {
    /// What the error says.
    pub open spec fn text(self) -> Seq<char> {
        match self {
            ConfigError::Port => "MYPAAS_PORT must be a valid port number"@,
            ConfigError::S3Port => "MYPAAS_S3_PORT must be a valid port number"@,
            ConfigError::AppPortStart => "MYPAAS_APP_PORT_START must be a valid port number"@,
            ConfigError::AppPortEnd => "MYPAAS_APP_PORT_END must be a valid port number"@,
            ConfigError::SuspendTimeout => "MYPAAS_SUSPEND_TIMEOUT_MINS must be a number"@,
        }
    }

    /// What the error says.
    pub fn message(&self) -> (r: &'static str)
        ensures
            r@ == self.text(),
    {
        match self {
            ConfigError::Port => "MYPAAS_PORT must be a valid port number",
            ConfigError::S3Port => "MYPAAS_S3_PORT must be a valid port number",
            ConfigError::AppPortStart => "MYPAAS_APP_PORT_START must be a valid port number",
            ConfigError::AppPortEnd => "MYPAAS_APP_PORT_END must be a valid port number",
            ConfigError::SuspendTimeout => "MYPAAS_SUSPEND_TIMEOUT_MINS must be a number",
        }
    }
}

/// The value of a variable, or the default where it is not set.
pub open spec fn text_or(var: Option<String>, default: Seq<char>) -> Seq<char> {
    match var {
        Some(s) => s@,
        None => default,
    }
}

/// The number that a variable holds, or the default where it is not set; `None` where what it holds
/// is no number up to `max`.
pub open spec fn number_or(var: Option<String>, default: nat, max: nat) -> Option<nat> {
    match var {
        Some(s) => match text::unsigned_value(s@) {
            Some(n) if n <= max => Some(n),
            _ => None,
        },
        None => Some(default),
    }
}

fn text_of(var: Option<String>, default: &str) -> (r: String)
    ensures
        r@ == text_or(var, default@),
{
    match var {
        Some(s) => s,
        None => default.to_owned(),
    }
}

fn port_of(var: &Option<String>, default: u16) -> (r: Option<u16>)
    ensures
        match r {
            Some(n) => number_or(*var, default as nat, u16::MAX as nat) == Some(n as nat),
            None => number_or(*var, default as nat, u16::MAX as nat) is None,
        },
{
    match var {
        Some(s) => match text::parse_unsigned(s.as_str(), 65_535) {
            Some(n) => Some(n as u16),
            None => None,
        },
        None => Some(default),
    }
}

impl EnvVars {
    /// The first variable, in the order in which they are read, that does not hold the number it
    /// should; `None` where there is none.
    pub open spec fn first_error(self) -> Option<ConfigError> {
        if number_or(self.port, 3000, u16::MAX as nat) is None {
            Some(ConfigError::Port)
        } else if number_or(self.s3_port, 9000, u16::MAX as nat) is None {
            Some(ConfigError::S3Port)
        } else if number_or(self.app_port_start, 8100, u16::MAX as nat) is None {
            Some(ConfigError::AppPortStart)
        } else if number_or(self.app_port_end, 8999, u16::MAX as nat) is None {
            Some(ConfigError::AppPortEnd)
        } else if number_or(self.suspend_timeout_mins, 10, u64::MAX as nat) is None {
            Some(ConfigError::SuspendTimeout)
        } else {
            None
        }
    }
}

/// True for a Windows path that something can be appended to as it is: one that is empty, ends in a
/// separator, or is a drive.
pub open spec fn takes_no_separator(dir: Seq<char>) -> bool {
    ||| dir.len() == 0
    ||| dir.last() == '\\'
    ||| dir.last() == '/'
    ||| dir.len() == 2 && dir[1] == ':' && ('a' <= dir[0] <= 'z' || 'A' <= dir[0] <= 'Z')
}

/// The data directory where no variable names one: on Windows the `mypaas` directory under the
/// user's application data, or a local one where there is none; elsewhere a system directory.
pub open spec fn default_data_dir(windows: bool, app_data: Option<String>) -> Seq<char> {
    if !windows {
        "/var/lib/mypaas"@
    } else {
        match app_data {
            Some(dir) => if takes_no_separator(dir@) {
                dir@ + "mypaas"@
            } else {
                dir@ + "\\mypaas"@
            },
            None => "./mypaas-data"@,
        }
    }
}

/// The data directory where no variable names one. `app_data` is the value of `APPDATA`.
pub fn dirs_next_data_dir(windows: bool, app_data: Option<String>) -> (r: String)
    ensures
        r@ == default_data_dir(windows, app_data),
{
    if !windows {
        return "/var/lib/mypaas".to_owned();
    }
    match app_data {
        Some(dir) => {
            let n = dir.as_str().unicode_len();
            let bare = if n == 0 {
                true
            } else {
                let last = dir.as_str().get_char(n - 1);
                let first = dir.as_str().get_char(0);
                last == '\\' || last == '/' || (n == 2 && last == ':' && (('a' <= first && first
                    <= 'z') || ('A' <= first && first <= 'Z')))
            };
            if bare {
                dir.concat("mypaas")
            } else {
                dir.concat("\\mypaas")
            }
        },
        None => "./mypaas-data".to_owned(),
    }
}

impl Config {
    /// The configuration that the variables give, with defaults for those that are not set.
    pub fn from_env(vars: EnvVars, default_data_dir: String) -> (r: Result<Config, ConfigError>)
        ensures
            match r {
                Err(e) => vars.first_error() == Some(e),
                Ok(c) => {
                    &&& vars.first_error() is None
                    &&& c.app_name@ == text_or(vars.app_name, "RustPaaS"@)
                    &&& c.data_dir@ == text_or(vars.data_dir, default_data_dir@)
                    &&& c.host@ == text_or(vars.host, "0.0.0.0"@)
                    &&& number_or(vars.port, 3000, u16::MAX as nat) == Some(c.port as nat)
                    &&& number_or(vars.s3_port, 9000, u16::MAX as nat) == Some(c.s3_port as nat)
                    &&& c.domain@ == text_or(vars.domain, "localhost"@)
                    &&& number_or(vars.app_port_start, 8100, u16::MAX as nat) == Some(
                        c.app_port_start as nat,
                    )
                    &&& number_or(vars.app_port_end, 8999, u16::MAX as nat) == Some(
                        c.app_port_end as nat,
                    )
                    &&& number_or(vars.suspend_timeout_mins, 10, u64::MAX as nat) == Some(
                        c.suspend_timeout_mins as nat,
                    )
                },
            },
    {
        let port = match port_of(&vars.port, 3000) {
            Some(n) => n,
            None => return Err(ConfigError::Port),
        };
        let s3_port = match port_of(&vars.s3_port, 9000) {
            Some(n) => n,
            None => return Err(ConfigError::S3Port),
        };
        let app_port_start = match port_of(&vars.app_port_start, 8100) {
            Some(n) => n,
            None => return Err(ConfigError::AppPortStart),
        };
        let app_port_end = match port_of(&vars.app_port_end, 8999) {
            Some(n) => n,
            None => return Err(ConfigError::AppPortEnd),
        };
        let suspend_timeout_mins: u64 = match &vars.suspend_timeout_mins {
            Some(s) => match text::parse_unsigned(s.as_str(), u64::MAX) {
                Some(n) => n,
                None => return Err(ConfigError::SuspendTimeout),
            },
            None => 10,
        };
        let data_dir = match vars.data_dir {
            Some(s) => s,
            None => default_data_dir,
        };
        Ok(
            Config {
                app_name: text_of(vars.app_name, "RustPaaS"),
                data_dir,
                host: text_of(vars.host, "0.0.0.0"),
                port,
                s3_port,
                domain: text_of(vars.domain, "localhost"),
                app_port_start,
                app_port_end,
                suspend_timeout_mins,
            },
        )
    }

    /// The address that the main HTTP server listens on.
    pub fn listen_address(&self) -> (r: String)
        ensures
            r@ == self.host@ + ":"@ + text::decimal(self.port as nat),
    {
        let mut r = self.host.clone();
        r.append(":");
        r.append(text::decimal_of(self.port as u64).as_str());
        r
    }

    pub open spec fn spec_db_path(self) -> Seq<char> {
        paths::joined(self.data_dir@, "paas.db"@)
    }

    /// Path of the platform's own SQLite database.
    pub fn db_path(&self) -> (r: String)
        ensures
            r@ == self.spec_db_path(),
    {
        paths::join(self.data_dir.as_str(), "paas.db")
    }

    /// URL of the platform's own SQLite database.
    pub fn db_url(&self) -> (r: String)
        ensures
            r@ == "sqlite://"@ + self.spec_db_path(),
    {
        let mut r = "sqlite://".to_owned();
        r.append(self.db_path().as_str());
        r
    }

    pub open spec fn spec_apps_dir(self) -> Seq<char> {
        paths::joined(self.data_dir@, "apps"@)
    }

    /// Root directory of the deployed apps.
    pub fn apps_dir(&self) -> (r: String)
        ensures
            r@ == self.spec_apps_dir(),
    {
        paths::join(self.data_dir.as_str(), "apps")
    }

    pub open spec fn spec_storage_dir(self) -> Seq<char> {
        paths::joined(paths::joined(self.data_dir@, "storage"@), "buckets"@)
    }

    /// Root directory of the buckets.
    pub fn storage_dir(&self) -> (r: String)
        ensures
            r@ == self.spec_storage_dir(),
    {
        paths::join(paths::join(self.data_dir.as_str(), "storage").as_str(), "buckets")
    }

    pub open spec fn spec_project_dir(self, project_name: Seq<char>) -> Seq<char> {
        paths::joined(self.spec_apps_dir(), project_name)
    }

    /// Directory of everything that belongs to a project.
    pub fn project_dir(&self, project_name: &str) -> (r: String)
        ensures
            r@ == self.spec_project_dir(project_name@),
    {
        paths::join(self.apps_dir().as_str(), project_name)
    }

    pub open spec fn spec_project_bin_dir(self, project_name: Seq<char>) -> Seq<char> {
        paths::joined(self.spec_project_dir(project_name), "bin"@)
    }

    /// Directory of a project's binary.
    pub fn project_bin_dir(&self, project_name: &str) -> (r: String)
        ensures
            r@ == self.spec_project_bin_dir(project_name@),
    {
        paths::join(self.project_dir(project_name).as_str(), "bin")
    }

    pub open spec fn spec_project_data_dir(self, project_name: Seq<char>) -> Seq<char> {
        paths::joined(self.spec_project_dir(project_name), "data"@)
    }

    /// Directory of a project's SQLite database.
    pub fn project_data_dir(&self, project_name: &str) -> (r: String)
        ensures
            r@ == self.spec_project_data_dir(project_name@),
    {
        paths::join(self.project_dir(project_name).as_str(), "data")
    }

    pub open spec fn spec_project_log_path(self, project_name: Seq<char>) -> Seq<char> {
        paths::joined(self.spec_project_dir(project_name), "app.log"@)
    }

    /// Path of a project's log file.
    pub fn project_log_path(&self, project_name: &str) -> (r: String)
        ensures
            r@ == self.spec_project_log_path(project_name@),
    {
        paths::join(self.project_dir(project_name).as_str(), "app.log")
    }

    pub open spec fn spec_project_workspace_dir(self, project_name: Seq<char>) -> Seq<char> {
        paths::joined(self.spec_project_dir(project_name), "workspace"@)
    }

    /// Directory that a project's bundle is unpacked into.
    pub fn project_workspace_dir(&self, project_name: &str) -> (r: String)
        ensures
            r@ == self.spec_project_workspace_dir(project_name@),
    {
        paths::join(self.project_dir(project_name).as_str(), "workspace")
    }

    pub open spec fn spec_project_deploys_dir(self, project_name: Seq<char>) -> Seq<char> {
        paths::joined(self.spec_project_dir(project_name), "deploys"@)
    }

    /// Directory of the snapshots that a project can be rolled back to.
    pub fn project_deploys_dir(&self, project_name: &str) -> (r: String)
        ensures
            r@ == self.spec_project_deploys_dir(project_name@),
    {
        paths::join(self.project_dir(project_name).as_str(), "deploys")
    }

    /// File that keeps the bundle which a project was last deployed with.
    pub open spec fn spec_project_bundle_path(self, project_name: Seq<char>) -> Seq<char> {
        paths::joined(self.spec_project_dir(project_name), "bundle.tar.gz"@)
    }

    /// File that keeps the bundle which a project was last deployed with.
    pub fn project_bundle_path(&self, project_name: &str) -> (r: String)
        ensures
            r@ == self.spec_project_bundle_path(project_name@),
    {
        paths::join(self.project_dir(project_name).as_str(), "bundle.tar.gz")
    }

    /// The directories that have to exist before anything is stored, in the order in which they are
    /// created.
    pub fn ensure_dirs(&self) -> (r: Vec<String>)
        ensures
            text::views(r@) == seq![self.data_dir@, self.spec_apps_dir(), self.spec_storage_dir()],
    {
        let mut r: Vec<String> = Vec::new();
        r.push(self.data_dir.clone());
        r.push(self.apps_dir());
        r.push(self.storage_dir());
        assert(text::views(r@) =~= seq![
            self.data_dir@,
            self.spec_apps_dir(),
            self.spec_storage_dir(),
        ]);
        r
    }
}

/// Everything that a project has on disk lies below its own directory.
pub proof fn law_project_paths_within(config: Config, name: Seq<char>)
    requires
        paths::is_component(name),
    ensures
        paths::is_within(config.spec_project_bin_dir(name), config.spec_project_dir(name)),
        paths::is_within(config.spec_project_data_dir(name), config.spec_project_dir(name)),
        paths::is_within(config.spec_project_log_path(name), config.spec_project_dir(name)),
        paths::is_within(config.spec_project_workspace_dir(name), config.spec_project_dir(name)),
        paths::is_within(config.spec_project_deploys_dir(name), config.spec_project_dir(name)),
        paths::is_within(config.spec_project_bundle_path(name), config.spec_project_dir(name)),
{
    lemma_project_dir(config, name);
    let dir = config.spec_project_dir(name);
    reveal_strlit("bin");
    paths::lemma_component("bin"@);
    reveal_strlit("data");
    paths::lemma_component("data"@);
    reveal_strlit("app.log");
    paths::lemma_component("app.log"@);
    reveal_strlit("workspace");
    paths::lemma_component("workspace"@);
    reveal_strlit("deploys");
    paths::lemma_component("deploys"@);
    reveal_strlit("bundle.tar.gz");
    paths::lemma_component("bundle.tar.gz"@);
    paths::lemma_joined_within(dir, "bundle.tar.gz"@);
    paths::lemma_joined_within(dir, "bin"@);
    paths::lemma_joined_within(dir, "data"@);
    paths::lemma_joined_within(dir, "app.log"@);
    paths::lemma_joined_within(dir, "workspace"@);
    paths::lemma_joined_within(dir, "deploys"@);
}

/// No path belongs to two projects with different names: what lies below the directory of one does
/// not lie below that of the other.
pub proof fn law_projects_apart(config: Config, a: Seq<char>, b: Seq<char>, path: Seq<char>)
    requires
        paths::is_component(a),
        paths::is_component(b),
        a != b,
        paths::is_within(path, config.spec_project_dir(a)),
    ensures
        !paths::is_within(path, config.spec_project_dir(b)),
{
    reveal_strlit("apps");
    assert(config.spec_apps_dir().last() == 's');
    paths::lemma_siblings_apart(config.spec_apps_dir(), a, b, path);
}

/// The directory of a project is a proper path.
pub proof fn lemma_project_dir(config: Config, name: Seq<char>)
    requires
        paths::is_component(name),
    ensures
        config.spec_project_dir(name).len() > 0,
        config.spec_project_dir(name).last() != '/',
{
    reveal_strlit("apps");
    assert(config.spec_apps_dir().last() == 's');
    paths::lemma_joined_within(config.spec_apps_dir(), name);
}

/// Where everything lies: the platform's database, the projects and their storage in the data
/// directory, and what belongs to a project in a directory of its name.
pub proof fn law_layout(config: Config, name: Seq<char>)
    requires
        config.data_dir@.len() > 0,
        config.data_dir@.last() != '/',
        paths::is_component(name),
    ensures
        config.spec_db_path() == config.data_dir@ + "/paas.db"@,
        config.spec_apps_dir() == config.data_dir@ + "/apps"@,
        config.spec_storage_dir() == config.data_dir@ + "/storage/buckets"@,
        config.spec_project_dir(name) == config.data_dir@ + "/apps/"@ + name,
        config.spec_project_bin_dir(name) == config.data_dir@ + "/apps/"@ + name + "/bin"@,
        config.spec_project_data_dir(name) == config.data_dir@ + "/apps/"@ + name + "/data"@,
        config.spec_project_log_path(name) == config.data_dir@ + "/apps/"@ + name + "/app.log"@,
        config.spec_project_workspace_dir(name) == config.data_dir@ + "/apps/"@ + name
            + "/workspace"@,
        config.spec_project_deploys_dir(name) == config.data_dir@ + "/apps/"@ + name + "/deploys"@,
        config.spec_project_bundle_path(name) == config.data_dir@ + "/apps/"@ + name
            + "/bundle.tar.gz"@,
{
    let root = config.data_dir@;
    reveal_strlit("paas.db");
    reveal_strlit("/paas.db");
    assert(root.push('/') + "paas.db"@ =~= root + "/paas.db"@);
    reveal_strlit("apps");
    reveal_strlit("/apps");
    reveal_strlit("/apps/");
    assert(root.push('/') + "apps"@ =~= root + "/apps"@);
    reveal_strlit("storage");
    reveal_strlit("buckets");
    reveal_strlit("/storage/buckets");
    let storage = root.push('/') + "storage"@;
    assert(storage.last() == 'e');
    assert(storage.push('/') + "buckets"@ =~= root + "/storage/buckets"@);
    assert(name[0] != '/') by {
        assert(name.contains(name[0]));
    }
    let apps = root + "/apps"@;
    assert(apps.last() == 's');
    let dir = config.spec_project_dir(name);
    assert(dir =~= root + "/apps/"@ + name);
    lemma_project_dir(config, name);
    reveal_strlit("bin");
    reveal_strlit("/bin");
    assert(dir.push('/') + "bin"@ =~= dir + "/bin"@);
    reveal_strlit("data");
    reveal_strlit("/data");
    assert(dir.push('/') + "data"@ =~= dir + "/data"@);
    reveal_strlit("app.log");
    reveal_strlit("/app.log");
    assert(dir.push('/') + "app.log"@ =~= dir + "/app.log"@);
    reveal_strlit("workspace");
    reveal_strlit("/workspace");
    assert(dir.push('/') + "workspace"@ =~= dir + "/workspace"@);
    reveal_strlit("deploys");
    reveal_strlit("/deploys");
    assert(dir.push('/') + "deploys"@ =~= dir + "/deploys"@);
    reveal_strlit("bundle.tar.gz");
    reveal_strlit("/bundle.tar.gz");
    assert(dir.push('/') + "bundle.tar.gz"@ =~= dir + "/bundle.tar.gz"@);
}

/// A number that is set as it is written is taken, where it is not too large; anything that is no
/// number is refused, and the default counts only where nothing is set.
pub proof fn law_numbers_are_read(var: String, n: nat, default: nat, max: nat)
    ensures
        number_or(None, default, max) == Some(default),
        var@ == text::decimal(n) ==> number_or(Some(var), default, max) == (if n <= max {
            Some(n)
        } else {
            None
        }),
        text::unsigned_value(var@) is None ==> number_or(Some(var), default, max) is None,
        text_or(Some(var), Seq::empty()) == var@,
{
    text::law_decimal_round_trip(n);
}

/// The settings are those that are set, each in its own field, and the defaults where they are not.
/// The first number that cannot be read is what is told.
pub proof fn law_settings(
    vars: EnvVars,
    default_data_dir: String,
    r: Result<Config, ConfigError>,
)
    requires
        call_ensures(Config::from_env, (vars, default_data_dir), r),
    ensures
        r matches Ok(c) ==> {
            &&& vars.app_name matches Some(v) ==> c.app_name@ == v@
            &&& vars.data_dir matches Some(v) ==> c.data_dir@ == v@
            &&& vars.data_dir is None ==> c.data_dir@ == default_data_dir@
            &&& vars.host matches Some(v) ==> c.host@ == v@
            &&& vars.domain matches Some(v) ==> c.domain@ == v@
            &&& vars.port matches Some(v) ==> text::unsigned_value(v@) == Some(c.port as nat)
            &&& vars.s3_port matches Some(v) ==> text::unsigned_value(v@) == Some(c.s3_port as nat)
            &&& vars.app_port_start matches Some(v) ==> text::unsigned_value(v@) == Some(
                c.app_port_start as nat,
            )
            &&& vars.app_port_end matches Some(v) ==> text::unsigned_value(v@) == Some(
                c.app_port_end as nat,
            )
            &&& vars.suspend_timeout_mins matches Some(v) ==> text::unsigned_value(v@) == Some(
                c.suspend_timeout_mins as nat,
            )
            &&& vars.port is None ==> c.port == 3000
            &&& vars.s3_port is None ==> c.s3_port == 9000
            &&& vars.app_port_start is None ==> c.app_port_start == 8100
            &&& vars.app_port_end is None ==> c.app_port_end == 8999
            &&& vars.suspend_timeout_mins is None ==> c.suspend_timeout_mins == 10
            &&& vars.app_name is None ==> c.app_name@ == "RustPaaS"@
            &&& vars.host is None ==> c.host@ == "0.0.0.0"@
            &&& vars.domain is None ==> c.domain@ == "localhost"@
        },
        r matches Err(e) ==> {
            let set = match e {
                ConfigError::Port => vars.port,
                ConfigError::S3Port => vars.s3_port,
                ConfigError::AppPortStart => vars.app_port_start,
                ConfigError::AppPortEnd => vars.app_port_end,
                ConfigError::SuspendTimeout => vars.suspend_timeout_mins,
            };
            let max: nat = if e is SuspendTimeout {
                0xffff_ffff_ffff_ffff
            } else {
                0xffff
            };
            set matches Some(v) && match text::unsigned_value(v@) {
                Some(n) => n > max,
                None => true,
            }
        },
        r == Err::<Config, ConfigError>(ConfigError::Port) <==> is_bad_port(vars.port),
        r == Err::<Config, ConfigError>(ConfigError::S3Port) <==> !is_bad_port(vars.port)
            && is_bad_port(vars.s3_port),
        r == Err::<Config, ConfigError>(ConfigError::AppPortStart) <==> !is_bad_port(vars.port)
            && !is_bad_port(vars.s3_port) && is_bad_port(vars.app_port_start),
        r == Err::<Config, ConfigError>(ConfigError::AppPortEnd) <==> !is_bad_port(vars.port)
            && !is_bad_port(vars.s3_port) && !is_bad_port(vars.app_port_start) && is_bad_port(
            vars.app_port_end,
        ),
{
}

/// True for a setting that is no port.
pub open spec fn is_bad_port(var: Option<String>) -> bool {
    var matches Some(v) && match text::unsigned_value(v@) {
        Some(n) => n > 65_535,
        None => true,
    }
}

/// The data directory where none is set: a fixed one, but on Windows one in the directory for
/// application data, with a separator where that has none at its end.
pub proof fn law_default_data_dir(dir: String)
    ensures
        default_data_dir(false, None) == "/var/lib/mypaas"@,
        default_data_dir(false, Some(dir)) == "/var/lib/mypaas"@,
        default_data_dir(true, None) == "./mypaas-data"@,
        dir@.len() > 2 && dir@.last() != '/' && dir@.last() != '\\' ==> default_data_dir(
            true,
            Some(dir),
        ) == dir@ + "\\mypaas"@,
        dir@.len() > 0 && (dir@.last() == '/' || dir@.last() == '\\') ==> default_data_dir(
            true,
            Some(dir),
        ) == dir@ + "mypaas"@,
        dir@.len() == 0 ==> default_data_dir(true, Some(dir)) == "mypaas"@,
{
    if dir@.len() == 0 {
        assert(dir@ + "mypaas"@ =~= "mypaas"@);
    }
}

} // verus!
