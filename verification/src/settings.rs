use vstd::prelude::*;

verus! {

/// The environment the service runs in; it picks the configuration file
/// read on top of the defaults.
#[derive(PartialEq, Eq, Structural, Clone, Copy, Debug)]
pub enum AppEnv {
    Development,
    Test,
    Production,
}

/// What `str::to_lowercase` of std gives for a text (full Unicode
/// lower-casing).
pub uninterp spec fn lowercased(text: Seq<char>) -> Seq<char>;

/// `str::to_lowercase` of std. Its result is named, not spelled out: the
/// Unicode case tables that decide it are not stated here.
#[verifier::external_body]
fn to_lowercase(text: &str) -> (lower: String)
    ensures
        lower@ == lowercased(text@),
{
    text.to_lowercase()
}

/// The message for a text that names no environment.
pub open spec fn invalid_environment_text(name: Seq<char>) -> Seq<char> {
    "Invalid environment: "@ + name
}

impl AppEnv {
    /// The lower-case name of an environment.
    pub open spec fn label(self) -> Seq<char> {
        match self {
            AppEnv::Development => "development"@,
            AppEnv::Test => "test"@,
            AppEnv::Production => "production"@,
        }
    }

    /// The environment a lower-case name stands for.
    pub open spec fn named(name: Seq<char>) -> Option<AppEnv> {
        if name == "development"@ {
            Some(AppEnv::Development)
        } else if name == "test"@ {
            Some(AppEnv::Test)
        } else if name == "production"@ {
            Some(AppEnv::Production)
        } else {
            None
        }
    }

    /// The environment's name, as it is displayed.
    pub fn name(&self) -> (name: &'static str)
        ensures
            name@ == self.label(),
    {
        match self {
            AppEnv::Development => "development",
            AppEnv::Test => "test",
            AppEnv::Production => "production",
        }
    }

    /// The environment that an already lower-cased name stands for, or the
    /// message that names the text when it stands for none.
    pub fn from_lowercase(name: String) -> (r: Result<AppEnv, String>)
        ensures
            match r {
                Ok(env) => AppEnv::named(name@) == Some(env),
                Err(message) => AppEnv::named(name@) is None && message@
                    == invalid_environment_text(name@),
            },
    {
        if name == String::from_str("development") {
            Ok(AppEnv::Development)
        } else if name == String::from_str("test") {
            Ok(AppEnv::Test)
        } else if name == String::from_str("production") {
            Ok(AppEnv::Production)
        } else {
            let mut message = String::from_str("Invalid environment: ");
            message.append(name.as_str());
            Err(message)
        }
    }

    /// The environment a text names, in any letter case.
    pub fn try_from(text: String) -> (r: Result<AppEnv, String>)
        ensures
            match r {
                Ok(env) => AppEnv::named(lowercased(text@)) == Some(env),
                Err(message) => AppEnv::named(lowercased(text@)) is None && message@
                    == invalid_environment_text(lowercased(text@)),
            },
    {
        AppEnv::from_lowercase(to_lowercase(text.as_str()))
    }
}

/// An environment's name is read back as the same environment.
pub proof fn environment_name_round_trip(env: AppEnv)
    ensures
        AppEnv::named(env.label()) == Some(env),
{
    reveal_strlit("development");
    reveal_strlit("test");
    reveal_strlit("production");
    assert("test"@.len() != "development"@.len());
    assert("production"@.len() != "development"@.len());
    assert("production"@.len() != "test"@.len());
}

/// The settings of the service (it has none of its own yet).
pub struct Settings {}

/// A configuration file, named relative to the configuration directory.
pub struct ConfigFile {
    pub name: String,
    pub required: bool,
}

/// Where the settings are read from, in order of increasing precedence:
/// the files, then the environment variables that start with the prefix.
pub struct ConfigSources {
    pub files: Vec<ConfigFile>,
    pub env_prefix: String,
    pub prefix_separator: String,
    pub separator: String,
}

impl Settings {
    /// The environment to run in: the value of `APP_ENV` when it is set,
    /// `development` otherwise.
    pub fn environment(app_env: Option<String>) -> (r: Result<AppEnv, String>)
        ensures
            ({
                let given = match app_env {
                    Some(v) => v@,
                    None => "development"@,
                };
                match r {
                    Ok(env) => AppEnv::named(lowercased(given)) == Some(env),
                    Err(message) => AppEnv::named(lowercased(given)) is None && message@
                        == invalid_environment_text(lowercased(given)),
                }
            }),
    {
        let value = match app_env {
            Some(v) => v,
            None => String::from_str("development"),
        };
        AppEnv::try_from(value)
    }

    /// The sources for an environment: `default.yaml`, which must exist,
    /// then `<environment>.yaml`, which may be missing, then the variables
    /// `APP_<key>`, with `__` between the parts of a nested key.
    pub fn sources(env: AppEnv) -> (s: ConfigSources)
        ensures
            s.files@.len() == 2,
            s.files@[0].name@ == "default.yaml"@,
            s.files@[0].required,
            s.files@[1].name@ == env.label() + ".yaml"@,
            !s.files@[1].required,
            s.env_prefix@ == "APP"@,
            s.prefix_separator@ == "_"@,
            s.separator@ == "__"@,
    {
        let mut env_file = String::from_str(env.name());
        env_file.append(".yaml");
        let mut files: Vec<ConfigFile> = Vec::new();
        files.push(ConfigFile { name: String::from_str("default.yaml"), required: true });
        files.push(ConfigFile { name: env_file, required: false });
        ConfigSources {
            files,
            env_prefix: String::from_str("APP"),
            prefix_separator: String::from_str("_"),
            separator: String::from_str("__"),
        }
    }
}

} // verus!
