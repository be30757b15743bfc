//! The settings of a site, and how they are read from the environment.
//!
//! Nothing here touches the environment itself. The caller looks the
//! variables up and hands in what it found.

use crate::text::same_text;
use vstd::prelude::*;
use vstd::string::StringExecFns;

verus! {

/// The environment that the site runs in. `PROD` leaves out what only
/// development needs, such as the live-reload script. The default is `DEV`.
#[derive(Debug, Clone, Copy, PartialEq, Eq, Structural)]
pub enum Env {
    PROD,
    DEV,
}

impl Default for Env {
    fn default() -> (r: Env)
        ensures
            r == Env::DEV,
    {
        Env::DEV
    }
}

/// The lower-case form of a text, as `str::to_lowercase` of the standard
/// library gives it.
pub uninterp spec fn lowercase_of(text: Seq<char>) -> Seq<char>;

/// Calls `str::to_lowercase`, which follows the Unicode rules for lower
/// case. The result depends on the text alone.
#[verifier::external_body]
fn to_lowercase(text: &str) -> (r: String)
    ensures
        r@ == lowercase_of(text@),
{
    text.to_lowercase()
}

/// The environment that a word in lower case names: `dev` and `development`
/// name `DEV`, `prod` and `production` name `PROD`, no other word names one.
pub open spec fn env_named(word: Seq<char>) -> Option<Env> {
    if word == "dev"@ || word == "development"@ {
        Some(Env::DEV)
    } else if word == "prod"@ || word == "production"@ {
        Some(Env::PROD)
    } else {
        None
    }
}

/// The environment that a variable names: the one that its value names in
/// any mix of upper and lower case, and `DEV` where the variable could not
/// be read.
pub open spec fn env_of_lookup(input: Result<String, VarError>) -> Env {
    match input {
        Ok(word) => match env_named(lowercase_of(word@)) {
            Some(env) => env,
            None => Env::DEV,
        },
        Err(_) => Env::DEV,
    }
}

/// What is said of a word that names no environment.
pub open spec fn unsupported_env(word: Seq<char>) -> Seq<char> {
    word + " is not a supported environment. Use either `dev` or `production`."@
}

impl Env {
    /// The environment that `word`, which is in lower case already, names.
    pub fn from_sanitized(word: &str) -> (r: Option<Env>)
        ensures
            r == env_named(word@),
    {
        if same_text(word, "dev") || same_text(word, "development") {
            Some(Env::DEV)
        } else if same_text(word, "prod") || same_text(word, "production") {
            Some(Env::PROD)
        } else {
            None
        }
    }

    /// The environment that `input` names in any mix of upper and lower
    /// case; `DEV` where it names none. Never fails.
    pub fn from_str(input: &str) -> (r: Result<Env, ()>)
        ensures
            r == Ok::<Env, ()>(
                match env_named(lowercase_of(input@)) {
                    Some(env) => env,
                    None => Env::DEV,
                },
            ),
    {
        let sanitized = to_lowercase(input);
        match Env::from_sanitized(sanitized.as_str()) {
            Some(env) => Ok(env),
            None => Ok(Env::DEV),
        }
    }

    /// The environment that `input` names in any mix of upper and lower
    /// case. The input must name one.
    pub fn from(input: &str) -> (r: Env)
        requires
            env_named(lowercase_of(input@)) is Some,
        ensures
            Some(r) == env_named(lowercase_of(input@)),
    {
        let sanitized = to_lowercase(input);
        match Env::from_sanitized(sanitized.as_str()) {
            Some(env) => env,
            None => vstd::pervasive::unreached(),
        }
    }

    /// The environment that a variable names, given what looking it up
    /// gave: the one that its value names, in any mix of upper and lower
    /// case, and `DEV` where the variable could not be read. A value must
    /// name an environment.
    pub fn from_lookup(input: &Result<String, VarError>) -> (r: Env)
        requires
            input matches Ok(word) ==> env_named(lowercase_of(word@)) is Some,
        ensures
            r == env_of_lookup(*input),
    {
        match input {
            Ok(word) => Env::from(word.as_str()),
            Err(_) => Env::DEV,
        }
    }

    /// The environment that a variable names, given what looking it up
    /// gave, or the complaint that its value names none.
    pub fn try_from_lookup(input: &Result<String, VarError>) -> (r: Result<Env, String>)
        ensures
            match *input {
                Ok(word) => match env_named(lowercase_of(word@)) {
                    Some(env) => r == Ok::<Env, String>(env),
                    None => r matches Err(complaint) && complaint@ == unsupported_env(
                        lowercase_of(word@),
                    ),
                },
                Err(_) => r == Ok::<Env, String>(Env::DEV),
            },
    {
        match input {
            Ok(word) => {
                let sanitized = to_lowercase(word.as_str());
                match Env::from_sanitized(sanitized.as_str()) {
                    Some(_) => Ok(Env::from_lookup(input)),
                    None => {
                        let mut complaint = sanitized;
                        complaint.append(" is not a supported environment. Use either `dev` or `production`.");
                        Err(complaint)
                    },
                }
            },
            Err(_) => Ok(Env::from_lookup(input)),
        }
    }

    /// The environment that `input` names in any mix of upper and lower
    /// case, or the complaint that it names none.
    pub fn try_from(input: String) -> (r: Result<Env, String>)
        ensures
            match env_named(lowercase_of(input@)) {
                Some(env) => r == Ok::<Env, String>(env),
                None => r matches Err(complaint) && complaint@ == unsupported_env(
                    lowercase_of(input@),
                ),
            },
    {
        let sanitized = to_lowercase(input.as_str());
        match Env::from_sanitized(sanitized.as_str()) {
            Some(_) => Ok(Env::from(input.as_str())),
            None => {
                let mut complaint = sanitized;
                complaint.append(" is not a supported environment. Use either `dev` or `production`.");
                Err(complaint)
            },
        }
    }
}

/// Why a variable of the environment could not be read, in the words of
/// the platform.
#[derive(Debug)]
pub enum VarError {
    /// The variable is not set.
    NotPresent(String),
    /// The variable is set to something that is no text.
    NotUnicode(String),
}

impl VarError {
    /// The words of the platform for this failure.
    pub open spec fn words(self) -> Seq<char> {
        match self {
            VarError::NotPresent(words) => words@,
            VarError::NotUnicode(words) => words@,
        }
    }
}

/// What can go wrong when the settings are loaded.
#[derive(Debug)]
pub enum LeptosConfigError {
    /// The manifest could not be read.
    ConfigNotFound,
    /// The manifest has no section for this framework.
    ConfigSectionNotFound,
    /// The environment of the site could not be told.
    EnvError,
    /// A setting is missing or cannot be read as what it should be.
    ConfigError(String),
    /// A variable of the environment could not be read.
    EnvVarError(String),
}

/// A loading failure as mathematics.
pub enum ConfigErrorView {
    ConfigNotFound,
    ConfigSectionNotFound,
    EnvError,
    ConfigError(Seq<char>),
    EnvVarError(Seq<char>),
}

impl View for LeptosConfigError {
    type V = ConfigErrorView;

    open spec fn view(&self) -> ConfigErrorView {
        match self {
            LeptosConfigError::ConfigNotFound => ConfigErrorView::ConfigNotFound,
            LeptosConfigError::ConfigSectionNotFound => ConfigErrorView::ConfigSectionNotFound,
            LeptosConfigError::EnvError => ConfigErrorView::EnvError,
            LeptosConfigError::ConfigError(why) => ConfigErrorView::ConfigError(why@),
            LeptosConfigError::EnvVarError(why) => ConfigErrorView::EnvVarError(why@),
        }
    }
}

impl ConfigErrorView {
    /// What the failure says of itself.
    pub open spec fn message(self) -> Seq<char> {
        match self {
            ConfigErrorView::ConfigNotFound => "Cargo.toml not found in package root"@,
            ConfigErrorView::ConfigSectionNotFound => "package.metadata.leptos section missing from Cargo.toml"@,
            ConfigErrorView::EnvError => "Failed to get Leptos Environment. Did you set LEPTOS_ENV?"@,
            ConfigErrorView::ConfigError(why) => "Config Error: "@ + why,
            ConfigErrorView::EnvVarError(why) => "Config Error: "@ + why,
        }
    }
}

impl LeptosConfigError {
    /// What the failure says of itself.
    pub fn message(&self) -> (r: String)
        ensures
            r@ == self@.message(),
    {
        match self {
            LeptosConfigError::ConfigNotFound => String::from_str(
                "Cargo.toml not found in package root",
            ),
            LeptosConfigError::ConfigSectionNotFound => String::from_str(
                "package.metadata.leptos section missing from Cargo.toml",
            ),
            LeptosConfigError::EnvError => String::from_str(
                "Failed to get Leptos Environment. Did you set LEPTOS_ENV?",
            ),
            LeptosConfigError::ConfigError(why) => {
                let mut message = String::from_str("Config Error: ");
                message.append(why.as_str());
                message
            },
            LeptosConfigError::EnvVarError(why) => {
                let mut message = String::from_str("Config Error: ");
                message.append(why.as_str());
                message
            },
        }
    }
}

/// The value of the variable `key`, or `default` where the variable is not
/// set. A variable that is set to something that is no text is a failure,
/// told with the name of the variable.
pub open spec fn value_or_default(
    key: Seq<char>,
    lookup: Result<String, VarError>,
    default: Seq<char>,
) -> Result<Seq<char>, ConfigErrorView> {
    match lookup {
        Ok(value) => Ok(value@),
        Err(VarError::NotPresent(_)) => Ok(default),
        Err(VarError::NotUnicode(words)) => Err(ConfigErrorView::EnvVarError(key + ": "@ + words@)),
    }
}

/// The text of a result.
pub open spec fn text_of(result: Result<String, LeptosConfigError>) -> Result<
    Seq<char>,
    ConfigErrorView,
> {
    match result {
        Ok(value) => Ok(value@),
        Err(e) => Err(e@),
    }
}

/// The value of the variable `key` of the environment, given what looking
/// it up gave, or `default` where the variable is not set.
pub fn env_w_default(key: &str, lookup: Result<String, VarError>, default: &str) -> (r: Result<
    String,
    LeptosConfigError,
>)
    ensures
        text_of(r) == value_or_default(key@, lookup, default@),
{
    match lookup {
        Ok(value) => Ok(value),
        Err(VarError::NotPresent(_)) => Ok(String::from_str(default)),
        Err(VarError::NotUnicode(words)) => {
            let mut why = String::from_str(key);
            why.append(": ");
            why.append(words.as_str());
            Err(LeptosConfigError::EnvVarError(why))
        },
    }
}

/// The number that the digit `c` stands for.
pub open spec fn digit_of(c: char) -> nat {
    if c == '0' {
        0
    } else if c == '1' {
        1
    } else if c == '2' {
        2
    } else if c == '3' {
        3
    } else if c == '4' {
        4
    } else if c == '5' {
        5
    } else if c == '6' {
        6
    } else if c == '7' {
        7
    } else if c == '8' {
        8
    } else {
        9
    }
}

/// The number that a run of decimal digits stands for.
pub open spec fn digits_value(digits: Seq<char>) -> nat
    decreases digits.len(),
{
    if digits.len() == 0 {
        0
    } else {
        digits_value(digits.drop_last()) * 10 + digit_of(digits.last())
    }
}

/// The digits of a text: the text without a plus sign at its start.
pub open spec fn digits_of(text: Seq<char>) -> Seq<char> {
    if text.len() > 0 && text[0] == '+' {
        text.skip(1)
    } else {
        text
    }
}

/// Whether a text can be read as a `u32`: it is made of decimal digits, at
/// least one, with at most a plus sign before them, and the number fits.
pub open spec fn reads_as_u32(text: Seq<char>) -> bool {
    &&& digits_of(text).len() > 0
    &&& forall|i: int| 0 <= i < digits_of(text).len() ==> '0' <= #[trigger] digits_of(text)[i] <= '9'
    &&& digits_value(digits_of(text)) <= u32::MAX
}

/// The words with which `str::parse` of the standard library says why a
/// text is no `u32`.
pub uninterp spec fn parse_fault(text: Seq<char>) -> Seq<char>;

/// What a text reads as when it is taken for a `u32`: the number that its
/// digits stand for, or the words that say why it is none.
pub open spec fn u32_parsed(text: Seq<char>) -> Result<u32, Seq<char>> {
    if reads_as_u32(text) {
        Ok(digits_value(digits_of(text)) as u32)
    } else {
        Err(parse_fault(text))
    }
}

/// The text `3001` reads as the number 3001.
pub proof fn lemma_default_port_reads()
    ensures
        u32_parsed("3001"@) == Ok::<u32, Seq<char>>(3001u32),
{
    reveal_strlit("3001");
    let text = "3001"@;
    assert(text.len() == 4);
    assert(digits_of(text) == text);
    let three = text.drop_last();
    let two = three.drop_last();
    let one = two.drop_last();
    assert(one.drop_last().len() == 0);
    assert(digits_value(one.drop_last()) == 0);
    assert(one.last() == '3');
    assert(digits_value(one) == 3);
    assert(two.last() == '0');
    assert(digits_value(two) == 30);
    assert(three.last() == '0');
    assert(digits_value(three) == 300);
    assert(text.last() == '1');
    assert(digits_value(text) == 3001);
}

/// The text of a reading.
pub open spec fn reading_of(reading: Result<u32, String>) -> Result<u32, Seq<char>> {
    match reading {
        Ok(number) => Ok(number),
        Err(why) => Err(why@),
    }
}

/// Calls `str::parse::<u32>` and, where it fails, takes the words of the
/// failure. A text is read as a number where it is made of decimal digits
/// with at most a plus sign before them and the number fits; the empty
/// text, a sign alone, any other character and a number that is too large
/// are failures, whose words depend on the text alone.
#[verifier::external_body]
fn parse_u32(text: &str) -> (r: Result<u32, String>)
    ensures
        match r {
            Ok(number) => reads_as_u32(text@) && number == digits_value(digits_of(text@)),
            Err(why) => !reads_as_u32(text@) && why@ == parse_fault(text@),
        },
{
    text.parse::<u32>().map_err(|e| e.to_string())
}

/// What was found when the variables that hold the settings were looked up
/// in the environment.
#[derive(Debug)]
pub struct EnvVars {
    /// `LEPTOS_OUTPUT_NAME`
    pub output_name: Result<String, VarError>,
    /// `LEPTOS_SITE_ROOT`
    pub site_root: Result<String, VarError>,
    /// `LEPTOS_SITE_PKG_DIR`
    pub site_pkg_dir: Result<String, VarError>,
    /// `LEPTOS_SITE_ADDR`
    pub site_addr: Result<String, VarError>,
    /// `LEPTOS_RELOAD_PORT`
    pub reload_port: Result<String, VarError>,
}

/// The address at which the site is served: the IP address in the form in
/// which it is written, and the port.
#[derive(Debug)]
pub struct SiteAddress {
    pub ip: String,
    pub port: u16,
}

impl Clone for SiteAddress {
    fn clone(&self) -> (r: SiteAddress)
        ensures
            r == *self,
    {
        SiteAddress { ip: self.ip.clone(), port: self.port }
    }
}

/// The settings of a site: where its files lie, where it is served and how
/// it runs.
#[derive(Debug)]
pub struct LeptosOptions {
    /// The name of the WASM and JS files of the site.
    pub output_name: String,
    /// The directory that holds all files of the site.
    pub site_root: String,
    /// The directory under the site root that holds the WASM and JS files.
    pub site_pkg_dir: String,
    /// The environment that the site runs in.
    pub env: Env,
    /// The address at which the site is served.
    pub site_address: SiteAddress,
    /// The port on which the live-reload watcher listens.
    pub reload_port: u32,
}

/// The settings as a manifest holds them.
#[derive(Debug)]
pub struct ConfFile {
    pub leptos_options: LeptosOptions,
}

impl Clone for ConfFile {
    fn clone(&self) -> (r: ConfFile)
        ensures
            r == *self,
    {
        ConfFile { leptos_options: self.leptos_options.clone() }
    }
}

impl Clone for LeptosOptions {
    fn clone(&self) -> (r: LeptosOptions)
        ensures
            r == *self,
    {
        LeptosOptions {
            output_name: self.output_name.clone(),
            site_root: self.site_root.clone(),
            site_pkg_dir: self.site_pkg_dir.clone(),
            env: self.env,
            site_address: self.site_address.clone(),
            reload_port: self.reload_port,
        }
    }
}

/// Settings as mathematics.
pub struct OptionsView {
    pub output_name: Seq<char>,
    pub site_root: Seq<char>,
    pub site_pkg_dir: Seq<char>,
    pub env: Env,
    pub site_ip: Seq<char>,
    pub site_port: u16,
    pub reload_port: u32,
}

impl View for LeptosOptions {
    type V = OptionsView;

    open spec fn view(&self) -> OptionsView {
        OptionsView {
            output_name: self.output_name@,
            site_root: self.site_root@,
            site_pkg_dir: self.site_pkg_dir@,
            env: self.env,
            site_ip: self.site_address.ip@,
            site_port: self.site_address.port,
            reload_port: self.reload_port,
        }
    }
}

/// The settings of a result.
pub open spec fn settings_of(result: Result<LeptosOptions, LeptosConfigError>) -> Result<
    OptionsView,
    ConfigErrorView,
> {
    match result {
        Ok(options) => Ok(options@),
        Err(e) => Err(e@),
    }
}

/// The text that is read as the address of the site: the variable
/// `LEPTOS_SITE_ADDR`, or `127.0.0.1:3000` where it is not set.
pub open spec fn site_addr_text(lookup: Result<String, VarError>) -> Result<
    Seq<char>,
    ConfigErrorView,
> {
    value_or_default("LEPTOS_SITE_ADDR"@, lookup, "127.0.0.1:3000"@)
}

/// The text that is read as the live-reload port: the variable
/// `LEPTOS_RELOAD_PORT`, or `3001` where it is not set.
pub open spec fn reload_port_text(lookup: Result<String, VarError>) -> Result<
    Seq<char>,
    ConfigErrorView,
> {
    value_or_default("LEPTOS_RELOAD_PORT"@, lookup, "3001"@)
}

/// The settings that the environment gives. `site_address` is what the
/// text of the address was read as, `reload_port` what the text of the port
/// was read as; each holds the words of the failure where the text could
/// not be read. The first thing that is wrong, in the order output name,
/// site root, package directory, address, port, decides the failure.
pub open spec fn settings_from(
    vars: EnvVars,
    site_address: Result<SiteAddress, String>,
    reload_port: Result<u32, Seq<char>>,
) -> Result<OptionsView, ConfigErrorView> {
    match vars.output_name {
        Err(e) => Err(ConfigErrorView::EnvVarError("LEPTOS_OUTPUT_NAME: "@ + e.words())),
        Ok(output_name) => match value_or_default(
            "LEPTOS_SITE_ROOT"@,
            vars.site_root,
            "target/site"@,
        ) {
            Err(e) => Err(e),
            Ok(site_root) => match value_or_default(
                "LEPTOS_SITE_PKG_DIR"@,
                vars.site_pkg_dir,
                "pkg"@,
            ) {
                Err(e) => Err(e),
                Ok(site_pkg_dir) => match site_addr_text(vars.site_addr) {
                    Err(e) => Err(e),
                    Ok(_) => match site_address {
                        Err(why) => Err(ConfigErrorView::ConfigError(why@)),
                        Ok(address) => match reload_port_text(vars.reload_port) {
                            Err(e) => Err(e),
                            Ok(_) => match reload_port {
                                Err(why) => Err(ConfigErrorView::ConfigError(why)),
                                Ok(port) => Ok(
                                    OptionsView {
                                        output_name: output_name@,
                                        site_root,
                                        site_pkg_dir,
                                        env: Env::DEV,
                                        site_ip: address.ip@,
                                        site_port: address.port,
                                        reload_port: port,
                                    },
                                ),
                            },
                        },
                    },
                },
            },
        },
    }
}

/// What the live-reload port is read as: the number that the variable
/// holds, and 3001 where the variable is not set. Where the variable holds
/// no text, nothing is read.
pub open spec fn reload_port_reading(lookup: Result<String, VarError>) -> Result<u32, Seq<char>> {
    match lookup {
        Ok(text) => u32_parsed(text@),
        Err(VarError::NotPresent(_)) => Ok(3001u32),
        Err(VarError::NotUnicode(_)) => Err(Seq::empty()),
    }
}

/// The text that is to be read as the address of the site, given what
/// looking up `LEPTOS_SITE_ADDR` gave.
pub fn site_address_text(lookup: Result<String, VarError>) -> (r: Result<String, LeptosConfigError>)
    ensures
        text_of(r) == site_addr_text(lookup),
{
    env_w_default("LEPTOS_SITE_ADDR", lookup, "127.0.0.1:3000")
}

impl LeptosOptions {
    /// The settings that the environment gives, from what was found there
    /// and from what the texts of address and port were read as.
    pub fn from_lookups(
        vars: EnvVars,
        site_address: Result<SiteAddress, String>,
        reload_port: Result<u32, String>,
    ) -> (r: Result<LeptosOptions, LeptosConfigError>)
        ensures
            settings_of(r) == settings_from(vars, site_address, reading_of(reload_port)),
    {
        let output_name = match vars.output_name {
            Ok(name) => name,
            Err(e) => {
                let mut why = String::from_str("LEPTOS_OUTPUT_NAME: ");
                match e {
                    VarError::NotPresent(words) => why.append(words.as_str()),
                    VarError::NotUnicode(words) => why.append(words.as_str()),
                }
                return Err(LeptosConfigError::EnvVarError(why));
            },
        };
        let site_root = match env_w_default("LEPTOS_SITE_ROOT", vars.site_root, "target/site") {
            Ok(root) => root,
            Err(e) => {
                return Err(e);
            },
        };
        let site_pkg_dir = match env_w_default("LEPTOS_SITE_PKG_DIR", vars.site_pkg_dir, "pkg") {
            Ok(dir) => dir,
            Err(e) => {
                return Err(e);
            },
        };
        match site_address_text(vars.site_addr) {
            Ok(_) => {},
            Err(e) => {
                return Err(e);
            },
        }
        let site_address = match site_address {
            Ok(address) => address,
            Err(why) => {
                return Err(LeptosConfigError::ConfigError(why));
            },
        };
        match env_w_default("LEPTOS_RELOAD_PORT", vars.reload_port, "3001") {
            Ok(_) => {},
            Err(e) => {
                return Err(e);
            },
        }
        let reload_port = match reload_port {
            Ok(port) => port,
            Err(why) => {
                return Err(LeptosConfigError::ConfigError(why));
            },
        };
        Ok(
            LeptosOptions {
                output_name,
                site_root,
                site_pkg_dir,
                env: Env::default(),
                site_address,
                reload_port,
            },
        )
    }

    /// The settings that the environment gives, from what was found there
    /// and from what the text of the address was read as.
    pub fn try_from_env(vars: EnvVars, site_address: Result<SiteAddress, String>) -> (r: Result<
        LeptosOptions,
        LeptosConfigError,
    >)
        ensures
            settings_of(r) == settings_from(
                vars,
                site_address,
                reload_port_reading(vars.reload_port),
            ),
    {
        let reading = match &vars.reload_port {
            Ok(text) => parse_u32(text.as_str()),
            Err(VarError::NotPresent(_)) => {
                proof {
                    lemma_default_port_reads();
                }
                parse_u32("3001")
            },
            Err(VarError::NotUnicode(_)) => Err(String::new()),
        };
        LeptosOptions::from_lookups(vars, site_address, reading)
    }

    /// The settings of a site with the given output name and everything
    /// else as it is by default: the files in `.`, the packages in `pkg`,
    /// the environment `DEV`, served at `127.0.0.1:3000`, with the
    /// live-reload watcher on port 3001.
    pub fn with_defaults(output_name: String) -> (r: LeptosOptions)
        ensures
            r.output_name == output_name,
            r.site_root@ == "."@,
            r.site_pkg_dir@ == "pkg"@,
            r.env == Env::DEV,
            r.site_address.ip@ == "127.0.0.1"@,
            r.site_address.port == 3000,
            r.reload_port == 3001,
    {
        LeptosOptions {
            output_name,
            site_root: String::from_str("."),
            site_pkg_dir: String::from_str("pkg"),
            env: Env::DEV,
            site_address: SiteAddress { ip: String::from_str("127.0.0.1"), port: 3000 },
            reload_port: 3001,
        }
    }
}

} // verus!
