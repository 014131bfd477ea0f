//! The API's configuration: general settings and the locations of the files
//! that it reads and writes.
use vstd::prelude::*;
use crate::address::{
    digits_value, is_absolute, is_absolute_path, is_ipv4, is_ipv4_text, is_octet,
};
use crate::text::split_on;
use crate::text::same_text;

verus! {

/// A file of the appliance that the API reads or writes.
#[derive(Clone, Copy, Debug, PartialEq, Eq, Structural)]
pub enum PiholeFile {
    DnsmasqConfig,
    Whitelist,
    Blacklist,
    Regexlist,
    SetupVars,
    FtlConfig,
    LocalVersions,
    LocalBranches,
}

/// Where each file is found on a standard installation.
pub open spec fn default_location_spec(file: PiholeFile) -> Seq<char> {
    match file {
        PiholeFile::DnsmasqConfig => "/etc/dnsmasq.d/01-pihole.conf"@,
        PiholeFile::Whitelist => "/etc/pihole/whitelist.txt"@,
        PiholeFile::Blacklist => "/etc/pihole/blacklist.txt"@,
        PiholeFile::Regexlist => "/etc/pihole/regex.list"@,
        PiholeFile::SetupVars => "/etc/pihole/setupVars.conf"@,
        PiholeFile::FtlConfig => "/etc/pihole/pihole-FTL.conf"@,
        PiholeFile::LocalVersions => "/etc/pihole/localversions"@,
        PiholeFile::LocalBranches => "/etc/pihole/localbranches"@,
    }
}

impl PiholeFile {
    /// Where the file is found on a standard installation.
    pub fn default_location(self) -> (r: &'static str)
        ensures
            r@ == default_location_spec(self),
    {
        match self {
            PiholeFile::DnsmasqConfig => "/etc/dnsmasq.d/01-pihole.conf",
            PiholeFile::Whitelist => "/etc/pihole/whitelist.txt",
            PiholeFile::Blacklist => "/etc/pihole/blacklist.txt",
            PiholeFile::Regexlist => "/etc/pihole/regex.list",
            PiholeFile::SetupVars => "/etc/pihole/setupVars.conf",
            PiholeFile::FtlConfig => "/etc/pihole/pihole-FTL.conf",
            PiholeFile::LocalVersions => "/etc/pihole/localversions",
            PiholeFile::LocalBranches => "/etc/pihole/localbranches",
        }
    }
}

/// How much the web server logs.
#[derive(Clone, Copy, Debug, PartialEq, Eq, Structural)]
pub enum LogLevel {
    Critical,
    Normal,
    Debug,
}

/// The log level that a configured name selects; an unknown name, which a
/// valid configuration never holds, selects `Critical`.
pub open spec fn log_level_spec(name: Seq<char>) -> LogLevel {
    if name == "normal"@ {
        LogLevel::Normal
    } else if name == "debug"@ {
        LogLevel::Debug
    } else {
        LogLevel::Critical
    }
}

/// The names of the log levels.
pub open spec fn is_log_level_name(name: Seq<char>) -> bool {
    name == "debug"@ || name == "normal"@ || name == "critical"@
}

/// The failure to produce a usable configuration.
#[derive(Clone, Debug, PartialEq, Eq)]
pub enum ConfigError {
    /// The file at this location could not be read.
    FileRead(String),
    /// The file's contents are not a valid configuration.
    ConfigParsing,
}

/// The "file_locations" section of the configuration.
pub struct Files {
    pub dnsmasq_config: String,
    pub whitelist: String,
    pub blacklist: String,
    pub regexlist: String,
    pub setup_vars: String,
    pub ftl_config: String,
    pub local_versions: String,
    pub local_branches: String,
}

/// The configured location of a file.
pub open spec fn location_spec(f: Files, file: PiholeFile) -> Seq<char> {
    match file {
        PiholeFile::DnsmasqConfig => f.dnsmasq_config@,
        PiholeFile::Whitelist => f.whitelist@,
        PiholeFile::Blacklist => f.blacklist@,
        PiholeFile::Regexlist => f.regexlist@,
        PiholeFile::SetupVars => f.setup_vars@,
        PiholeFile::FtlConfig => f.ftl_config@,
        PiholeFile::LocalVersions => f.local_versions@,
        PiholeFile::LocalBranches => f.local_branches@,
    }
}

/// Every configured location is an absolute path.
pub open spec fn files_valid(f: Files) -> bool {
    &&& is_absolute_path(f.dnsmasq_config@)
    &&& is_absolute_path(f.whitelist@)
    &&& is_absolute_path(f.blacklist@)
    &&& is_absolute_path(f.regexlist@)
    &&& is_absolute_path(f.setup_vars@)
    &&& is_absolute_path(f.ftl_config@)
    &&& is_absolute_path(f.local_versions@)
    &&& is_absolute_path(f.local_branches@)
}

impl Default for Files {
    fn default() -> (r: Files)
        ensures
            forall|file: PiholeFile| #[trigger]
                location_spec(r, file) == default_location_spec(file),
            files_valid(r),
    {
        proof {
            reveal_strlit("/etc/dnsmasq.d/01-pihole.conf");
            reveal_strlit("/etc/pihole/whitelist.txt");
            reveal_strlit("/etc/pihole/blacklist.txt");
            reveal_strlit("/etc/pihole/regex.list");
            reveal_strlit("/etc/pihole/setupVars.conf");
            reveal_strlit("/etc/pihole/pihole-FTL.conf");
            reveal_strlit("/etc/pihole/localversions");
            reveal_strlit("/etc/pihole/localbranches");
        }
        Files {
            dnsmasq_config: PiholeFile::DnsmasqConfig.default_location().to_owned(),
            whitelist: PiholeFile::Whitelist.default_location().to_owned(),
            blacklist: PiholeFile::Blacklist.default_location().to_owned(),
            regexlist: PiholeFile::Regexlist.default_location().to_owned(),
            setup_vars: PiholeFile::SetupVars.default_location().to_owned(),
            ftl_config: PiholeFile::FtlConfig.default_location().to_owned(),
            local_versions: PiholeFile::LocalVersions.default_location().to_owned(),
            local_branches: PiholeFile::LocalBranches.default_location().to_owned(),
        }
    }
}

impl Files {
    /// The configured location of a file.
    pub fn location(&self, file: PiholeFile) -> (r: &str)
        ensures
            r@ == location_spec(*self, file),
    {
        match file {
            PiholeFile::DnsmasqConfig => self.dnsmasq_config.as_str(),
            PiholeFile::Whitelist => self.whitelist.as_str(),
            PiholeFile::Blacklist => self.blacklist.as_str(),
            PiholeFile::Regexlist => self.regexlist.as_str(),
            PiholeFile::SetupVars => self.setup_vars.as_str(),
            PiholeFile::FtlConfig => self.ftl_config.as_str(),
            PiholeFile::LocalVersions => self.local_versions.as_str(),
            PiholeFile::LocalBranches => self.local_branches.as_str(),
        }
    }

    /// Check that every location is an absolute path.
    pub fn is_valid(&self) -> (r: bool)
        ensures
            r == files_valid(*self),
    {
        is_absolute(self.dnsmasq_config.as_str()) && is_absolute(self.whitelist.as_str())
            && is_absolute(self.blacklist.as_str()) && is_absolute(self.regexlist.as_str())
            && is_absolute(self.setup_vars.as_str()) && is_absolute(self.ftl_config.as_str())
            && is_absolute(self.local_versions.as_str()) && is_absolute(
            self.local_branches.as_str(),
        )
    }
}

/// The "general" section of the configuration.
pub struct General {
    pub address: String,
    pub port: usize,
    pub log_level: String,
}

/// The address is an IPv4 address, the port fits in 16 bits and the log
/// level is one of "debug", "normal" and "critical".
pub open spec fn general_valid(g: General) -> bool {
    is_ipv4(g.address@) && g.port <= 65535 && is_log_level_name(g.log_level@)
}

/// The address that the API listens on unless configured otherwise.
pub fn default_address() -> (r: String)
    ensures
        r@ == "0.0.0.0"@,
{
    "0.0.0.0".to_owned()
}

/// The port that the API listens on unless configured otherwise.
pub fn default_port() -> (r: usize)
    ensures
        r == 80,
{
    80
}

/// The log level unless configured otherwise.
pub fn default_log_level() -> (r: String)
    ensures
        r@ == "critical"@,
{
    "critical".to_owned()
}

/// The default address is an IPv4 address.
proof fn lemma_default_address_valid()
    ensures
        is_ipv4("0.0.0.0"@),
{
    reveal_strlit("0.0.0.0");
    let s = "0.0.0.0"@;
    let z = seq!['0'];
    reveal_with_fuel(split_on, 8);
    assert(s.take(1) =~= z);
    assert(s.take(2).drop_last() =~= s.take(1));
    assert(s.take(3).drop_last() =~= s.take(2));
    assert(s.take(4).drop_last() =~= s.take(3));
    assert(s.take(5).drop_last() =~= s.take(4));
    assert(s.take(6).drop_last() =~= s.take(5));
    assert(s.take(7) =~= s);
    assert(s.take(7).drop_last() =~= s.take(6));
    assert(z.drop_last() =~= Seq::<char>::empty());
    assert(Seq::<char>::empty().push('0') =~= z);
    assert(split_on(z, '.') =~= seq![z]);
    assert(split_on(s.take(2), '.') =~= seq![z, Seq::empty()]);
    assert(split_on(s.take(3), '.') =~= seq![z, z]);
    assert(split_on(s.take(4), '.') =~= seq![z, z, Seq::empty()]);
    assert(split_on(s.take(5), '.') =~= seq![z, z, z]);
    assert(split_on(s.take(6), '.') =~= seq![z, z, z, Seq::empty()]);
    assert(split_on(s, '.') =~= seq![z, z, z, z]);
    assert(z.last() == '0');
    assert(digits_value(z.drop_last()) == 0);
    assert(digits_value(z) == 0);
    assert(is_octet(z));
}

impl Default for General {
    fn default() -> (r: General)
        ensures
            r.address@ == "0.0.0.0"@,
            r.port == 80,
            r.log_level@ == "critical"@,
            general_valid(r),
    {
        proof {
            lemma_default_address_valid();
        }
        General { address: default_address(), port: default_port(), log_level: default_log_level() }
    }
}

impl General {
    /// Check the address, the port and the log level.
    pub fn is_valid(&self) -> (r: bool)
        ensures
            r == general_valid(*self),
    {
        let level = self.log_level.as_str();
        is_ipv4_text(self.address.as_str()) && self.port <= 65535 && (same_text(level, "debug")
            || same_text(level, "normal") || same_text(level, "critical"))
    }
}

/// The API's configuration.
pub struct Config {
    pub general: General,
    pub file_locations: Files,
}

/// Both sections of the configuration are valid.
pub open spec fn config_valid(c: Config) -> bool {
    general_valid(c.general) && files_valid(c.file_locations)
}

impl Default for Config {
    fn default() -> (r: Config)
        ensures
            r.general.address@ == "0.0.0.0"@,
            r.general.port == 80,
            r.general.log_level@ == "critical"@,
            forall|file: PiholeFile| #[trigger]
                location_spec(r.file_locations, file) == default_location_spec(file),
            config_valid(r),
    {
        Config { general: General::default(), file_locations: Files::default() }
    }
}

impl Config {
    /// Check if the config settings are valid.
    pub fn is_valid(&self) -> (r: bool)
        ensures
            r == config_valid(*self),
    {
        self.general.is_valid() && self.file_locations.is_valid()
    }

    /// Accept a configuration read from a file only where it is valid.
    pub fn validate(self) -> (r: Result<Config, ConfigError>)
        ensures
            config_valid(self) ==> r == Ok::<Config, ConfigError>(self),
            !config_valid(self) ==> r == Err::<Config, ConfigError>(ConfigError::ConfigParsing),
    {
        if self.is_valid() {
            Ok(self)
        } else {
            Err(ConfigError::ConfigParsing)
        }
    }

    /// Get the configured location of a file.
    pub fn file_location(&self, file: PiholeFile) -> (r: &str)
        ensures
            r@ == location_spec(self.file_locations, file),
    {
        self.file_locations.location(file)
    }

    pub fn address(&self) -> (r: &str)
        ensures
            r@ == self.general.address@,
    {
        self.general.address.as_str()
    }

    pub fn port(&self) -> (r: usize)
        ensures
            r == self.general.port,
    {
        self.general.port
    }

    /// The configured log level.
    pub fn log_level(&self) -> (r: LogLevel)
        ensures
            r == log_level_spec(self.general.log_level@),
    {
        let level = self.general.log_level.as_str();
        if same_text(level, "normal") {
            LogLevel::Normal
        } else if same_text(level, "debug") {
            LogLevel::Debug
        } else {
            LogLevel::Critical
        }
    }
}

} // verus!
