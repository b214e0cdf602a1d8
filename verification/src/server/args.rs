//! The arguments of the daemon.
use vstd::prelude::*;

use crate::ipc;
use crate::ipc::bool_str;
use crate::number;
use crate::number::push_decimal;
use crate::text;

verus! {

/// The arguments of the daemon.
#[derive(Debug, Clone, Copy, PartialEq, Eq, Structural)]
pub struct Args {
    /// Run in the foreground, do not daemonize
    pub foreground: bool,
    /// Log to stdout instead of syslog
    pub std_logging: bool,
    /// How long to cache directory listings from disks
    pub dir_cache_expiry_secs: u64,
    /// How long to cache file contents from disks
    pub file_cache_expiry_secs: u64,
    /// How long to wait for a disk directory to be read
    pub dir_reread_timeout_secs: u64,
    /// How long to wait for a disk file to be read
    pub file_reread_timeout_secs: u64,
    /// How long to sleep between checks for a directory re-read
    pub dir_read_sleep_ms: u64,
    /// How long to sleep between checks for a file re-read
    pub file_read_sleep_ms: u64,
    /// How often to check whether to age out background tasks
    pub bg_age_check_secs: u64,
    /// How long the kernel should cache directory attributes
    pub dir_attr_ttl_ms: u64,
    /// How long the kernel should cache file attributes
    pub file_attr_ttl_ms: u64,
    /// How long the kernel should cache directory entry inodes
    pub dir_lookup_ttl_ms: u64,
    /// How long the kernel should cache file entry inodes
    pub file_lookup_ttl_ms: u64,
    /// Unmount what is mounted even if the daemon crashes
    pub autounmount: bool,
}

/// How much is logged.
#[derive(Debug, Clone, Copy, PartialEq, Eq, Structural)]
pub enum Level {
    Error,
    Warn,
    Info,
    Debug,
    Trace,
}

/// How much is logged of each part.
#[derive(Debug, Clone, Copy, PartialEq, Eq, Structural)]
pub struct Levels {
    pub fuser: Level,
    pub xum1541: Level,
    pub rs1541: Level,
    pub daemon: Level,
}

impl Level {
    /// The name of the level.
    pub open spec fn name(self) -> Seq<char> {
        match self {
            Level::Error => "Error"@,
            Level::Warn => "Warn"@,
            Level::Info => "Info"@,
            Level::Debug => "Debug"@,
            Level::Trace => "Trace"@,
        }
    }

    /// The name of the level.
    pub fn as_str(&self) -> (r: &'static str)
        ensures
            r@ == self.name(),
    {
        match self {
            Level::Error => "Error",
            Level::Warn => "Warn",
            Level::Info => "Info",
            Level::Debug => "Debug",
            Level::Trace => "Trace",
        }
    }
}

/// The most verbose level that is enabled. Where none is, it is as if errors were.
pub fn get_effective_level(trace: bool, debug: bool, info: bool, warn: bool) -> (r: Level)
    ensures
        r == (if trace {
            Level::Trace
        } else if debug {
            Level::Debug
        } else if info {
            Level::Info
        } else if warn {
            Level::Warn
        } else {
            Level::Error
        }),
{
    if trace {
        Level::Trace
    } else if debug {
        Level::Debug
    } else if info {
        Level::Info
    } else if warn {
        Level::Warn
    } else {
        Level::Error
    }
}

/// A number with its name and unit.
pub open spec fn counted(name: Seq<char>, n: u64, unit: Seq<char>) -> Seq<char> {
    name + number::decimal(n as nat) + unit
}

fn two(a: &str, b: &str) -> (s: String)
    ensures
        s@ == a@ + b@,
{
    let mut s = a.to_owned();
    s.append(b);
    s
}

fn count(name: &str, n: u64, unit: &str) -> (s: String)
    ensures
        s@ == counted(name@, n, unit@),
{
    let mut s = name.to_owned();
    push_decimal(&mut s, n);
    s.append(unit);
    s
}

impl Default for Args {
    /// The arguments where none are given.
    fn default() -> (args: Self)
        ensures
            args == Args::defaults(),
    {
        Args {
            foreground: false,
            std_logging: false,
            dir_cache_expiry_secs: 60,
            file_cache_expiry_secs: 300,
            dir_reread_timeout_secs: 10,
            file_reread_timeout_secs: 30,
            dir_read_sleep_ms: 1000,
            file_read_sleep_ms: 1000,
            bg_age_check_secs: 5,
            dir_attr_ttl_ms: 5000,
            file_attr_ttl_ms: 5000,
            dir_lookup_ttl_ms: 5000,
            file_lookup_ttl_ms: 5000,
            autounmount: true,
        }
    }
}

impl Args {
    /// The arguments where none are given.
    pub open spec fn defaults() -> Args {
        Args {
            foreground: false,
            std_logging: false,
            dir_cache_expiry_secs: 60,
            file_cache_expiry_secs: 300,
            dir_reread_timeout_secs: 10,
            file_reread_timeout_secs: 30,
            dir_read_sleep_ms: 1000,
            file_read_sleep_ms: 1000,
            bg_age_check_secs: 5,
            dir_attr_ttl_ms: 5000,
            file_attr_ttl_ms: 5000,
            dir_lookup_ttl_ms: 5000,
            file_lookup_ttl_ms: 5000,
            autounmount: true,
        }
    }

    /// The lines that the arguments are logged in.
    pub open spec fn log_lines(self, levels: Levels) -> Seq<Seq<char>> {
        seq![
            "--------- 1541fsd Arguments ----------"@,
            "Standard args........................."@,
            "  foreground:  "@ + ipc::bool_text(self.foreground),
            "  std_logging: "@ + ipc::bool_text(self.std_logging),
            "  autounmount: "@ + ipc::bool_text(self.autounmount),
            "Cache values.........................."@,
            counted("  dir_cache_expiry_secs:   "@, self.dir_cache_expiry_secs, "s"@),
            counted("  file_cache_expiry_secs:  "@, self.file_cache_expiry_secs, "s"@),
            "Timer values.........................."@,
            counted("  dir_reread_timeout_secs:   "@, self.dir_reread_timeout_secs, "s"@),
            counted("  file_reread_timeout_secs:  "@, self.file_reread_timeout_secs, "s"@),
            counted("  dir_read_sleep_ms:         "@, self.dir_read_sleep_ms, "ms"@),
            counted("  file_read_sleep_ms:        "@, self.file_read_sleep_ms, "ms"@),
            counted("  bg_age_check_secs:         "@, self.bg_age_check_secs, "s"@),
            "TTL values............................"@,
            counted("  dir_attr_ttl_ms:     "@, self.dir_attr_ttl_ms, "ms"@),
            counted("  file_attr_ttl_ms:    "@, self.file_attr_ttl_ms, "ms"@),
            counted("  dir_lookup_ttl_ms:   "@, self.dir_lookup_ttl_ms, "ms"@),
            counted("  file_lookup_ttl_ms:  "@, self.file_lookup_ttl_ms, "ms"@),
            "Logging settings......................"@,
            "  fuser:    "@ + levels.fuser.name(),
            "  xum1541:  "@ + levels.xum1541.name(),
            "  rs1541:   "@ + levels.rs1541.name(),
            "  1541fsd:  "@ + levels.daemon.name(),
        ]
    }

    /// The lines that the arguments are logged in.
    pub fn log_args(&self, levels: &Levels) -> (lines: Vec<String>)
        ensures
            text::texts(lines@) == self.log_lines(*levels),
    {
        let lines = vec![
            "--------- 1541fsd Arguments ----------".to_owned(),
            "Standard args.........................".to_owned(),
            two("  foreground:  ", bool_str(self.foreground)),
            two("  std_logging: ", bool_str(self.std_logging)),
            two("  autounmount: ", bool_str(self.autounmount)),
            "Cache values..........................".to_owned(),
            count("  dir_cache_expiry_secs:   ", self.dir_cache_expiry_secs, "s"),
            count("  file_cache_expiry_secs:  ", self.file_cache_expiry_secs, "s"),
            "Timer values..........................".to_owned(),
            count("  dir_reread_timeout_secs:   ", self.dir_reread_timeout_secs, "s"),
            count("  file_reread_timeout_secs:  ", self.file_reread_timeout_secs, "s"),
            count("  dir_read_sleep_ms:         ", self.dir_read_sleep_ms, "ms"),
            count("  file_read_sleep_ms:        ", self.file_read_sleep_ms, "ms"),
            count("  bg_age_check_secs:         ", self.bg_age_check_secs, "s"),
            "TTL values............................".to_owned(),
            count("  dir_attr_ttl_ms:     ", self.dir_attr_ttl_ms, "ms"),
            count("  file_attr_ttl_ms:    ", self.file_attr_ttl_ms, "ms"),
            count("  dir_lookup_ttl_ms:   ", self.dir_lookup_ttl_ms, "ms"),
            count("  file_lookup_ttl_ms:  ", self.file_lookup_ttl_ms, "ms"),
            "Logging settings......................".to_owned(),
            two("  fuser:    ", levels.fuser.as_str()),
            two("  xum1541:  ", levels.xum1541.as_str()),
            two("  rs1541:   ", levels.rs1541.as_str()),
            two("  1541fsd:  ", levels.daemon.as_str()),
        ];
        assert(text::texts(lines@) =~= self.log_lines(*levels));
        lines
    }
}

} // verus!
