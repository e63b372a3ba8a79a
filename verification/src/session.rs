//! Session configuration and the one-time capability negotiation.
//!
//! The negotiated flags are fixed when a session starts and read by every
//! subsequent operation; only the size-sealing flag may later be toggled by
//! a trusted control operation.

use vstd::prelude::*;
use crate::abi::{
    CAP_ATOMIC_O_TRUNC, CAP_DO_READDIRPLUS, CAP_HANDLE_KILLPRIV_V2, CAP_PERFILE_DAX,
    CAP_READDIRPLUS_AUTO, CAP_WRITEBACK_CACHE, CAP_ZERO_MESSAGE_OPEN, CAP_ZERO_MESSAGE_OPENDIR,
    O_DIRECTORY, REPLY_CACHE_DIR, REPLY_DIRECT_IO, REPLY_KEEP_CACHE,
};

verus! {

/// How aggressively the remote side may cache data and metadata.
#[derive(Clone, Copy, Debug, PartialEq, Eq, Structural)]
pub enum CachePolicy {
    /// The remote side caches nothing; files are read and written directly.
    Never,
    /// Only metadata and directory entries are cached.
    Metadata,
    /// The remote side decides by itself.
    Auto,
    /// Data caches survive across opens.
    Always,
}

/// Externally supplied configuration, fixed for the life of the engine.
#[derive(Clone, Copy, Debug, PartialEq, Eq, Structural)]
pub struct Config {
    /// Whether this engine owns the session (and so negotiates freely), or
    /// sits under a multiplexer whose capabilities are already fixed.
    pub do_import: bool,
    /// Ask for writeback caching during negotiation.
    pub writeback: bool,
    /// Ask for stateless opens (no explicit open/release calls).
    pub no_open: bool,
    /// Ask for stateless directory opens.
    pub no_opendir: bool,
    /// Answer directory listings with an empty result.
    pub no_readdir: bool,
    /// Ask for privilege clearing on signalled modifications.
    pub killpriv_v2: bool,
    /// Serve extended-attribute operations.
    pub xattr: bool,
    /// Let callers request direct I/O on data descriptors.
    pub allow_direct_io: bool,
    /// The cache policy announced through reply options.
    pub cache_policy: CachePolicy,
    /// How long the remote side may trust returned attributes, in
    /// nanoseconds.
    pub attr_timeout_ns: u64,
}

/// The session flags fixed by capability negotiation.
#[derive(Clone, Copy, Debug, PartialEq, Eq, Structural)]
pub struct SessionState {
    /// Writeback caching is on: write-only opens are widened, append is
    /// handled remotely.
    pub writeback: bool,
    /// The remote side never sends open or release: data descriptors are
    /// opened per operation.
    pub no_open: bool,
    /// The remote side never sends opendir or releasedir.
    pub no_opendir: bool,
    /// Privilege clearing on signalled modifications was negotiated.
    pub killpriv_v2: bool,
    /// The per-file fast mapping path was negotiated.
    pub perfile_dax: bool,
    /// Size sealing is active: size-changing operations are refused.
    pub seal_size: bool,
    /// Directory listings are answered empty.
    pub no_readdir: bool,
}

/// Whether negotiation turns writeback caching on.
pub open spec fn negotiates_writeback(cfg: Config, capable: u64) -> bool {
    (!cfg.do_import || cfg.writeback) && capable & CAP_WRITEBACK_CACHE != 0
}

/// Whether negotiation turns stateless opens on.
pub open spec fn negotiates_no_open(cfg: Config, capable: u64) -> bool {
    (!cfg.do_import || cfg.no_open) && capable & CAP_ZERO_MESSAGE_OPEN != 0
}

/// Whether negotiation turns stateless directory opens on.
pub open spec fn negotiates_no_opendir(cfg: Config, capable: u64) -> bool {
    (!cfg.do_import || cfg.no_opendir) && capable & CAP_ZERO_MESSAGE_OPENDIR != 0
}

/// Whether negotiation turns privilege clearing on.
pub open spec fn negotiates_killpriv(cfg: Config, capable: u64) -> bool {
    (!cfg.do_import || cfg.killpriv_v2) && capable & CAP_HANDLE_KILLPRIV_V2 != 0
}

/// The capability bits answered to the remote side.
pub open spec fn negotiated_options(cfg: Config, capable: u64) -> u64 {
    let opts = CAP_DO_READDIRPLUS | CAP_READDIRPLUS_AUTO;
    let opts = if negotiates_writeback(cfg, capable) {
        opts | CAP_WRITEBACK_CACHE
    } else {
        opts
    };
    let opts = if negotiates_no_open(cfg, capable) {
        (opts | CAP_ZERO_MESSAGE_OPEN) & !CAP_ATOMIC_O_TRUNC
    } else {
        opts
    };
    let opts = if negotiates_no_opendir(cfg, capable) {
        opts | CAP_ZERO_MESSAGE_OPENDIR
    } else {
        opts
    };
    let opts = if negotiates_killpriv(cfg, capable) {
        opts | CAP_HANDLE_KILLPRIV_V2
    } else {
        opts
    };
    if capable & CAP_PERFILE_DAX != 0 {
        opts | CAP_PERFILE_DAX
    } else {
        opts
    }
}

impl SessionState {
    /// The state before negotiation: nothing granted, sealing off, listing
    /// behaviour taken from the configuration.
    pub fn new(cfg: &Config) -> (s: SessionState)
        ensures
            s == (SessionState {
                writeback: false,
                no_open: false,
                no_opendir: false,
                killpriv_v2: false,
                perfile_dax: false,
                seal_size: false,
                no_readdir: cfg.no_readdir,
            }),
    {
        SessionState {
            writeback: false,
            no_open: false,
            no_opendir: false,
            killpriv_v2: false,
            perfile_dax: false,
            seal_size: false,
            no_readdir: cfg.no_readdir,
        }
    }

    /// Negotiate capabilities: grant what the configuration asks for among
    /// what the remote side offers, and answer the granted set. Stateless
    /// opens exclude atomic truncation. Sealing and listing behaviour are
    /// left as they were.
    pub fn negotiate(&mut self, cfg: &Config, capable: u64) -> (opts: u64)
        ensures
            opts == negotiated_options(*cfg, capable),
            final(self).writeback == negotiates_writeback(*cfg, capable),
            final(self).no_open == negotiates_no_open(*cfg, capable),
            final(self).no_opendir == negotiates_no_opendir(*cfg, capable),
            final(self).killpriv_v2 == negotiates_killpriv(*cfg, capable),
            final(self).perfile_dax == (capable & CAP_PERFILE_DAX != 0),
            final(self).seal_size == old(self).seal_size,
            final(self).no_readdir == old(self).no_readdir,
    {
        let mut opts: u64 = CAP_DO_READDIRPLUS | CAP_READDIRPLUS_AUTO;
        self.writeback = false;
        self.no_open = false;
        self.no_opendir = false;
        self.killpriv_v2 = false;
        self.perfile_dax = false;
        if (!cfg.do_import || cfg.writeback) && capable & CAP_WRITEBACK_CACHE != 0 {
            opts = opts | CAP_WRITEBACK_CACHE;
            self.writeback = true;
        }
        if (!cfg.do_import || cfg.no_open) && capable & CAP_ZERO_MESSAGE_OPEN != 0 {
            // Atomic truncation cannot be honoured without open messages.
            opts = (opts | CAP_ZERO_MESSAGE_OPEN) & !CAP_ATOMIC_O_TRUNC;
            self.no_open = true;
        }
        if (!cfg.do_import || cfg.no_opendir) && capable & CAP_ZERO_MESSAGE_OPENDIR != 0 {
            opts = opts | CAP_ZERO_MESSAGE_OPENDIR;
            self.no_opendir = true;
        }
        if (!cfg.do_import || cfg.killpriv_v2) && capable & CAP_HANDLE_KILLPRIV_V2 != 0 {
            opts = opts | CAP_HANDLE_KILLPRIV_V2;
            self.killpriv_v2 = true;
        }
        if capable & CAP_PERFILE_DAX != 0 {
            opts = opts | CAP_PERFILE_DAX;
            self.perfile_dax = true;
        }
        opts
    }

    /// Toggle size sealing; reserved to trusted control operations.
    pub fn set_size_sealing(&mut self, on: bool)
        ensures
            *final(self) == (SessionState { seal_size: on, ..*old(self) }),
    {
        self.seal_size = on;
    }
}

/// The reply options for an open, from the cache policy and whether the
/// opened object is a directory.
pub open spec fn open_reply_options_spec(policy: CachePolicy, flags: u32) -> u32 {
    let is_dir = flags & (O_DIRECTORY as u32) != 0;
    match policy {
        CachePolicy::Never => if is_dir {
            0u32
        } else {
            REPLY_DIRECT_IO
        },
        CachePolicy::Metadata => if is_dir {
            REPLY_CACHE_DIR | REPLY_KEEP_CACHE
        } else {
            REPLY_DIRECT_IO
        },
        CachePolicy::Always => if is_dir {
            REPLY_KEEP_CACHE | REPLY_CACHE_DIR
        } else {
            REPLY_KEEP_CACHE
        },
        CachePolicy::Auto => 0u32,
    }
}

/// The policy table of the open family: direct I/O only on files, caches
/// kept according to the cache policy, directory-entry caching only on
/// directories.
pub fn open_reply_options(policy: CachePolicy, flags: u32) -> (r: u32)
    ensures
        r == open_reply_options_spec(policy, flags),
{
    let is_dir = flags & (O_DIRECTORY as u32) != 0;
    match policy {
        CachePolicy::Never => if is_dir {
            0
        } else {
            REPLY_DIRECT_IO
        },
        CachePolicy::Metadata => if is_dir {
            REPLY_CACHE_DIR | REPLY_KEEP_CACHE
        } else {
            REPLY_DIRECT_IO
        },
        CachePolicy::Always => if is_dir {
            REPLY_KEEP_CACHE | REPLY_CACHE_DIR
        } else {
            REPLY_KEEP_CACHE
        },
        CachePolicy::Auto => 0,
    }
}

/// The reply options for a create, which always concerns a regular file.
pub open spec fn create_reply_options_spec(policy: CachePolicy) -> u32 {
    match policy {
        CachePolicy::Never => REPLY_DIRECT_IO,
        CachePolicy::Metadata => REPLY_DIRECT_IO,
        CachePolicy::Always => REPLY_KEEP_CACHE,
        CachePolicy::Auto => 0u32,
    }
}

/// The policy table of create (see [`create_reply_options_spec`]).
pub fn create_reply_options(policy: CachePolicy) -> (r: u32)
    ensures
        r == create_reply_options_spec(policy),
{
    match policy {
        CachePolicy::Never => REPLY_DIRECT_IO,
        CachePolicy::Metadata => REPLY_DIRECT_IO,
        CachePolicy::Always => REPLY_KEEP_CACHE,
        CachePolicy::Auto => 0,
    }
}

} // verus!
