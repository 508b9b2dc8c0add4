//! The device registry and the program settings merged from the command line
//! and the settings file.

use vstd::prelude::*;

verus! {

/// A 48-bit hardware address, most significant byte first.
#[derive(Debug, Clone, Copy, PartialEq, Eq, Structural, Hash)]
pub struct HwAddr(pub u64);

/// A previously accepted heart-rate monitor.
#[derive(Debug, Clone)]
pub struct Hrm {
    /// Name of the monitor.
    pub name: String,
    /// The hardware address, the registry's key.
    pub mac: HwAddr,
    /// The id of the adaptor variant that decodes it.
    pub adaptor_id: Option<u16>,
}

/// Settings kept in the settings file.
#[derive(Debug, Clone)]
pub struct ProgramConfig {
    /// Every heart-rate monitor accepted before, at most one per address.
    pub hrm_list: Vec<Hrm>,
    /// Whether the http server is enabled at all.
    pub enable_http_server: Option<bool>,
    /// Host to bind the http server to.
    pub http_host: Option<String>,
    /// Port to bind the http server to.
    pub http_port: Option<u16>,
    /// Folder to load page templates from.
    pub http_template_folder: Option<String>,
    /// Whether csv logging is enabled.
    pub enable_csv_log: Option<bool>,
    /// Folder to store csv logs in.
    pub csv_folder: Option<String>,
}

/// Addresses of the registry entries, in order.
pub open spec fn addrs_of(list: Seq<Hrm>) -> Seq<HwAddr> {
    list.map_values(|h: Hrm| h.mac)
}

/// No two registry entries share an address.
pub open spec fn addrs_unique(list: Seq<Hrm>) -> bool {
    forall|i: int, j: int|
        0 <= i < list.len() && 0 <= j < list.len() && i != j ==> #[trigger] list[i].mac != #[trigger] list[j].mac
}

/// The registry after offering `hrm`: appended when its address is new,
/// otherwise unchanged.
pub open spec fn registry_add(list: Seq<Hrm>, hrm: Hrm) -> Seq<Hrm> {
    if addrs_of(list).contains(hrm.mac) {
        list
    } else {
        list.push(hrm)
    }
}

impl ProgramConfig {
    /// The registry is well formed: addresses are unique.
    pub open spec fn wf(&self) -> bool {
        addrs_unique(self.hrm_list@)
    }

    /// Whether a monitor with address `mac` is registered.
    pub fn is_registered(&self, mac: HwAddr) -> (r: bool)
        ensures
            r == addrs_of(self.hrm_list@).contains(mac),
    {
        let mut i: usize = 0;
        while i < self.hrm_list.len()
            invariant
                i <= self.hrm_list@.len(),
                forall|k: int| 0 <= k < i ==> self.hrm_list@[k].mac != mac,
            decreases self.hrm_list@.len() - i,
        {
            if self.hrm_list[i].mac == mac {
                assert(addrs_of(self.hrm_list@)[i as int] == mac);
                return true;
            }
            i += 1;
        }
        proof {
            if addrs_of(self.hrm_list@).contains(mac) {
                let k = choose|k: int| 0 <= k < addrs_of(self.hrm_list@).len() && addrs_of(self.hrm_list@)[k] == mac;
                assert(self.hrm_list@[k].mac == mac);
            }
        }
        false
    }

    /// Stores a new monitor, unless one with the same address is registered.
    /// Returns whether it was added, that is whether the file needs saving.
    pub fn add_hrm(&mut self, hrm: Hrm) -> (added: bool)
        ensures
            added == !addrs_of(old(self).hrm_list@).contains(hrm.mac),
            final(self).hrm_list@ == registry_add(old(self).hrm_list@, hrm),
            final(self).enable_http_server == old(self).enable_http_server,
            final(self).http_host == old(self).http_host,
            final(self).http_port == old(self).http_port,
            final(self).http_template_folder == old(self).http_template_folder,
            final(self).enable_csv_log == old(self).enable_csv_log,
            final(self).csv_folder == old(self).csv_folder,
            old(self).wf() ==> final(self).wf(),
    {
        if self.is_registered(hrm.mac) {
            false
        } else {
            self.hrm_list.push(hrm);
            proof {
                let l = self.hrm_list@;
                assert forall|i: int, j: int|
                    0 <= i < l.len() && 0 <= j < l.len() && i != j && old(self).wf() implies #[trigger] l[i].mac
                    != #[trigger] l[j].mac by {
                    if i == l.len() - 1 {
                        assert(addrs_of(old(self).hrm_list@)[j] == l[j].mac);
                    } else if j == l.len() - 1 {
                        assert(addrs_of(old(self).hrm_list@)[i] == l[i].mac);
                    }
                }
            }
            true
        }
    }
}

/// Offering two monitors with the same address to a well-formed registry
/// leaves exactly one entry with that address.
pub proof fn lemma_add_idempotent(list: Seq<Hrm>, first: Hrm, second: Hrm)
    requires
        addrs_unique(list),
        first.mac == second.mac,
    ensures
        ({
            let r = registry_add(registry_add(list, first), second);
            &&& addrs_unique(r)
            &&& exists|i: int| 0 <= i < r.len() && r[i].mac == first.mac
            &&& forall|i: int, j: int|
                0 <= i < r.len() && 0 <= j < r.len() && r[i].mac == first.mac && r[j].mac == first.mac ==> i == j
        }),
{
    let once = registry_add(list, first);
    assert(addrs_unique(once)) by {
        if !addrs_of(list).contains(first.mac) {
            assert forall|i: int, j: int|
                0 <= i < once.len() && 0 <= j < once.len() && i != j implies #[trigger] once[i].mac
                != #[trigger] once[j].mac by {
                if i == once.len() - 1 {
                    assert(addrs_of(list)[j] == once[j].mac);
                } else if j == once.len() - 1 {
                    assert(addrs_of(list)[i] == once[i].mac);
                }
            }
        }
    }
    if addrs_of(list).contains(first.mac) {
        let k = choose|k: int| 0 <= k < addrs_of(list).len() && addrs_of(list)[k] == first.mac;
        assert(list[k].mac == first.mac);
    } else {
        assert(once[once.len() - 1].mac == first.mac);
    }
    let k = choose|k: int| 0 <= k < once.len() && once[k].mac == first.mac;
    assert(addrs_of(once)[k] == second.mac);
    assert(registry_add(once, second) == once);
}

/// Settings given on the command line; each one that is set overrides the
/// settings file.
#[derive(Debug, Clone, Copy, PartialEq, Eq, Structural)]
pub struct Args {
    pub enable_http_server: Option<bool>,
    pub http_port: Option<u16>,
    pub enable_csv_log: Option<bool>,
    /// Accept a new device without asking, instead of a known one.
    pub accept_new_device: bool,
    /// Address of the monitor to use or to pair; it takes precedence over
    /// `hrm_index`.
    pub hrm_mac: Option<HwAddr>,
    /// 1-based index into the registry of the monitor to use, when no
    /// address is requested.
    pub hrm_index: Option<u8>,
    /// Keep the chosen device for reconnections.
    pub pin_device: bool,
    /// Rescan without waiting for input when reconnecting.
    pub noninteractive_rescan: bool,
    /// Dump everything the connected device offers.
    pub debug_device: bool,
}

/// The port the http server binds to when none is configured.
pub const DEFAULT_HTTP_PORT: u16 = 8080;

/// The first of two optional settings that is set, else `default`.
pub open spec fn setting<T>(cli: Option<T>, file: Option<T>, default: T) -> T {
    match cli {
        Some(v) => v,
        None => match file {
            Some(v) => v,
            None => default,
        },
    }
}

fn pick_setting<T: Copy>(cli: Option<T>, file: Option<T>, default: T) -> (r: T)
    ensures
        r == setting(cli, file, default),
{
    match cli {
        Some(v) => v,
        None => match file {
            Some(v) => v,
            None => default,
        },
    }
}

/// Why the program cannot start with the given settings.
#[derive(Debug, Clone, Copy, PartialEq, Eq, Structural)]
pub enum StartupError {
    /// The registry index points past the registry, which has `len` entries.
    HrmIndexOutOfRange { len: usize },
    /// Neither the http server nor the csv logger is enabled.
    NothingToDo,
}

/// The settings file merged with the command line.
#[derive(Debug, Clone)]
pub struct MergedConfig {
    pub program_config: ProgramConfig,
    pub enable_http_server: bool,
    pub http_port: u16,
    pub enable_csv_log: bool,
    /// Folder where csv files are stored.
    pub log_filepath: Option<String>,
    pub args: Args,
}

impl MergedConfig {
    /// Merges the command line into the settings file: a setting given on the
    /// command line wins, then the file's, then the default (off, port 8080).
    pub fn merge(args: Args, program_config: ProgramConfig) -> (r: MergedConfig)
        ensures
            r.enable_http_server == setting(args.enable_http_server, program_config.enable_http_server, false),
            r.http_port == setting(args.http_port, program_config.http_port, DEFAULT_HTTP_PORT),
            r.enable_csv_log == setting(args.enable_csv_log, program_config.enable_csv_log, false),
            r.log_filepath == program_config.csv_folder,
            r.args == args,
            r.program_config == program_config,
    {
        let enable_http_server = pick_setting(args.enable_http_server, program_config.enable_http_server, false);
        let http_port = pick_setting(args.http_port, program_config.http_port, DEFAULT_HTTP_PORT);
        let enable_csv_log = pick_setting(args.enable_csv_log, program_config.enable_csv_log, false);
        let log_filepath = program_config.csv_folder.clone();
        MergedConfig { program_config, enable_http_server, http_port, enable_csv_log, log_filepath, args }
    }

    /// Checks the settings before a normal start. A registry index of 0 is
    /// taken as 1; an index past the registry, or a start with neither the
    /// http server nor the csv logger, is an error.
    pub fn validate(&mut self) -> (r: Result<(), StartupError>)
        ensures
            final(self).program_config == old(self).program_config,
            final(self).enable_http_server == old(self).enable_http_server,
            final(self).http_port == old(self).http_port,
            final(self).enable_csv_log == old(self).enable_csv_log,
            final(self).log_filepath == old(self).log_filepath,
            final(self).args == (Args {
                hrm_index: match old(self).args.hrm_index {
                    Some(i) => Some(if i == 0 { 1u8 } else { i }),
                    None => None,
                },
                ..old(self).args
            }),
            match final(self).args.hrm_index {
                Some(i) => i > old(self).program_config.hrm_list@.len() ==> r == Err::<(), StartupError>(
                    StartupError::HrmIndexOutOfRange { len: old(self).program_config.hrm_list@.len() as usize },
                ),
                None => true,
            },
            r is Ok <==> (match final(self).args.hrm_index {
                Some(i) => i <= old(self).program_config.hrm_list@.len(),
                None => true,
            }) && (old(self).enable_http_server || old(self).enable_csv_log),
            (match final(self).args.hrm_index {
                Some(i) => i <= old(self).program_config.hrm_list@.len(),
                None => true,
            }) && !(old(self).enable_http_server || old(self).enable_csv_log) ==> r == Err::<(), StartupError>(
                StartupError::NothingToDo,
            ),
    {
        if let Some(i) = self.args.hrm_index {
            let i: u8 = if i == 0 { 1 } else { i };
            self.args.hrm_index = Some(i);
            if i as usize > self.program_config.hrm_list.len() {
                return Err(StartupError::HrmIndexOutOfRange { len: self.program_config.hrm_list.len() });
            }
        }
        if !self.enable_http_server && !self.enable_csv_log {
            return Err(StartupError::NothingToDo);
        }
        Ok(())
    }

    /// Whether the csv logger runs.
    pub fn csv_log_active(&self) -> (r: bool)
        ensures
            r == (self.enable_csv_log && self.log_filepath is Some),
    {
        self.enable_csv_log && self.log_filepath.is_some()
    }
}

} // verus!
