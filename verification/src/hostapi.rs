//! The host-query layer: one `HostSystem` value holding the platform
//! handles, thin trusted wrappers around the outside crates that read the
//! host, and verified methods that turn each reading into its report line
//! through the pure formatters.

use vstd::prelude::*;

use battery::units::ratio::percent;
use sysinfo::{CpuExt, CpuRefreshKind, PidExt, ProcessExt, ProcessRefreshKind, RefreshKind,
    SystemExt};
use systemstat::Platform;

use crate::info::{
    battery_line, format_uptime, memory_line, os_string, swap_line, uptime_spec, user_host,
    BatteryCharge,
};
use crate::procwalk::{find_terminal, terminal_spec, ProcEntry};
use crate::strutil::{contains_seq, contains_str};

verus! {

#[verifier::external_type_specification]
#[verifier::external_body]
pub struct ExSysinfoSystem(sysinfo::System);

#[verifier::external_type_specification]
#[verifier::external_body]
pub struct ExSystemstatSystem(systemstat::System);

/// Relies on sysinfo::System::new_with_specifics: a fresh handle refreshed
/// for CPU and memory readings.
#[verifier::external_body]
fn new_sysinfo() -> sysinfo::System {
    sysinfo::System::new_with_specifics(
        RefreshKind::new().with_cpu(CpuRefreshKind::new()).with_memory(),
    )
}

/// Relies on systemstat::Platform::new: a fresh platform handle.
#[verifier::external_body]
fn new_systemstat() -> systemstat::System {
    systemstat::System::new()
}

/// Relies on sysinfo::SystemExt::host_name: the host name, when known.
#[verifier::external_body]
fn sys_host_name(s: &sysinfo::System) -> Option<String> {
    s.host_name()
}

/// Relies on sysinfo::SystemExt::name: the OS name, when known.
#[verifier::external_body]
fn sys_os_name(s: &sysinfo::System) -> Option<String> {
    s.name()
}

/// Relies on sysinfo::SystemExt::os_version: the OS version, when known.
#[verifier::external_body]
fn sys_os_version(s: &sysinfo::System) -> Option<String> {
    s.os_version()
}

/// Relies on sysinfo::SystemExt::kernel_version: the kernel version, when
/// known.
#[verifier::external_body]
fn sys_kernel_version(s: &sysinfo::System) -> Option<String> {
    s.kernel_version()
}

/// Relies on sysinfo::SystemExt::cpus and sysinfo::CpuExt::brand: the brand
/// string of the first enumerated logical CPU.
#[verifier::external_body]
fn sys_cpu_brand(s: &sysinfo::System) -> Option<String> {
    s.cpus().iter().next().map(|c| c.brand().to_string())
}

/// Relies on sysinfo::SystemExt::used_memory: used RAM in bytes.
#[verifier::external_body]
fn sys_used_memory(s: &sysinfo::System) -> u64 {
    s.used_memory()
}

/// Relies on sysinfo::SystemExt::total_memory: total RAM in bytes.
#[verifier::external_body]
fn sys_total_memory(s: &sysinfo::System) -> u64 {
    s.total_memory()
}

/// Relies on sysinfo::SystemExt::used_swap: used swap in bytes.
#[verifier::external_body]
fn sys_used_swap(s: &sysinfo::System) -> u64 {
    s.used_swap()
}

/// Relies on sysinfo::SystemExt::total_swap: total swap in bytes, zero when
/// no swap is configured.
#[verifier::external_body]
fn sys_total_swap(s: &sysinfo::System) -> u64 {
    s.total_swap()
}

/// Relies on sysinfo::SystemExt::refresh_processes_specifics: loads the
/// process table into the handle.
#[verifier::external_body]
fn sys_refresh_processes(s: &mut sysinfo::System) {
    s.refresh_processes_specifics(ProcessRefreshKind::new());
}

/// Relies on sysinfo::get_current_pid: this process's id.
#[verifier::external_body]
fn sys_current_pid() -> Option<u32> {
    sysinfo::get_current_pid().ok().map(|p| p.as_u32())
}

/// Relies on sysinfo::SystemExt::processes, sysinfo::ProcessExt::name and
/// sysinfo::ProcessExt::parent: the loaded process table as plain (pid,
/// parent, name) entries, in no promised order.
#[verifier::external_body]
fn sys_process_table(s: &sysinfo::System) -> Vec<ProcEntry> {
    s.processes().iter().map(
        |(pid, p)| ProcEntry {
            pid: pid.as_u32(),
            parent: p.parent().map(|q| q.as_u32()),
            name: p.name().to_string(),
        },
    ).collect()
}

/// Relies on systemstat::Platform::uptime: the system uptime, taken to whole
/// seconds.
#[verifier::external_body]
fn systemstat_uptime(s: &systemstat::System) -> Option<u64> {
    s.uptime().ok().map(|d| d.as_secs())
}

/// Relies on battery::Manager and battery::Battery: the first battery's
/// charge as a rounded percentage string, and whether it is charging or
/// discharging. Nothing when no battery manager or battery is present.
#[verifier::external_body]
fn battery_status() -> Option<(String, BatteryCharge)> {
    let manager = battery::Manager::new().ok()?;
    let b = manager.batteries().ok()?.next()?.ok()?;
    let pct = format!("{:.0}", b.state_of_charge().get::<percent>());
    let state = match b.state() {
        battery::State::Charging => BatteryCharge::Charging,
        battery::State::Discharging => BatteryCharge::Discharging,
        _ => BatteryCharge::Other,
    };
    Some((pct, state))
}

/// The host being reported on: the platform handles the fact queries read
/// from.
pub struct HostSystem {
    sysinfo: sysinfo::System,
    systemstat: systemstat::System,
}

impl HostSystem {
    /// A fresh pair of platform handles, refreshed for CPU and memory.
    pub fn new() -> HostSystem {
        HostSystem { sysinfo: new_sysinfo(), systemstat: new_systemstat() }
    }

    /// The identity line: the given user name, `@`, and whatever host name
    /// the platform reported; absent when the caller found no user name or
    /// the host name is unknown.
    pub fn user_at_hostname(&self, user: Option<String>) -> (r: Option<String>)
        ensures
            user is None ==> r is None,
            match r {
                Option::Some(s) => user is Some && exists|host: Seq<char>|
                    s@ == #[trigger] (user->0@ + "@"@ + host),
                Option::None => true,
            },
    {
        let u = match user {
            Option::Some(u) => u,
            Option::None => {
                return Option::None;
            },
        };
        match sys_host_name(&self.sysinfo) {
            Option::Some(h) => {
                let line = user_host(u.as_str(), h.as_str());
                proof {
                    assert(line@ == u@ + "@"@ + h@);
                }
                Option::Some(line)
            },
            Option::None => Option::None,
        }
    }

    /// The OS line, composed by `os_string` from the host's reported name
    /// and version.
    pub fn os(&self) -> Option<String> {
        os_string(sys_os_name(&self.sysinfo), sys_os_version(&self.sysinfo), false)
    }

    /// The kernel version, as the host reports it.
    pub fn kernel(&self) -> Option<String> {
        sys_kernel_version(&self.sysinfo)
    }

    /// The uptime line: whatever the platform reports, formatted by
    /// `format_uptime`.
    pub fn uptime(&self) -> (r: Option<String>)
        ensures
            match r {
                Option::Some(s) => exists|secs: nat| s@ == #[trigger] uptime_spec(secs),
                Option::None => true,
            },
    {
        match systemstat_uptime(&self.systemstat) {
            Option::Some(secs) => {
                let line = format_uptime(secs);
                proof {
                    assert(line@ == uptime_spec(secs as nat));
                }
                Option::Some(line)
            },
            Option::None => Option::None,
        }
    }

    /// The CPU line: the first logical CPU's brand string.
    pub fn cpu(&self) -> Option<String> {
        sys_cpu_brand(&self.sysinfo)
    }

    /// The memory line: used and total RAM, formatted by `memory_line`.
    pub fn memory(&self) -> (r: Option<String>)
        ensures
            match r {
                Option::Some(s) => exists|u: nat, t: nat| s@ == #[trigger] crate::info::mem_line_spec(
                    u,
                    t,
                ),
                Option::None => false,
            },
    {
        let used = sys_used_memory(&self.sysinfo);
        let total = sys_total_memory(&self.sysinfo);
        let line = memory_line(used, total);
        proof {
            assert(line@ == crate::info::mem_line_spec(used as nat, total as nat));
        }
        Option::Some(line)
    }

    /// The swap line: as the memory line, absent when no swap is configured.
    pub fn swap(&self) -> (r: Option<String>)
        ensures
            match r {
                Option::Some(s) => exists|u: nat, t: nat| t != 0 && s@
                    == #[trigger] crate::info::mem_line_spec(u, t),
                Option::None => true,
            },
    {
        let used = sys_used_swap(&self.sysinfo);
        let total = sys_total_swap(&self.sysinfo);
        let r = swap_line(used, total);
        proof {
            if r is Some {
                assert(total != 0);
                assert(r->0@ == crate::info::mem_line_spec(used as nat, total as nat));
            }
        }
        r
    }

    /// The battery line: whatever percentage the platform reported, a
    /// percent sign, and the charge-state suffix; absent when the host has
    /// no battery.
    pub fn battery(&self) -> (r: Option<String>)
        ensures
            match r {
                Option::Some(s) => exists|pct: Seq<char>, state: BatteryCharge|
                    s@ == #[trigger] (pct + "%"@ + crate::info::charge_suffix(state)),
                Option::None => true,
            },
    {
        match battery_status() {
            Option::Some((pct, state)) => {
                let line = battery_line(pct.as_str(), state);
                proof {
                    assert(line@ == pct@ + "%"@ + crate::info::charge_suffix(state));
                }
                Option::Some(line)
            },
            Option::None => Option::None,
        }
    }

    /// The terminal line: `termux` when the home directory says so, else the
    /// name found by the bounded process-ancestry walk over the host's
    /// process table.
    pub fn terminal(&mut self, home: Option<String>) -> (r: Option<String>)
        ensures
            (match home {
                Option::Some(h) => contains_seq(h@, "termux"@),
                Option::None => false,
            }) ==> (match r {
                Option::Some(s) => s@ == "termux"@,
                Option::None => false,
            }),
            match r {
                Option::Some(s) => s@ == "termux"@ || exists|t: Seq<ProcEntry>, p: u32|
                    #[trigger] terminal_spec(t, p) == Option::Some(s@),
                Option::None => true,
            },
    {
        if let Option::Some(h) = home {
            if contains_str(h.as_str(), "termux") {
                return Option::Some(String::from_str("termux"));
            }
        }
        sys_refresh_processes(&mut self.sysinfo);
        let pid = match sys_current_pid() {
            Option::Some(p) => p,
            Option::None => {
                return Option::None;
            },
        };
        let table = sys_process_table(&self.sysinfo);
        let r = find_terminal(&table, pid);
        proof {
            if r is Some {
                assert(terminal_spec(table@, pid) == Option::Some(r->0@));
            }
        }
        r
    }
}

} // verus!
