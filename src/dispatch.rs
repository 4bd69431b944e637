use vstd::prelude::*;

use crate::report::{report_command, report_command_text};
use crate::sensor::{cpu_temperature, temperature_of, Sensor};
use crate::status::{format_status, shown, shown_string, status_text, Snapshot};
use crate::text::{decimal, decimal_of, same_text};

verus! {

/// What a host action asks of the plugin.
#[derive(Clone, Copy, Debug, PartialEq, Eq, Structural)]
pub enum Request {
    /// Report the plugin's own identity metrics.
    Myself,
    /// Report the full status block.
    Status,
    /// Nothing to report.
    Ignored,
}

/// The request that the action `action` with argument `data` makes.
pub open spec fn request_of(action: Seq<char>, data: Seq<char>) -> Request {
    if action == "report"@ && data == "myself"@ {
        Request::Myself
    } else if action == "report"@ && data == "status"@ {
        Request::Status
    } else {
        Request::Ignored
    }
}

/// Seconds from `start` to `now`; a clock that stepped back counts as none.
pub open spec fn elapsed(start: u64, now: u64) -> u64 {
    if now >= start {
        (now - start) as u64
    } else {
        0
    }
}

/// The command lines of a `myself` report, in the order they are sent.
pub open spec fn myself_lines(
    name: Seq<char>,
    uptime: u64,
    sw_uptime: u64,
    host_name: Option<String>,
    os_name: Option<String>,
    sensors: Seq<Sensor>,
) -> Seq<Seq<char>> {
    seq![
        report_command_text(name, "uptime"@, decimal_of(uptime as nat)),
        report_command_text(name, "sw_uptime"@, decimal_of(sw_uptime as nat)),
        report_command_text(name, "hostname"@, shown(host_name)),
        report_command_text(name, "os"@, shown(os_name)),
        report_command_text(name, "temperature"@, temperature_of(sensors)),
    ]
}

/// The command lines of a `status` report.
pub open spec fn status_lines(name: Seq<char>, snap: Snapshot) -> Seq<Seq<char>> {
    seq![report_command_text(name, "status"@, status_text(snap))]
}

/// The views of a list of lines.
pub open spec fn texts(lines: Seq<String>) -> Seq<Seq<char>> {
    lines.map_values(|s: String| s@)
}

/// Decides what the action `action` with argument `data` asks for; the
/// third argument of a host action plays no part.
pub fn route(action: &str, data: &str) -> (r: Request)
    ensures
        r == request_of(action@, data@),
{
    if !same_text(action, "report") {
        Request::Ignored
    } else if same_text(data, "myself") {
        Request::Myself
    } else if same_text(data, "status") {
        Request::Status
    } else {
        Request::Ignored
    }
}

/// The answer to every host action, whatever was reported.
pub fn acknowledgment() -> (r: String)
    ensures
        r@ == "send"@,
{
    String::from_str("send")
}

/// The state a loaded plugin keeps: when it was loaded.
pub struct Plugin {
    start_ts: u64,
}

impl Plugin {
    /// The time, in seconds, at which the plugin was loaded.
    pub closed spec fn started(&self) -> u64 {
        self.start_ts
    }

    /// A plugin loaded at time `now`, in seconds.
    pub fn new(now: u64) -> (r: Plugin)
        ensures
            r.started() == now,
    {
        Plugin { start_ts: now }
    }

    /// The time at which the plugin was loaded.
    pub fn start_ts(&self) -> (r: u64)
        ensures
            r == self.started(),
    {
        self.start_ts
    }

    /// The plugin's fixed identifier.
    pub fn name(&self) -> (r: String)
        ensures
            r@ == "sysinfo"@,
    {
        String::from_str("sysinfo")
    }

    /// Seconds the plugin has been loaded, at time `now`.
    pub fn sw_uptime(&self, now: u64) -> (r: u64)
        ensures
            r == elapsed(self.started(), now),
    {
        now.saturating_sub(self.start_ts)
    }

    /// The status block of a snapshot.
    pub fn status(&self, snap: &Snapshot) -> (r: String)
        ensures
            r@ == status_text(*snap),
    {
        format_status(snap)
    }

    /// The five command lines of a `myself` report for the plugin configured
    /// as `config_name`: system uptime, the plugin's own uptime at `now`,
    /// host name, OS name and CPU temperature, in that order.
    pub fn myself_commands(
        &self,
        config_name: &str,
        now: u64,
        uptime: u64,
        host_name: &Option<String>,
        os_name: &Option<String>,
        sensors: &Vec<Sensor>,
    ) -> (r: Vec<String>)
        ensures
            texts(r@) == myself_lines(
                config_name@,
                uptime,
                elapsed(self.started(), now),
                *host_name,
                *os_name,
                sensors@,
            ),
    {
        let mut r: Vec<String> = Vec::new();
        r.push(report_command(config_name, "uptime", decimal(uptime)));
        r.push(report_command(config_name, "sw_uptime", decimal(self.sw_uptime(now))));
        r.push(report_command(config_name, "hostname", shown_string(host_name)));
        r.push(report_command(config_name, "os", shown_string(os_name)));
        r.push(report_command(config_name, "temperature", cpu_temperature(sensors)));
        assert(texts(r@) =~= myself_lines(
            config_name@,
            uptime,
            elapsed(self.started(), now),
            *host_name,
            *os_name,
            sensors@,
        ));
        r
    }

    /// The single command line of a `status` report for the plugin
    /// configured as `config_name`; its payload is the status block of `snap`.
    pub fn status_commands(&self, config_name: &str, snap: &Snapshot) -> (r: Vec<String>)
        ensures
            texts(r@) == status_lines(config_name@, *snap),
    {
        let mut r: Vec<String> = Vec::new();
        r.push(report_command(config_name, "status", self.status(snap)));
        assert(texts(r@) =~= status_lines(config_name@, *snap));
        r
    }
}

/// The plugin's own uptime never decreases as the clock advances.
pub proof fn lemma_sw_uptime_monotone(start: u64, earlier: u64, later: u64)
    requires
        earlier <= later,
    ensures
        elapsed(start, earlier) <= elapsed(start, later),
{
}

/// Only `report` with `myself` or `status` asks for anything; every other
/// action, and `report` with any other argument, is ignored.
pub proof fn lemma_other_actions_ignored(action: Seq<char>, data: Seq<char>)
    requires
        action != "report"@ || (data != "myself"@ && data != "status"@),
    ensures
        request_of(action, data) == Request::Ignored,
{
}

} // verus!
