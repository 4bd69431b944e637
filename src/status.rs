use vstd::prelude::*;

use crate::sensor::{cpu_temperature, temperature_of, Sensor};
use crate::text::{
    byte_string, decimal, decimal_of, lemma_decimal_one_line, lemma_join_one_line,
    one_line, percent_string, percent_text, uptime_string, uptime_text,
};

verus! {

/// One mounted volume as the host enumerated it. `available` and `total`
/// are its free and whole space as `written_size` writes them; `percent` is
/// the share of free space, already written by the host.
pub struct DiskRecord {
    pub name: Option<String>,
    pub kind: String,
    pub file_system: Option<String>,
    pub available: String,
    pub total: String,
    pub percent: String,
}

/// One sampling of the machine. A field that the host could not read is
/// `None` and is shown as `unavailable`. Load averages and the boot time are
/// already written by the host; the memory counts are given both as numbers,
/// from which the share is computed, and as `written_size` writes them.
pub struct Snapshot {
    pub sw_uptime: u64,
    pub wan_ip: Option<String>,
    pub os_name: Option<String>,
    pub kernel_version: Option<String>,
    pub os_version: Option<String>,
    pub host_name: Option<String>,
    pub cpu_arch: Option<String>,
    pub cpu_count: u64,
    pub uptime: u64,
    pub booted: String,
    pub sensors: Vec<Sensor>,
    pub load_one: String,
    pub load_five: String,
    pub load_fifteen: String,
    pub memory_available: u64,
    pub memory_total: u64,
    pub memory_available_text: String,
    pub memory_total_text: String,
    pub disks: Vec<DiskRecord>,
}

/// How a field that may be missing is shown.
pub open spec fn shown(v: Option<String>) -> Seq<char> {
    match v {
        Some(s) => s@,
        None => "unavailable"@,
    }
}

/// An indented line of a section.
pub open spec fn line(x: Seq<char>) -> Seq<char> {
    "\t"@ + x + "\n"@
}

/// An indented `key: value` line.
pub open spec fn field(key: Seq<char>, value: Seq<char>) -> Seq<char> {
    line(key + ": "@ + value)
}

pub open spec fn software_body(snap: Snapshot) -> Seq<char> {
    field("Uptime"@, uptime_text(snap.sw_uptime))
}

pub open spec fn ip_body(snap: Snapshot) -> Seq<char> {
    field("WAN IP"@, shown(snap.wan_ip))
}

pub open spec fn system_body(snap: Snapshot) -> Seq<char> {
    field("OS"@, shown(snap.os_name))
        + field("Kernel Version"@, shown(snap.kernel_version))
        + field("OS Version"@, shown(snap.os_version))
        + field("Host Name"@, shown(snap.host_name))
        + field("CPU Architecture"@, shown(snap.cpu_arch))
        + field("NB CPUs"@, decimal_of(snap.cpu_count as nat))
        + field("Uptime"@, uptime_text(snap.uptime) + " seconds"@)
        + field("Booted"@, snap.booted@)
}

pub open spec fn temperature_body(snap: Snapshot) -> Seq<char> {
    field("Temperature"@, temperature_of(snap.sensors@) + "°C"@)
}

pub open spec fn cpu_body(snap: Snapshot) -> Seq<char> {
    field(
        "one minute"@,
        snap.load_one@ + "%, five minutes: "@ + snap.load_five@ + "%, fifteen minutes: "@
            + snap.load_fifteen@ + "%"@,
    )
}

/// The share of free memory: `available * 100 / total` as a whole
/// percentage, or `unavailable` when there is no total or the share does not
/// fit in 64 bits.
pub open spec fn memory_share(available: u64, total: u64) -> Seq<char> {
    if 0 < total && (available * 100) / (total as int) <= u64::MAX {
        percent_text(((available * 100) / (total as int)) as u64)
    } else {
        "unavailable"@
    }
}

pub open spec fn memory_body(snap: Snapshot) -> Seq<char> {
    line(
        snap.memory_available_text@ + "/"@ + snap.memory_total_text@ + " ("@
            + memory_share(snap.memory_available, snap.memory_total) + ")"@,
    )
}

pub open spec fn disk_line(d: DiskRecord) -> Seq<char> {
    field(
        shown(d.name),
        d.kind@ + ", "@ + shown(d.file_system) + ", "@ + d.available@ + "/"@
            + d.total@ + " ("@ + d.percent@ + ")"@,
    )
}

/// One line per disk, in the order given.
pub open spec fn disk_lines(disks: Seq<DiskRecord>) -> Seq<char>
    decreases disks.len(),
{
    if disks.len() == 0 {
        Seq::empty()
    } else {
        disk_lines(disks.drop_last()) + disk_line(disks.last())
    }
}

/// The line shown when no disk is listed.
pub open spec fn no_disk_line() -> Seq<char> {
    field("Disks"@, "none"@)
}

/// One line per disk, or a single placeholder line when there is none.
pub open spec fn disk_body(snap: Snapshot) -> Seq<char> {
    if snap.disks@.len() == 0 {
        no_disk_line()
    } else {
        disk_lines(snap.disks@)
    }
}

/// The whole status block: seven sections in a fixed order, each a header
/// line and its indented lines.
pub open spec fn status_text(snap: Snapshot) -> Seq<char> {
    "Software Info:\n"@ + software_body(snap)
        + "IP Info:\n"@ + ip_body(snap)
        + "System Info:\n"@ + system_body(snap)
        + "Temperature Info:\n"@ + temperature_body(snap)
        + "CPU Usage:\n"@ + cpu_body(snap)
        + "Memory Info:\n"@ + memory_body(snap)
        + "Disk Info:\n"@ + disk_body(snap)
}

pub(crate) fn shown_string(v: &Option<String>) -> (r: String)
    ensures
        r@ == shown(*v),
{
    match v {
        Some(s) => s.clone(),
        None => String::from_str("unavailable"),
    }
}

fn push_line(s: &mut String, x: &str)
    ensures
        final(s)@ == old(s)@ + line(x@),
{
    s.append("\t");
    s.append(x);
    s.append("\n");
    assert(final(s)@ =~= old(s)@ + line(x@));
}

fn push_field(s: &mut String, key: &str, value: &str)
    ensures
        final(s)@ == old(s)@ + field(key@, value@),
{
    let mut x = String::from_str(key);
    x.append(": ");
    x.append(value);
    push_line(s, x.as_str());
}

fn push_system(s: &mut String, snap: &Snapshot)
    ensures
        final(s)@ == old(s)@ + system_body(*snap),
        one_line(uptime_text(snap.uptime)),
{
    let ghost s0 = s@;
    let v = shown_string(&snap.os_name);
    push_field(s, "OS", v.as_str());
    let v = shown_string(&snap.kernel_version);
    push_field(s, "Kernel Version", v.as_str());
    let v = shown_string(&snap.os_version);
    push_field(s, "OS Version", v.as_str());
    let v = shown_string(&snap.host_name);
    push_field(s, "Host Name", v.as_str());
    let v = shown_string(&snap.cpu_arch);
    push_field(s, "CPU Architecture", v.as_str());
    let v = decimal(snap.cpu_count);
    push_field(s, "NB CPUs", v.as_str());
    let mut v = uptime_string(snap.uptime);
    v.append(" seconds");
    push_field(s, "Uptime", v.as_str());
    push_field(s, "Booted", snap.booted.as_str());
    assert(s@ =~= s0 + system_body(*snap));
}

fn push_cpu(s: &mut String, snap: &Snapshot)
    ensures
        final(s)@ == old(s)@ + cpu_body(*snap),
{
    let mut v = snap.load_one.clone();
    v.append("%, five minutes: ");
    v.append(snap.load_five.as_str());
    v.append("%, fifteen minutes: ");
    v.append(snap.load_fifteen.as_str());
    v.append("%");
    push_field(s, "one minute", v.as_str());
}

fn memory_share_string(available: u64, total: u64) -> (r: String)
    ensures
        r@ == memory_share(available, total),
        one_line(r@),
{
    proof {
        reveal_strlit("unavailable");
    }
    if total == 0 {
        return String::from_str("unavailable");
    }
    let scaled: u128 = available as u128 * 100;
    let share: u128 = scaled / total as u128;
    if share <= u64::MAX as u128 {
        percent_string(share as u64)
    } else {
        String::from_str("unavailable")
    }
}

fn push_memory(s: &mut String, snap: &Snapshot)
    ensures
        final(s)@ == old(s)@ + memory_body(*snap),
        one_line(memory_share(snap.memory_available, snap.memory_total)),
{
    let mut v = snap.memory_available_text.clone();
    v.append("/");
    v.append(snap.memory_total_text.as_str());
    v.append(" (");
    let p = memory_share_string(snap.memory_available, snap.memory_total);
    v.append(p.as_str());
    v.append(")");
    push_line(s, v.as_str());
}

fn push_disk(s: &mut String, d: &DiskRecord)
    ensures
        final(s)@ == old(s)@ + disk_line(*d),
{
    let name = shown_string(&d.name);
    let mut v = d.kind.clone();
    v.append(", ");
    let fs = shown_string(&d.file_system);
    v.append(fs.as_str());
    v.append(", ");
    v.append(d.available.as_str());
    v.append("/");
    v.append(d.total.as_str());
    v.append(" (");
    v.append(d.percent.as_str());
    v.append(")");
    push_field(s, name.as_str(), v.as_str());
}

fn push_disk_lines(s: &mut String, disks: &Vec<DiskRecord>)
    ensures
        final(s)@ == old(s)@ + disk_lines(disks@),
{
    let ghost s0 = s@;
    let n = disks.len();
    let mut i: usize = 0;
    assert(disks@.subrange(0, 0) =~= Seq::<DiskRecord>::empty());
    assert(s@ =~= s0 + disk_lines(disks@.subrange(0, 0)));
    while i < n
        invariant
            n == disks@.len(),
            i <= n,
            s@ == s0 + disk_lines(disks@.subrange(0, i as int)),
        decreases n - i,
    {
        push_disk(s, &disks[i]);
        let ghost next = disks@.subrange(0, i + 1);
        assert(next.drop_last() =~= disks@.subrange(0, i as int));
        assert(next.last() == disks@[i as int]);
        assert(s@ =~= s0 + disk_lines(next));
        i = i + 1;
    }
    assert(disks@.subrange(0, n as int) =~= disks@);
}

fn push_disks(s: &mut String, snap: &Snapshot)
    ensures
        final(s)@ == old(s)@ + disk_body(*snap),
{
    if snap.disks.len() == 0 {
        push_field(s, "Disks", "none");
    } else {
        push_disk_lines(s, &snap.disks);
    }
}

/// A size in bytes as the status block shows it: a decimal-scaled number
/// with its unit, on one line.
pub fn written_size(bytes: u64) -> (r: String)
    ensures
        one_line(r@),
{
    byte_string(bytes)
}

/// Renders a snapshot as the status block: Software Info, IP Info, System
/// Info, Temperature Info, CPU Usage, Memory Info and Disk Info, in that
/// order.
pub fn format_status(snap: &Snapshot) -> (r: String)
    ensures
        r@ == status_text(*snap),
        sampled_one_line(*snap) ==> status_layout(*snap),
{
    let mut s = String::from_str("Software Info:\n");
    let up = uptime_string(snap.sw_uptime);
    push_field(&mut s, "Uptime", up.as_str());
    s.append("IP Info:\n");
    let ip = shown_string(&snap.wan_ip);
    push_field(&mut s, "WAN IP", ip.as_str());
    s.append("System Info:\n");
    push_system(&mut s, snap);
    s.append("Temperature Info:\n");
    let mut t = cpu_temperature(&snap.sensors);
    t.append("°C");
    push_field(&mut s, "Temperature", t.as_str());
    s.append("CPU Usage:\n");
    push_cpu(&mut s, snap);
    s.append("Memory Info:\n");
    push_memory(&mut s, snap);
    s.append("Disk Info:\n");
    push_disks(&mut s, snap);
    proof {
        if sampled_one_line(*snap) {
            lemma_status_layout(*snap);
        }
    }
    s
}

/// A section body: one or more whole lines, the first of them indented.
pub open spec fn indented_block(body: Seq<char>) -> bool {
    &&& body.len() > 0
    &&& body[0] == '\t'
    &&& body.last() == '\n'
}

proof fn lemma_line_block(x: Seq<char>)
    ensures
        indented_block(line(x)),
{
    reveal_strlit("\t");
    reveal_strlit("\n");
}

proof fn lemma_join_blocks(a: Seq<char>, b: Seq<char>)
    requires
        indented_block(a),
        indented_block(b),
    ensures
        indented_block(a + b),
{
}

proof fn lemma_disk_block(disks: Seq<DiskRecord>)
    requires
        disks.len() > 0,
    ensures
        indented_block(disk_lines(disks)),
    decreases disks.len(),
{
    lemma_line_block(disk_line(disks.last()));
    if disks.len() > 1 {
        lemma_disk_block(disks.drop_last());
        lemma_join_blocks(disk_lines(disks.drop_last()), disk_line(disks.last()));
    } else {
        assert(disks.drop_last().len() == 0);
        assert(disk_lines(disks.drop_last()) == Seq::<char>::empty());
        assert(disk_lines(disks) =~= disk_line(disks.last()));
    }
}

/// In every status block, each of the seven section bodies that follow the
/// headers is one or more whole lines, of which the first is indented.
pub proof fn lemma_status_sections(snap: Snapshot)
    ensures
        indented_block(software_body(snap)),
        indented_block(ip_body(snap)),
        indented_block(system_body(snap)),
        indented_block(temperature_body(snap)),
        indented_block(cpu_body(snap)),
        indented_block(memory_body(snap)),
        indented_block(disk_body(snap)),
{
    let fields = seq![
        field("OS"@, shown(snap.os_name)),
        field("Kernel Version"@, shown(snap.kernel_version)),
        field("OS Version"@, shown(snap.os_version)),
        field("Host Name"@, shown(snap.host_name)),
        field("CPU Architecture"@, shown(snap.cpu_arch)),
        field("NB CPUs"@, decimal_of(snap.cpu_count as nat)),
        field("Uptime"@, uptime_text(snap.uptime) + " seconds"@),
        field("Booted"@, snap.booted@),
    ];
    lemma_line_block(("Uptime"@ + ": "@ + uptime_text(snap.sw_uptime)));
    lemma_line_block(("WAN IP"@ + ": "@ + shown(snap.wan_ip)));
    lemma_line_block(("Temperature"@ + ": "@ + temperature_of(snap.sensors@) + "°C"@));
    lemma_line_block(
        "one minute"@ + ": "@ + (snap.load_one@ + "%, five minutes: "@ + snap.load_five@
            + "%, fifteen minutes: "@ + snap.load_fifteen@ + "%"@),
    );
    lemma_line_block(
        snap.memory_available_text@ + "/"@ + snap.memory_total_text@ + " ("@
            + memory_share(snap.memory_available, snap.memory_total) + ")"@,
    );
    lemma_line_block("OS"@ + ": "@ + shown(snap.os_name));
    lemma_line_block("Kernel Version"@ + ": "@ + shown(snap.kernel_version));
    lemma_line_block("OS Version"@ + ": "@ + shown(snap.os_version));
    lemma_line_block("Host Name"@ + ": "@ + shown(snap.host_name));
    lemma_line_block("CPU Architecture"@ + ": "@ + shown(snap.cpu_arch));
    lemma_line_block("NB CPUs"@ + ": "@ + decimal_of(snap.cpu_count as nat));
    lemma_line_block("Uptime"@ + ": "@ + (uptime_text(snap.uptime) + " seconds"@));
    lemma_line_block("Booted"@ + ": "@ + snap.booted@);
    lemma_join_blocks(fields[0], fields[1]);
    lemma_join_blocks(fields[0] + fields[1], fields[2]);
    lemma_join_blocks(fields[0] + fields[1] + fields[2], fields[3]);
    lemma_join_blocks(fields[0] + fields[1] + fields[2] + fields[3], fields[4]);
    lemma_join_blocks(fields[0] + fields[1] + fields[2] + fields[3] + fields[4], fields[5]);
    lemma_join_blocks(
        fields[0] + fields[1] + fields[2] + fields[3] + fields[4] + fields[5],
        fields[6],
    );
    lemma_join_blocks(
        fields[0] + fields[1] + fields[2] + fields[3] + fields[4] + fields[5] + fields[6],
        fields[7],
    );
    if snap.disks@.len() == 0 {
        lemma_line_block("Disks"@ + ": "@ + "none"@);
    } else {
        lemma_disk_block(snap.disks@);
    }
}

/// An optional sampled text holds no line break.
pub open spec fn opt_one_line(v: Option<String>) -> bool {
    match v {
        Some(s) => one_line(s@),
        None => true,
    }
}

/// Every text that the host sampled holds no line break.
pub open spec fn sampled_one_line(snap: Snapshot) -> bool {
    &&& opt_one_line(snap.wan_ip)
    &&& opt_one_line(snap.os_name)
    &&& opt_one_line(snap.kernel_version)
    &&& opt_one_line(snap.os_version)
    &&& opt_one_line(snap.host_name)
    &&& opt_one_line(snap.cpu_arch)
    &&& one_line(snap.booted@)
    &&& (forall|i: int| 0 <= i < snap.sensors@.len() ==> opt_one_line(#[trigger] snap.sensors@[i].reading))
    &&& one_line(snap.load_one@)
    &&& one_line(snap.load_five@)
    &&& one_line(snap.load_fifteen@)
    &&& one_line(snap.memory_available_text@)
    &&& one_line(snap.memory_total_text@)
    &&& (forall|i: int| 0 <= i < snap.disks@.len() ==> {
        let d = #[trigger] snap.disks@[i];
        opt_one_line(d.name) && one_line(d.kind@) && opt_one_line(d.file_system)
            && one_line(d.available@) && one_line(d.total@) && one_line(d.percent@)
    })
}

/// A section body made of whole lines, each of which starts with a tab.
pub open spec fn tab_lines(body: Seq<char>) -> bool {
    &&& indented_block(body)
    &&& forall|i: int| 0 <= i < body.len() - 1 && #[trigger] body[i] == '\n' ==> body[i + 1] == '\t'
}

/// Each of the seven section bodies is made of whole lines that start with a
/// tab; with the header lines, which start with none, the status block is the
/// seven headers in order, each followed by its indented lines.
pub open spec fn status_layout(snap: Snapshot) -> bool {
    &&& tab_lines(software_body(snap))
    &&& tab_lines(ip_body(snap))
    &&& tab_lines(system_body(snap))
    &&& tab_lines(temperature_body(snap))
    &&& tab_lines(cpu_body(snap))
    &&& tab_lines(memory_body(snap))
    &&& tab_lines(disk_body(snap))
}

proof fn lemma_line_tab(x: Seq<char>)
    requires
        one_line(x),
    ensures
        tab_lines(line(x)),
{
    reveal_strlit("\t");
    reveal_strlit("\n");
    let l = line(x);
    assert forall|i: int| 0 <= i < l.len() - 1 && #[trigger] l[i] == '\n' implies l[i + 1] == '\t' by {
        if i >= 1 {
            assert(l[i] == x[i - 1]);
        }
    }
}

proof fn lemma_join_tab(a: Seq<char>, b: Seq<char>)
    requires
        tab_lines(a),
        tab_lines(b),
    ensures
        tab_lines(a + b),
{
    let c = a + b;
    assert forall|i: int| 0 <= i < c.len() - 1 && #[trigger] c[i] == '\n' implies c[i + 1] == '\t' by {
        if i < a.len() - 1 {
            assert(c[i] == a[i] && c[i + 1] == a[i + 1]);
        } else if i == a.len() - 1 {
            assert(c[i + 1] == b[0]);
        } else {
            assert(c[i] == b[i - a.len()] && c[i + 1] == b[i + 1 - a.len()]);
        }
    }
}

proof fn lemma_field_tab(key: Seq<char>, value: Seq<char>)
    requires
        one_line(key),
        one_line(value),
    ensures
        tab_lines(field(key, value)),
{
    reveal_strlit(": ");
    assert(one_line(": "@));
    lemma_join_one_line(key, ": "@);
    lemma_join_one_line(key + ": "@, value);
    lemma_line_tab(key + ": "@ + value);
}

proof fn lemma_shown_one_line(v: Option<String>)
    requires
        opt_one_line(v),
    ensures
        one_line(shown(v)),
{
    reveal_strlit("unavailable");
    assert(one_line("unavailable"@));
}

proof fn lemma_temperature_one_line(sensors: Seq<Sensor>)
    requires
        forall|i: int| 0 <= i < sensors.len() ==> opt_one_line(#[trigger] sensors[i].reading),
    ensures
        one_line(temperature_of(sensors)),
    decreases sensors.len(),
{
    reveal_strlit("0");
    if sensors.len() > 0 {
        assert(opt_one_line(sensors[0].reading));
        let tail = sensors.drop_first();
        assert forall|i: int| 0 <= i < tail.len() implies opt_one_line(#[trigger] tail[i].reading) by {
            assert(tail[i] == sensors[i + 1]);
        }
        lemma_temperature_one_line(tail);
    }
}

proof fn lemma_disk_lines_tab(disks: Seq<DiskRecord>)
    requires
        disks.len() > 0,
        forall|i: int| 0 <= i < disks.len() ==> {
            let d = #[trigger] disks[i];
            opt_one_line(d.name) && one_line(d.kind@) && opt_one_line(d.file_system)
                && one_line(d.available@) && one_line(d.total@) && one_line(d.percent@)
        },
    ensures
        tab_lines(disk_lines(disks)),
    decreases disks.len(),
{
    let d = disks.last();
    assert(disks[disks.len() - 1] == d);
    reveal_strlit(", ");
    reveal_strlit("/");
    reveal_strlit(" (");
    reveal_strlit(")");
    assert(one_line(", "@) && one_line("/"@) && one_line(" ("@) && one_line(")"@));
    lemma_shown_one_line(d.name);
    lemma_shown_one_line(d.file_system);
    let v1 = d.kind@ + ", "@;
    lemma_join_one_line(d.kind@, ", "@);
    lemma_join_one_line(v1, shown(d.file_system));
    let v2 = v1 + shown(d.file_system);
    lemma_join_one_line(v2, ", "@);
    lemma_join_one_line(v2 + ", "@, d.available@);
    let v3 = v2 + ", "@ + d.available@;
    lemma_join_one_line(v3, "/"@);
    lemma_join_one_line(v3 + "/"@, d.total@);
    let v4 = v3 + "/"@ + d.total@;
    lemma_join_one_line(v4, " ("@);
    lemma_join_one_line(v4 + " ("@, d.percent@);
    lemma_join_one_line(v4 + " ("@ + d.percent@, ")"@);
    lemma_field_tab(shown(d.name), v4 + " ("@ + d.percent@ + ")"@);
    if disks.len() > 1 {
        let init = disks.drop_last();
        assert forall|i: int| 0 <= i < init.len() implies {
            let e = #[trigger] init[i];
            opt_one_line(e.name) && one_line(e.kind@) && opt_one_line(e.file_system)
                && one_line(e.available@) && one_line(e.total@) && one_line(e.percent@)
        } by {
            assert(init[i] == disks[i]);
        }
        lemma_disk_lines_tab(init);
        lemma_join_tab(disk_lines(init), disk_line(d));
    } else {
        assert(disks.drop_last().len() == 0);
        assert(disk_lines(disks.drop_last()) == Seq::<char>::empty());
        assert(disk_lines(disks) =~= disk_line(d));
    }
}

proof fn lemma_status_layout(snap: Snapshot)
    requires
        sampled_one_line(snap),
        one_line(uptime_text(snap.sw_uptime)),
        one_line(uptime_text(snap.uptime)),
        one_line(memory_share(snap.memory_available, snap.memory_total)),
    ensures
        status_layout(snap),
{
    reveal_strlit("Uptime");
    reveal_strlit("WAN IP");
    reveal_strlit("OS");
    reveal_strlit("Kernel Version");
    reveal_strlit("OS Version");
    reveal_strlit("Host Name");
    reveal_strlit("CPU Architecture");
    reveal_strlit("NB CPUs");
    reveal_strlit("Booted");
    reveal_strlit(" seconds");
    reveal_strlit("Temperature");
    reveal_strlit("°C");
    reveal_strlit("one minute");
    reveal_strlit("%, five minutes: ");
    reveal_strlit("%, fifteen minutes: ");
    reveal_strlit("%");
    reveal_strlit("/");
    reveal_strlit(" (");
    reveal_strlit(")");
    reveal_strlit("Disks");
    reveal_strlit("none");
    assert(one_line("Uptime"@) && one_line("WAN IP"@) && one_line("OS"@));
    assert(one_line("Kernel Version"@) && one_line("OS Version"@) && one_line("Host Name"@));
    assert(one_line("CPU Architecture"@) && one_line("NB CPUs"@) && one_line("Booted"@));
    assert(one_line(" seconds"@) && one_line("Temperature"@) && one_line("°C"@));
    assert(one_line("one minute"@) && one_line("%, five minutes: "@));
    assert(one_line("%, fifteen minutes: "@) && one_line("%"@));
    assert(one_line("/"@) && one_line(" ("@) && one_line(")"@));
    assert(one_line("Disks"@) && one_line("none"@));
    // software and IP
    lemma_field_tab("Uptime"@, uptime_text(snap.sw_uptime));
    lemma_shown_one_line(snap.wan_ip);
    lemma_field_tab("WAN IP"@, shown(snap.wan_ip));
    // system
    lemma_shown_one_line(snap.os_name);
    lemma_shown_one_line(snap.kernel_version);
    lemma_shown_one_line(snap.os_version);
    lemma_shown_one_line(snap.host_name);
    lemma_shown_one_line(snap.cpu_arch);
    lemma_decimal_one_line(snap.cpu_count as nat);
    lemma_join_one_line(uptime_text(snap.uptime), " seconds"@);
    let f0 = field("OS"@, shown(snap.os_name));
    let f1 = field("Kernel Version"@, shown(snap.kernel_version));
    let f2 = field("OS Version"@, shown(snap.os_version));
    let f3 = field("Host Name"@, shown(snap.host_name));
    let f4 = field("CPU Architecture"@, shown(snap.cpu_arch));
    let f5 = field("NB CPUs"@, decimal_of(snap.cpu_count as nat));
    let f6 = field("Uptime"@, uptime_text(snap.uptime) + " seconds"@);
    let f7 = field("Booted"@, snap.booted@);
    lemma_field_tab("OS"@, shown(snap.os_name));
    lemma_field_tab("Kernel Version"@, shown(snap.kernel_version));
    lemma_field_tab("OS Version"@, shown(snap.os_version));
    lemma_field_tab("Host Name"@, shown(snap.host_name));
    lemma_field_tab("CPU Architecture"@, shown(snap.cpu_arch));
    lemma_field_tab("NB CPUs"@, decimal_of(snap.cpu_count as nat));
    lemma_field_tab("Uptime"@, uptime_text(snap.uptime) + " seconds"@);
    lemma_field_tab("Booted"@, snap.booted@);
    lemma_join_tab(f0, f1);
    lemma_join_tab(f0 + f1, f2);
    lemma_join_tab(f0 + f1 + f2, f3);
    lemma_join_tab(f0 + f1 + f2 + f3, f4);
    lemma_join_tab(f0 + f1 + f2 + f3 + f4, f5);
    lemma_join_tab(f0 + f1 + f2 + f3 + f4 + f5, f6);
    lemma_join_tab(f0 + f1 + f2 + f3 + f4 + f5 + f6, f7);
    // temperature
    lemma_temperature_one_line(snap.sensors@);
    lemma_join_one_line(temperature_of(snap.sensors@), "°C"@);
    lemma_field_tab("Temperature"@, temperature_of(snap.sensors@) + "°C"@);
    // CPU usage
    let c1 = snap.load_one@ + "%, five minutes: "@;
    lemma_join_one_line(snap.load_one@, "%, five minutes: "@);
    lemma_join_one_line(c1, snap.load_five@);
    lemma_join_one_line(c1 + snap.load_five@, "%, fifteen minutes: "@);
    let c2 = c1 + snap.load_five@ + "%, fifteen minutes: "@;
    lemma_join_one_line(c2, snap.load_fifteen@);
    lemma_join_one_line(c2 + snap.load_fifteen@, "%"@);
    lemma_field_tab("one minute"@, c2 + snap.load_fifteen@ + "%"@);
    // memory
    let m1 = snap.memory_available_text@ + "/"@;
    lemma_join_one_line(snap.memory_available_text@, "/"@);
    lemma_join_one_line(m1, snap.memory_total_text@);
    lemma_join_one_line(m1 + snap.memory_total_text@, " ("@);
    let m2 = m1 + snap.memory_total_text@ + " ("@;
    let share = memory_share(snap.memory_available, snap.memory_total);
    lemma_join_one_line(m2, share);
    lemma_join_one_line(m2 + share, ")"@);
    lemma_line_tab(m2 + share + ")"@);
    // disks
    if snap.disks@.len() == 0 {
        lemma_field_tab("Disks"@, "none"@);
    } else {
        lemma_disk_lines_tab(snap.disks@);
    }
}

} // verus!
