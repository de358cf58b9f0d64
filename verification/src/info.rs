//! The fact formatters: for each fact kind, the pure computation that turns
//! raw host readings into the string the report shows. A fact that cannot be
//! determined is absent, never an error.

use vstd::prelude::*;

use crate::cli::Info;
use crate::strutil::{
    after_last, after_last_str, contains_seq, contains_str, count_char, dec_str, digit_char,
    digit_str, eq_str, join_strings, join_with, remove_char, removed, split_spec, split_string,
    trim_char, trimmed, u64_dec, views_of,
};

verus! {

/// The uptime line: days, hours and minutes, zero-valued *leading* units
/// omitted — a zero hour count after a nonzero day count is kept — and
/// minutes always shown.
pub open spec fn uptime_spec(secs: nat) -> Seq<char> {
    let days = secs / 86400;
    let hours = (secs / 3600) % 24;
    let minutes = (secs / 60) % 60;
    (if days > 0 {
        dec_str(days) + "d "@
    } else {
        Seq::empty()
    }) + (if days > 0 || hours > 0 {
        dec_str(hours) + "h "@
    } else {
        Seq::empty()
    }) + dec_str(minutes) + "m"@
}

/// Format an uptime in seconds as `{d}d {h}h {m}m`, the zero-valued leading
/// units omitted, minutes always shown.
pub fn format_uptime(secs: u64) -> (r: String)
    ensures
        r@ == uptime_spec(secs as nat),
{
    let days = secs / 86400;
    let hours = (secs / 3600) % 24;
    let minutes = (secs / 60) % 60;
    let mut s = String::new();
    if days > 0 {
        s.append(u64_dec(days).as_str());
        s.append("d ");
    }
    if days > 0 || hours > 0 {
        s.append(u64_dec(hours).as_str());
        s.append("h ");
    }
    s.append(u64_dec(minutes).as_str());
    s.append("m");
    proof {
        assert(s@ =~= uptime_spec(secs as nat));
    }
    s
}

/// Byte counts shown in GiB with two decimals, rounded to the nearest
/// hundredth (half away from zero): the whole GiB part and the two fraction
/// digits of `bytes / 2^30`.
pub open spec fn gib_hundredths(bytes: nat) -> nat {
    (bytes * 25 + 134217728) / 268435456
}

/// The two-decimal GiB rendering of a byte count.
pub open spec fn two_dec_spec(bytes: nat) -> Seq<char> {
    let h = gib_hundredths(bytes);
    dec_str(h / 100) + "."@ + seq![digit_char((h / 10) % 10), digit_char(h % 10)]
}

/// Render a byte count in GiB with two decimals.
pub fn format_gib(bytes: u64) -> (r: String)
    ensures
        r@ == two_dec_spec(bytes as nat),
{
    let prod: u128 = (bytes as u128) * 25 + 134217728;
    let h128: u128 = prod / 268435456;
    proof {
        assert(prod <= 0xffffffffffffffffu128 * 25 + 134217728);
        assert(h128 <= u64::MAX);
    }
    let h: u64 = h128 as u64;
    let mut s = u64_dec(h / 100);
    s.append(".");
    s.append(digit_str((h / 10) % 10));
    s.append(digit_str(h % 10));
    proof {
        assert(s@ =~= two_dec_spec(bytes as nat));
    }
    s
}

/// The memory line: used and total, each in GiB with two decimals.
pub open spec fn mem_line_spec(used: nat, total: nat) -> Seq<char> {
    two_dec_spec(used) + "GB / "@ + two_dec_spec(total) + "GB"@
}

/// Format a used/total byte pair as `{used}GB / {total}GB`.
pub fn memory_line(used: u64, total: u64) -> (r: String)
    ensures
        r@ == mem_line_spec(used as nat, total as nat),
{
    let mut s = format_gib(used);
    s.append("GB / ");
    s.append(format_gib(total).as_str());
    s.append("GB");
    proof {
        assert(s@ =~= mem_line_spec(used as nat, total as nat));
    }
    s
}

/// The swap line: as the memory line, but absent when no swap is configured.
pub fn swap_line(used: u64, total: u64) -> (r: Option<String>)
    ensures
        total == 0 ==> r is None,
        total != 0 ==> match r {
            Option::Some(s) => s@ == mem_line_spec(used as nat, total as nat),
            Option::None => false,
        },
{
    if total == 0 {
        Option::None
    } else {
        Option::Some(memory_line(used, total))
    }
}

/// The OS line: name and version joined, unless the version names a rolling
/// release (then the name alone), unless the host is Android (then `Android`
/// and the version). Absent a version, the name alone; absent both, nothing.
pub open spec fn os_spec(
    name: Option<Seq<char>>,
    version: Option<Seq<char>>,
    android: bool,
) -> Option<Seq<char>> {
    match version {
        Option::Some(v) => {
            if android {
                Option::Some("Android "@ + v)
            } else if !contains_seq(v, "rolling"@) {
                match name {
                    Option::Some(n) => Option::Some(n + " "@ + v),
                    Option::None => Option::None,
                }
            } else {
                name
            }
        },
        Option::None => name,
    }
}

/// Compose the OS line from the host's reported name and version.
pub fn os_string(name: Option<String>, version: Option<String>, android: bool) -> (r: Option<
    String,
>)
    ensures
        crate::config::option_view(r) == os_spec(
            crate::config::option_view(name),
            crate::config::option_view(version),
            android,
        ),
{
    match version {
        Option::Some(v) => {
            if android {
                let mut s = String::from_str("Android ");
                s.append(v.as_str());
                Option::Some(s)
            } else if !contains_str(v.as_str(), "rolling") {
                match name {
                    Option::Some(n) => {
                        let mut s = n;
                        s.append(" ");
                        s.append(v.as_str());
                        Option::Some(s)
                    },
                    Option::None => Option::None,
                }
            } else {
                name
            }
        },
        Option::None => name,
    }
}

/// The identity line: `user@host`.
pub fn user_host(user: &str, host: &str) -> (r: String)
    ensures
        r@ == user@ + "@"@ + host@,
{
    let mut s = String::from_str(user);
    s.append("@");
    s.append(host);
    s
}

/// The shell name: what follows the last `/` of the shell path, absent when
/// the path holds no `/`.
pub fn shell_name(shell_path: &str) -> (r: Option<String>)
    ensures
        match r {
            Option::Some(t) => after_last(shell_path@, '/') == Option::Some(t@),
            Option::None => after_last(shell_path@, '/') is None,
        },
{
    after_last_str(shell_path, '/')
}

/// What the platform battery reports beside the charge percentage.
#[derive(Debug, Clone, Copy, PartialEq, Eq, Structural)]
pub enum BatteryCharge {
    Charging,
    Discharging,
    Other,
}

/// The suffix the battery line carries for each charge state.
pub open spec fn charge_suffix(state: BatteryCharge) -> Seq<char> {
    match state {
        BatteryCharge::Charging => ", charging"@,
        BatteryCharge::Discharging => ", discharging"@,
        BatteryCharge::Other => Seq::empty(),
    }
}

/// The battery line: the rounded percentage, a percent sign, and the charge
/// state suffix.
pub fn battery_line(percent: &str, state: BatteryCharge) -> (r: String)
    ensures
        r@ == percent@ + "%"@ + charge_suffix(state),
{
    let mut s = String::from_str(percent);
    s.append("%");
    match state {
        BatteryCharge::Charging => s.append(", charging"),
        BatteryCharge::Discharging => s.append(", discharging"),
        BatteryCharge::Other => {},
    }
    proof {
        assert(s@ =~= percent@ + "%"@ + charge_suffix(state));
    }
    s
}

/// Whether a word is one of the placeholder tokens hardware vendors leave in
/// the product-description fields.
pub open spec fn blacklisted(w: Seq<char>) -> bool {
    ||| w == "To"@
    ||| w == "to"@
    ||| w == "Be"@
    ||| w == "be"@
    ||| w == "Filled"@
    ||| w == "filled"@
    ||| w == "By"@
    ||| w == "by"@
    ||| w == "O.E.M."@
    ||| w == "OEM"@
    ||| w == "Not"@
    ||| w == "Applicable"@
    ||| w == "Specified"@
    ||| w == "System"@
    ||| w == "Product"@
    ||| w == "Name"@
    ||| w == "Version"@
    ||| w == "Undefined"@
    ||| w == "Default"@
    ||| w == "string"@
    ||| w == "INVALID"@
    ||| w == "os"@
    ||| w == "Type1ProductConfigId"@
}

/// Whether this word is a vendor placeholder token.
pub fn is_blacklisted(w: &str) -> (r: bool)
    ensures
        r == blacklisted(w@),
{
    eq_str(w, "To") || eq_str(w, "to") || eq_str(w, "Be") || eq_str(w, "be") || eq_str(
        w,
        "Filled",
    ) || eq_str(w, "filled") || eq_str(w, "By") || eq_str(w, "by") || eq_str(w, "O.E.M.")
        || eq_str(w, "OEM") || eq_str(w, "Not") || eq_str(w, "Applicable") || eq_str(
        w,
        "Specified",
    ) || eq_str(w, "System") || eq_str(w, "Product") || eq_str(w, "Name") || eq_str(w, "Version")
        || eq_str(w, "Undefined") || eq_str(w, "Default") || eq_str(w, "string") || eq_str(
        w,
        "INVALID",
    ) || eq_str(w, "os") || eq_str(w, "Type1ProductConfigId")
}

/// The words that survive the placeholder filter, in order.
pub open spec fn kept_words(parts: Seq<Seq<char>>) -> Seq<Seq<char>>
    decreases parts.len(),
{
    if parts.len() == 0 {
        parts
    } else {
        let rest = kept_words(parts.drop_last());
        if blacklisted(parts.last()) {
            rest
        } else {
            rest.push(parts.last())
        }
    }
}

/// The text of one hardware-description source: its file contents with
/// newlines removed, or empty when the file was unreadable.
pub open spec fn source_text(file: Option<Seq<char>>) -> Seq<char> {
    match file {
        Option::Some(t) => removed(t, '\n'),
        Option::None => Seq::empty(),
    }
}

/// What the host line resolves to.
#[derive(Debug)]
pub enum HostLine {
    /// No hardware-description source was readable: the fact is absent.
    NoSource,
    /// The filtered hardware description.
    Text(String),
    /// Every word was a placeholder: fall back to a machine-architecture
    /// query, whose output replaces the line.
    ArchFallback,
}

/// The host line's mathematical shape.
pub enum HostLineView {
    NoSource,
    Text(Seq<char>),
    ArchFallback,
}

impl View for HostLine {
    type V = HostLineView;

    open spec fn view(&self) -> HostLineView {
        match self {
            HostLine::NoSource => HostLineView::NoSource,
            HostLine::Text(t) => HostLineView::Text(t@),
            HostLine::ArchFallback => HostLineView::ArchFallback,
        }
    }
}

/// The host line: the three sources joined with single spaces, split into
/// words, stripped of vendor placeholders and rejoined. No readable source
/// means an absent fact; an all-placeholder description asks for the
/// machine-architecture fallback.
pub open spec fn host_spec(
    name: Option<Seq<char>>,
    version: Option<Seq<char>>,
    model: Option<Seq<char>>,
) -> HostLineView {
    if name is None && version is None && model is None {
        HostLineView::NoSource
    } else {
        let joined = source_text(name) + " "@ + source_text(version) + " "@ + source_text(model);
        let out = join_with(kept_words(split_spec(joined, ' ')), ' ');
        if out.len() == 0 {
            HostLineView::ArchFallback
        } else {
            HostLineView::Text(out)
        }
    }
}

/// Compose the host line from the raw contents of the three
/// hardware-description files.
pub fn host_line(
    name: Option<String>,
    version: Option<String>,
    model: Option<String>,
) -> (r: HostLine)
    ensures
        r@ == host_spec(
            crate::config::option_view(name),
            crate::config::option_view(version),
            crate::config::option_view(model),
        ),
{
    if name.is_none() && version.is_none() && model.is_none() {
        return HostLine::NoSource;
    }
    let ghost nv = crate::config::option_view(name);
    let ghost vv = crate::config::option_view(version);
    let ghost mv = crate::config::option_view(model);
    let mut joined = match &name {
        Option::Some(t) => remove_char(t.as_str(), '\n'),
        Option::None => String::new(),
    };
    joined.append(" ");
    let cleaned_version = match &version {
        Option::Some(t) => remove_char(t.as_str(), '\n'),
        Option::None => String::new(),
    };
    joined.append(cleaned_version.as_str());
    joined.append(" ");
    let cleaned_model = match &model {
        Option::Some(t) => remove_char(t.as_str(), '\n'),
        Option::None => String::new(),
    };
    joined.append(cleaned_model.as_str());
    proof {
        assert(joined@ =~= source_text(nv) + " "@ + source_text(vv) + " "@ + source_text(mv));
    }
    let parts = split_string(joined.as_str(), ' ');
    let mut kept: Vec<String> = Vec::new();
    let mut i: usize = 0;
    proof {
        assert(views_of(parts@.subrange(0, 0)) =~= Seq::<Seq<char>>::empty());
        assert(views_of(kept@) =~= Seq::<Seq<char>>::empty());
    }
    while i < parts.len()
        invariant
            i <= parts@.len(),
            views_of(kept@) == kept_words(views_of(parts@.subrange(0, i as int))),
        decreases parts@.len() - i,
    {
        let ghost keptm = views_of(kept@);
        proof {
            assert(views_of(parts@.subrange(0, i + 1)).drop_last() =~= views_of(
                parts@.subrange(0, i as int),
            ));
            assert(parts@.subrange(0, i + 1)[i as int] == parts@[i as int]);
            assert(views_of(parts@.subrange(0, i + 1)).last() == parts@[i as int]@);
        }
        if !is_blacklisted(parts[i].as_str()) {
            let word = parts[i].clone();
            let ghost kept0 = kept@;
            kept.push(word);
            proof {
                assert(views_of(kept@) =~= keptm.push(parts@[i as int]@)) by {
                    assert forall|j: int| 0 <= j < kept@.len() implies views_of(kept@)[j]
                        == keptm.push(parts@[i as int]@)[j] by {
                        assert(views_of(kept@)[j] == kept@[j]@);
                        if j < kept0.len() {
                            assert(kept@[j] == kept0[j]);
                            assert(keptm[j] == kept0[j]@);
                        }
                    }
                }
            }
        }
        i = i + 1;
    }
    proof {
        assert(parts@.subrange(0, parts@.len() as int) =~= parts@);
    }
    proof {
        reveal_strlit(" ");
    }
    let out = join_strings(&kept, " ");
    proof {
        assert(" "@[0] == ' ');
    }
    if out.unicode_len() == 0 {
        HostLine::ArchFallback
    } else {
        HostLine::Text(out)
    }
}

/// One package-manager probe: the manager's name and, when its query command
/// exited successfully, the text that command printed.
#[derive(Debug)]
pub struct Probe {
    pub manager: String,
    pub output: Option<String>,
}

/// The packages line for one successful probe: the line count of the
/// trimmed output, then the manager's name in parentheses.
pub open spec fn package_count_spec(out: Seq<char>, manager: Seq<char>) -> Seq<char> {
    dec_str(count_char(trimmed(out, '\n'), '\n') + 1) + " ("@ + manager + ")"@
}

/// The packages line: the first probe whose command succeeded answers; all
/// later probes are discarded, and with no success the fact is absent.
pub open spec fn packages_spec(probes: Seq<Probe>) -> Option<Seq<char>>
    decreases probes.len(),
{
    if probes.len() == 0 {
        Option::None
    } else {
        match probes[0].output {
            Option::Some(out) => Option::Some(package_count_spec(out@, probes[0].manager@)),
            Option::None => packages_spec(probes.drop_first()),
        }
    }
}

/// Pick the first successful probe and format its line count.
pub fn packages_line(probes: &Vec<Probe>) -> (r: Option<String>)
    ensures
        match r {
            Option::Some(t) => packages_spec(probes@) == Option::Some(t@),
            Option::None => packages_spec(probes@) is None,
        },
{
    let mut i: usize = 0;
    proof {
        assert(probes@.subrange(0, probes@.len() as int) =~= probes@);
    }
    while i < probes.len()
        invariant
            i <= probes@.len(),
            packages_spec(probes@) == packages_spec(probes@.subrange(i as int, probes@.len() as int)),
        decreases probes@.len() - i,
    {
        let ghost rest = probes@.subrange(i as int, probes@.len() as int);
        proof {
            assert(rest[0] == probes@[i as int]);
            assert(rest.drop_first() =~= probes@.subrange(i + 1, probes@.len() as int));
        }
        match &probes[i].output {
            Option::Some(out) => {
                let t = trim_char(out.as_str(), '\n');
                let parts = split_string(t.as_str(), '\n');
                proof {
                    crate::strutil::lemma_split_len(t@, '\n');
                    assert(views_of(parts@).len() == parts@.len());
                }
                let count = parts.len();
                let mut s = u64_dec(count as u64);
                s.append(" (");
                s.append(probes[i].manager.as_str());
                s.append(")");
                proof {
                    assert(s@ =~= package_count_spec(out@, probes@[i as int].manager@));
                }
                return Option::Some(s);
            },
            Option::None => {},
        }
        i = i + 1;
    }
    proof {
        assert(probes@.subrange(probes@.len() as int, probes@.len() as int).len() == 0);
    }
    Option::None
}

/// Whether the allow/deny lists let a fact kind into the report: it must be
/// in the allow-list when one is given, and out of the deny-list when one is
/// given — a kind in both lists stays out.
pub open spec fn kept_kind(k: Info, wl: Option<Seq<Info>>, bl: Option<Seq<Info>>) -> bool {
    (match wl {
        Option::Some(w) => w.contains(k),
        Option::None => true,
    }) && (match bl {
        Option::Some(b) => !b.contains(k),
        Option::None => true,
    })
}

/// The kinds of `s` that the allow/deny lists let through, in order.
pub open spec fn visible_kinds(s: Seq<Info>, wl: Option<Seq<Info>>, bl: Option<Seq<Info>>) -> Seq<
    Info,
>
    decreases s.len(),
{
    if s.len() == 0 {
        s
    } else {
        let rest = visible_kinds(s.drop_last(), wl, bl);
        if kept_kind(s.last(), wl, bl) {
            rest.push(s.last())
        } else {
            rest
        }
    }
}

/// The view of an optional kind list.
pub open spec fn kinds_view(l: Option<Vec<Info>>) -> Option<Seq<Info>> {
    match l {
        Option::Some(v) => Option::Some(v@),
        Option::None => Option::None,
    }
}

/// Whether the list holds this kind.
fn contains_kind(v: &Vec<Info>, k: Info) -> (r: bool)
    ensures
        r == v@.contains(k),
{
    let mut i: usize = 0;
    while i < v.len()
        invariant
            i <= v@.len(),
            forall|j: int| 0 <= j < i ==> v@[j] != k,
        decreases v@.len() - i,
    {
        if v[i] == k {
            return true;
        }
        i = i + 1;
    }
    false
}

/// The fact kinds this run shows: every kind, in report order, filtered by
/// the allow- and deny-lists.
pub fn filter_kinds(whitelist: &Option<Vec<Info>>, blacklist: &Option<Vec<Info>>) -> (r: Vec<
    Info,
>)
    ensures
        r@ == visible_kinds(
            crate::cli::all_kinds(),
            kinds_view(*whitelist),
            kinds_view(*blacklist),
        ),
{
    let ghost wl = kinds_view(*whitelist);
    let ghost bl = kinds_view(*blacklist);
    let all = Info::value_variants();
    let mut r: Vec<Info> = Vec::new();
    let mut i: usize = 0;
    proof {
        assert(crate::cli::all_kinds().subrange(0, 0) =~= Seq::<Info>::empty());
    }
    while i < all.len()
        invariant
            i <= all@.len(),
            all@ == crate::cli::all_kinds(),
            wl == kinds_view(*whitelist),
            bl == kinds_view(*blacklist),
            r@ == visible_kinds(all@.subrange(0, i as int), wl, bl),
        decreases all@.len() - i,
    {
        let k = all[i];
        proof {
            assert(all@.subrange(0, i + 1).drop_last() =~= all@.subrange(0, i as int));
            assert(all@.subrange(0, i + 1).last() == all@[i as int]);
        }
        let keep_w = match whitelist {
            Option::Some(w) => contains_kind(w, k),
            Option::None => true,
        };
        let keep_b = match blacklist {
            Option::Some(b) => !contains_kind(b, k),
            Option::None => true,
        };
        if keep_w && keep_b {
            r.push(k);
        }
        i = i + 1;
    }
    proof {
        assert(all@.subrange(0, all@.len() as int) =~= all@);
    }
    r
}

/// Deny beats allow: a kind on the deny-list is absent from the visible
/// kinds even when the allow-list names it too.
pub proof fn lemma_deny_wins(k: Info, s: Seq<Info>, wl: Seq<Info>, bl: Seq<Info>)
    requires
        wl.contains(k),
        bl.contains(k),
    ensures
        !visible_kinds(s, Option::Some(wl), Option::Some(bl)).contains(k),
    decreases s.len(),
{
    if s.len() > 0 {
        lemma_deny_wins(k, s.drop_last(), wl, bl);
        let rest = visible_kinds(s.drop_last(), Option::Some(wl), Option::Some(bl));
        if kept_kind(s.last(), Option::Some(wl), Option::Some(bl)) {
            assert forall|j: int|
                0 <= j < rest.push(s.last()).len() implies rest.push(s.last())[j] != k by {
                if j < rest.len() {
                    assert(!rest.contains(k));
                }
            }
        }
    }
}

/// What the process environment and the probe commands handed the run: the
/// plain values the fact formatters read beside the platform handles.
#[derive(Debug)]
pub struct HostEnv {
    /// The user's name, from the environment or an identity query command.
    pub user: Option<String>,
    /// The `SHELL` environment variable.
    pub shell_path: Option<String>,
    /// The `HOME` environment variable.
    pub home: Option<String>,
    /// Raw contents of the hardware product-name file.
    pub host_name_file: Option<String>,
    /// Raw contents of the hardware product-version file.
    pub host_version_file: Option<String>,
    /// Raw contents of the hardware model file.
    pub host_model_file: Option<String>,
    /// The machine-architecture query's output, newline-free.
    pub arch: Option<String>,
    /// The package-manager probes, in the order they are to be tried.
    pub probes: Vec<Probe>,
}

impl Info {
    /// Resolve this fact kind: `Some` on success, `None` when the fact
    /// cannot be determined on this host — which only omits the line.
    pub fn get_info(&self, sys: &mut crate::hostapi::HostSystem, env: &HostEnv) -> (r: Option<
        String,
    >)
        ensures
            *self is Seperator ==> (match r {
                Option::Some(s) => s@ == Seq::<char>::empty(),
                Option::None => false,
            }),
            *self is Packages ==> (match r {
                Option::Some(s) => packages_spec(env.probes@) == Option::Some(s@),
                Option::None => packages_spec(env.probes@) is None,
            }),
            *self is Host ==> (match host_spec(
                crate::config::option_view(env.host_name_file),
                crate::config::option_view(env.host_version_file),
                crate::config::option_view(env.host_model_file),
            ) {
                HostLineView::NoSource => r is None,
                HostLineView::Text(t) => (match r {
                    Option::Some(s) => s@ == t,
                    Option::None => false,
                }),
                HostLineView::ArchFallback => crate::config::option_view(r)
                    == crate::config::option_view(env.arch),
            }),
            *self is Shell ==> (match env.shell_path {
                Option::Some(p) => (match r {
                    Option::Some(t) => after_last(p@, '/') == Option::Some(t@),
                    Option::None => after_last(p@, '/') is None,
                }),
                Option::None => r is None,
            }),
            *self is Colors1 ==> (match r {
                Option::Some(s) => s@
                    == "\u{1b}[40m   \u{1b}[41m   \u{1b}[42m   \u{1b}[43m   \u{1b}[44m   \u{1b}[45m   \u{1b}[46m   \u{1b}[47m   \u{1b}[0m"@,
                Option::None => false,
            }),
            *self is Colors2 ==> (match r {
                Option::Some(s) => s@
                    == "\u{1b}[48;5;8m   \u{1b}[48;5;9m   \u{1b}[48;5;10m   \u{1b}[48;5;11m   \u{1b}[48;5;12m   \u{1b}[48;5;13m   \u{1b}[48;5;14m   \u{1b}[48;5;15m   \u{1b}[0m"@,
                Option::None => false,
            }),
            *self is UserAtHostname ==> (env.user is None ==> r is None),
            *self is UserAtHostname ==> (match r {
                Option::Some(s) => env.user is Some && exists|host: Seq<char>|
                    s@ == #[trigger] (env.user->0@ + "@"@ + host),
                Option::None => true,
            }),
            *self is Uptime ==> (match r {
                Option::Some(s) => exists|secs: nat| s@ == #[trigger] uptime_spec(secs),
                Option::None => true,
            }),
            *self is Memory ==> (match r {
                Option::Some(s) => exists|u: nat, t: nat| s@ == #[trigger] mem_line_spec(u, t),
                Option::None => false,
            }),
            *self is Swap ==> (match r {
                Option::Some(s) => exists|u: nat, t: nat| t != 0 && s@ == #[trigger] mem_line_spec(
                    u,
                    t,
                ),
                Option::None => true,
            }),
            *self is Battery ==> (match r {
                Option::Some(s) => exists|pct: Seq<char>, state: BatteryCharge|
                    s@ == #[trigger] (pct + "%"@ + charge_suffix(state)),
                Option::None => true,
            }),
            *self is Terminal ==> ((match env.home {
                Option::Some(h) => contains_seq(h@, "termux"@),
                Option::None => false,
            }) ==> (match r {
                Option::Some(s) => s@ == "termux"@,
                Option::None => false,
            })),
            *self is Terminal ==> (match r {
                Option::Some(s) => s@ == "termux"@ || exists|
                    t: Seq<crate::procwalk::ProcEntry>,
                    p: u32,
                | #[trigger] crate::procwalk::terminal_spec(t, p) == Option::Some(s@),
                Option::None => true,
            }),
    {
        match self {
            Info::UserAtHostname => sys.user_at_hostname(clone_opt(&env.user)),
            Info::OS => sys.os(),
            Info::Host => {
                let line = host_line(
                    clone_opt(&env.host_name_file),
                    clone_opt(&env.host_version_file),
                    clone_opt(&env.host_model_file),
                );
                match line {
                    HostLine::NoSource => Option::None,
                    HostLine::Text(s) => Option::Some(s),
                    HostLine::ArchFallback => clone_opt(&env.arch),
                }
            },
            Info::Kernel => sys.kernel(),
            Info::Uptime => sys.uptime(),
            Info::Packages => packages_line(&env.probes),
            Info::Shell => match &env.shell_path {
                Option::Some(p) => shell_name(p.as_str()),
                Option::None => Option::None,
            },
            Info::Terminal => sys.terminal(clone_opt(&env.home)),
            Info::CPU => sys.cpu(),
            Info::Memory => sys.memory(),
            Info::Swap => sys.swap(),
            Info::Battery => sys.battery(),
            Info::Seperator => Option::Some(String::new()),
            Info::Colors1 => Option::Some(colors1()),
            Info::Colors2 => Option::Some(colors2()),
        }
    }
}

/// Clone an optional string.
fn clone_opt(s: &Option<String>) -> (r: Option<String>)
    ensures
        crate::config::option_view(r) == crate::config::option_view(*s),
{
    match s {
        Option::Some(t) => Option::Some(t.clone()),
        Option::None => Option::None,
    }
}

/// The first palette line: the eight standard background colors, three
/// cells each, then the style reset.
pub fn colors1() -> (r: String)
    ensures
        r@
            == "\u{1b}[40m   \u{1b}[41m   \u{1b}[42m   \u{1b}[43m   \u{1b}[44m   \u{1b}[45m   \u{1b}[46m   \u{1b}[47m   \u{1b}[0m"@,
{
    String::from_str(
        "\u{1b}[40m   \u{1b}[41m   \u{1b}[42m   \u{1b}[43m   \u{1b}[44m   \u{1b}[45m   \u{1b}[46m   \u{1b}[47m   \u{1b}[0m",
    )
}

/// The second palette line: the eight bright colors of the 256-color set,
/// three cells each, then the style reset.
pub fn colors2() -> (r: String)
    ensures
        r@
            == "\u{1b}[48;5;8m   \u{1b}[48;5;9m   \u{1b}[48;5;10m   \u{1b}[48;5;11m   \u{1b}[48;5;12m   \u{1b}[48;5;13m   \u{1b}[48;5;14m   \u{1b}[48;5;15m   \u{1b}[0m"@,
{
    String::from_str(
        "\u{1b}[48;5;8m   \u{1b}[48;5;9m   \u{1b}[48;5;10m   \u{1b}[48;5;11m   \u{1b}[48;5;12m   \u{1b}[48;5;13m   \u{1b}[48;5;14m   \u{1b}[48;5;15m   \u{1b}[0m",
    )
}

} // verus!
