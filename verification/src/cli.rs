//! The runtime configuration surface and the fixed set of fact kinds that a
//! report can show.

use vstd::prelude::*;

verus! {

/// One kind of fact shown in the report.
#[derive(Debug, Clone, Copy, PartialEq, Eq, Structural)]
pub enum Info {
    UserAtHostname,
    OS,
    Host,
    Kernel,
    Uptime,
    Packages,
    Shell,
    Terminal,
    CPU,
    Memory,
    Swap,
    Battery,
    Seperator,
    Colors1,
    Colors2,
}

/// The label a fact kind prints in front of its value.
pub open spec fn label_spec(kind: Info) -> Seq<char> {
    match kind {
        Info::UserAtHostname => "UserAtHostname"@,
        Info::OS => "OS"@,
        Info::Host => "Host"@,
        Info::Kernel => "Kernel"@,
        Info::Uptime => "Uptime"@,
        Info::Packages => "Packages"@,
        Info::Shell => "Shell"@,
        Info::Terminal => "Terminal"@,
        Info::CPU => "CPU"@,
        Info::Memory => "Memory"@,
        Info::Swap => "Swap"@,
        Info::Battery => "Battery"@,
        Info::Seperator => "Seperator"@,
        Info::Colors1 => "Colors1"@,
        Info::Colors2 => "Colors2"@,
    }
}

/// Every fact kind, in the order the report shows them.
pub open spec fn all_kinds() -> Seq<Info> {
    seq![
        Info::UserAtHostname,
        Info::OS,
        Info::Host,
        Info::Kernel,
        Info::Uptime,
        Info::Packages,
        Info::Shell,
        Info::Terminal,
        Info::CPU,
        Info::Memory,
        Info::Swap,
        Info::Battery,
        Info::Seperator,
        Info::Colors1,
        Info::Colors2,
    ]
}

impl Info {
    /// The label this kind prints, spelled as the kind is named.
    pub fn label(&self) -> (r: &'static str)
        ensures
            r@ == label_spec(*self),
    {
        match self {
            Info::UserAtHostname => "UserAtHostname",
            Info::OS => "OS",
            Info::Host => "Host",
            Info::Kernel => "Kernel",
            Info::Uptime => "Uptime",
            Info::Packages => "Packages",
            Info::Shell => "Shell",
            Info::Terminal => "Terminal",
            Info::CPU => "CPU",
            Info::Memory => "Memory",
            Info::Swap => "Swap",
            Info::Battery => "Battery",
            Info::Seperator => "Seperator",
            Info::Colors1 => "Colors1",
            Info::Colors2 => "Colors2",
        }
    }

    /// Every fact kind, in report order.
    pub fn value_variants() -> (r: Vec<Info>)
        ensures
            r@ == all_kinds(),
    {
        let mut v: Vec<Info> = Vec::new();
        v.push(Info::UserAtHostname);
        v.push(Info::OS);
        v.push(Info::Host);
        v.push(Info::Kernel);
        v.push(Info::Uptime);
        v.push(Info::Packages);
        v.push(Info::Shell);
        v.push(Info::Terminal);
        v.push(Info::CPU);
        v.push(Info::Memory);
        v.push(Info::Swap);
        v.push(Info::Battery);
        v.push(Info::Seperator);
        v.push(Info::Colors1);
        v.push(Info::Colors2);
        proof {
            assert(v@ =~= all_kinds());
        }
        v
    }
}

/// The configuration gathered from command-line flags. Every field is
/// optional: an absent flag defers to the config file, which in turn defers
/// to the built-in default.
#[derive(Debug, Default)]
pub struct Config {
    pub max_width: Option<u8>,
    pub alpha_threshold: Option<u8>,
    pub show_colons: Option<bool>,
    pub skip_cache: Option<bool>,
    pub aliasing: Option<bool>,
    pub gap: Option<u8>,
    pub color_override: Option<u8>,
    pub image_override: Option<String>,
    pub info_whitelist: Option<Vec<Info>>,
    pub info_blacklist: Option<Vec<Info>>,
}

} // verus!
