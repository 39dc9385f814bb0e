//! The diagnostic that tells which pointer probes a desktop offers.
use crate::pointer::Platform;
use crate::text::{contains_spec, contains_text};
use vstd::prelude::*;

verus! {

broadcast use vstd::string::to_string_from_display_ensures_for_str;

/// Which probe tools were found on the search path.
#[derive(Debug, Clone, Copy, PartialEq, Eq, Structural)]
pub struct ToolPresence {
    pub xdotool: bool,
    pub kdotool: bool,
    pub ydotool: bool,
    pub hyprctl: bool,
    pub slurp: bool,
}

/// Whether multi-display capture can follow the pointer, and how to make it so.
pub struct MultiMonitorSupport {
    pub supported: bool,
    pub session_type: String,
    pub available_tools: Vec<String>,
    pub missing_tools: Vec<String>,
    pub install_command: String,
}

/// The lowercase form of a text.
pub uninterp spec fn lowercase_of(s: Seq<char>) -> Seq<char>;

/// Relies on `str::to_lowercase`, whose result depends on the characters alone; its
/// characters are then collected one for one.
#[verifier::external_body]
fn lowercase_chars(s: &str) -> (r: Vec<char>)
    ensures
        r@ == lowercase_of(s@),
{
    s.to_lowercase().chars().collect()
}

pub open spec fn kde_text() -> Seq<char> {
    seq!['k', 'd', 'e']
}

pub open spec fn hyprland_text() -> Seq<char> {
    seq!['h', 'y', 'p', 'r', 'l', 'a', 'n', 'd']
}

/// The tools found, in probe order.
pub open spec fn available_spec(t: ToolPresence) -> Seq<Seq<char>> {
    let s1 = if t.xdotool {
        seq!["xdotool"@]
    } else {
        Seq::empty()
    };
    let s2 = if t.kdotool {
        s1.push("kdotool"@)
    } else {
        s1
    };
    let s3 = if t.ydotool {
        s2.push("ydotool"@)
    } else {
        s2
    };
    let s4 = if t.hyprctl {
        s3.push("hyprctl"@)
    } else {
        s3
    };
    if t.slurp {
        s4.push("slurp"@)
    } else {
        s4
    }
}

/// The advice on what to install, from the session kind and the lowercase desktop name.
pub open spec fn install_spec(session: Seq<char>, desktop_lower: Seq<char>) -> Seq<char> {
    if session == "wayland"@ {
        if contains_spec(desktop_lower, kde_text()) {
            "sudo apt install kdotool  # atau dari AUR untuk Arch"@
        } else if contains_spec(desktop_lower, hyprland_text()) {
            "# hyprctl sudah tersedia dengan Hyprland"@
        } else {
            "sudo apt install xdotool  # untuk XWayland compatibility"@
        }
    } else {
        "sudo apt install xdotool"@
    }
}

pub open spec fn strings_view(v: Seq<String>) -> Seq<Seq<char>> {
    v.map_values(|s: String| s@)
}

fn push_name(v: &mut Vec<String>, name: &str)
    ensures
        strings_view(final(v)@) == strings_view(old(v)@).push(name@),
{
    v.push(name.to_string());
    assert(strings_view(v@) =~= strings_view(old(v)@).push(name@));
}

/// Reports, for Linux, which probes are installed and what to install; macOS always
/// has one; Windows has none. `session_type` and `current_desktop` are the desktop
/// session's kind and name where they are known.
pub fn check_multi_monitor_support(
    platform: Platform,
    session_type: Option<String>,
    current_desktop: Option<String>,
    tools: ToolPresence,
) -> (r: MultiMonitorSupport)
    ensures
        platform == Platform::Linux ==> {
            let session = match session_type {
                Some(s) => s@,
                None => "unknown"@,
            };
            let desktop = match current_desktop {
                Some(d) => d@,
                None => Seq::<char>::empty(),
            };
            &&& r.session_type@ == session
            &&& strings_view(r.available_tools@) == available_spec(tools)
            &&& strings_view(r.missing_tools@) == if tools.xdotool {
                Seq::<Seq<char>>::empty()
            } else {
                seq!["xdotool"@]
            }
            &&& r.supported == (available_spec(tools).len() > 0)
            &&& r.install_command@ == install_spec(session, lowercase_of(desktop))
        },
        platform == Platform::MacOs ==> {
            &&& r.supported
            &&& r.session_type@ == "macos"@
            &&& strings_view(r.available_tools@) == seq!["osascript"@]
            &&& r.missing_tools@.len() == 0
            &&& r.install_command@ == "# Tidak perlu install tambahan di macOS"@
        },
        platform == Platform::Windows ==> {
            &&& !r.supported
            &&& r.session_type@ == "windows"@
            &&& r.available_tools@.len() == 0
            &&& strings_view(r.missing_tools@) == seq!["win32api"@]
            &&& r.install_command@ == "# Fitur ini belum tersedia untuk Windows"@
        },
{
    match platform {
        Platform::MacOs => {
            let mut available: Vec<String> = Vec::new();
            push_name(&mut available, "osascript");
            assert(strings_view(available@) =~= seq!["osascript"@]);
            MultiMonitorSupport {
                supported: true,
                session_type: "macos".to_string(),
                available_tools: available,
                missing_tools: Vec::new(),
                install_command: "# Tidak perlu install tambahan di macOS".to_string(),
            }
        },
        Platform::Windows => {
            let mut missing: Vec<String> = Vec::new();
            push_name(&mut missing, "win32api");
            assert(strings_view(missing@) =~= seq!["win32api"@]);
            MultiMonitorSupport {
                supported: false,
                session_type: "windows".to_string(),
                available_tools: Vec::new(),
                missing_tools: missing,
                install_command: "# Fitur ini belum tersedia untuk Windows".to_string(),
            }
        },
        Platform::Linux => {
            let session = match session_type {
                Some(s) => s,
                None => "unknown".to_string(),
            };
            let desktop = match current_desktop {
                Some(d) => d,
                None => String::new(),
            };
            let mut available: Vec<String> = Vec::new();
            let mut missing: Vec<String> = Vec::new();
            assert(strings_view(available@) =~= Seq::<Seq<char>>::empty());
            if tools.xdotool {
                push_name(&mut available, "xdotool");
            } else {
                push_name(&mut missing, "xdotool");
            }
            if tools.kdotool {
                push_name(&mut available, "kdotool");
            }
            if tools.ydotool {
                push_name(&mut available, "ydotool");
            }
            if tools.hyprctl {
                push_name(&mut available, "hyprctl");
            }
            if tools.slurp {
                push_name(&mut available, "slurp");
            }
            assert(strings_view(available@) =~= available_spec(tools));
            assert(strings_view(missing@) =~= (if tools.xdotool {
                Seq::<Seq<char>>::empty()
            } else {
                seq!["xdotool"@]
            }));
            let supported = available.len() > 0;
            let install_command = if session == "wayland".to_string() {
                let lower = lowercase_chars(desktop.as_str());
                let kde: [char; 3] = ['k', 'd', 'e'];
                let hyprland: [char; 8] = ['h', 'y', 'p', 'r', 'l', 'a', 'n', 'd'];
                assert(kde@ =~= kde_text());
                assert(hyprland@ =~= hyprland_text());
                if contains_text(&lower, &kde) {
                    "sudo apt install kdotool  # atau dari AUR untuk Arch".to_string()
                } else if contains_text(&lower, &hyprland) {
                    "# hyprctl sudah tersedia dengan Hyprland".to_string()
                } else {
                    "sudo apt install xdotool  # untuk XWayland compatibility".to_string()
                }
            } else {
                "sudo apt install xdotool".to_string()
            };
            MultiMonitorSupport {
                supported,
                session_type: session,
                available_tools: available,
                missing_tools: missing,
                install_command,
            }
        },
    }
}

} // verus!
