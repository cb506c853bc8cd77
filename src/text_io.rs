//! How transcribed text reaches the focused application.
use vstd::prelude::*;
use crate::text::str_eq;

verus! {

#[derive(Debug, Clone, Copy, PartialEq, Eq, Structural)]
pub enum InjectionMethod {
    Wtype,
    Ydotool,
    Clipboard,
}

/// Relies on `which::which`: whether an executable of that name is found on
/// the search path now.
#[verifier::external_body]
fn program_available(name: &str) -> (r: bool) {
    which::which(name).is_ok()
}

/// The injection method for the available tools: the configured one when
/// its tool is there, else ydotool, else the clipboard on Wayland with
/// wl-copy, else wtype, else the clipboard.
pub open spec fn chosen_method(preferred: Option<Seq<char>>, ydotool: bool, wtype: bool, wayland: bool, wl_copy: bool) -> InjectionMethod {
    if preferred == Some("ydotool"@) && ydotool {
        InjectionMethod::Ydotool
    } else if preferred == Some("wtype"@) && wtype {
        InjectionMethod::Wtype
    } else if ydotool {
        InjectionMethod::Ydotool
    } else if wayland && wl_copy {
        InjectionMethod::Clipboard
    } else if wtype {
        InjectionMethod::Wtype
    } else {
        InjectionMethod::Clipboard
    }
}

/// The configured method name, if any.
pub open spec fn preference(preferred: Option<&str>) -> Option<Seq<char>> {
    match preferred {
        Some(p) => Some(p@),
        None => None,
    }
}

impl InjectionMethod {
    /// Chooses a method given which tools are available.
    pub fn select(preferred: Option<&str>, ydotool: bool, wtype: bool, wayland: bool, wl_copy: bool) -> (r: Self)
        ensures
            r == chosen_method(preference(preferred), ydotool, wtype, wayland, wl_copy),
    {
        match preferred {
            Some(p) => {
                if str_eq(p, "ydotool") && ydotool {
                    return InjectionMethod::Ydotool;
                }
                if str_eq(p, "wtype") && wtype {
                    return InjectionMethod::Wtype;
                }
            },
            None => {},
        }
        if ydotool {
            InjectionMethod::Ydotool
        } else if wayland && wl_copy {
            InjectionMethod::Clipboard
        } else if wtype {
            InjectionMethod::Wtype
        } else {
            InjectionMethod::Clipboard
        }
    }

    /// Detects the method from the tools on the search path; `wayland`
    /// tells whether a Wayland display is set.
    pub fn detect(preferred: Option<&str>, wayland: bool) -> (r: Self)
        ensures
            exists|y: bool, t: bool, c: bool| r == #[trigger] chosen_method(preference(preferred), y, t, wayland, c),
    {
        let ydotool = program_available("ydotool");
        let wtype = program_available("wtype");
        let wl_copy = program_available("wl-copy");
        InjectionMethod::select(preferred, ydotool, wtype, wayland, wl_copy)
    }
}

} // verus!
