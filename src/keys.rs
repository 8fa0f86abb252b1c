use vstd::prelude::*;

verus! {

/// What the function-key check reports, given whether the platform's
/// process-information object could be obtained.  Actual detection is not
/// available yet, so a successful check always reports "not held".
pub open spec fn fn_key_report(process_info_found: bool) -> Result<bool, ()> {
    if process_info_found {
        Ok(false)
    } else {
        Err(())
    }
}

/// Reports whether the hardware function key is held: an error when the
/// process-information object is missing, otherwise "not held".
pub fn is_fn_key_pressed(process_info_found: bool) -> (r: Result<bool, ()>)
    ensures
        r == fn_key_report(process_info_found),
{
    if !process_info_found {
        return Err(());
    }
    Ok(false)
}

/// The ways to learn whether the hardware function key is held.
#[derive(Clone, Copy, Debug, PartialEq, Eq)]
pub enum FnKeyProbe {
    /// Never reports the key as held; used where the platform has no such key.
    AlwaysFalse,
    /// Asks the platform.
    PlatformQuery,
}

pub open spec fn probe_report(probe: FnKeyProbe, process_info_found: bool) -> Result<bool, ()> {
    match probe {
        FnKeyProbe::AlwaysFalse => Ok(false),
        FnKeyProbe::PlatformQuery => fn_key_report(process_info_found),
    }
}

impl FnKeyProbe {
    /// Runs the probe; `process_info_found` is consulted by the platform
    /// query alone.
    pub fn held(&self, process_info_found: bool) -> (r: Result<bool, ()>)
        ensures
            r == probe_report(*self, process_info_found),
    {
        match self {
            FnKeyProbe::AlwaysFalse => Ok(false),
            FnKeyProbe::PlatformQuery => is_fn_key_pressed(process_info_found),
        }
    }
}

pub open spec fn control_left() -> Seq<char> {
    "ControlLeft"@
}

pub open spec fn function_key() -> Seq<char> {
    "Function"@
}

/// The stable name of a key: its identifier, except that the left Control
/// key is reported as the function key when the probe says that key is held.
pub open spec fn key_name_of(raw: Seq<char>, fn_probe: Result<bool, ()>) -> Seq<char> {
    if raw == control_left() && fn_probe == Ok::<bool, ()>(true) {
        function_key()
    } else {
        raw
    }
}

/// Normalizes a key identifier, given the function-key probe's answer.
pub fn format_key(raw: &str, fn_probe: Result<bool, ()>) -> (r: String)
    ensures
        r@ == key_name_of(raw@, fn_probe),
{
    let name = String::from_str(raw);
    let control = String::from_str("ControlLeft");
    if name == control {
        if let Ok(true) = fn_probe {
            return String::from_str("Function");
        }
    }
    name
}

/// With the probes as they stand, no key is ever renamed: every key keeps
/// its own identifier, the left Control key included.
pub proof fn lemma_present_probes_keep_key_names(
    raw: Seq<char>,
    probe: FnKeyProbe,
    process_info_found: bool,
)
    ensures
        key_name_of(raw, probe_report(probe, process_info_found)) == raw,
{
}

} // verus!
