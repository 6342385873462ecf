//! Start with the system: whether the registry entries read say the
//! application starts at sign-in, and what registering writes there.
use vstd::prelude::*;
use crate::text::{chars_of, string_of, owned, append, append_str, dec_u64};

verus! {

/// Registry value types that decide whether start-up is on.
pub const REG_SZ: u32 = 1;
pub const REG_EXPAND_SZ: u32 = 2;
pub const REG_BINARY: u32 = 3;

/// A value read from the registry: its type and its bytes.
pub struct RegValue {
    pub kind: u32,
    pub data: Vec<u8>,
}

/// Start-up is on: the `Run` entry exists as a (possibly expandable)
/// string, and the start-up manager has not switched it off (a binary
/// approval whose first byte has its lowest bit set means "disabled").
pub open spec fn startup_on(run_kind: Option<u32>, approval: Option<(u32, Seq<u8>)>) -> bool {
    match run_kind {
        None => false,
        Some(k) => if k != REG_SZ && k != REG_EXPAND_SZ {
            false
        } else {
            match approval {
                Some((t, d)) => !(t == REG_BINARY && d.len() > 0 && d[0] % 2 == 1),
                None => true,
            }
        },
    }
}

/// Whether the registry says the application starts at sign-in (see
/// `startup_on`); `run_kind` is the type of the `Run` value if it could be
/// read, `approval` the start-up manager's value if it could be read.
pub fn startup_enabled_from(run_kind: Option<u32>, approval: &Option<RegValue>) -> (r: bool)
    ensures
        r == startup_on(run_kind, match approval {
            Some(v) => Some((v.kind, v.data@)),
            None => None,
        }),
{
    match run_kind {
        None => false,
        Some(k) => {
            if k != REG_SZ && k != REG_EXPAND_SZ {
                return false;
            }
            match approval {
                Some(v) => !(v.kind == REG_BINARY && v.data.len() > 0 && v.data[0] % 2 == 1),
                None => true,
            }
        },
    }
}

/// The value name the application registers under.
pub fn app_name() -> (r: &'static str)
    ensures
        r@ == "VDM"@,
{
    "VDM"
}

/// The key of the programs started at sign-in.
pub fn run_key_path() -> (r: &'static str)
    ensures
        r@ == "Software\\Microsoft\\Windows\\CurrentVersion\\Run"@,
{
    "Software\\Microsoft\\Windows\\CurrentVersion\\Run"
}

/// The key where the start-up manager records what it switched off.
pub fn startup_approved_key_path() -> (r: &'static str)
    ensures
        r@ == "Software\\Microsoft\\Windows\\CurrentVersion\\Explorer\\StartupApproved\\Run"@,
{
    "Software\\Microsoft\\Windows\\CurrentVersion\\Explorer\\StartupApproved\\Run"
}

/// The command registered to start the application: the quoted executable
/// path and `--autostart`.
pub fn autostart_command(exe: &str) -> (r: String)
    ensures
        r@ == "\""@ + exe@ + "\" --autostart"@,
{
    let mut v = chars_of("\"");
    append_str(&mut v, exe);
    append_str(&mut v, "\" --autostart");
    string_of(&v)
}

/// The approval the start-up manager reads as "enabled": twelve bytes, the
/// first `2`, the rest `0`.
pub open spec fn enabled_marker_bytes() -> Seq<u8> {
    Seq::new(12, |i: int| if i == 0 { 2u8 } else { 0u8 })
}

pub fn enabled_marker() -> (r: Vec<u8>)
    ensures
        r@ == enabled_marker_bytes(),
{
    let mut v: Vec<u8> = Vec::new();
    v.push(2);
    for i in 1..12usize
        invariant
            v@.len() == i,
            v@[0] == 2,
            forall|j: int| 1 <= j < i ==> v@[j] == 0,
    {
        v.push(0);
    }
    assert(v@ =~= enabled_marker_bytes());
    v
}

/// What went wrong when registering for start-up.
#[derive(Clone, Copy, Debug, PartialEq, Eq, Structural)]
pub enum StartupError {
    /// the `Run` key could not be opened or created (with the system's code)
    OpenRunKey(u32),
    /// the `Run` value could not be written (with the system's code)
    WriteRunValue(u32),
}

impl StartupError {
    pub fn message(&self) -> (r: String)
        ensures
            r@ == match *self {
                StartupError::OpenRunKey(c) => "Failed to open/create Windows Run registry key: error code "@
                    + crate::text::dec(c as nat),
                StartupError::WriteRunValue(c) => "Failed to write Windows Run registry value: error code "@
                    + crate::text::dec(c as nat),
            },
    {
        let (mut v, c) = match self {
            StartupError::OpenRunKey(c) => (chars_of("Failed to open/create Windows Run registry key: error code "), *c),
            StartupError::WriteRunValue(c) => (chars_of("Failed to write Windows Run registry value: error code "), *c),
        };
        let d = dec_u64(c as u64);
        append(&mut v, &d);
        string_of(&v)
    }
}

/// Registering writes the `Run` value as a string and the "enabled"
/// approval, and unregistering deletes the `Run` value: read back, the
/// first gives "on" and the second "off", whatever approval is left.
pub proof fn lemma_registration_reads_back(approval_left: Option<(u32, Seq<u8>)>)
    ensures
        startup_on(Some(REG_SZ), Some((REG_BINARY, enabled_marker_bytes()))),
        !startup_on(None, approval_left),
{
}

} // verus!
