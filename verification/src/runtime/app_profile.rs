//! Runtime profiles: for each profile, the transports it enables and
//! disables and where its input comes from.

use vstd::prelude::*;

verus! {

/// The application profiles the runtime can start.
#[derive(Debug, Clone, Copy, PartialEq, Eq, Hash, Structural)]
pub enum ProfileId {
    Target5Real,
    Target10Real,
    WindowsTarget5Sim,
    WindowsTarget10Sim,
    /// Secondary profile for replay-centric diagnostics workflows.
    ReplayRunner,
}

/// The display name of a profile.
pub open spec fn profile_name(id: ProfileId) -> Seq<char> {
    match id {
        ProfileId::Target5Real => "target5-real"@,
        ProfileId::Target10Real => "target10-real"@,
        ProfileId::WindowsTarget5Sim => "windows-target5-sim"@,
        ProfileId::WindowsTarget10Sim => "windows-target10-sim"@,
        ProfileId::ReplayRunner => "replay-runner"@,
    }
}

impl ProfileId {
    pub fn as_str(self) -> (r: &'static str)
        ensures
            r@ == profile_name(self),
    {
        match self {
            ProfileId::Target5Real => "target5-real",
            ProfileId::Target10Real => "target10-real",
            ProfileId::WindowsTarget5Sim => "windows-target5-sim",
            ProfileId::WindowsTarget10Sim => "windows-target10-sim",
            ProfileId::ReplayRunner => "replay-runner",
        }
    }
}

/// Different profiles have different names.
pub proof fn lemma_profile_names_distinct(a: ProfileId, b: ProfileId)
    requires
        a != b,
    ensures
        profile_name(a) != profile_name(b),
{
    reveal_strlit("target5-real");
    reveal_strlit("target10-real");
    reveal_strlit("windows-target5-sim");
    reveal_strlit("windows-target10-sim");
    reveal_strlit("replay-runner");
    if profile_name(a).len() == profile_name(b).len() {
        if profile_name(a)[0] == profile_name(b)[0] {
            assert(profile_name(a)[7] != profile_name(b)[7] || profile_name(a)[6] != profile_name(b)[6]);
        }
    }
}

/// Where a profile's input comes from.
#[derive(Debug, Clone, Copy, PartialEq, Eq, Structural)]
pub enum InputMode {
    Live,
    Simulated,
    Replay,
}

/// The name `Debug` gives an input mode.
pub open spec fn input_mode_name(m: InputMode) -> Seq<char> {
    match m {
        InputMode::Live => "Live"@,
        InputMode::Simulated => "Simulated"@,
        InputMode::Replay => "Replay"@,
    }
}

impl InputMode {
    /// The name `Debug` gives the mode.
    pub fn name(self) -> (r: &'static str)
        ensures
            r@ == input_mode_name(self),
    {
        match self {
            InputMode::Live => "Live",
            InputMode::Simulated => "Simulated",
            InputMode::Replay => "Replay",
        }
    }
}

/// Transport kinds a profile can enable.
#[derive(Debug, Clone, Copy, PartialEq, Eq, Structural)]
pub enum CommType {
    /// Physical ethernet transport used by real hardware targets.
    Ethernet,
    /// Extension placeholder for real or emulated CommType1 transport integrations.
    CommType1,
    /// Extension placeholder for real or emulated CommType2 transport integrations.
    CommType2,
    /// Host-local loopback ethernet transport for simulation and diagnostics workflows.
    LoopbackEthernet,
}

/// The transports, input mode and identity of a runtime profile.
#[derive(Debug, Clone, PartialEq, Eq)]
pub struct AppProfile {
    pub id: ProfileId,
    pub enabled_comms: Vec<CommType>,
    pub disabled_comms: Vec<CommType>,
    pub input_mode: InputMode,
}

/// The transports each profile enables.
pub open spec fn spec_enabled_comms(id: ProfileId) -> Seq<CommType> {
    match id {
        ProfileId::Target5Real => seq![CommType::Ethernet],
        ProfileId::Target10Real => seq![CommType::Ethernet, CommType::CommType1, CommType::CommType2],
        ProfileId::WindowsTarget5Sim => seq![CommType::LoopbackEthernet],
        ProfileId::WindowsTarget10Sim => seq![CommType::LoopbackEthernet, CommType::CommType1, CommType::CommType2],
        ProfileId::ReplayRunner => seq![CommType::LoopbackEthernet],
    }
}

/// The transports each profile disables.
pub open spec fn spec_disabled_comms(id: ProfileId) -> Seq<CommType> {
    match id {
        ProfileId::Target5Real => seq![CommType::CommType1, CommType::CommType2, CommType::LoopbackEthernet],
        ProfileId::Target10Real => seq![CommType::LoopbackEthernet],
        ProfileId::WindowsTarget5Sim => seq![CommType::Ethernet, CommType::CommType1, CommType::CommType2],
        ProfileId::WindowsTarget10Sim => seq![CommType::Ethernet],
        ProfileId::ReplayRunner => seq![CommType::Ethernet, CommType::CommType1, CommType::CommType2],
    }
}

/// The input mode of each profile: live for the real targets, simulated for
/// the Windows simulations, replay for the replay runner.
pub open spec fn spec_input_mode(id: ProfileId) -> InputMode {
    match id {
        ProfileId::Target5Real | ProfileId::Target10Real => InputMode::Live,
        ProfileId::WindowsTarget5Sim | ProfileId::WindowsTarget10Sim => InputMode::Simulated,
        ProfileId::ReplayRunner => InputMode::Replay,
    }
}

impl AppProfile {
    /// The profile matrix: each profile's enabled and disabled transports
    /// and its input mode.
    pub fn new(id: ProfileId) -> (r: Self)
        ensures
            r.id == id,
            r.enabled_comms@ == spec_enabled_comms(id),
            r.disabled_comms@ == spec_disabled_comms(id),
            r.input_mode == spec_input_mode(id),
    {
        let (enabled, disabled, input_mode) = match id {
            ProfileId::Target5Real => {
                let mut e: Vec<CommType> = Vec::new();
                e.push(CommType::Ethernet);
                let mut d: Vec<CommType> = Vec::new();
                d.push(CommType::CommType1);
                d.push(CommType::CommType2);
                d.push(CommType::LoopbackEthernet);
                (e, d, InputMode::Live)
            },
            ProfileId::Target10Real => {
                let mut e: Vec<CommType> = Vec::new();
                e.push(CommType::Ethernet);
                e.push(CommType::CommType1);
                e.push(CommType::CommType2);
                let mut d: Vec<CommType> = Vec::new();
                d.push(CommType::LoopbackEthernet);
                (e, d, InputMode::Live)
            },
            ProfileId::WindowsTarget5Sim => {
                let mut e: Vec<CommType> = Vec::new();
                e.push(CommType::LoopbackEthernet);
                let mut d: Vec<CommType> = Vec::new();
                d.push(CommType::Ethernet);
                d.push(CommType::CommType1);
                d.push(CommType::CommType2);
                (e, d, InputMode::Simulated)
            },
            ProfileId::WindowsTarget10Sim => {
                let mut e: Vec<CommType> = Vec::new();
                e.push(CommType::LoopbackEthernet);
                e.push(CommType::CommType1);
                e.push(CommType::CommType2);
                let mut d: Vec<CommType> = Vec::new();
                d.push(CommType::Ethernet);
                (e, d, InputMode::Simulated)
            },
            ProfileId::ReplayRunner => {
                let mut e: Vec<CommType> = Vec::new();
                e.push(CommType::LoopbackEthernet);
                let mut d: Vec<CommType> = Vec::new();
                d.push(CommType::Ethernet);
                d.push(CommType::CommType1);
                d.push(CommType::CommType2);
                (e, d, InputMode::Replay)
            },
        };
        proof {
            assert(enabled@ =~= spec_enabled_comms(id));
            assert(disabled@ =~= spec_disabled_comms(id));
        }
        AppProfile { id, enabled_comms: enabled, disabled_comms: disabled, input_mode }
    }
}

/// Every profile puts each transport kind in exactly one of its two lists,
/// and neither list repeats a transport.
pub proof fn lemma_profile_comms_partition(id: ProfileId, c: CommType)
    ensures
        spec_enabled_comms(id).contains(c) != spec_disabled_comms(id).contains(c),
        spec_enabled_comms(id).no_duplicates(),
        spec_disabled_comms(id).no_duplicates(),
{
    let e = spec_enabled_comms(id);
    let d = spec_disabled_comms(id);
    assert(e.contains(c) ==> exists|i: int| 0 <= i < e.len() && e[i] == c);
    assert(d.contains(c) ==> exists|i: int| 0 <= i < d.len() && d[i] == c);
    match c {
        CommType::Ethernet => {
            assert(id == ProfileId::Target5Real || id == ProfileId::Target10Real ==> e[0] == c);
            assert(id == ProfileId::WindowsTarget5Sim || id == ProfileId::WindowsTarget10Sim || id == ProfileId::ReplayRunner ==> d[0] == c);
        },
        CommType::CommType1 => {
            assert(id == ProfileId::Target10Real || id == ProfileId::WindowsTarget10Sim ==> e[1] == c);
            assert(id == ProfileId::Target5Real ==> d[0] == c);
            assert(id == ProfileId::WindowsTarget5Sim || id == ProfileId::ReplayRunner ==> d[1] == c);
        },
        CommType::CommType2 => {
            assert(id == ProfileId::Target10Real || id == ProfileId::WindowsTarget10Sim ==> e[2] == c);
            assert(id == ProfileId::Target5Real ==> d[1] == c);
            assert(id == ProfileId::WindowsTarget5Sim || id == ProfileId::ReplayRunner ==> d[2] == c);
        },
        CommType::LoopbackEthernet => {
            assert(id == ProfileId::WindowsTarget5Sim || id == ProfileId::WindowsTarget10Sim || id == ProfileId::ReplayRunner ==> e[0] == c);
            assert(id == ProfileId::Target5Real ==> d[2] == c);
            assert(id == ProfileId::Target10Real ==> d[0] == c);
        },
    }
}

} // verus!
