//! The states that the inverter reports, and the text the device has for each.
use crate::text::same_text;
use vstd::prelude::*;

verus! {

/// A state of the inverter, as the device reports it.
#[derive(Clone, Copy, Debug, PartialEq, Eq, Structural)]
pub enum InverterStatus {
    IdleInitializing,
    IdleDetectingIso,
    IdleDetectingIrradiation,
    IdleGridDetecting,
    IdleNoIrradiation,
    Starting,
    OnGrid,
    OnGridPowerLimit,
    OnGridSelfDerating,
    GridDispatchCosPhiPCurve,
    GridDispatchQuCurve,
    ShutdownFault,
    ShutdownCommand,
    ShutdownOvgr,
    ShutdownCommDisconnected,
    ShutdownPowerLimit,
    ShutdownStartManually,
    ShutdownDcSwitchOff,
    SpotCheck,
    SpotChecking,
    Inspecting,
    AfciSelfCheck,
    IvScanning,
    DcInputDetection,
}

/// The kinds of state. Every state is of exactly one kind.
#[derive(Clone, Copy, Debug, PartialEq, Eq, Structural)]
pub enum StatusClass {
    Idle,
    Starting,
    OnGrid,
    Shutdown,
    Diagnostic,
}

/// The error for a text that names no state.
#[derive(Clone, Copy, Debug, PartialEq, Eq, Structural)]
pub struct UnknownStatus;

impl InverterStatus {
    /// The kind of the state.
    pub open spec fn class(self) -> StatusClass {
        match self {
            InverterStatus::IdleInitializing
            | InverterStatus::IdleDetectingIso
            | InverterStatus::IdleDetectingIrradiation
            | InverterStatus::IdleGridDetecting
            | InverterStatus::IdleNoIrradiation => StatusClass::Idle,
            InverterStatus::Starting => StatusClass::Starting,
            InverterStatus::OnGrid
            | InverterStatus::OnGridPowerLimit
            | InverterStatus::OnGridSelfDerating => StatusClass::OnGrid,
            InverterStatus::ShutdownFault
            | InverterStatus::ShutdownCommand
            | InverterStatus::ShutdownOvgr
            | InverterStatus::ShutdownCommDisconnected
            | InverterStatus::ShutdownPowerLimit
            | InverterStatus::ShutdownStartManually
            | InverterStatus::ShutdownDcSwitchOff => StatusClass::Shutdown,
            _ => StatusClass::Diagnostic,
        }
    }

    /// The text that the device has for the state.
    pub open spec fn label_text(self) -> Seq<char> {
        match self {
            InverterStatus::IdleInitializing => "Idle Initializing"@,
            InverterStatus::IdleDetectingIso => "Idle  Detecting ISO"@,
            InverterStatus::IdleDetectingIrradiation => "Idle Detecting irradiation"@,
            InverterStatus::IdleGridDetecting => "Idle Grid detecting"@,
            InverterStatus::IdleNoIrradiation => "Idle No irradiation"@,
            InverterStatus::Starting => "Starting"@,
            InverterStatus::OnGrid => "On-grid"@,
            InverterStatus::OnGridPowerLimit => "On-grid Power limit"@,
            InverterStatus::OnGridSelfDerating => "On-grid self derating"@,
            InverterStatus::GridDispatchCosPhiPCurve => "Grid dispatch cos(Phi)-P curve"@,
            InverterStatus::GridDispatchQuCurve => "Grid dispatch QU curve"@,
            InverterStatus::ShutdownFault => "Shutdown Fault"@,
            InverterStatus::ShutdownCommand => "Shutdown Command"@,
            InverterStatus::ShutdownOvgr => "Shutdown OVGR"@,
            InverterStatus::ShutdownCommDisconnected => "Shutdown Communication disconnected"@,
            InverterStatus::ShutdownPowerLimit => "Shutdown Power limit"@,
            InverterStatus::ShutdownStartManually => "Shutdown Start manually"@,
            InverterStatus::ShutdownDcSwitchOff => "Shutdown DC switch OFF"@,
            InverterStatus::SpotCheck => "Spot-check"@,
            InverterStatus::SpotChecking => "Spot-checking"@,
            InverterStatus::Inspecting => "Inspecting"@,
            InverterStatus::AfciSelfCheck => "AFCI self-check"@,
            InverterStatus::IvScanning => "IV scanning"@,
            InverterStatus::DcInputDetection => "DC input detection"@,
        }
    }

    /// The kind of the state.
    pub fn classify(&self) -> (class: StatusClass)
        ensures
            class == self.class(),
    {
        match self {
            InverterStatus::IdleInitializing
            | InverterStatus::IdleDetectingIso
            | InverterStatus::IdleDetectingIrradiation
            | InverterStatus::IdleGridDetecting
            | InverterStatus::IdleNoIrradiation => StatusClass::Idle,
            InverterStatus::Starting => StatusClass::Starting,
            InverterStatus::OnGrid
            | InverterStatus::OnGridPowerLimit
            | InverterStatus::OnGridSelfDerating => StatusClass::OnGrid,
            InverterStatus::ShutdownFault
            | InverterStatus::ShutdownCommand
            | InverterStatus::ShutdownOvgr
            | InverterStatus::ShutdownCommDisconnected
            | InverterStatus::ShutdownPowerLimit
            | InverterStatus::ShutdownStartManually
            | InverterStatus::ShutdownDcSwitchOff => StatusClass::Shutdown,
            _ => StatusClass::Diagnostic,
        }
    }

    /// Returns `true` if the inverter is shutting down or shut down.
    pub fn is_shutdown(&self) -> (r: bool)
        ensures
            r == (self.class() == StatusClass::Shutdown),
    {
        match self.classify() {
            StatusClass::Shutdown => true,
            _ => false,
        }
    }

    /// Returns `true` if the inverter is idle.
    pub fn is_idle(&self) -> (r: bool)
        ensures
            r == (self.class() == StatusClass::Idle),
    {
        match self.classify() {
            StatusClass::Idle => true,
            _ => false,
        }
    }

    /// Returns `true` if the inverter feeds the grid.
    pub fn is_on_grid(&self) -> (r: bool)
        ensures
            r == (self.class() == StatusClass::OnGrid),
    {
        match self.classify() {
            StatusClass::OnGrid => true,
            _ => false,
        }
    }

    /// The text that the device has for the state.
    pub fn label(&self) -> (text: &'static str)
        ensures
            text@ == self.label_text(),
    {
        match self {
            InverterStatus::IdleInitializing => "Idle Initializing",
            InverterStatus::IdleDetectingIso => "Idle  Detecting ISO",
            InverterStatus::IdleDetectingIrradiation => "Idle Detecting irradiation",
            InverterStatus::IdleGridDetecting => "Idle Grid detecting",
            InverterStatus::IdleNoIrradiation => "Idle No irradiation",
            InverterStatus::Starting => "Starting",
            InverterStatus::OnGrid => "On-grid",
            InverterStatus::OnGridPowerLimit => "On-grid Power limit",
            InverterStatus::OnGridSelfDerating => "On-grid self derating",
            InverterStatus::GridDispatchCosPhiPCurve => "Grid dispatch cos(Phi)-P curve",
            InverterStatus::GridDispatchQuCurve => "Grid dispatch QU curve",
            InverterStatus::ShutdownFault => "Shutdown Fault",
            InverterStatus::ShutdownCommand => "Shutdown Command",
            InverterStatus::ShutdownOvgr => "Shutdown OVGR",
            InverterStatus::ShutdownCommDisconnected => "Shutdown Communication disconnected",
            InverterStatus::ShutdownPowerLimit => "Shutdown Power limit",
            InverterStatus::ShutdownStartManually => "Shutdown Start manually",
            InverterStatus::ShutdownDcSwitchOff => "Shutdown DC switch OFF",
            InverterStatus::SpotCheck => "Spot-check",
            InverterStatus::SpotChecking => "Spot-checking",
            InverterStatus::Inspecting => "Inspecting",
            InverterStatus::AfciSelfCheck => "AFCI self-check",
            InverterStatus::IvScanning => "IV scanning",
            InverterStatus::DcInputDetection => "DC input detection",
        }
    }

    /// The text that the device has for the state, as an owned string.
    pub fn to_string(&self) -> (text: String)
        ensures
            text@ == self.label_text(),
    {
        self.label().to_owned()
    }

    /// The state that `text` names: the one whose text it is, letter for
    /// letter. Any other text is an error.
    pub fn from_str(text: &str) -> (r: Result<InverterStatus, UnknownStatus>)
        ensures
            r is Ok <==> exists|status: InverterStatus| #[trigger] status.label_text() == text@,
            r matches Ok(status) ==> status.label_text() == text@,
    {
        let table = InverterStatus::all();
        let mut i: usize = 0;
        while i < table.len()
            invariant
                i <= table.len(),
                forall|status: InverterStatus| #[trigger] table@.contains(status),
                forall|k: int| 0 <= k < i ==> (#[trigger] table@[k]).label_text() != text@,
            decreases table.len() - i,
        {
            if same_text(table[i].label(), text) {
                return Ok(table[i]);
            }
            i += 1;
        }
        proof {
            assert forall|status: InverterStatus| #[trigger] status.label_text() != text@ by {
                assert(table@.contains(status));
                let k = choose|k: int| 0 <= k < table@.len() && table@[k] == status;
                assert(table@[k].label_text() != text@);
            }
        }
        Err(UnknownStatus)
    }

    /// Every state, in the order of the device's table.
    pub fn all() -> (table: Vec<InverterStatus>)
        ensures
            table@.len() == 24,
            forall|status: InverterStatus| #[trigger] table@.contains(status),
    {
        let mut table: Vec<InverterStatus> = Vec::new();
        table.push(InverterStatus::IdleInitializing);
        table.push(InverterStatus::IdleDetectingIso);
        table.push(InverterStatus::IdleDetectingIrradiation);
        table.push(InverterStatus::IdleGridDetecting);
        table.push(InverterStatus::IdleNoIrradiation);
        table.push(InverterStatus::Starting);
        table.push(InverterStatus::OnGrid);
        table.push(InverterStatus::OnGridPowerLimit);
        table.push(InverterStatus::OnGridSelfDerating);
        table.push(InverterStatus::GridDispatchCosPhiPCurve);
        table.push(InverterStatus::GridDispatchQuCurve);
        table.push(InverterStatus::ShutdownFault);
        table.push(InverterStatus::ShutdownCommand);
        table.push(InverterStatus::ShutdownOvgr);
        table.push(InverterStatus::ShutdownCommDisconnected);
        table.push(InverterStatus::ShutdownPowerLimit);
        table.push(InverterStatus::ShutdownStartManually);
        table.push(InverterStatus::ShutdownDcSwitchOff);
        table.push(InverterStatus::SpotCheck);
        table.push(InverterStatus::SpotChecking);
        table.push(InverterStatus::Inspecting);
        table.push(InverterStatus::AfciSelfCheck);
        table.push(InverterStatus::IvScanning);
        table.push(InverterStatus::DcInputDetection);
        proof {
            assert forall|status: InverterStatus| #[trigger] table@.contains(status) by {
                match status {
                    InverterStatus::IdleInitializing => assert(table@[0] == status),
                    InverterStatus::IdleDetectingIso => assert(table@[1] == status),
                    InverterStatus::IdleDetectingIrradiation => assert(table@[2] == status),
                    InverterStatus::IdleGridDetecting => assert(table@[3] == status),
                    InverterStatus::IdleNoIrradiation => assert(table@[4] == status),
                    InverterStatus::Starting => assert(table@[5] == status),
                    InverterStatus::OnGrid => assert(table@[6] == status),
                    InverterStatus::OnGridPowerLimit => assert(table@[7] == status),
                    InverterStatus::OnGridSelfDerating => assert(table@[8] == status),
                    InverterStatus::GridDispatchCosPhiPCurve => assert(table@[9] == status),
                    InverterStatus::GridDispatchQuCurve => assert(table@[10] == status),
                    InverterStatus::ShutdownFault => assert(table@[11] == status),
                    InverterStatus::ShutdownCommand => assert(table@[12] == status),
                    InverterStatus::ShutdownOvgr => assert(table@[13] == status),
                    InverterStatus::ShutdownCommDisconnected => assert(table@[14] == status),
                    InverterStatus::ShutdownPowerLimit => assert(table@[15] == status),
                    InverterStatus::ShutdownStartManually => assert(table@[16] == status),
                    InverterStatus::ShutdownDcSwitchOff => assert(table@[17] == status),
                    InverterStatus::SpotCheck => assert(table@[18] == status),
                    InverterStatus::SpotChecking => assert(table@[19] == status),
                    InverterStatus::Inspecting => assert(table@[20] == status),
                    InverterStatus::AfciSelfCheck => assert(table@[21] == status),
                    InverterStatus::IvScanning => assert(table@[22] == status),
                    InverterStatus::DcInputDetection => assert(table@[23] == status),
                }
            }
        }
        table
    }
}

/// No two states share a text: the state that a text is read as is the one
/// state that is written as that text.
pub proof fn lemma_labels_differ(a: InverterStatus, b: InverterStatus)
    requires
        a.label_text() == b.label_text(),
    ensures
        a == b,
{
    reveal_strlit("Idle Initializing");
    reveal_strlit("Idle  Detecting ISO");
    reveal_strlit("Idle Detecting irradiation");
    reveal_strlit("Idle Grid detecting");
    reveal_strlit("Idle No irradiation");
    reveal_strlit("Starting");
    reveal_strlit("On-grid");
    reveal_strlit("On-grid Power limit");
    reveal_strlit("On-grid self derating");
    reveal_strlit("Grid dispatch cos(Phi)-P curve");
    reveal_strlit("Grid dispatch QU curve");
    reveal_strlit("Shutdown Fault");
    reveal_strlit("Shutdown Command");
    reveal_strlit("Shutdown OVGR");
    reveal_strlit("Shutdown Communication disconnected");
    reveal_strlit("Shutdown Power limit");
    reveal_strlit("Shutdown Start manually");
    reveal_strlit("Shutdown DC switch OFF");
    reveal_strlit("Spot-check");
    reveal_strlit("Spot-checking");
    reveal_strlit("Inspecting");
    reveal_strlit("AFCI self-check");
    reveal_strlit("IV scanning");
    reveal_strlit("DC input detection");
    assert("Idle Initializing"@.len() == 17 && "Idle Initializing"@[6] == 'n');
    assert("Idle  Detecting ISO"@.len() == 19 && "Idle  Detecting ISO"@[6] == 'D');
    assert("Idle Detecting irradiation"@.len() == 26 && "Idle Detecting irradiation"@[6] == 'e');
    assert("Idle Grid detecting"@.len() == 19 && "Idle Grid detecting"@[6] == 'r');
    assert("Idle No irradiation"@.len() == 19 && "Idle No irradiation"@[6] == 'o');
    assert("Starting"@.len() == 8 && "Starting"@[6] == 'n');
    assert("On-grid"@.len() == 7 && "On-grid"@[6] == 'd');
    assert("On-grid Power limit"@.len() == 19 && "On-grid Power limit"@[6] == 'd');
    assert("On-grid self derating"@.len() == 21 && "On-grid self derating"@[6] == 'd');
    assert("Grid dispatch cos(Phi)-P curve"@.len() == 30 && "Grid dispatch cos(Phi)-P curve"@[6] == 'i');
    assert("Grid dispatch QU curve"@.len() == 22 && "Grid dispatch QU curve"@[6] == 'i');
    assert("Shutdown Fault"@.len() == 14 && "Shutdown Fault"@[6] == 'w');
    assert("Shutdown Command"@.len() == 16 && "Shutdown Command"@[6] == 'w');
    assert("Shutdown OVGR"@.len() == 13 && "Shutdown OVGR"@[6] == 'w');
    assert("Shutdown Communication disconnected"@.len() == 35 && "Shutdown Communication disconnected"@[6] == 'w');
    assert("Shutdown Power limit"@.len() == 20 && "Shutdown Power limit"@[6] == 'w');
    assert("Shutdown Start manually"@.len() == 23 && "Shutdown Start manually"@[6] == 'w');
    assert("Shutdown DC switch OFF"@.len() == 22 && "Shutdown DC switch OFF"@[6] == 'w');
    assert("Spot-check"@.len() == 10 && "Spot-check"@[6] == 'h');
    assert("Spot-checking"@.len() == 13 && "Spot-checking"@[6] == 'h');
    assert("Inspecting"@.len() == 10 && "Inspecting"@[6] == 't');
    assert("AFCI self-check"@.len() == 15 && "AFCI self-check"@[6] == 'e');
    assert("IV scanning"@.len() == 11 && "IV scanning"@[6] == 'n');
    assert("DC input detection"@.len() == 18 && "DC input detection"@[6] == 'u');
}

} // verus!
