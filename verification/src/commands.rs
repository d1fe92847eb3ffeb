//! The byte sequences of the sensor protocol's commands.

use vstd::prelude::*;

verus! {

/// Holds essential AHT20 commands, each with its wire bytes.
pub enum Aht20Commands {
    CheckCalibration([u8; 1]),
    Calibrate([u8; 3]),
    Measure([u8; 3]),
    SoftReset([u8; 1]),
}

impl Aht20Commands {
    /// The bytes this command value carries.
    pub open spec fn spec_bytes(self) -> Seq<u8> {
        match self {
            Aht20Commands::CheckCalibration(bytes) => bytes@,
            Aht20Commands::Calibrate(bytes) => bytes@,
            Aht20Commands::Measure(bytes) => bytes@,
            Aht20Commands::SoftReset(bytes) => bytes@,
        }
    }

    /// The sequence the sensor protocol fixes for each command.
    pub open spec fn protocol_bytes(self) -> Seq<u8> {
        match self {
            Aht20Commands::CheckCalibration(_) => seq![0x71u8],
            Aht20Commands::Calibrate(_) => seq![0xBEu8, 0x08u8, 0x00u8],
            Aht20Commands::Measure(_) => seq![0xACu8, 0x33u8, 0x00u8],
            Aht20Commands::SoftReset(_) => seq![0xBAu8],
        }
    }

    /// A command is well formed when it carries exactly the protocol's bytes.
    pub open spec fn wf(self) -> bool {
        self.spec_bytes() == self.protocol_bytes()
    }

    /// The command that reads the one-byte calibration status.
    pub fn check_calibration() -> (cmd: Self)
        ensures
            cmd is CheckCalibration,
            cmd.wf(),
    {
        let cmd = Aht20Commands::CheckCalibration([0x71]);
        proof {
            assert(cmd.spec_bytes() =~= cmd.protocol_bytes());
        }
        cmd
    }

    /// The fire-and-forget calibration command.
    pub fn calibrate() -> (cmd: Self)
        ensures
            cmd is Calibrate,
            cmd.wf(),
    {
        let cmd = Aht20Commands::Calibrate([0xBE, 0x08, 0x00]);
        proof {
            assert(cmd.spec_bytes() =~= cmd.protocol_bytes());
        }
        cmd
    }

    /// The command that triggers one measurement conversion.
    pub fn measure() -> (cmd: Self)
        ensures
            cmd is Measure,
            cmd.wf(),
    {
        let cmd = Aht20Commands::Measure([0xAC, 0x33, 0x00]);
        proof {
            assert(cmd.spec_bytes() =~= cmd.protocol_bytes());
        }
        cmd
    }

    /// The command that reinitializes the sensor without a power cycle.
    pub fn soft_reset() -> (cmd: Self)
        ensures
            cmd is SoftReset,
            cmd.wf(),
    {
        let cmd = Aht20Commands::SoftReset([0xBA]);
        proof {
            assert(cmd.spec_bytes() =~= cmd.protocol_bytes());
        }
        cmd
    }

    /// The wire bytes of this command.
    pub fn as_bytes(&self) -> (bytes: &[u8])
        ensures
            bytes@ == self.spec_bytes(),
    {
        match self {
            Aht20Commands::CheckCalibration(bytes) => bytes.as_slice(),
            Aht20Commands::Calibrate(bytes) => bytes.as_slice(),
            Aht20Commands::Measure(bytes) => bytes.as_slice(),
            Aht20Commands::SoftReset(bytes) => bytes.as_slice(),
        }
    }
}

} // verus!
