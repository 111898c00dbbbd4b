//! The verification commands, and what each one asks to be done.
use crate::attestation::{Mode, mode_of, select_mode};
use crate::report::ProcType;
use vstd::prelude::*;

verus! {

/// The verification commands.
#[derive(Clone, Debug)]
pub enum VerifyCmd {
    /// Verify the certificate chain.
    Certs(crate::certificate_chain::Args),
    /// Verify the attestation report.
    Attestation(crate::attestation::Args),
}

/// The work that a command asks for.
#[derive(Clone, Debug)]
pub enum Task {
    /// Validate the chain held in `certs_dir`.
    Chain { certs_dir: String },
    /// Verify the report in `att_report_path` against the endorsement key
    /// held in `certs_dir`, with the checks that `mode` selects.
    Attestation {
        certs_dir: String,
        att_report_path: String,
        processor_model: Option<ProcType>,
        mode: Mode,
    },
}

/// The work that the command `command` asks for.
pub fn cmd(command: VerifyCmd) -> (r: Task)
    ensures
        match (command, r) {
            (VerifyCmd::Certs(a), Task::Chain { certs_dir }) => certs_dir == a.certs_dir,
            (
                VerifyCmd::Attestation(a),
                Task::Attestation { certs_dir, att_report_path, processor_model, mode },
            ) => certs_dir == a.certs_dir && att_report_path == a.att_report_path
                && processor_model == a.processor_model && mode == mode_of(a.tcb, a.signature),
            _ => false,
        },
{
    match command {
        VerifyCmd::Certs(a) => Task::Chain { certs_dir: a.certs_dir },
        VerifyCmd::Attestation(a) => Task::Attestation {
            certs_dir: a.certs_dir,
            att_report_path: a.att_report_path,
            processor_model: a.processor_model,
            mode: select_mode(a.tcb, a.signature),
        },
    }
}

} // verus!
