//! Autopay batches: the checks an instruction must pass before its script is
//! built, and the sequence numbers its transactions are signed with.
use vstd::prelude::*;

verus! {

/// The largest instruction type that a transaction can carry.
pub const MAX_INSTRUCTION_TYPE: u8 = 3;

/// Declares std's `PathBuf` so that the command can hold the path of its
/// instruction file; nothing about its contents is relied on.
#[verifier::external_type_specification]
#[verifier::external_body]
pub struct ExPathBuf(std::path::PathBuf);

/// The command that submits a batch of autopay transactions read from a file.
pub struct AutopayBatchCmd {
    autopay_batch_file: std::path::PathBuf,
}

impl AutopayBatchCmd {
    pub closed spec fn spec_file(&self) -> std::path::PathBuf {
        self.autopay_batch_file
    }

    /// A command for the instruction file at `autopay_batch_file`.
    pub fn new(autopay_batch_file: std::path::PathBuf) -> (c: AutopayBatchCmd)
        ensures
            c.spec_file() == autopay_batch_file,
    {
        AutopayBatchCmd { autopay_batch_file }
    }

    /// The path of the instruction file.
    pub fn autopay_batch_file(&self) -> (p: &std::path::PathBuf)
        ensures
            *p == self.spec_file(),
    {
        &self.autopay_batch_file
    }
}

/// One autopay instruction, as read from an instruction file.
#[derive(Debug, Clone, PartialEq, Eq)]
pub struct PayInstruction {
    pub uid: u64,
    pub type_move: Option<u8>,
    pub destination: [u8; 16],
    pub end_epoch: Option<u64>,
    pub duration_epochs: Option<u64>,
    pub value_move: Option<u64>,
}

/// The arguments of the script that creates one autopay instruction.
#[derive(Debug, Clone, PartialEq, Eq)]
pub struct AutopayScriptArgs {
    pub uid: u64,
    pub type_move: u8,
    pub destination: [u8; 16],
    pub end_epoch: u64,
    pub value_move: u64,
}

/// Why an instruction cannot become a transaction.
#[derive(Debug, Clone, PartialEq, Eq)]
pub enum InstructionError {
    MissingType { uid: u64 },
    InvalidType { uid: u64, type_move: u8 },
    MissingDuration { uid: u64 },
    ZeroDuration { uid: u64 },
    MissingEndEpoch { uid: u64 },
    MissingValue { uid: u64 },
}

/// The script arguments of an instruction, or the first check it fails: its
/// type must be present and at most `MAX_INSTRUCTION_TYPE`, its duration
/// present and positive, its end epoch and value present.
pub open spec fn instruction_args(i: PayInstruction) -> Result<AutopayScriptArgs, InstructionError> {
    let uid = i.uid;
    match i.type_move {
        None => Err(InstructionError::MissingType { uid }),
        Some(t) => if t > MAX_INSTRUCTION_TYPE {
            Err(InstructionError::InvalidType { uid, type_move: t })
        } else {
            match i.duration_epochs {
                None => Err(InstructionError::MissingDuration { uid }),
                Some(d) => if d == 0 {
                    Err(InstructionError::ZeroDuration { uid })
                } else {
                    match (i.end_epoch, i.value_move) {
                        (None, _) => Err(InstructionError::MissingEndEpoch { uid }),
                        (_, None) => Err(InstructionError::MissingValue { uid }),
                        (Some(e), Some(v)) => Ok(
                            AutopayScriptArgs {
                                uid,
                                type_move: t,
                                destination: i.destination,
                                end_epoch: e,
                                value_move: v,
                            },
                        ),
                    }
                },
            }
        },
    }
}

/// Checks one instruction and gives the arguments of its script.
pub fn check_instruction(i: &PayInstruction) -> (r: Result<AutopayScriptArgs, InstructionError>)
    ensures
        r == instruction_args(*i),
{
    let uid = i.uid;
    let t = match i.type_move {
        None => {
            return Err(InstructionError::MissingType { uid });
        },
        Some(t) => t,
    };
    if t > MAX_INSTRUCTION_TYPE {
        return Err(InstructionError::InvalidType { uid, type_move: t });
    }
    match i.duration_epochs {
        None => {
            return Err(InstructionError::MissingDuration { uid });
        },
        Some(d) => {
            if d == 0 {
                return Err(InstructionError::ZeroDuration { uid });
            }
        },
    }
    match (i.end_epoch, i.value_move) {
        (None, _) => Err(InstructionError::MissingEndEpoch { uid }),
        (_, None) => Err(InstructionError::MissingValue { uid }),
        (Some(e), Some(v)) => Ok(
            AutopayScriptArgs {
                uid,
                type_move: t,
                destination: i.destination,
                end_epoch: e,
                value_move: v,
            },
        ),
    }
}

/// Whether every instruction before index `n` passes its checks.
pub open spec fn all_pass(instructions: Seq<PayInstruction>, n: int) -> bool {
    forall|k: int| 0 <= k < n ==> (#[trigger] instruction_args(instructions[k])) is Ok
}

/// Checks every instruction in order. Gives the script arguments of all of
/// them, in order, or the error of the first one that fails.
pub fn process_instructions(instructions: &Vec<PayInstruction>) -> (r: Result<
    Vec<AutopayScriptArgs>,
    InstructionError,
>)
    ensures
        match r {
            Ok(args) => {
                &&& all_pass(instructions@, instructions@.len() as int)
                &&& args@.len() == instructions@.len()
                &&& forall|k: int|
                    0 <= k < args@.len() ==> instruction_args(instructions@[k]) == Ok::<
                        AutopayScriptArgs,
                        InstructionError,
                    >(#[trigger] args@[k])
            },
            Err(e) => exists|k: int|
                0 <= k < instructions@.len() && all_pass(instructions@, k)
                    && #[trigger] instruction_args(instructions@[k]) == Err::<
                    AutopayScriptArgs,
                    InstructionError,
                >(e),
        },
{
    let mut out: Vec<AutopayScriptArgs> = Vec::new();
    let mut i: usize = 0;
    while i < instructions.len()
        invariant
            i <= instructions@.len(),
            all_pass(instructions@, i as int),
            out@.len() == i,
            forall|k: int|
                0 <= k < i ==> instruction_args(instructions@[k]) == Ok::<
                    AutopayScriptArgs,
                    InstructionError,
                >(#[trigger] out@[k]),
        decreases instructions@.len() - i,
    {
        match check_instruction(&instructions[i]) {
            Ok(a) => {
                out.push(a);
            },
            Err(e) => {
                return Err(e);
            },
        }
        i = i + 1;
    }
    Ok(out)
}

/// The sequence numbers of `count` transactions signed in order, the first
/// with `starting_sequence_num`.
pub fn sequence_numbers(count: usize, starting_sequence_num: u64) -> (r: Vec<u64>)
    requires
        starting_sequence_num + count <= u64::MAX + 1,
    ensures
        r@.len() == count,
        forall|k: int| 0 <= k < count ==> #[trigger] r@[k] == starting_sequence_num + k,
{
    let mut out: Vec<u64> = Vec::new();
    let mut i: usize = 0;
    while i < count
        invariant
            i <= count,
            starting_sequence_num + count <= u64::MAX + 1,
            out@.len() == i,
            forall|k: int| 0 <= k < i ==> #[trigger] out@[k] == starting_sequence_num + k,
        decreases count - i,
    {
        out.push(starting_sequence_num + i as u64);
        i = i + 1;
    }
    out
}

} // verus!
