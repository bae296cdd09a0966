use json_rpc_client::autopay::{
    check_instruction, process_instructions, sequence_numbers, AutopayBatchCmd, AutopayScriptArgs,
    InstructionError, PayInstruction,
};

fn instr(uid: u64) -> PayInstruction {
    PayInstruction {
        uid,
        type_move: Some(0),
        destination: [0u8; 16],
        end_epoch: Some(10),
        duration_epochs: Some(5),
        value_move: Some(1000),
    }
}

#[test]
fn valid_instruction_gives_script_args() {
    let r = check_instruction(&instr(1));
    assert_eq!(
        r,
        Ok(AutopayScriptArgs { uid: 1, type_move: 0, destination: [0u8; 16], end_epoch: 10, value_move: 1000 })
    );
}

#[test]
fn instruction_errors() {
    let mut i = instr(2);
    i.type_move = Some(4);
    assert_eq!(check_instruction(&i), Err(InstructionError::InvalidType { uid: 2, type_move: 4 }));
    i.type_move = Some(3);
    assert!(check_instruction(&i).is_ok());
    i.type_move = None;
    assert_eq!(check_instruction(&i), Err(InstructionError::MissingType { uid: 2 }));
    let mut i = instr(3);
    i.duration_epochs = Some(0);
    assert_eq!(check_instruction(&i), Err(InstructionError::ZeroDuration { uid: 3 }));
    i.duration_epochs = None;
    assert_eq!(check_instruction(&i), Err(InstructionError::MissingDuration { uid: 3 }));
    let mut i = instr(4);
    i.end_epoch = None;
    assert_eq!(check_instruction(&i), Err(InstructionError::MissingEndEpoch { uid: 4 }));
    let mut i = instr(5);
    i.value_move = None;
    assert_eq!(check_instruction(&i), Err(InstructionError::MissingValue { uid: 5 }));
}

#[test]
fn process_stops_at_first_failure() {
    let mut bad = instr(2);
    bad.duration_epochs = Some(0);
    let mut worse = instr(3);
    worse.type_move = Some(9);
    let r = process_instructions(&vec![instr(1), bad, worse]);
    assert_eq!(r, Err(InstructionError::ZeroDuration { uid: 2 }));
    let ok = process_instructions(&vec![instr(1), instr(2)]).unwrap();
    assert_eq!(ok.iter().map(|a| a.uid).collect::<Vec<_>>(), vec![1, 2]);
    assert_eq!(process_instructions(&vec![]), Ok(vec![]));
}

#[test]
fn sequence_numbers_count_up() {
    assert_eq!(sequence_numbers(3, 7), vec![7, 8, 9]);
    assert_eq!(sequence_numbers(0, 7), Vec::<u64>::new());
    assert_eq!(sequence_numbers(1, u64::MAX), vec![u64::MAX]);
}

#[test]
fn command_keeps_its_file() {
    let c = AutopayBatchCmd::new(std::path::PathBuf::from("autopay_batch_file.json"));
    assert_eq!(c.autopay_batch_file(), &std::path::PathBuf::from("autopay_batch_file.json"));
}
