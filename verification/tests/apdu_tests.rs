use app_boilerplate_rust::apdu::{
    appended, handle_apdu, show_status_and_home_if_needed, ApduHeader, AppSW, CommError, Handler,
    Instruction, Reply, StatusScreen, StatusType, APP_NAME, EXPECTED_CLA,
};

fn decode(ins: u8, p1: u8, p2: u8) -> Result<Instruction, AppSW> {
    Instruction::try_from(ApduHeader { cla: EXPECTED_CLA, ins, p1, p2 })
}

#[test]
fn status_words_have_their_numbers() {
    let expected: [(AppSW, u16); 16] = [
        (AppSW::Deny, 0x6985),
        (AppSW::WrongP1P2, 0x6A86),
        (AppSW::InsNotSupported, 0x6D00),
        (AppSW::ClaNotSupported, 0x6E00),
        (AppSW::CommError, 0x6F00),
        (AppSW::TxDisplayFail, 0xB001),
        (AppSW::AddrDisplayFail, 0xB002),
        (AppSW::TxWrongLength, 0xB004),
        (AppSW::TxParsingFail, 0xB005),
        (AppSW::TxHashFail, 0xB006),
        (AppSW::TxSignFail, 0xB008),
        (AppSW::KeyDeriveFail, 0xB009),
        (AppSW::VersionParsingFail, 0xB00A),
        (AppSW::WrongApduLength, 0x6E03),
        (AppSW::SwapFail, 0xC000),
        (AppSW::Success, 0x9000),
    ];
    for (sw, code) in expected {
        assert_eq!(Reply::from(sw), Reply(code));
    }
}

#[test]
fn status_words_are_distinct() {
    assert_ne!(Reply::from(AppSW::ClaNotSupported), Reply::from(AppSW::WrongApduLength));
    assert_ne!(Reply::from(AppSW::TxParsingFail), Reply::from(AppSW::TxHashFail));
}

#[test]
fn known_headers_are_decoded() {
    assert_eq!(decode(3, 0, 0), Ok(Instruction::GetVersion));
    assert_eq!(decode(4, 0, 0), Ok(Instruction::GetAppName));
    assert_eq!(decode(5, 0, 0), Ok(Instruction::GetPubkey { display: false }));
    assert_eq!(decode(5, 1, 0), Ok(Instruction::GetPubkey { display: true }));
    assert_eq!(decode(6, 0, 0x80), Ok(Instruction::SignTx { chunk: 0, more: true }));
    assert_eq!(decode(6, 1, 0x80), Ok(Instruction::SignTx { chunk: 1, more: true }));
    assert_eq!(decode(6, 3, 0x00), Ok(Instruction::SignTx { chunk: 3, more: false }));
}

#[test]
fn wrong_parameters_are_refused() {
    assert_eq!(decode(3, 1, 0), Err(AppSW::WrongP1P2));
    assert_eq!(decode(4, 0, 1), Err(AppSW::WrongP1P2));
    assert_eq!(decode(5, 2, 0), Err(AppSW::WrongP1P2));
    assert_eq!(decode(6, 0, 0), Err(AppSW::WrongP1P2));
    assert_eq!(decode(6, 4, 0x80), Err(AppSW::WrongP1P2));
    assert_eq!(decode(6, 1, 0x01), Err(AppSW::WrongP1P2));
}

#[test]
fn unknown_instructions_are_refused() {
    for ins in [0u8, 1, 2, 7, 0x80, 0xff] {
        assert_eq!(decode(ins, 0, 0), Err(AppSW::InsNotSupported));
    }
}

#[test]
fn class_does_not_matter_for_decoding() {
    for cla in [0u8, 0xe0, 0xff] {
        assert_eq!(
            Instruction::try_from(ApduHeader { cla, ins: 3, p1: 0, p2: 0 }),
            Ok(Instruction::GetVersion)
        );
    }
}

#[test]
fn headers_and_commands_agree_everywhere() {
    let mut decoded: Vec<Instruction> = Vec::new();
    for ins in 0..=255u8 {
        for p1 in 0..=255u8 {
            for p2 in [0u8, 1, 0x7f, 0x80, 0x81, 0xff] {
                match decode(ins, p1, p2) {
                    Ok(i) => {
                        assert!(!decoded.contains(&i));
                        decoded.push(i);
                    }
                    Err(sw) => assert_eq!(
                        sw,
                        if (3..=6).contains(&ins) {
                            AppSW::WrongP1P2
                        } else {
                            AppSW::InsNotSupported
                        }
                    ),
                }
            }
        }
    }
    assert_eq!(decoded.len(), 11);
}

#[test]
fn commands_find_their_handlers() {
    assert_eq!(handle_apdu(&Instruction::GetAppName), Handler::AppName);
    assert_eq!(APP_NAME, "app-boilerplate-rust");
    assert_eq!(EXPECTED_CLA, 0xe0);
    assert_eq!(handle_apdu(&Instruction::GetVersion), Handler::Version);
    assert_eq!(
        handle_apdu(&Instruction::GetPubkey { display: true }),
        Handler::PublicKey { display: true }
    );
    assert_eq!(
        handle_apdu(&Instruction::SignTx { chunk: 2, more: false }),
        Handler::SignTx { chunk: 2, more: false }
    );
}

#[test]
fn transport_failures_become_a_status_word() {
    assert_eq!(AppSW::from(CommError::Overflow), AppSW::CommError);
    assert_eq!(AppSW::from(CommError::IoError), AppSW::CommError);
    assert_eq!(appended(Ok(())), Ok(()));
    assert_eq!(appended(Err(CommError::Overflow)), Err(AppSW::CommError));
}

#[test]
fn status_screen_after_a_displayed_address() {
    let ins = Instruction::GetPubkey { display: true };
    assert_eq!(
        show_status_and_home_if_needed(false, &ins, false, AppSW::Success),
        Some(StatusScreen { status_type: StatusType::Address, success: true })
    );
    assert_eq!(
        show_status_and_home_if_needed(false, &ins, false, AppSW::Deny),
        Some(StatusScreen { status_type: StatusType::Address, success: false })
    );
    assert_eq!(show_status_and_home_if_needed(false, &ins, false, AppSW::KeyDeriveFail), None);
    assert_eq!(show_status_and_home_if_needed(true, &ins, false, AppSW::Success), None);
    let silent = Instruction::GetPubkey { display: false };
    assert_eq!(show_status_and_home_if_needed(false, &silent, true, AppSW::Success), None);
}

#[test]
fn status_screen_after_a_finished_transaction() {
    let ins = Instruction::SignTx { chunk: 1, more: false };
    assert_eq!(
        show_status_and_home_if_needed(false, &ins, true, AppSW::Success),
        Some(StatusScreen { status_type: StatusType::Transaction, success: true })
    );
    assert_eq!(
        show_status_and_home_if_needed(false, &ins, true, AppSW::Deny),
        Some(StatusScreen { status_type: StatusType::Transaction, success: false })
    );
    assert_eq!(show_status_and_home_if_needed(false, &ins, false, AppSW::Success), None);
    assert_eq!(show_status_and_home_if_needed(false, &ins, true, AppSW::TxSignFail), None);
    assert_eq!(show_status_and_home_if_needed(true, &ins, true, AppSW::Success), None);
    assert_eq!(
        show_status_and_home_if_needed(false, &Instruction::GetVersion, true, AppSW::Success),
        None
    );
}
