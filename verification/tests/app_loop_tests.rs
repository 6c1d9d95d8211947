use app_boilerplate_rust::apdu::{ApduHeader, AppSW, Instruction, StatusScreen, StatusType};
use app_boilerplate_rust::app_loop::{normal_main, sample_main, AppLoop, Event, Launch, Task};

fn header(ins: u8, p1: u8, p2: u8) -> Event {
    Event::Command(ApduHeader { cla: 0xe0, ins, p1, p2 })
}

fn in_swap() -> AppLoop {
    let mut app = normal_main(true);
    app.advance(Event::Done);
    app
}

fn at_home() -> AppLoop {
    let mut app = normal_main(false);
    for _ in 0..5 {
        app.advance(Event::Done);
    }
    app
}

#[test]
fn entry_argument_selects_the_mode() {
    assert_eq!(sample_main(0), Launch::Normal);
    assert_eq!(sample_main(1), Launch::Swap(1));
    assert_eq!(sample_main(u32::MAX), Launch::Swap(u32::MAX));
}

#[test]
fn opening_screens_come_in_order() {
    let mut app = normal_main(false);
    for task in [
        Task::AcceptClass(0xe0),
        Task::ShowReady,
        Task::ShowKeyboard,
        Task::ShowNav,
        Task::ShowHome,
    ] {
        assert_eq!(app.task(), task);
        app.advance(Event::Done);
    }
    assert_eq!(app.task(), Task::NextCommand);
}

#[test]
fn swap_starts_with_commands() {
    let mut app = normal_main(true);
    assert_eq!(app.task(), Task::AcceptClass(0xe0));
    app.advance(Event::Done);
    assert_eq!(app.task(), Task::NextCommand);
}

#[test]
fn refused_header_is_answered_with_the_reason() {
    for mut app in [at_home(), in_swap()] {
        app.advance(header(9, 0, 0));
        assert_eq!(app.task(), Task::Refuse(AppSW::InsNotSupported));
        app.advance(Event::Done);
        assert_eq!(app.task(), Task::NextCommand);
        app.advance(header(6, 9, 0));
        assert_eq!(app.task(), Task::Refuse(AppSW::WrongP1P2));
        app.advance(Event::Done);
        assert_eq!(app.task(), Task::NextCommand);
    }
}

#[test]
fn quiet_command_is_answered_without_a_screen() {
    let mut app = at_home();
    app.advance(header(3, 0, 0));
    assert_eq!(app.task(), Task::Handle(Instruction::GetVersion));
    app.advance(Event::Handled(Ok(())));
    assert_eq!(
        app.task(),
        Task::Answer { ins: Instruction::GetVersion, status: AppSW::Success, data: true }
    );
    app.advance(Event::Answered { finished: true });
    assert_eq!(app.task(), Task::NextCommand);
}

#[test]
fn denied_transaction_is_reported_to_the_user() {
    let mut app = at_home();
    let ins = Instruction::SignTx { chunk: 1, more: false };
    app.advance(header(6, 1, 0));
    app.advance(Event::Handled(Err(AppSW::Deny)));
    assert_eq!(app.task(), Task::Answer { ins, status: AppSW::Deny, data: false });
    app.advance(Event::Answered { finished: true });
    assert_eq!(
        app.task(),
        Task::ShowStatus(StatusScreen { status_type: StatusType::Transaction, success: false })
    );
    app.advance(Event::Done);
    assert_eq!(app.task(), Task::ReturnHome);
    app.advance(Event::Done);
    assert_eq!(app.task(), Task::NextCommand);
}

#[test]
fn data_goes_with_success_only() {
    let ins = Instruction::GetAppName;
    let mut app = at_home();
    app.advance(header(4, 0, 0));
    app.advance(Event::Handled(Err(AppSW::Success)));
    assert_eq!(app.task(), Task::Answer { ins, status: AppSW::Success, data: false });
    app.advance(Event::Answered { finished: false });
    app.advance(header(4, 0, 0));
    app.advance(Event::Handled(Ok(())));
    assert_eq!(app.task(), Task::Answer { ins, status: AppSW::Success, data: true });
}

#[test]
fn displayed_address_is_reported_to_the_user() {
    let mut app = at_home();
    app.advance(header(5, 1, 0));
    app.advance(Event::Handled(Ok(())));
    app.advance(Event::Answered { finished: false });
    assert_eq!(
        app.task(),
        Task::ShowStatus(StatusScreen { status_type: StatusType::Address, success: true })
    );
}

#[test]
fn swap_ends_with_the_signed_transaction() {
    let mut app = in_swap();
    app.advance(header(6, 0, 0x80));
    app.advance(Event::Handled(Ok(())));
    app.advance(Event::Answered { finished: false });
    assert_eq!(app.task(), Task::NextCommand);
    app.advance(header(6, 1, 0));
    app.advance(Event::Handled(Ok(())));
    app.advance(Event::Answered { finished: true });
    assert_eq!(app.task(), Task::Exit(true));
}

#[test]
fn swap_ends_with_the_failed_transaction() {
    let mut app = in_swap();
    app.advance(header(6, 1, 0));
    app.advance(Event::Handled(Err(AppSW::SwapFail)));
    app.advance(Event::Answered { finished: true });
    assert_eq!(app.task(), Task::Exit(false));
}
