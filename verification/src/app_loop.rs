//! The application's main loop, as a machine that says what to do next.
//!
//! The machine starts in [`normal_main`]. Its driver carries out the current
//! [`Task`] on the device and reports how that went as an [`Event`]; the machine
//! then has the next task. Opened by the user, the application shows its opening
//! screens and then serves commands for good. Called by another application for a
//! swap, it shows nothing, and it ends with the transaction.

use vstd::prelude::*;

use crate::apdu::{
    decoded, is_decided, show_status_and_home_if_needed, status_subject, ApduHeader, AppSW,
    Instruction, StatusScreen, StatusType, EXPECTED_CLA,
};

verus! {

/// How the application is entered.
#[derive(Clone, Copy, PartialEq, Eq, Structural, Debug)]
pub enum Launch {
    /// Another application calls it, with this argument.
    Swap(u32),
    /// The user opens it.
    Normal,
}

/// Reads the entry argument: zero where the user opens the application.
pub fn sample_main(arg0: u32) -> (r: Launch)
    ensures
        r == if arg0 != 0 {
            Launch::Swap(arg0)
        } else {
            Launch::Normal
        },
{
    if arg0 != 0 {
        Launch::Swap(arg0)
    } else {
        Launch::Normal
    }
}

/// What the driver has to do next.
#[derive(Clone, Copy, PartialEq, Eq, Structural, Debug)]
pub enum Task {
    /// Have the transport let commands of this class through, and no others.
    AcceptClass(u8),
    /// Ask whether to go ahead.
    ShowReady,
    /// Show the keyboard.
    ShowKeyboard,
    /// Show the navigable pages.
    ShowNav,
    /// Build the home screen and show it.
    ShowHome,
    /// Wait for a command.
    NextCommand,
    /// Answer the command with this status word and no data.
    Refuse(AppSW),
    /// Have the command carried out.
    Handle(Instruction),
    /// Answer the command with this status word, and with the handler's data where
    /// `data` is set.
    Answer { ins: Instruction, status: AppSW, data: bool },
    /// Show how the command ended.
    ShowStatus(StatusScreen),
    /// Show the home screen again.
    ReturnHome,
    /// Leave the application; the flag says whether the transaction was signed.
    Exit(bool),
}

/// How a task went.
#[derive(Clone, Copy, PartialEq, Eq, Debug)]
pub enum Event {
    /// The task is done.
    Done,
    /// A command came.
    Command(ApduHeader),
    /// The command was carried out, or failed with a status word.
    Handled(Result<(), AppSW>),
    /// The answer is out; the flag says whether the transaction is finished.
    Answered { finished: bool },
}

/// The main loop.
#[derive(Clone, Copy, PartialEq, Eq, Structural, Debug)]
pub struct AppLoop {
    swap: bool,
    task: Task,
}

impl Task {
    /// The task puts something on the screen.
    pub open spec fn is_screen(self) -> bool {
        ||| self is ShowReady
        ||| self is ShowKeyboard
        ||| self is ShowNav
        ||| self is ShowHome
        ||| self is ShowStatus
        ||| self is ReturnHome
    }

    /// The task answers a command.
    pub open spec fn is_answer(self) -> bool {
        self is Refuse || self is Answer
    }

    /// The task can end in this event.
    pub open spec fn awaits(self, event: Event) -> bool {
        match self {
            Task::NextCommand => event is Command,
            Task::Handle(_) => event is Handled,
            Task::Answer { .. } => event is Answered,
            Task::Exit(_) => false,
            _ => event is Done,
        }
    }

    /// The task that follows.
    pub open spec fn next(self, swap: bool, event: Event) -> Task {
        match (self, event) {
            (Task::AcceptClass(_), _) => if swap {
                Task::NextCommand
            } else {
                Task::ShowReady
            },
            (Task::ShowReady, _) => Task::ShowKeyboard,
            (Task::ShowKeyboard, _) => Task::ShowNav,
            (Task::ShowNav, _) => Task::ShowHome,
            (Task::NextCommand, Event::Command(header)) => match decoded(header) {
                Ok(ins) => Task::Handle(ins),
                Err(sw) => Task::Refuse(sw),
            },
            (Task::Handle(ins), Event::Handled(Ok(_))) => Task::Answer {
                ins,
                status: AppSW::Success,
                data: true,
            },
            (Task::Handle(ins), Event::Handled(Err(status))) => Task::Answer {
                ins,
                status,
                data: false,
            },
            (Task::Answer { ins, status, .. }, Event::Answered { finished }) => if swap {
                if finished {
                    Task::Exit(status == AppSW::Success)
                } else {
                    Task::NextCommand
                }
            } else {
                match status_subject(ins, finished, status) {
                    Some(status_type) => Task::ShowStatus(
                        StatusScreen { status_type, success: status == AppSW::Success },
                    ),
                    None => Task::NextCommand,
                }
            },
            (Task::ShowStatus(_), _) => Task::ReturnHome,
            (_, _) => Task::NextCommand,
        }
    }
}

impl AppLoop {
    /// The application runs for a swap.
    pub closed spec fn in_swap(self) -> bool {
        self.swap
    }

    /// The current task.
    pub closed spec fn current(self) -> Task {
        self.task
    }

    /// The main loop has come to its current task by a run of these events.
    pub open spec fn has_run(self, events: Seq<Event>) -> bool {
        &&& is_run(self.in_swap(), events)
        &&& self.current() == task_after(self.in_swap(), events)
    }

    /// The current task.
    pub fn task(&self) -> (r: Task)
        ensures
            r == self.current(),
    {
        self.task
    }

    /// Takes how the current task went and goes on to the next.
    pub fn advance(&mut self, event: Event)
        requires
            old(self).current().awaits(event),
        ensures
            final(self).in_swap() == old(self).in_swap(),
            final(self).current() == old(self).current().next(old(self).in_swap(), event),
            forall|events: Seq<Event>| #[trigger]
                old(self).has_run(events) ==> final(self).has_run(events.push(event)),
    {
        let task: Task = match (self.task, event) {
            (Task::AcceptClass(_), _) => if self.swap {
                Task::NextCommand
            } else {
                Task::ShowReady
            },
            (Task::ShowReady, _) => Task::ShowKeyboard,
            (Task::ShowKeyboard, _) => Task::ShowNav,
            (Task::ShowNav, _) => Task::ShowHome,
            (Task::NextCommand, Event::Command(header)) => match Instruction::try_from(header) {
                Ok(ins) => Task::Handle(ins),
                Err(sw) => Task::Refuse(sw),
            },
            (Task::Handle(ins), Event::Handled(Ok(()))) => Task::Answer {
                ins,
                status: AppSW::Success,
                data: true,
            },
            (Task::Handle(ins), Event::Handled(Err(status))) => Task::Answer {
                ins,
                status,
                data: false,
            },
            (Task::Answer { ins, status, .. }, Event::Answered { finished }) => {
                match show_status_and_home_if_needed(self.swap, &ins, finished, status) {
                    Some(screen) => Task::ShowStatus(screen),
                    None => if self.swap && finished {
                        Task::Exit(status == AppSW::Success)
                    } else {
                        Task::NextCommand
                    },
                }
            },
            (Task::ShowStatus(_), _) => Task::ReturnHome,
            (_, _) => Task::NextCommand,
        };
        self.task = task;
        proof {
            assert forall|events: Seq<Event>| #[trigger] old(self).has_run(events) implies self.has_run(
                events.push(event),
            ) by {
                assert(events.push(event).drop_last() == events);
            }
        }
    }
}

/// The task that the main loop starts with.
pub open spec fn first_task() -> Task {
    Task::AcceptClass(EXPECTED_CLA)
}

/// Enters the main loop, for a swap or for the user.
pub fn normal_main(swap: bool) -> (r: AppLoop)
    ensures
        r.in_swap() == swap,
        r.current() == first_task(),
        r.has_run(Seq::empty()),
{
    AppLoop { swap, task: Task::AcceptClass(EXPECTED_CLA) }
}

/// The task that the main loop has come to after these events.
pub open spec fn task_after(swap: bool, events: Seq<Event>) -> Task
    decreases events.len(),
{
    if events.len() == 0 {
        first_task()
    } else {
        task_after(swap, events.drop_last()).next(swap, events.last())
    }
}

/// The events are those of a run: each is one that the task at hand can end in.
pub open spec fn is_run(swap: bool, events: Seq<Event>) -> bool
    decreases events.len(),
{
    events.len() > 0 ==> {
        &&& is_run(swap, events.drop_last())
        &&& task_after(swap, events.drop_last()).awaits(events.last())
    }
}

/// How many commands came.
pub open spec fn commands_in(events: Seq<Event>) -> nat
    decreases events.len(),
{
    if events.len() == 0 {
        0
    } else {
        commands_in(events.drop_last()) + if events.last() is Command {
            1nat
        } else {
            0nat
        }
    }
}

/// How many answers went out or are at hand.
pub open spec fn answers_in(swap: bool, events: Seq<Event>) -> nat
    decreases events.len(),
{
    if events.len() == 0 {
        0
    } else {
        answers_in(swap, events.drop_last()) + if task_after(swap, events).is_answer() {
            1nat
        } else {
            0nat
        }
    }
}

/// A swap shows nothing, at any time.
pub proof fn law_swap_shows_nothing(events: Seq<Event>)
    requires
        is_run(true, events),
    ensures
        !task_after(true, events).is_screen(),
    decreases events.len(),
{
    if events.len() > 0 {
        law_swap_shows_nothing(events.drop_last());
    }
}

/// Opened by the user, the application never ends by itself.
pub proof fn law_normal_mode_never_exits(events: Seq<Event>)
    requires
        is_run(false, events),
    ensures
        !(task_after(false, events) is Exit),
    decreases events.len(),
{
    if events.len() > 0 {
        law_normal_mode_never_exits(events.drop_last());
    }
}

/// A swap ends right after the answer to the command that finished the transaction,
/// and reports a signature exactly where that command was carried out.
pub proof fn law_swap_exit_reports_last_status(events: Seq<Event>)
    requires
        is_run(true, events),
        task_after(true, events) is Exit,
    ensures
        events.len() > 0,
        events.last() == (Event::Answered { finished: true }),
        task_after(true, events.drop_last()) matches Task::Answer { status, .. }
            && task_after(true, events) == Task::Exit(status == AppSW::Success),
{
}

/// A swap goes on as long as the transaction is not finished, and no longer.
pub proof fn law_swap_ends_with_the_transaction(events: Seq<Event>, finished: bool)
    requires
        is_run(true, events),
        task_after(true, events) is Answer,
    ensures
        ({
            let event = Event::Answered { finished };
            &&& is_run(true, events.push(event))
            &&& task_after(true, events.push(event)) is Exit <==> finished
            &&& task_after(true, events.push(event)) is NextCommand <==> !finished
        }),
{
    let event = Event::Answered { finished };
    assert(events.push(event).drop_last() == events);
}

/// Every command is answered once, before the next is awaited: the answers are as
/// many as the commands, but for one that is still being carried out.
pub proof fn law_every_command_is_answered_once(swap: bool, events: Seq<Event>)
    requires
        is_run(swap, events),
    ensures
        commands_in(events) == answers_in(swap, events) + if task_after(swap, events) is Handle {
            1nat
        } else {
            0nat
        },
    decreases events.len(),
{
    if events.len() > 0 {
        law_every_command_is_answered_once(swap, events.drop_last());
    }
}

/// A command whose header is refused is answered with the reason and reaches no
/// handler; any other is handed to its handler.
pub proof fn law_refused_command_is_answered_with_the_reason(
    swap: bool,
    events: Seq<Event>,
    header: ApduHeader,
)
    requires
        is_run(swap, events),
        task_after(swap, events) is NextCommand,
    ensures
        ({
            let taken = events.push(Event::Command(header));
            &&& is_run(swap, taken)
            &&& match decoded(header) {
                Ok(ins) => task_after(swap, taken) == Task::Handle(ins),
                Err(sw) => {
                    &&& task_after(swap, taken) == Task::Refuse(sw)
                    &&& is_run(swap, taken.push(Event::Done))
                    &&& task_after(swap, taken.push(Event::Done)) == Task::NextCommand
                },
            }
        }),
{
    let taken = events.push(Event::Command(header));
    assert(taken.drop_last() == events);
    assert(is_run(swap, taken));
    if decoded(header) is Err {
        let refused = taken.push(Event::Done);
        assert(refused.drop_last() == taken);
        assert(is_run(swap, refused));
        assert(task_after(swap, refused) == Task::NextCommand);
    }
}

/// Handlers get existing commands only.
pub proof fn law_handlers_get_valid_commands(swap: bool, events: Seq<Event>)
    requires
        is_run(swap, events),
    ensures
        task_after(swap, events) matches Task::Handle(ins) ==> ins.is_valid(),
        task_after(swap, events) matches Task::Answer { ins, .. } ==> ins.is_valid(),
    decreases events.len(),
{
    if events.len() > 0 {
        law_handlers_get_valid_commands(swap, events.drop_last());
    }
}

/// A command that was carried out is answered with success and its data, and one
/// that its handler failed on with the handler's status word and no data.
pub proof fn law_answer_carries_the_handlers_status(
    swap: bool,
    events: Seq<Event>,
    outcome: Result<(), AppSW>,
)
    requires
        is_run(swap, events),
        task_after(swap, events) is Handle,
    ensures
        ({
            let handled = events.push(Event::Handled(outcome));
            &&& is_run(swap, handled)
            &&& task_after(swap, handled) matches Task::Answer { ins, status, data }
            &&& task_after(swap, events) == Task::Handle(ins)
            &&& data == outcome is Ok
            &&& outcome matches Err(sw) ==> status == sw
            &&& outcome is Ok ==> status == AppSW::Success
        }),
{
    let handled = events.push(Event::Handled(outcome));
    assert(handled.drop_last() == events);
}

/// A status screen only ever follows the answer to a command that the user decided
/// on: a displayed address, or a transaction that is finished. It reports success
/// exactly where the command was carried out.
pub proof fn law_status_screen_follows_a_decision(swap: bool, events: Seq<Event>)
    requires
        is_run(swap, events),
        task_after(swap, events) is ShowStatus,
    ensures
        !swap,
        events.len() > 0,
        ({
            let screen = task_after(swap, events)->ShowStatus_0;
            &&& task_after(swap, events.drop_last()) matches Task::Answer { ins, status, .. }
            &&& events.last() matches Event::Answered { finished }
            &&& is_decided(status)
            &&& ins == (Instruction::GetPubkey { display: true }) || (ins is SignTx && finished)
            &&& screen.success <==> status == AppSW::Success
        }),
{
}

/// Every status screen is followed by the home screen, and that by the next command;
/// after the opening, the home screen comes back in no other way.
pub proof fn law_home_follows_every_status_screen(swap: bool, events: Seq<Event>)
    requires
        is_run(swap, events),
    ensures
        task_after(swap, events) is ShowStatus ==> ({
            let shown = events.push(Event::Done);
            &&& is_run(swap, shown)
            &&& task_after(swap, shown) == Task::ReturnHome
            &&& is_run(swap, shown.push(Event::Done))
            &&& task_after(swap, shown.push(Event::Done)) == Task::NextCommand
        }),
        task_after(swap, events) is ReturnHome ==> events.len() > 0 && task_after(
            swap,
            events.drop_last(),
        ) is ShowStatus,
{
    if task_after(swap, events) is ShowStatus {
        let shown = events.push(Event::Done);
        assert(shown.drop_last() == events);
        assert(is_run(swap, shown));
        let home = shown.push(Event::Done);
        assert(home.drop_last() == shown);
        assert(is_run(swap, home));
        assert(task_after(swap, home) == Task::NextCommand);
    }
}

/// Before anything else the transport is limited to the application's class, once.
pub proof fn law_class_is_limited_first_and_once(swap: bool, events: Seq<Event>)
    requires
        is_run(swap, events),
    ensures
        events.len() == 0 ==> task_after(swap, events) == Task::AcceptClass(EXPECTED_CLA),
        events.len() > 0 ==> !(task_after(swap, events) is AcceptClass),
{
}

/// Opened by the user, the application has its four opening tasks first, in their
/// order, and none of them again. (Coming back home after a status screen is a task
/// of its own.)
pub proof fn law_opening_screens_come_first_and_once(events: Seq<Event>)
    requires
        is_run(false, events),
    ensures
        ({
            let task = task_after(false, events);
            &&& task is ShowReady <==> events.len() == 1
            &&& task is ShowKeyboard <==> events.len() == 2
            &&& task is ShowNav <==> events.len() == 3
            &&& task is ShowHome <==> events.len() == 4
        }),
    decreases events.len(),
{
    if events.len() > 0 {
        law_class_is_limited_first_and_once(false, events.drop_last());
        law_opening_screens_come_first_and_once(events.drop_last());
    }
}

/// Whatever argument but zero the application is called with starts a swap with just
/// that argument; with zero the user has opened it.
pub proof fn law_any_argument_starts_a_swap(arg0: u32, launch: Launch)
    requires
        call_ensures(sample_main, (arg0,), launch),
    ensures
        arg0 == 0 <==> launch is Normal,
        arg0 != 0 <==> launch is Swap,
        launch matches Launch::Swap(arg) ==> arg == arg0,
{
}

/// The main loop is entered in the given mode, with the limitation of the class.
pub proof fn law_loop_starts_in_its_mode(swap: bool, app: AppLoop, task: Task)
    requires
        call_ensures(normal_main, (swap,), app),
        call_ensures(AppLoop::task, (&app,), task),
    ensures
        app.in_swap() == swap,
        app.current() == task,
        task == Task::AcceptClass(0xe0),
        app.has_run(Seq::empty()),
{
}

/// Whatever comes of a task can be taken: any command where one is awaited, any
/// outcome of its handler, and any answer.
pub proof fn law_whatever_comes_can_be_taken(app: &mut AppLoop, event: Event)
    ensures
        ({
            let task = old(app).current();
            let taken = call_requires(AppLoop::advance, (app, event));
            &&& task is NextCommand && event is Command ==> taken
            &&& task is Handle && event is Handled ==> taken
            &&& task is Answer && event is Answered ==> taken
            &&& event is Done && !(task is NextCommand || task is Handle || task is Answer
                || task is Exit) ==> taken
        }),
{
}

/// Opened by the user, the application asks whether to go ahead, shows the keyboard,
/// the pages and its home, and then awaits commands; for a swap it awaits commands at
/// once. The mode never changes.
pub proof fn law_opening_goes_in_order(app: &mut AppLoop, event: Event)
    requires
        call_ensures(AppLoop::advance, (app, event), ()),
    ensures
        ({
            let (before, next) = (old(app).current(), final(app).current());
            &&& before is AcceptClass && old(app).in_swap() ==> next is NextCommand
            &&& before is AcceptClass && !old(app).in_swap() ==> next is ShowReady
            &&& before is ShowReady ==> next is ShowKeyboard
            &&& before is ShowKeyboard ==> next is ShowNav
            &&& before is ShowNav ==> next is ShowHome
            &&& before is ShowHome ==> next is NextCommand
        }),
        final(app).in_swap() == old(app).in_swap(),
{
}

/// A command goes to its handler as its bytes say, or is refused with the reason:
/// parameters that do not fit, or an unknown instruction.
pub proof fn law_command_is_taken_byte_by_byte(app: &mut AppLoop, header: ApduHeader, chunk: u8)
    requires
        old(app).current() is NextCommand,
        call_ensures(AppLoop::advance, (app, Event::Command(header)), ()),
    ensures
        ({
            let next = final(app).current();
            let (ins, p1, p2) = (header.ins, header.p1, header.p2);
            &&& next == Task::Handle(Instruction::GetVersion) <==> ins == 3 && p1 == 0 && p2 == 0
            &&& next == Task::Handle(Instruction::GetAppName) <==> ins == 4 && p1 == 0 && p2 == 0
            &&& next == Task::Handle(Instruction::GetPubkey { display: false }) <==> ins == 5 && p1
                == 0 && p2 == 0
            &&& next == Task::Handle(Instruction::GetPubkey { display: true }) <==> ins == 5 && p1
                == 1 && p2 == 0
            &&& next == Task::Handle(Instruction::SignTx { chunk, more: true }) <==> ins == 6 && p1
                == chunk && chunk <= 3 && p2 == 0x80
            &&& next == Task::Handle(Instruction::SignTx { chunk, more: false }) <==> ins == 6 && p1
                == chunk && 1 <= chunk <= 3 && p2 == 0
            &&& next is Handle || next is Refuse
            &&& next matches Task::Refuse(sw) ==> {
                &&& 3 <= ins <= 6 ==> sw == AppSW::WrongP1P2
                &&& ins < 3 || ins > 6 ==> sw == AppSW::InsNotSupported
            }
        }),
{
}

/// What the handler comes to is answered: success with its data, or its status word
/// without any.
pub proof fn law_outcome_is_answered(app: &mut AppLoop, outcome: Result<(), AppSW>)
    requires
        old(app).current() is Handle,
        call_ensures(AppLoop::advance, (app, Event::Handled(outcome)), ()),
    ensures
        final(app).current() matches Task::Answer { ins, status, data } && {
            &&& old(app).current() == Task::Handle(ins)
            &&& outcome is Ok ==> status is Success && data
            &&& outcome matches Err(sw) ==> status == sw && !data
        },
{
}

/// Opened by the user, the application reports every decision once the command is
/// answered: an address that was displayed, or a finished transaction, approved or
/// denied. After any other answer it awaits the next command.
pub proof fn law_decision_is_reported_after_the_answer(app: &mut AppLoop, finished: bool)
    requires
        old(app).current() is Answer,
        !old(app).in_swap(),
        call_ensures(AppLoop::advance, (app, Event::Answered { finished }), ()),
    ensures
        old(app).current() matches Task::Answer { ins, status, .. } ==> {
            let next = final(app).current();
            let decided = status is Success || status is Deny;
            &&& decided && ins == (Instruction::GetPubkey { display: true }) ==> next
                == Task::ShowStatus(
                StatusScreen { status_type: StatusType::Address, success: status is Success },
            )
            &&& decided && ins is SignTx && finished ==> next == Task::ShowStatus(
                StatusScreen { status_type: StatusType::Transaction, success: status is Success },
            )
            &&& !decided || (ins != (Instruction::GetPubkey { display: true }) && !(ins is SignTx
                && finished)) ==> next is NextCommand
        },
{
}

/// A swap ends with the answer that finishes its transaction, and says then whether it
/// was signed; until then it awaits the next command.
pub proof fn law_swap_ends_with_the_finishing_answer(app: &mut AppLoop, finished: bool)
    requires
        old(app).current() is Answer,
        old(app).in_swap(),
        call_ensures(AppLoop::advance, (app, Event::Answered { finished }), ()),
    ensures
        !finished ==> final(app).current() is NextCommand,
        finished ==> final(app).current() == Task::Exit(old(app).current()->status is Success),
{
}

/// Behind a status screen comes the home screen, and behind that, as behind a refusal,
/// the next command.
pub proof fn law_commands_are_awaited_again(app: &mut AppLoop, event: Event)
    requires
        call_ensures(AppLoop::advance, (app, event), ()),
    ensures
        old(app).current() is ShowStatus ==> final(app).current() is ReturnHome,
        old(app).current() is ReturnHome ==> final(app).current() is NextCommand,
        old(app).current() is Refuse ==> final(app).current() is NextCommand,
{
}

/// In the course of any run opened by the user, the answer to a command that the user
/// decided on is followed by the status screen on just that decision, then by the home
/// screen, and then by the next command.
pub proof fn law_every_decision_is_reported(
    events: Seq<Event>,
    ins: Instruction,
    status: AppSW,
    data: bool,
    finished: bool,
)
    requires
        is_run(false, events),
        task_after(false, events) == (Task::Answer { ins, status, data }),
        status is Success || status is Deny,
        ins == (Instruction::GetPubkey { display: true }) || (ins is SignTx && finished),
    ensures
        ({
            let answered = events.push(Event::Answered { finished });
            let shown = answered.push(Event::Done);
            &&& is_run(false, answered)
            &&& task_after(false, answered) == Task::ShowStatus(
                StatusScreen {
                    status_type: if ins is SignTx {
                        StatusType::Transaction
                    } else {
                        StatusType::Address
                    },
                    success: status is Success,
                },
            )
            &&& is_run(false, shown)
            &&& task_after(false, shown) is ReturnHome
            &&& is_run(false, shown.push(Event::Done))
            &&& task_after(false, shown.push(Event::Done)) is NextCommand
        }),
{
    let answered = events.push(Event::Answered { finished });
    assert(answered.drop_last() == events);
    assert(is_run(false, answered));
    law_home_follows_every_status_screen(false, answered);
}

/// In the course of any run, a header leads to the handler of the command that its
/// bytes are, or to the refusal with the reason.
pub proof fn law_run_takes_commands_byte_by_byte(
    swap: bool,
    events: Seq<Event>,
    header: ApduHeader,
    chunk: u8,
)
    requires
        is_run(swap, events),
        task_after(swap, events) is NextCommand,
    ensures
        ({
            let taken = events.push(Event::Command(header));
            let next = task_after(swap, taken);
            let (ins, p1, p2) = (header.ins, header.p1, header.p2);
            &&& is_run(swap, taken)
            &&& next == Task::Handle(Instruction::GetVersion) <==> ins == 3 && p1 == 0 && p2 == 0
            &&& next == Task::Handle(Instruction::GetAppName) <==> ins == 4 && p1 == 0 && p2 == 0
            &&& next == Task::Handle(Instruction::GetPubkey { display: false }) <==> ins == 5 && p1
                == 0 && p2 == 0
            &&& next == Task::Handle(Instruction::GetPubkey { display: true }) <==> ins == 5 && p1
                == 1 && p2 == 0
            &&& next == Task::Handle(Instruction::SignTx { chunk, more: true }) <==> ins == 6 && p1
                == chunk && chunk <= 3 && p2 == 0x80
            &&& next == Task::Handle(Instruction::SignTx { chunk, more: false }) <==> ins == 6 && p1
                == chunk && 1 <= chunk <= 3 && p2 == 0
            &&& next is Handle || next == Task::Refuse(
                if 3 <= ins <= 6 {
                    AppSW::WrongP1P2
                } else {
                    AppSW::InsNotSupported
                },
            )
        }),
{
    let taken = events.push(Event::Command(header));
    assert(taken.drop_last() == events);
}

} // verus!
