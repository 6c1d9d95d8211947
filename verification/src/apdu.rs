//! The commands of the application: how a command header is read, what it is
//! answered, and when a status screen follows.

use vstd::prelude::*;
use vstd::std_specs::convert::{FromSpecImpl, TryFromSpecImpl};

verus! {

/// The class byte of the commands that the application accepts.
pub const EXPECTED_CLA: u8 = 0xe0;

/// The name of the application, with which it answers a request for it.
pub const APP_NAME: &'static str = "app-boilerplate-rust";

/// P2 of the last chunk of a transaction.
pub const P2_SIGN_TX_LAST: u8 = 0x00;

/// P2 of a chunk that more chunks follow.
pub const P2_SIGN_TX_MORE: u8 = 0x80;

/// P1 of the first chunk.
pub const P1_SIGN_TX_START: u8 = 0x00;

/// P1 of the last chunk that there can be.
pub const P1_SIGN_TX_MAX: u8 = 0x03;

/// Application status words.
#[derive(Clone, Copy, PartialEq, Eq, Structural, Debug)]
pub enum AppSW {
    Deny,
    WrongP1P2,
    InsNotSupported,
    ClaNotSupported,
    CommError,
    TxDisplayFail,
    AddrDisplayFail,
    TxWrongLength,
    TxParsingFail,
    TxHashFail,
    TxSignFail,
    KeyDeriveFail,
    VersionParsingFail,
    WrongApduLength,
    SwapFail,
    /// The command was carried out.
    Success,
}

/// A status word as it is sent.
#[derive(Clone, Copy, PartialEq, Eq, Structural, Debug)]
pub struct Reply(pub u16);

/// A failure of the transport.
#[derive(Clone, Copy, PartialEq, Eq, Structural, Debug)]
pub enum CommError {
    Overflow,
    IoError,
}

/// The header of a command.
#[derive(Clone, Copy, PartialEq, Eq, Structural, Debug)]
pub struct ApduHeader {
    pub cla: u8,
    pub ins: u8,
    pub p1: u8,
    pub p2: u8,
}

/// Possible input commands received through APDUs.
#[derive(Clone, Copy, PartialEq, Eq, Structural, Debug)]
pub enum Instruction {
    GetVersion,
    GetAppName,
    GetPubkey { display: bool },
    SignTx { chunk: u8, more: bool },
}

impl AppSW {
    /// The number of the status word.
    pub open spec fn code(self) -> u16 {
        match self {
            AppSW::Deny => 0x6985,
            AppSW::WrongP1P2 => 0x6A86,
            AppSW::InsNotSupported => 0x6D00,
            AppSW::ClaNotSupported => 0x6E00,
            AppSW::CommError => 0x6F00,
            AppSW::TxDisplayFail => 0xB001,
            AppSW::AddrDisplayFail => 0xB002,
            AppSW::TxWrongLength => 0xB004,
            AppSW::TxParsingFail => 0xB005,
            AppSW::TxHashFail => 0xB006,
            AppSW::TxSignFail => 0xB008,
            AppSW::KeyDeriveFail => 0xB009,
            AppSW::VersionParsingFail => 0xB00A,
            AppSW::WrongApduLength => 0x6E03,
            AppSW::SwapFail => 0xC000,
            AppSW::Success => 0x9000,
        }
    }
}

impl FromSpecImpl<AppSW> for Reply {
    open spec fn obeys_from_spec() -> bool {
        true
    }

    open spec fn from_spec(sw: AppSW) -> Reply {
        Reply(sw.code())
    }
}

impl From<AppSW> for Reply {
    fn from(sw: AppSW) -> (r: Reply) {
        Reply(
            match sw {
                AppSW::Deny => 0x6985,
                AppSW::WrongP1P2 => 0x6A86,
                AppSW::InsNotSupported => 0x6D00,
                AppSW::ClaNotSupported => 0x6E00,
                AppSW::CommError => 0x6F00,
                AppSW::TxDisplayFail => 0xB001,
                AppSW::AddrDisplayFail => 0xB002,
                AppSW::TxWrongLength => 0xB004,
                AppSW::TxParsingFail => 0xB005,
                AppSW::TxHashFail => 0xB006,
                AppSW::TxSignFail => 0xB008,
                AppSW::KeyDeriveFail => 0xB009,
                AppSW::VersionParsingFail => 0xB00A,
                AppSW::WrongApduLength => 0x6E03,
                AppSW::SwapFail => 0xC000,
                AppSW::Success => 0x9000,
            },
        )
    }
}

impl FromSpecImpl<CommError> for AppSW {
    open spec fn obeys_from_spec() -> bool {
        true
    }

    open spec fn from_spec(_e: CommError) -> AppSW {
        AppSW::CommError
    }
}

impl From<CommError> for AppSW {
    fn from(_e: CommError) -> (r: AppSW) {
        AppSW::CommError
    }
}

impl Instruction {
    /// The INS, P1 and P2 bytes of the command.
    pub open spec fn bytes(self) -> (u8, u8, u8) {
        match self {
            Instruction::GetVersion => (3, 0, 0),
            Instruction::GetAppName => (4, 0, 0),
            Instruction::GetPubkey { display } => (
                5,
                if display {
                    1
                } else {
                    0
                },
                0,
            ),
            Instruction::SignTx { chunk, more } => (
                6,
                chunk,
                if more {
                    P2_SIGN_TX_MORE
                } else {
                    P2_SIGN_TX_LAST
                },
            ),
        }
    }

    /// The command exists: a transaction has its first chunk and at most three
    /// more, and the first is not the last.
    pub open spec fn is_valid(self) -> bool {
        self matches Instruction::SignTx { chunk, more } ==> {
            &&& chunk <= P1_SIGN_TX_MAX
            &&& chunk == P1_SIGN_TX_START ==> more
        }
    }
}

/// The header is that of an existing command.
pub open spec fn is_header_of(header: ApduHeader, ins: Instruction) -> bool {
    ins.is_valid() && ins.bytes() == (header.ins, header.p1, header.p2)
}

/// What a header is read as: a command where instruction and parameters fit, and
/// otherwise an error that says whether at least the instruction is known.
pub open spec fn decoded(header: ApduHeader) -> Result<Instruction, AppSW> {
    let (p1, p2) = (header.p1, header.p2);
    if header.ins == 3 && p1 == 0 && p2 == 0 {
        Ok(Instruction::GetVersion)
    } else if header.ins == 4 && p1 == 0 && p2 == 0 {
        Ok(Instruction::GetAppName)
    } else if header.ins == 5 && p1 <= 1 && p2 == 0 {
        Ok(Instruction::GetPubkey { display: p1 == 1 })
    } else if header.ins == 6 && p1 <= P1_SIGN_TX_MAX && (p2 == P2_SIGN_TX_MORE || (p2
        == P2_SIGN_TX_LAST && p1 != P1_SIGN_TX_START)) {
        Ok(Instruction::SignTx { chunk: p1, more: p2 == P2_SIGN_TX_MORE })
    } else if 3 <= header.ins <= 6 {
        Err(AppSW::WrongP1P2)
    } else {
        Err(AppSW::InsNotSupported)
    }
}

impl TryFromSpecImpl<ApduHeader> for Instruction {
    open spec fn obeys_try_from_spec() -> bool {
        true
    }

    open spec fn try_from_spec(value: ApduHeader) -> Result<Instruction, AppSW> {
        decoded(value)
    }
}

impl TryFrom<ApduHeader> for Instruction {
    type Error = AppSW;

    /// APDU parsing logic.
    ///
    /// Parses INS, P1 and P2 bytes to build an [`Instruction`]. P1 and P2 are translated to
    /// strongly typed variables depending on the APDU instruction code. Invalid INS, P1 or P2
    /// values result in errors with a status word.
    ///
    /// Note that CLA is not checked here: commands of another class than
    /// [`EXPECTED_CLA`] are refused by the transport.
    fn try_from(value: ApduHeader) -> (r: Result<Self, Self::Error>) {
        match (value.ins, value.p1, value.p2) {
            (3, 0, 0) => Ok(Instruction::GetVersion),
            (4, 0, 0) => Ok(Instruction::GetAppName),
            (5, 0 | 1, 0) => Ok(Instruction::GetPubkey { display: value.p1 != 0 }),
            (6, P1_SIGN_TX_START, P2_SIGN_TX_MORE)
            | (6, 1..=P1_SIGN_TX_MAX, P2_SIGN_TX_LAST | P2_SIGN_TX_MORE) => Ok(
                Instruction::SignTx { chunk: value.p1, more: value.p2 == P2_SIGN_TX_MORE },
            ),
            (3..=6, _, _) => Err(AppSW::WrongP1P2),
            (_, _, _) => Err(AppSW::InsNotSupported),
        }
    }
}

/// A header is read as a command exactly where the command exists and has these
/// bytes. So no command is out of reach, none is reached by two headers that
/// differ in more than the class, and the class has no say.
pub proof fn law_header_and_command_agree(header: ApduHeader, ins: Instruction)
    ensures
        decoded(header) == Ok::<Instruction, AppSW>(ins) <==> is_header_of(header, ins),
{
}

/// Every existing command is read from the header that is made of its bytes.
pub proof fn law_every_command_is_reachable(cla: u8, ins: Instruction)
    requires
        ins.is_valid(),
    ensures
        ({
            let (i, p1, p2) = ins.bytes();
            decoded(ApduHeader { cla, ins: i, p1, p2 }) == Ok::<Instruction, AppSW>(ins)
        }),
{
}

/// A header is refused with one of two status words: one where the instruction is
/// known and its parameters are not, the other where the instruction is unknown.
pub proof fn law_refusals(header: ApduHeader)
    ensures
        decoded(header) matches Err(sw) ==> {
            &&& sw == AppSW::WrongP1P2 <==> 3 <= header.ins <= 6
            &&& sw == AppSW::InsNotSupported <==> !(3 <= header.ins <= 6)
        },
        !(3 <= header.ins <= 6) ==> decoded(header) is Err,
{
}

/// Different status words have different numbers.
pub proof fn law_status_words_are_distinct(a: AppSW, b: AppSW)
    ensures
        a.code() == b.code() ==> a == b,
{
}

/// Who carries a command out.
#[derive(Clone, Copy, PartialEq, Eq, Structural, Debug)]
pub enum Handler {
    /// [`APP_NAME`] is the answer.
    AppName,
    /// The version handler.
    Version,
    /// The public key handler.
    PublicKey { display: bool },
    /// The signing handler.
    SignTx { chunk: u8, more: bool },
}

/// Finds who carries a command out, and with which parameters.
pub fn handle_apdu(ins: &Instruction) -> (r: Handler)
    ensures
        r == match *ins {
            Instruction::GetAppName => Handler::AppName,
            Instruction::GetVersion => Handler::Version,
            Instruction::GetPubkey { display } => Handler::PublicKey { display },
            Instruction::SignTx { chunk, more } => Handler::SignTx { chunk, more },
        },
{
    match ins {
        Instruction::GetAppName => Handler::AppName,
        Instruction::GetVersion => Handler::Version,
        Instruction::GetPubkey { display } => Handler::PublicKey { display: *display },
        Instruction::SignTx { chunk, more } => Handler::SignTx { chunk: *chunk, more: *more },
    }
}

/// The result of a command whose answer could or could not be put together.
pub fn appended(outcome: Result<(), CommError>) -> (r: Result<(), AppSW>)
    ensures
        r == match outcome {
            Ok(_) => Ok::<(), AppSW>(()),
            Err(_) => Err::<(), AppSW>(AppSW::CommError),
        },
{
    match outcome {
        Ok(()) => Ok(()),
        Err(e) => Err(AppSW::from(e)),
    }
}

/// What a status screen is about.
#[derive(Clone, Copy, PartialEq, Eq, Structural, Debug)]
pub enum StatusType {
    Transaction,
    Address,
}

/// A screen that tells the user how a command ended.
#[derive(Clone, Copy, PartialEq, Eq, Structural, Debug)]
pub struct StatusScreen {
    pub status_type: StatusType,
    pub success: bool,
}

/// The user has seen the matter of the command and has decided on it.
pub open spec fn is_decided(status: AppSW) -> bool {
    status == AppSW::Success || status == AppSW::Deny
}

/// What the status screen after a command is about, if there is one: an address
/// that was displayed, or a transaction that is through, once the user has decided.
pub open spec fn status_subject(ins: Instruction, finished: bool, status: AppSW) -> Option<
    StatusType,
> {
    if !is_decided(status) {
        None
    } else {
        match ins {
            Instruction::GetPubkey { display: true } => Some(StatusType::Address),
            Instruction::SignTx { .. } if finished => Some(StatusType::Transaction),
            _ => None,
        }
    }
}

/// Says which status screen follows a command. In swap mode there is none.
pub fn show_status_and_home_if_needed(
    swap: bool,
    ins: &Instruction,
    finished: bool,
    status: AppSW,
) -> (r: Option<StatusScreen>)
    ensures
        swap ==> r is None,
        !swap ==> match status_subject(*ins, finished, status) {
            Some(status_type) => r == Some(
                (StatusScreen { status_type, success: status == AppSW::Success }),
            ),
            None => r is None,
        },
{
    if swap {
        return None;
    }
    let decided: bool = status == AppSW::Deny || status == AppSW::Success;
    let (show_status, status_type) = match ins {
        Instruction::GetPubkey { display: true } => (decided, StatusType::Address),
        Instruction::SignTx { .. } => (decided && finished, StatusType::Transaction),
        _ => (false, StatusType::Transaction),
    };
    if show_status {
        let success: bool = status == AppSW::Success;
        Some(StatusScreen { status_type, success })
    } else {
        None
    }
}

/// Each status word is sent as its own number.
pub proof fn law_status_words_have_their_numbers(sw: AppSW, reply: Reply)
    requires
        call_ensures(<Reply as From<AppSW>>::from, (sw,), reply),
    ensures
        sw is Deny <==> reply.0 == 0x6985,
        sw is WrongP1P2 <==> reply.0 == 0x6A86,
        sw is InsNotSupported <==> reply.0 == 0x6D00,
        sw is ClaNotSupported <==> reply.0 == 0x6E00,
        sw is CommError <==> reply.0 == 0x6F00,
        sw is TxDisplayFail <==> reply.0 == 0xB001,
        sw is AddrDisplayFail <==> reply.0 == 0xB002,
        sw is TxWrongLength <==> reply.0 == 0xB004,
        sw is TxParsingFail <==> reply.0 == 0xB005,
        sw is TxHashFail <==> reply.0 == 0xB006,
        sw is TxSignFail <==> reply.0 == 0xB008,
        sw is KeyDeriveFail <==> reply.0 == 0xB009,
        sw is VersionParsingFail <==> reply.0 == 0xB00A,
        sw is WrongApduLength <==> reply.0 == 0x6E03,
        sw is SwapFail <==> reply.0 == 0xC000,
        sw is Success <==> reply.0 == 0x9000,
{
}

/// A failure of the transport is answered as one, whichever it is.
pub proof fn law_transport_failures_are_answered_as_such(
    e: CommError,
    sw: AppSW,
    outcome: Result<(), CommError>,
    result: Result<(), AppSW>,
)
    requires
        call_ensures(<AppSW as From<CommError>>::from, (e,), sw),
        call_ensures(appended, (outcome,), result),
    ensures
        sw == AppSW::CommError,
        result is Ok <==> outcome is Ok,
        result matches Err(failure) ==> failure == AppSW::CommError,
{
}

/// What a header is read as, byte by byte. The version and the name have no
/// parameters. A public key is displayed where P1 is 1. A transaction has its first
/// chunk, which is never its last, and at most three more; P2 says whether another
/// follows. Anything else is refused: for its parameters where the instruction is
/// known, and for its instruction otherwise. The class has no say.
pub proof fn law_header_is_read_byte_by_byte(
    header: ApduHeader,
    read: Result<Instruction, AppSW>,
    chunk: u8,
)
    requires
        call_ensures(<Instruction as TryFrom<ApduHeader>>::try_from, (header,), read),
    ensures
        ({
            let (ins, p1, p2) = (header.ins, header.p1, header.p2);
            &&& read == Ok::<Instruction, AppSW>(Instruction::GetVersion) <==> ins == 3 && p1 == 0
                && p2 == 0
            &&& read == Ok::<Instruction, AppSW>(Instruction::GetAppName) <==> ins == 4 && p1 == 0
                && p2 == 0
            &&& read == Ok::<Instruction, AppSW>(Instruction::GetPubkey { display: false }) <==> ins
                == 5 && p1 == 0 && p2 == 0
            &&& read == Ok::<Instruction, AppSW>(Instruction::GetPubkey { display: true }) <==> ins
                == 5 && p1 == 1 && p2 == 0
            &&& read == Ok::<Instruction, AppSW>(Instruction::SignTx { chunk, more: true }) <==> ins
                == 6 && p1 == chunk && chunk <= 3 && p2 == 0x80
            &&& read == Ok::<Instruction, AppSW>(Instruction::SignTx { chunk, more: false }) <==> ins
                == 6 && p1 == chunk && 1 <= chunk <= 3 && p2 == 0
            &&& read matches Err(sw) ==> {
                &&& sw == AppSW::WrongP1P2 <==> 3 <= ins <= 6
                &&& sw == AppSW::InsNotSupported <==> ins < 3 || ins > 6
            }
        }),
{
}

/// The class byte does not change what a header is read as.
pub proof fn law_class_has_no_say(a: ApduHeader, b: ApduHeader)
    requires
        a.ins == b.ins && a.p1 == b.p1 && a.p2 == b.p2,
    ensures
        decoded(a) == decoded(b),
{
}

/// What the main loop takes a header for goes by the same bytes.
pub proof fn law_decoding_goes_byte_by_byte(header: ApduHeader, chunk: u8)
    ensures
        ({
            let read = decoded(header);
            let (ins, p1, p2) = (header.ins, header.p1, header.p2);
            &&& read == Ok::<Instruction, AppSW>(Instruction::GetVersion) <==> ins == 3 && p1 == 0
                && p2 == 0
            &&& read == Ok::<Instruction, AppSW>(Instruction::GetAppName) <==> ins == 4 && p1 == 0
                && p2 == 0
            &&& read == Ok::<Instruction, AppSW>(Instruction::GetPubkey { display: false }) <==> ins
                == 5 && p1 == 0 && p2 == 0
            &&& read == Ok::<Instruction, AppSW>(Instruction::GetPubkey { display: true }) <==> ins
                == 5 && p1 == 1 && p2 == 0
            &&& read == Ok::<Instruction, AppSW>(Instruction::SignTx { chunk, more: true }) <==> ins
                == 6 && p1 == chunk && chunk <= 3 && p2 == 0x80
            &&& read == Ok::<Instruction, AppSW>(Instruction::SignTx { chunk, more: false }) <==> ins
                == 6 && p1 == chunk && 1 <= chunk <= 3 && p2 == 0
            &&& read matches Err(sw) ==> {
                &&& sw == AppSW::WrongP1P2 <==> 3 <= ins <= 6
                &&& sw == AppSW::InsNotSupported <==> ins < 3 || ins > 6
            }
        }),
{
}

/// Each command goes to the handler that is its own, with the parameters that came
/// with it.
pub proof fn law_command_goes_to_its_own_handler(ins: Instruction, handler: Handler)
    requires
        call_ensures(handle_apdu, (&ins,), handler),
    ensures
        ins is GetAppName <==> handler is AppName,
        ins is GetVersion <==> handler is Version,
        ins is GetPubkey <==> handler is PublicKey,
        ins is SignTx <==> handler is SignTx,
        ins matches Instruction::GetPubkey { display } ==> {
            &&& handler matches Handler::PublicKey { display: d }
            &&& d == display
        },
        ins matches Instruction::SignTx { chunk, more } ==> {
            &&& handler matches Handler::SignTx { chunk: c, more: m }
            &&& c == chunk && m == more
        },
{
}

/// Outside a swap a status screen follows exactly where the user has approved or
/// denied: an address that was displayed, or a transaction that is finished. It is
/// about just that, and tells of success exactly on approval. In a swap there is none.
pub proof fn law_decision_is_shown(
    swap: bool,
    ins: Instruction,
    finished: bool,
    status: AppSW,
    shown: Option<StatusScreen>,
)
    requires
        call_ensures(show_status_and_home_if_needed, (swap, &ins, finished, status), shown),
    ensures
        shown is Some <==> {
            &&& !swap
            &&& status is Success || status is Deny
            &&& ins == (Instruction::GetPubkey { display: true }) || (ins is SignTx && finished)
        },
        shown matches Some(screen) ==> {
            &&& screen.status_type is Address <==> ins is GetPubkey
            &&& screen.status_type is Transaction <==> ins is SignTx
            &&& screen.success <==> status is Success
        },
{
}

/// The application's class and its name.
pub proof fn law_application_is_known_by_class_and_name()
    ensures
        EXPECTED_CLA == 0xe0,
        APP_NAME@ == "app-boilerplate-rust"@,
{
}

} // verus!
