//! The polling loop of one terminal, as a state machine. The caller performs
//! each `PortAction` (reads the clock, calls the servers, sleeps) and hands
//! back what came of it as a `PortEvent`; `PortWorker::step` decides what is
//! done next.
//!
//! A round reads the clock, fetches the company's configuration (retrying at
//! once when that fails), widens the punch window to catch up when the
//! terminal was last heard of long ago, fetches the punches, forwards them and
//! reports the terminal's connection state, renews the access token when the
//! terminal server refuses it, and sleeps for the company's interval.

use vstd::prelude::*;
use vstd::string::*;

use crate::clock::{lima_clock_text, lima_text, minutes_between, minutes_between_texts};
use crate::company_config::{last_connection_of, last_connection_time, CompanyConfiguration};
use crate::iclock_models::{DataItem, TokenAuthResponse, TransactionResponse};
use crate::text::{clone_opt, opt_text, parse_u8, u8_from_text};
use crate::time_models::{
    ConectionStatusRequest, ConnectionStatusView, MarkStatusRequest, MarkStatusView,
};

verus! {

/// Where a worker is within its round.
pub enum Stage {
    /// Waiting for the clock to start a round.
    Idle,
    /// The company's configuration was requested at wall-clock `clock_text`.
    AwaitCompany { clock_text: String },
    /// The punches were requested; the round sleeps `interval` seconds at its end.
    AwaitTransactions { clock_text: String, interval: u64 },
    /// Punches and connection state are being reported.
    AwaitReport { interval: u64 },
    /// A new access token was requested.
    AwaitToken { interval: u64 },
    /// Sleeping between rounds.
    Sleeping,
    /// Stopped for good: a time text could not be read.
    Halted,
}

/// The texts and values of a `Stage`.
pub enum StageView {
    Idle,
    AwaitCompany { clock_text: Seq<char> },
    AwaitTransactions { clock_text: Seq<char>, interval: u64 },
    AwaitReport { interval: u64 },
    AwaitToken { interval: u64 },
    Sleeping,
    Halted,
}

impl View for Stage {
    type V = StageView;

    open spec fn view(&self) -> StageView {
        match self {
            Stage::Idle => StageView::Idle,
            Stage::AwaitCompany { clock_text } => StageView::AwaitCompany { clock_text: clock_text@ },
            Stage::AwaitTransactions { clock_text, interval } => StageView::AwaitTransactions {
                clock_text: clock_text@,
                interval: *interval,
            },
            Stage::AwaitReport { interval } => StageView::AwaitReport { interval: *interval },
            Stage::AwaitToken { interval } => StageView::AwaitToken { interval: *interval },
            Stage::Sleeping => StageView::Sleeping,
            Stage::Halted => StageView::Halted,
        }
    }
}

/// The loop of one terminal: which terminal, on behalf of which company, the
/// access token in use and the width of the punch window in minutes.
pub struct PortWorker {
    pub port: u16,
    pub serial_number: String,
    pub id_company: String,
    pub ruc_company: String,
    pub jwt: Option<String>,
    pub time_config: i64,
    pub stage: Stage,
}

/// The texts and values of a `PortWorker`.
pub struct WorkerView {
    pub port: u16,
    pub serial_number: Seq<char>,
    pub id_company: Seq<char>,
    pub ruc_company: Seq<char>,
    pub jwt: Option<Seq<char>>,
    pub time_config: i64,
    pub stage: StageView,
}

impl View for PortWorker {
    type V = WorkerView;

    open spec fn view(&self) -> WorkerView {
        WorkerView {
            port: self.port,
            serial_number: self.serial_number@,
            id_company: self.id_company@,
            ruc_company: self.ruc_company@,
            jwt: opt_text(self.jwt),
            time_config: self.time_config,
            stage: self.stage@,
        }
    }
}

/// What a call to a server gave: an HTTP status with the body when it was
/// read, or a failure to get any answer.
pub enum Reply<T> {
    Answered { status: u16, body: Option<T> },
    Failed { message: String },
}

/// What came of the last action.
pub enum PortEvent {
    /// The clock read `now` (Unix seconds).
    Clock { now: i64 },
    /// The company's configuration, or `None` when it could not be had.
    CompanyFetched { company: Option<CompanyConfiguration> },
    TransactionsFetched { outcome: Reply<TransactionResponse> },
    /// The report was sent (whatever the service answered).
    Reported,
    TokenFetched { answer: Reply<TokenAuthResponse> },
    /// The sleep is over.
    Woke,
}

/// What the caller does next.
pub enum PortAction {
    ReadClock,
    FetchCompany { id_company: String },
    FetchTransactions { jwt: Option<String>, port: u16, serial_number: String, time_config: i64 },
    /// Forward each punch in order, then report the connection state.
    Report { marks: Vec<MarkStatusRequest>, connection: ConectionStatusRequest },
    RenewToken { port: u16 },
    Sleep { seconds: u64 },
    /// The event did not belong to the stage; nothing to do.
    Nothing,
    /// The loop stops.
    Halt,
}

/// The texts and values of a `PortAction`.
pub enum ActionView {
    ReadClock,
    FetchCompany { id_company: Seq<char> },
    FetchTransactions { jwt: Option<Seq<char>>, port: u16, serial_number: Seq<char>, time_config: i64 },
    Report { marks: Seq<MarkStatusView>, connection: ConnectionStatusView },
    RenewToken { port: u16 },
    Sleep { seconds: u64 },
    Nothing,
    Halt,
}

impl View for PortAction {
    type V = ActionView;

    open spec fn view(&self) -> ActionView {
        match self {
            PortAction::ReadClock => ActionView::ReadClock,
            PortAction::FetchCompany { id_company } => ActionView::FetchCompany { id_company: id_company@ },
            PortAction::FetchTransactions { jwt, port, serial_number, time_config } => ActionView::FetchTransactions {
                jwt: opt_text(*jwt),
                port: *port,
                serial_number: serial_number@,
                time_config: *time_config,
            },
            PortAction::Report { marks, connection } => ActionView::Report {
                marks: marks@.map_values(|m: MarkStatusRequest| m@),
                connection: connection@,
            },
            PortAction::RenewToken { port } => ActionView::RenewToken { port: *port },
            PortAction::Sleep { seconds } => ActionView::Sleep { seconds: *seconds },
            PortAction::Nothing => ActionView::Nothing,
            PortAction::Halt => ActionView::Halt,
        }
    }
}

/// The punch forwarded for `item`: the company's identifiers, the punch state
/// read as a number (0 when it is not one), the employee code, the terminal's
/// serial number and the punch time; the address is empty.
pub open spec fn mark_for(ruc: Seq<char>, id_company: Seq<char>, item: DataItem) -> MarkStatusView {
    MarkStatusView {
        ruc: ruc,
        status_mark: match u8_from_text(item.punch_state@) {
            Some(v) => v,
            None => 0,
        },
        id_company: id_company,
        identity_number: item.emp_code@,
        address: Seq::empty(),
        model: item.terminal_sn@,
        timestamp: item.punch_time@,
    }
}

/// The punches forwarded for a page of transactions, one per item, in order.
pub open spec fn marks_for(ruc: Seq<char>, id_company: Seq<char>, items: Seq<DataItem>) -> Seq<MarkStatusView> {
    Seq::new(items.len(), |i: int| mark_for(ruc, id_company, items[i]))
}

/// The connection state reported for a terminal.
pub open spec fn connection_report(w: WorkerView, message: Seq<char>, online: bool, last_connection: Seq<char>) -> ConnectionStatusView {
    ConnectionStatusView {
        ruc: w.ruc_company,
        id_company: w.id_company,
        serial_number: w.serial_number,
        message_error: message,
        connection_status: online,
        last_connection_time: last_connection,
    }
}

/// The punch window once the terminal is known to have been silent for
/// `minutes`: all that time when it exceeds `interval / 60 + 1` minutes
/// (`interval` in seconds), otherwise `current`.
pub open spec fn widened(current: i64, minutes: i64, interval: u64) -> i64 {
    if minutes > interval / 60 + 1 {
        minutes
    } else {
        current
    }
}

/// The punch window after a silence of `minutes`, for a round interval of
/// `interval` seconds.
pub fn widened_window(current: i64, minutes: i64, interval: u64) -> (r: i64)
    ensures
        r == widened(current, minutes, interval),
{
    if (minutes as i128) > ((interval / 60 + 1) as i128) {
        minutes
    } else {
        current
    }
}

/// The punch window in minutes after the company's configuration arrives:
/// when the terminal was last connected more than `interval / 60 + 1` minutes
/// before `clock_text`, the window covers all that time; otherwise it stays
/// `current`. `None` when a time text does not parse.
pub open spec fn caught_up(current: i64, clock_text: Seq<char>, last: Option<Seq<char>>, interval: u64) -> Option<i64> {
    match last {
        Some(l) => if l.len() == 0 {
            Some(current)
        } else {
            match minutes_between_texts(clock_text, l) {
                None => None,
                Some(m) => Some(widened(current, m, interval)),
            }
        },
        None => Some(current),
    }
}

/// `w` at stage `s`.
pub open spec fn at_stage(w: WorkerView, s: StageView) -> WorkerView {
    WorkerView { stage: s, ..w }
}

/// The worker after `e` and what it does next.
pub open spec fn port_step(w: WorkerView, e: PortEvent) -> (WorkerView, ActionView) {
    match w.stage {
        StageView::Halted => (w, ActionView::Halt),
        StageView::Idle => match e {
            PortEvent::Clock { now } => match lima_clock_text(now) {
                Some(t) => (
                    at_stage(w, StageView::AwaitCompany { clock_text: t }),
                    ActionView::FetchCompany { id_company: w.id_company },
                ),
                None => (at_stage(w, StageView::Halted), ActionView::Halt),
            },
            _ => (w, ActionView::Nothing),
        },
        StageView::AwaitCompany { clock_text } => match e {
            PortEvent::CompanyFetched { company } => match company {
                None => (at_stage(w, StageView::Idle), ActionView::ReadClock),
                Some(c) => match caught_up(
                    w.time_config,
                    clock_text,
                    last_connection_of(c.iclocks@, w.serial_number),
                    c.timeConfig,
                ) {
                    None => (at_stage(w, StageView::Halted), ActionView::Halt),
                    Some(tc) => (
                        WorkerView {
                            time_config: tc,
                            stage: StageView::AwaitTransactions { clock_text, interval: c.timeConfig },
                            ..w
                        },
                        ActionView::FetchTransactions {
                            jwt: w.jwt,
                            port: w.port,
                            serial_number: w.serial_number,
                            time_config: tc,
                        },
                    ),
                },
            },
            _ => (w, ActionView::Nothing),
        },
        StageView::AwaitTransactions { clock_text, interval } => match e {
            PortEvent::TransactionsFetched { outcome } => match outcome {
                Reply::Answered { status, body } => if status == 200 && body is Some {
                    (
                        WorkerView {
                            time_config: 1,
                            stage: StageView::AwaitReport { interval },
                            ..w
                        },
                        ActionView::Report {
                            marks: marks_for(w.ruc_company, w.id_company, body->0.data@),
                            connection: connection_report(w, Seq::empty(), true, clock_text),
                        },
                    )
                } else if status == 401 {
                    (at_stage(w, StageView::AwaitToken { interval }), ActionView::RenewToken { port: w.port })
                } else {
                    (at_stage(w, StageView::Sleeping), ActionView::Sleep { seconds: interval })
                },
                Reply::Failed { message } => (
                    WorkerView { time_config: 2, stage: StageView::AwaitReport { interval }, ..w },
                    ActionView::Report {
                        marks: Seq::empty(),
                        connection: connection_report(w, message@, false, Seq::empty()),
                    },
                ),
            },
            _ => (w, ActionView::Nothing),
        },
        StageView::AwaitReport { interval } => match e {
            PortEvent::Reported => (at_stage(w, StageView::Sleeping), ActionView::Sleep { seconds: interval }),
            _ => (w, ActionView::Nothing),
        },
        StageView::AwaitToken { interval } => match e {
            PortEvent::TokenFetched { answer } => {
                let jwt = match answer {
                    Reply::Answered { status, body } => if status == 200 && body is Some {
                        opt_text(body->0.token)
                    } else {
                        w.jwt
                    },
                    Reply::Failed { .. } => w.jwt,
                };
                (
                    WorkerView { jwt: jwt, stage: StageView::Sleeping, ..w },
                    ActionView::Sleep { seconds: interval },
                )
            },
            _ => (w, ActionView::Nothing),
        },
        StageView::Sleeping => match e {
            PortEvent::Woke => (at_stage(w, StageView::Idle), ActionView::ReadClock),
            _ => (w, ActionView::Nothing),
        },
    }
}

/// The worker after each of `events` in turn.
pub open spec fn run(w: WorkerView, events: Seq<PortEvent>) -> WorkerView
    decreases events.len(),
{
    if events.len() == 0 {
        w
    } else {
        run(port_step(w, events[0]).0, events.drop_first())
    }
}

/// The interval a round at stage `s` will sleep at its end, once known.
pub open spec fn pending_interval(s: StageView) -> Option<u64> {
    match s {
        StageView::AwaitTransactions { interval, .. } => Some(interval),
        StageView::AwaitReport { interval } => Some(interval),
        StageView::AwaitToken { interval } => Some(interval),
        _ => None,
    }
}

/// A worker serves the same terminal for the same company whatever happens:
/// no step changes its port, serial number, company or RUC.
pub proof fn lemma_step_keeps_terminal(w: WorkerView, e: PortEvent)
    ensures
        port_step(w, e).0.port == w.port,
        port_step(w, e).0.serial_number == w.serial_number,
        port_step(w, e).0.id_company == w.id_company,
        port_step(w, e).0.ruc_company == w.ruc_company,
{
}

/// Over any sequence of events, a worker keeps its terminal and company.
pub proof fn lemma_run_keeps_terminal(w: WorkerView, events: Seq<PortEvent>)
    ensures
        run(w, events).port == w.port,
        run(w, events).serial_number == w.serial_number,
        run(w, events).id_company == w.id_company,
        run(w, events).ruc_company == w.ruc_company,
    decreases events.len(),
{
    if events.len() > 0 {
        lemma_step_keeps_terminal(w, events[0]);
        lemma_run_keeps_terminal(port_step(w, events[0]).0, events.drop_first());
    }
}

/// A halted worker stays as it is and only ever answers `Halt`.
pub proof fn lemma_halt_is_final(w: WorkerView, events: Seq<PortEvent>)
    requires
        w.stage is Halted,
    ensures
        run(w, events) == w,
        forall|e: PortEvent| #[trigger] port_step(w, e) == (w, ActionView::Halt),
    decreases events.len(),
{
    if events.len() > 0 {
        lemma_halt_is_final(port_step(w, events[0]).0, events.drop_first());
    }
}

/// The access token changes only when a renewal was asked for and the
/// terminal server answered 200 with a body; the new token is the body's.
pub proof fn lemma_token_changes_only_on_renewal(w: WorkerView, e: PortEvent)
    ensures
        port_step(w, e).0.jwt != w.jwt ==> {
            &&& w.stage is AwaitToken
            &&& e matches PortEvent::TokenFetched { answer: Reply::Answered { status, body } }
            &&& status == 200
            &&& body is Some
            &&& port_step(w, e).0.jwt == opt_text(body->0.token)
        },
{
}

/// The punch window changes only in three ways: back to one minute once the
/// punches were delivered, to two minutes after the terminal server could not
/// be reached, and, when the configuration arrives, to the minutes since the
/// terminal was last connected when those exceed the interval in minutes
/// plus one.
pub proof fn lemma_window_changes(w: WorkerView, e: PortEvent)
    ensures
        port_step(w, e).0.time_config != w.time_config ==> {
            ||| {
                &&& w.stage is AwaitTransactions
                &&& port_step(w, e).0.time_config == 1
                &&& e matches PortEvent::TransactionsFetched { outcome: Reply::Answered { status, body } }
                &&& status == 200
                &&& body is Some
            }
            ||| {
                &&& w.stage is AwaitTransactions
                &&& port_step(w, e).0.time_config == 2
                &&& e matches PortEvent::TransactionsFetched { outcome: Reply::Failed { .. } }
            }
            ||| {
                &&& w.stage is AwaitCompany
                &&& e matches PortEvent::CompanyFetched { company: Some(c) }
                &&& port_step(w, e).0.time_config > c.timeConfig / 60 + 1
            }
        },
{
}

/// `mark` forwards the punch `item` for worker `w`: it carries the worker's
/// RUC and company, the punch's employee code, punch time and terminal, an
/// empty address, and the punch state as `str::parse::<u8>` reads it, or 0
/// when it does not read as one.
pub open spec fn forwards_punch(mark: MarkStatusView, w: WorkerView, item: DataItem) -> bool {
    &&& mark.ruc == w.ruc_company
    &&& mark.id_company == w.id_company
    &&& mark.identity_number == item.emp_code@
    &&& mark.timestamp == item.punch_time@
    &&& mark.model == item.terminal_sn@
    &&& mark.address.len() == 0
    &&& (u8_from_text(item.punch_state@) matches Some(v) ==> mark.status_mark == v)
    &&& (u8_from_text(item.punch_state@) is None ==> mark.status_mark == 0)
}

/// Delivered punches are all forwarded, one per item and in order, for the
/// worker's company, followed by an online report of the worker's terminal,
/// for its company, stamped with the round's clock text; the window goes back
/// to one minute.
pub proof fn lemma_delivery_forwards_every_punch(
    w: WorkerView,
    clock_text: Seq<char>,
    interval: u64,
    page: TransactionResponse,
)
    requires
        w.stage == (StageView::AwaitTransactions { clock_text, interval }),
    ensures
        ({
            let (next, action) = port_step(
                w,
                PortEvent::TransactionsFetched {
                    outcome: Reply::Answered { status: 200, body: Some(page) },
                },
            );
            &&& next.time_config == 1
            &&& next.stage == (StageView::AwaitReport { interval })
            &&& action matches ActionView::Report { marks, connection }
            &&& marks.len() == page.data@.len()
            &&& forall|i: int|
                0 <= i < marks.len() ==> forwards_punch(#[trigger] marks[i], w, page.data@[i])
            &&& connection.connection_status
            &&& connection.last_connection_time == clock_text
            &&& connection.message_error.len() == 0
            &&& connection.ruc == w.ruc_company
            &&& connection.id_company == w.id_company
            &&& connection.serial_number == w.serial_number
        }),
{
}

/// When the terminal server cannot be reached, the worker's terminal is
/// reported offline, for its company, with the failure's message and no connection time, nothing is
/// forwarded, and the window becomes two minutes.
pub proof fn lemma_failure_reports_offline(
    w: WorkerView,
    clock_text: Seq<char>,
    interval: u64,
    message: String,
)
    requires
        w.stage == (StageView::AwaitTransactions { clock_text, interval }),
    ensures
        ({
            let (next, action) = port_step(
                w,
                PortEvent::TransactionsFetched { outcome: Reply::Failed { message } },
            );
            &&& next.time_config == 2
            &&& action matches ActionView::Report { marks, connection }
            &&& marks.len() == 0
            &&& !connection.connection_status
            &&& connection.message_error == message@
            &&& connection.last_connection_time.len() == 0
            &&& connection.ruc == w.ruc_company
            &&& connection.id_company == w.id_company
            &&& connection.serial_number == w.serial_number
        }),
{
}

/// When the company's configuration cannot be had, the round starts over at
/// once, without sleeping and with nothing else changed.
pub proof fn lemma_config_failure_retries_at_once(w: WorkerView, clock_text: Seq<char>)
    requires
        w.stage == (StageView::AwaitCompany { clock_text }),
    ensures
        port_step(w, PortEvent::CompanyFetched { company: None }) == (at_stage(w, StageView::Idle), ActionView::ReadClock),
{
}

/// A round sleeps exactly the interval of the configuration it read: the
/// interval is kept from the configuration until the sleep, and every sleep
/// comes from a round that knows its interval.
pub proof fn lemma_sleep_is_company_interval(w: WorkerView, e: PortEvent)
    ensures
        w.stage is AwaitCompany ==> (e matches PortEvent::CompanyFetched { company: Some(c) } ==> {
            ||| pending_interval(port_step(w, e).0.stage) == Some(c.timeConfig)
            ||| port_step(w, e).0.stage is Halted
        }),
        pending_interval(w.stage) matches Some(i) ==> {
            ||| (pending_interval(port_step(w, e).0.stage) == Some(i) && !(port_step(w, e).1 is Sleep))
            ||| (port_step(w, e).1 == ActionView::Sleep { seconds: i } && port_step(w, e).0.stage is Sleeping)
        },
        port_step(w, e).1 matches ActionView::Sleep { seconds } ==> pending_interval(w.stage) == Some(seconds),
{
}

/// A whole round from the clock to delivered punches: the connection report
/// is stamped with the wall-clock text read at the start of that round (not
/// with the terminal's previously recorded connection time), names the
/// worker's terminal and company, and every punch of the page is forwarded in
/// order; the window goes back to one minute and the round will sleep the
/// configuration's interval.
pub proof fn lemma_round_reports_its_clock(
    w: WorkerView,
    now: i64,
    c: CompanyConfiguration,
    page: TransactionResponse,
)
    requires
        w.stage is Idle,
        lima_clock_text(now) is Some,
        !(port_step(port_step(w, PortEvent::Clock { now }).0, PortEvent::CompanyFetched { company: Some(c) }).0.stage is Halted),
    ensures
        ({
            let w1 = port_step(w, PortEvent::Clock { now }).0;
            let w2 = port_step(w1, PortEvent::CompanyFetched { company: Some(c) }).0;
            let (w3, action) = port_step(
                w2,
                PortEvent::TransactionsFetched {
                    outcome: Reply::Answered { status: 200, body: Some(page) },
                },
            );
            &&& action matches ActionView::Report { marks, connection }
            &&& connection.last_connection_time == lima_clock_text(now)->0
            &&& connection.connection_status
            &&& connection.message_error.len() == 0
            &&& connection.ruc == w.ruc_company
            &&& connection.id_company == w.id_company
            &&& connection.serial_number == w.serial_number
            &&& marks.len() == page.data@.len()
            &&& forall|i: int|
                0 <= i < marks.len() ==> forwards_punch(#[trigger] marks[i], w, page.data@[i])
            &&& w3.time_config == 1
            &&& w3.stage == (StageView::AwaitReport { interval: c.timeConfig })
        }),
{
    let w1 = port_step(w, PortEvent::Clock { now }).0;
    let w2 = port_step(w1, PortEvent::CompanyFetched { company: Some(c) }).0;
    lemma_delivery_forwards_every_punch(w2, lima_clock_text(now)->0, c.timeConfig, page);
}

/// The catch-up: a terminal silent for more than the interval in minutes plus
/// one gets a window of exactly that silence, whatever the window was before;
/// otherwise the window is kept.
pub proof fn lemma_widened_window(current: i64, minutes: i64, interval: u64)
    ensures
        minutes > interval / 60 + 1 ==> widened(current, minutes, interval) == minutes,
        minutes <= interval / 60 + 1 ==> widened(current, minutes, interval) == current,
{
}

/// When the company's configuration records that the worker's terminal was
/// last connected at `last` (the last entry with its serial number), `m`
/// minutes before the round's clock, the window becomes `m` when `m` exceeds
/// the configuration's interval in minutes plus one, whatever it was before,
/// and stays as it was otherwise; the punches are then fetched with that
/// window and the worker's token.
pub proof fn lemma_catch_up_after_silence(
    w: WorkerView,
    clock_text: Seq<char>,
    c: CompanyConfiguration,
    last: String,
    m: i64,
)
    requires
        w.stage == (StageView::AwaitCompany { clock_text }),
        c.iclocks@.len() > 0,
        c.iclocks@.last().serialNumber@ == w.serial_number,
        c.iclocks@.last().lastConnectionTime == Some(last),
        last@.len() > 0,
        minutes_between_texts(clock_text, last@) == Some(m),
    ensures
        ({
            let (next, action) = port_step(w, PortEvent::CompanyFetched { company: Some(c) });
            &&& m > c.timeConfig / 60 + 1 ==> next.time_config == m
            &&& m <= c.timeConfig / 60 + 1 ==> next.time_config == w.time_config
            &&& action == (ActionView::FetchTransactions {
                jwt: w.jwt,
                port: w.port,
                serial_number: w.serial_number,
                time_config: next.time_config,
            })
        }),
{
}

/// The recorded last connection of a terminal is that of the last entry with
/// its serial number; with no such entry it is the empty text.
pub proof fn lemma_last_connection_is_last_match(iclocks: Seq<crate::company_config::Iclock>, serial: Seq<char>)
    ensures
        forall|j: int|
            0 <= j < iclocks.len() && (#[trigger] iclocks[j]).serialNumber@ == serial && (forall|k: int|
                j < k < iclocks.len() ==> (#[trigger] iclocks[k]).serialNumber@ != serial) ==> last_connection_of(
                iclocks,
                serial,
            ) == opt_text(iclocks[j].lastConnectionTime),
        (forall|k: int| 0 <= k < iclocks.len() ==> (#[trigger] iclocks[k]).serialNumber@ != serial) ==> last_connection_of(
            iclocks,
            serial,
        ) == Some(Seq::<char>::empty()),
    decreases iclocks.len(),
{
    if iclocks.len() > 0 {
        let rest = iclocks.drop_last();
        lemma_last_connection_is_last_match(rest, serial);
        assert forall|j: int|
            0 <= j < iclocks.len() && (#[trigger] iclocks[j]).serialNumber@ == serial && (forall|k: int|
                j < k < iclocks.len() ==> (#[trigger] iclocks[k]).serialNumber@ != serial) implies last_connection_of(
            iclocks,
            serial,
        ) == opt_text(iclocks[j].lastConnectionTime) by {
            if j < iclocks.len() - 1 {
                assert(iclocks[iclocks.len() - 1].serialNumber@ != serial);
                assert(rest[j] == iclocks[j]);
                assert forall|k: int| j < k < rest.len() implies (#[trigger] rest[k]).serialNumber@ != serial by {
                    assert(rest[k] == iclocks[k]);
                }
            }
        }
        if forall|k: int| 0 <= k < iclocks.len() ==> (#[trigger] iclocks[k]).serialNumber@ != serial {
            assert(iclocks[iclocks.len() - 1].serialNumber@ != serial);
            assert forall|k: int| 0 <= k < rest.len() implies (#[trigger] rest[k]).serialNumber@ != serial by {
                assert(rest[k] == iclocks[k]);
            }
        }
    }
}

fn caught_up_window(current: i64, clock_text: &String, last: &Option<String>, interval: u64) -> (r: Option<i64>)
    ensures
        r == caught_up(current, clock_text@, opt_text(*last), interval),
{
    match last {
        Some(l) => {
            if l.as_str().is_empty() {
                Some(current)
            } else {
                match minutes_between(clock_text.as_str(), l.as_str()) {
                    None => None,
                    Some(m) => Some(widened_window(current, m, interval)),
                }
            }
        },
        None => Some(current),
    }
}

fn mark_of(ruc: &String, id_company: &String, item: &DataItem) -> (r: MarkStatusRequest)
    ensures
        r@ == mark_for(ruc@, id_company@, *item),
{
    let status_mark = match parse_u8(item.punch_state.as_str()) {
        Some(v) => v,
        None => 0,
    };
    let address = String::new();
    assert(address@ =~= Seq::<char>::empty());
    MarkStatusRequest {
        ruc: ruc.clone(),
        statusMark: status_mark,
        idCompany: id_company.clone(),
        identityNumber: item.emp_code.clone(),
        address,
        model: item.terminal_sn.clone(),
        timestamp: item.punch_time.clone(),
    }
}

fn marks_of(ruc: &String, id_company: &String, items: &Vec<DataItem>) -> (r: Vec<MarkStatusRequest>)
    ensures
        r@.map_values(|m: MarkStatusRequest| m@) == marks_for(ruc@, id_company@, items@),
{
    let mut marks: Vec<MarkStatusRequest> = Vec::new();
    let mut i: usize = 0;
    while i < items.len()
        invariant
            i <= items.len(),
            marks@.len() == i,
            forall|j: int| 0 <= j < i ==> (#[trigger] marks@[j])@ == mark_for(ruc@, id_company@, items@[j]),
        decreases items.len() - i,
    {
        marks.push(mark_of(ruc, id_company, &items[i]));
        i = i + 1;
    }
    assert(marks@.map_values(|m: MarkStatusRequest| m@) =~= marks_for(ruc@, id_company@, items@));
    marks
}

impl PortWorker {
    /// A worker for terminal `serial_number` on `port`, with no access token,
    /// a one-minute punch window, waiting for the clock.
    pub fn new(port: u16, serial_number: String, id_company: String, ruc_company: String) -> (r: PortWorker)
        ensures
            r@ == (WorkerView {
                port,
                serial_number: serial_number@,
                id_company: id_company@,
                ruc_company: ruc_company@,
                jwt: None,
                time_config: 1,
                stage: StageView::Idle,
            }),
    {
        PortWorker { port, serial_number, id_company, ruc_company, jwt: None, time_config: 1, stage: Stage::Idle }
    }

    fn connection(&self, message: String, online: bool, last_connection: String) -> (r: ConectionStatusRequest)
        ensures
            r@ == connection_report(self@, message@, online, last_connection@),
    {
        ConectionStatusRequest {
            ruc: self.ruc_company.clone(),
            idCompany: self.id_company.clone(),
            serialNumber: self.serial_number.clone(),
            messageError: message,
            connectionStatus: online,
            lastConnectionTime: last_connection,
        }
    }

    /// Takes in what came of the last action and decides the next one.
    pub fn step(&mut self, event: PortEvent) -> (action: PortAction)
        ensures
            (final(self)@, action@) == port_step(old(self)@, event),
    {
        let ghost w = self@;
        match &self.stage {
            Stage::Halted => PortAction::Halt,
            Stage::Idle => match event {
                PortEvent::Clock { now } => match lima_text(now) {
                    Some(t) => {
                        self.stage = Stage::AwaitCompany { clock_text: t };
                        PortAction::FetchCompany { id_company: self.id_company.clone() }
                    },
                    None => {
                        self.stage = Stage::Halted;
                        PortAction::Halt
                    },
                },
                _ => PortAction::Nothing,
            },
            Stage::AwaitCompany { clock_text } => match event {
                PortEvent::CompanyFetched { company } => match company {
                    None => {
                        self.stage = Stage::Idle;
                        PortAction::ReadClock
                    },
                    Some(c) => {
                        let clock_text = clock_text.clone();
                        let last = last_connection_time(&c.iclocks, &self.serial_number);
                        match caught_up_window(self.time_config, &clock_text, &last, c.timeConfig) {
                            None => {
                                self.stage = Stage::Halted;
                                PortAction::Halt
                            },
                            Some(tc) => {
                                self.time_config = tc;
                                self.stage = Stage::AwaitTransactions { clock_text, interval: c.timeConfig };
                                PortAction::FetchTransactions {
                                    jwt: clone_opt(&self.jwt),
                                    port: self.port,
                                    serial_number: self.serial_number.clone(),
                                    time_config: tc,
                                }
                            },
                        }
                    },
                },
                _ => PortAction::Nothing,
            },
            Stage::AwaitTransactions { clock_text, interval } => match event {
                PortEvent::TransactionsFetched { outcome } => {
                    let interval = *interval;
                    match outcome {
                        Reply::Answered { status, body } => {
                            if status == 200 && body.is_some() {
                                let clock_text = clock_text.clone();
                                let ghost clock = clock_text@;
                                let page = body.unwrap();
                                let marks = marks_of(&self.ruc_company, &self.id_company, &page.data);
                                let connection = self.connection(String::new(), true, clock_text);
                                self.time_config = 1;
                                self.stage = Stage::AwaitReport { interval };
                                let action = PortAction::Report { marks, connection };
                                assert(action@ == ActionView::Report {
                                    marks: marks_for(w.ruc_company, w.id_company, page.data@),
                                    connection: connection_report(w, Seq::empty(), true, clock),
                                });
                                action
                            } else if status == 401 {
                                self.stage = Stage::AwaitToken { interval };
                                PortAction::RenewToken { port: self.port }
                            } else {
                                self.stage = Stage::Sleeping;
                                PortAction::Sleep { seconds: interval }
                            }
                        },
                        Reply::Failed { message } => {
                            let ghost text = message@;
                            let connection = self.connection(message, false, String::new());
                            self.time_config = 2;
                            self.stage = Stage::AwaitReport { interval };
                            let marks: Vec<MarkStatusRequest> = Vec::new();
                            assert(marks@.map_values(|m: MarkStatusRequest| m@) =~= Seq::empty());
                            let action = PortAction::Report { marks, connection };
                            assert(action@ == ActionView::Report {
                                marks: Seq::empty(),
                                connection: connection_report(w, text, false, Seq::empty()),
                            });
                            action
                        },
                    }
                },
                _ => PortAction::Nothing,
            },
            Stage::AwaitReport { interval } => match event {
                PortEvent::Reported => {
                    let interval = *interval;
                    self.stage = Stage::Sleeping;
                    PortAction::Sleep { seconds: interval }
                },
                _ => PortAction::Nothing,
            },
            Stage::AwaitToken { interval } => match event {
                PortEvent::TokenFetched { answer } => {
                    let interval = *interval;
                    match answer {
                        Reply::Answered { status, body } => {
                            if status == 200 && body.is_some() {
                                self.jwt = body.unwrap().token;
                            }
                        },
                        Reply::Failed { .. } => {},
                    }
                    self.stage = Stage::Sleeping;
                    PortAction::Sleep { seconds: interval }
                },
                _ => PortAction::Nothing,
            },
            Stage::Sleeping => match event {
                PortEvent::Woke => {
                    self.stage = Stage::Idle;
                    PortAction::ReadClock
                },
                _ => PortAction::Nothing,
            },
        }
    }
}

} // verus!
