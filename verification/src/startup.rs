//! What the service checks before it starts, and which terminal loops it
//! starts for a company.

use vstd::prelude::*;

use crate::company_config::{CompanyConfiguration, Iclock};
use crate::config::Config;
use crate::port_loop::{PortWorker, StageView, WorkerView};

verus! {

/// The outcome of the start-up checks, in the order they are made.
#[derive(Debug, Clone, Copy, PartialEq, Eq, Structural)]
pub enum StartupCheck {
    /// Everything needed is configured.
    Proceed,
    /// No company is configured: the service ends without a word.
    NoCompanies,
    /// The terminal server's user or password is missing.
    MissingCredentials,
    /// The terminal server's address is missing.
    MissingServer,
}

/// The start-up checks over the settings and the companies to serve.
pub open spec fn startup_check(config: Config, ids: Seq<String>) -> StartupCheck {
    if ids.len() < 1 {
        StartupCheck::NoCompanies
    } else if config.usser_biotime@.len() == 0 || config.password_biotime@.len() == 0 {
        StartupCheck::MissingCredentials
    } else if config.ip_server@.len() == 0 {
        StartupCheck::MissingServer
    } else {
        StartupCheck::Proceed
    }
}

/// Makes the start-up checks.
pub fn check_settings(config: &Config, ids: &Vec<String>) -> (r: StartupCheck)
    ensures
        r == startup_check(*config, ids@),
{
    if ids.len() < 1 {
        StartupCheck::NoCompanies
    } else if config.usser_biotime.as_str().is_empty() || config.password_biotime.as_str().is_empty() {
        StartupCheck::MissingCredentials
    } else if config.ip_server.as_str().is_empty() {
        StartupCheck::MissingServer
    } else {
        StartupCheck::Proceed
    }
}

impl Config {
    /// The companies to serve: the configured company, when there is one.
    pub fn company_ids(&self) -> (r: Vec<String>)
        ensures
            self.id_company@.len() == 0 ==> r@.len() == 0,
            self.id_company@.len() != 0 ==> r@.len() == 1 && r@[0]@ == self.id_company@,
    {
        let mut ids: Vec<String> = Vec::new();
        if !self.id_company.as_str().is_empty() {
            ids.push(self.id_company.clone());
        }
        ids
    }
}

/// A fresh worker for terminal `iclock` of company `id_company` (`ruc`).
pub open spec fn fresh_worker(iclock: Iclock, id_company: Seq<char>, ruc: Seq<char>) -> WorkerView {
    WorkerView {
        port: iclock.port,
        serial_number: iclock.serialNumber@,
        id_company: id_company,
        ruc_company: ruc,
        jwt: None,
        time_config: 1,
        stage: StageView::Idle,
    }
}

/// One fresh worker per enabled terminal, in the order of the list.
pub open spec fn enabled_workers(iclocks: Seq<Iclock>, id_company: Seq<char>, ruc: Seq<char>) -> Seq<WorkerView>
    decreases iclocks.len(),
{
    if iclocks.len() == 0 {
        Seq::empty()
    } else {
        let rest = enabled_workers(iclocks.drop_last(), id_company, ruc);
        if iclocks.last().status {
            rest.push(fresh_worker(iclocks.last(), id_company, ruc))
        } else {
            rest
        }
    }
}

/// Every loop a company starts is fresh (no token, a one-minute window,
/// waiting for the clock), serves an enabled terminal of that company, and
/// there are no more loops than terminals.
pub proof fn lemma_enabled_workers_are_fresh(iclocks: Seq<Iclock>, id_company: Seq<char>, ruc: Seq<char>)
    ensures
        enabled_workers(iclocks, id_company, ruc).len() <= iclocks.len(),
        forall|i: int|
            0 <= i < enabled_workers(iclocks, id_company, ruc).len() ==> {
                let w = #[trigger] enabled_workers(iclocks, id_company, ruc)[i];
                &&& w.jwt is None
                &&& w.time_config == 1
                &&& w.stage is Idle
                &&& w.id_company == id_company
                &&& w.ruc_company == ruc
                &&& exists|j: int|
                    0 <= j < iclocks.len() && (#[trigger] iclocks[j]).status && iclocks[j].port == w.port
                        && iclocks[j].serialNumber@ == w.serial_number
            },
    decreases iclocks.len(),
{
    if iclocks.len() > 0 {
        let rest = iclocks.drop_last();
        lemma_enabled_workers_are_fresh(rest, id_company, ruc);
        let ws = enabled_workers(iclocks, id_company, ruc);
        assert forall|i: int| 0 <= i < ws.len() implies {
            let w = #[trigger] ws[i];
            exists|j: int|
                0 <= j < iclocks.len() && (#[trigger] iclocks[j]).status && iclocks[j].port == w.port
                    && iclocks[j].serialNumber@ == w.serial_number
        } by {
            if i < enabled_workers(rest, id_company, ruc).len() {
                let w = enabled_workers(rest, id_company, ruc)[i];
                let j = choose|j: int|
                    0 <= j < rest.len() && (#[trigger] rest[j]).status && rest[j].port == w.port
                        && rest[j].serialNumber@ == w.serial_number;
                assert(iclocks[j] == rest[j]);
            } else {
                assert(iclocks[iclocks.len() - 1] == iclocks.last());
            }
        }
    }
}

/// The enabled terminals of a list, in order.
pub open spec fn enabled_terminals(iclocks: Seq<Iclock>) -> Seq<Iclock> {
    iclocks.filter(|x: Iclock| x.status)
}

/// Exactly one loop per enabled terminal, in the order of the list, even when
/// several terminals share a port: the k-th loop serves the k-th enabled
/// terminal (its port and serial number), and every enabled terminal has a
/// loop.
pub proof fn lemma_one_worker_per_enabled_terminal(iclocks: Seq<Iclock>, id_company: Seq<char>, ruc: Seq<char>)
    ensures
        enabled_workers(iclocks, id_company, ruc).len() == enabled_terminals(iclocks).len(),
        forall|k: int|
            0 <= k < enabled_terminals(iclocks).len() ==> {
                &&& (#[trigger] enabled_workers(iclocks, id_company, ruc)[k]).port == enabled_terminals(iclocks)[k].port
                &&& enabled_workers(iclocks, id_company, ruc)[k].serial_number == enabled_terminals(iclocks)[k].serialNumber@
            },
        forall|j: int|
            0 <= j < iclocks.len() && (#[trigger] iclocks[j]).status ==> exists|k: int|
                0 <= k < enabled_workers(iclocks, id_company, ruc).len() && (#[trigger] enabled_workers(
                    iclocks,
                    id_company,
                    ruc,
                )[k]).port == iclocks[j].port && enabled_workers(iclocks, id_company, ruc)[k].serial_number
                    == iclocks[j].serialNumber@,
    decreases iclocks.len(),
{
    reveal_with_fuel(Seq::<Iclock>::filter, 1);
    if iclocks.len() > 0 {
        let rest = iclocks.drop_last();
        lemma_one_worker_per_enabled_terminal(rest, id_company, ruc);
        let ws = enabled_workers(iclocks, id_company, ruc);
        let rws = enabled_workers(rest, id_company, ruc);
        assert(enabled_terminals(iclocks) == (if iclocks.last().status {
            enabled_terminals(rest).push(iclocks.last())
        } else {
            enabled_terminals(rest)
        }));
        assert forall|j: int| 0 <= j < iclocks.len() && (#[trigger] iclocks[j]).status implies exists|k: int|
            0 <= k < ws.len() && (#[trigger] ws[k]).port == iclocks[j].port && ws[k].serial_number
                == iclocks[j].serialNumber@ by {
            if j < iclocks.len() - 1 {
                assert(rest[j] == iclocks[j]);
                let k = choose|k: int|
                    0 <= k < rws.len() && (#[trigger] rws[k]).port == rest[j].port && rws[k].serial_number
                        == rest[j].serialNumber@;
                assert(ws[k] == rws[k]);
            } else {
                assert(ws[ws.len() - 1] == fresh_worker(iclocks.last(), id_company, ruc));
            }
        }
    }
}

/// The terminal loops to start for a company: `None` when the company has no
/// terminal at all (the service then ends), otherwise one per enabled
/// terminal.
pub fn workers_for(company: &CompanyConfiguration) -> (r: Option<Vec<PortWorker>>)
    ensures
        r is None <==> company.iclocks@.len() == 0,
        r matches Some(ws) ==> ws@.map_values(|w: PortWorker| w@) == enabled_workers(
            company.iclocks@,
            company.idCompany@,
            company.ruc@,
        ),
{
    if company.iclocks.len() == 0 {
        return None;
    }
    let mut workers: Vec<PortWorker> = Vec::new();
    let mut i: usize = 0;
    while i < company.iclocks.len()
        invariant
            i <= company.iclocks@.len(),
            workers@.map_values(|w: PortWorker| w@) == enabled_workers(
                company.iclocks@.take(i as int),
                company.idCompany@,
                company.ruc@,
            ),
        decreases company.iclocks@.len() - i,
    {
        assert(company.iclocks@.take(i + 1).drop_last() =~= company.iclocks@.take(i as int));
        let iclock = &company.iclocks[i];
        if iclock.status {
            let w = PortWorker::new(
                iclock.port,
                iclock.serialNumber.clone(),
                company.idCompany.clone(),
                company.ruc.clone(),
            );
            let ghost before = workers@;
            workers.push(w);
            assert(workers@.map_values(|w: PortWorker| w@) =~= before.map_values(|w: PortWorker| w@).push(w@));
        }
        i = i + 1;
    }
    assert(company.iclocks@.take(company.iclocks@.len() as int) =~= company.iclocks@);
    Some(workers)
}

} // verus!
