//! The per-company configuration served by the time-keeping service.

use vstd::prelude::*;

use crate::text::{clone_opt, opt_text, trim_text, trimmed};

verus! {

/// One attendance terminal.
#[allow(non_snake_case)]
#[derive(Debug)]
pub struct Iclock {
    pub ip: String,
    pub port: u16,
    pub serialNumber: String,
    pub nameDispo: Option<String>,
    pub messageError: Option<String>,
    pub status: bool,
    pub lastConnectionTime: Option<String>,
}

/// A company, its terminals, and the polling interval in seconds.
#[allow(non_snake_case)]
#[derive(Debug)]
pub struct CompanyConfiguration {
    pub idCompany: String,
    pub ruc: String,
    pub razonSocial: String,
    pub iclocks: Vec<Iclock>,
    pub status: bool,
    pub timeConfig: u64,
}

/// The last connection time recorded for the terminal `serial`: that of the
/// last terminal in the list with this serial number, or the empty text when
/// none has it.
pub open spec fn last_connection_of(iclocks: Seq<Iclock>, serial: Seq<char>) -> Option<Seq<char>>
    decreases iclocks.len(),
{
    if iclocks.len() == 0 {
        Some(Seq::empty())
    } else if iclocks.last().serialNumber@ == serial {
        opt_text(iclocks.last().lastConnectionTime)
    } else {
        last_connection_of(iclocks.drop_last(), serial)
    }
}

/// The last connection time recorded for the terminal `serial`.
pub fn last_connection_time(iclocks: &Vec<Iclock>, serial: &String) -> (r: Option<String>)
    ensures
        opt_text(r) == last_connection_of(iclocks@, serial@),
{
    let mut found = Some(String::new());
    let mut i: usize = 0;
    while i < iclocks.len()
        invariant
            i <= iclocks.len(),
            opt_text(found) == last_connection_of(iclocks@.take(i as int), serial@),
        decreases iclocks.len() - i,
    {
        assert(iclocks@.take(i + 1).drop_last() =~= iclocks@.take(i as int));
        if iclocks[i].serialNumber == *serial {
            found = clone_opt(&iclocks[i].lastConnectionTime);
        }
        i = i + 1;
    }
    assert(iclocks@.take(iclocks.len() as int) =~= iclocks@);
    found
}

/// A saved configuration file that holds nothing: empty or `{}` once
/// surrounding white space is ignored.
pub open spec fn is_blank_saved_text(content: Seq<char>) -> bool {
    trimmed(content).len() == 0 || trimmed(content) == seq!['{', '}']
}

/// Whether the configuration file read back after saving holds nothing.
pub fn saved_text_is_blank(content: &str) -> (r: bool)
    ensures
        r == is_blank_saved_text(content@),
{
    let t = trim_text(content);
    let n = t.unicode_len();
    if n == 0 {
        return true;
    }
    if n == 2 && t.get_char(0) == '{' && t.get_char(1) == '}' {
        assert(t@ =~= seq!['{', '}']);
        return true;
    }
    false
}

} // verus!
