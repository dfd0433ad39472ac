//! What the time-keeping service sends and receives.

use vstd::prelude::*;

use crate::company_config::CompanyConfiguration;

verus! {

/// A punch forwarded to the time-keeping service. The service also receives a
/// latitude and a longitude, always zero, which the sending side adds.
#[allow(non_snake_case)]
#[derive(Debug, Clone)]
pub struct MarkStatusRequest {
    pub ruc: String,
    pub statusMark: u8,
    pub idCompany: String,
    pub identityNumber: String,
    pub address: String,
    pub model: String,
    pub timestamp: String,
}

/// The texts and values of a `MarkStatusRequest`.
pub struct MarkStatusView {
    pub ruc: Seq<char>,
    pub status_mark: u8,
    pub id_company: Seq<char>,
    pub identity_number: Seq<char>,
    pub address: Seq<char>,
    pub model: Seq<char>,
    pub timestamp: Seq<char>,
}

impl View for MarkStatusRequest {
    type V = MarkStatusView;

    open spec fn view(&self) -> MarkStatusView {
        MarkStatusView {
            ruc: self.ruc@,
            status_mark: self.statusMark,
            id_company: self.idCompany@,
            identity_number: self.identityNumber@,
            address: self.address@,
            model: self.model@,
            timestamp: self.timestamp@,
        }
    }
}

/// The service's answer to a forwarded punch.
#[allow(non_snake_case)]
#[derive(Debug)]
pub struct MarkStatusResponse {
    pub codigoRespuesta: Option<String>,
    pub mensajeRespuesta: Option<String>,
}

/// The envelope of one company's configuration.
#[derive(Debug)]
pub struct CompanyConfigResponse {
    pub response: CompanyConfiguration,
}

/// The envelope of several companies' configurations.
#[derive(Debug)]
pub struct AllCompanysConfigResponse {
    pub response: Vec<CompanyConfiguration>,
}

/// A terminal's connection state reported to the time-keeping service.
#[allow(non_snake_case)]
#[derive(Debug)]
pub struct ConectionStatusRequest {
    pub ruc: String,
    pub idCompany: String,
    pub serialNumber: String,
    pub messageError: String,
    pub connectionStatus: bool,
    pub lastConnectionTime: String,
}

/// The texts and values of a `ConectionStatusRequest`.
pub struct ConnectionStatusView {
    pub ruc: Seq<char>,
    pub id_company: Seq<char>,
    pub serial_number: Seq<char>,
    pub message_error: Seq<char>,
    pub connection_status: bool,
    pub last_connection_time: Seq<char>,
}

impl View for ConectionStatusRequest {
    type V = ConnectionStatusView;

    open spec fn view(&self) -> ConnectionStatusView {
        ConnectionStatusView {
            ruc: self.ruc@,
            id_company: self.idCompany@,
            serial_number: self.serialNumber@,
            message_error: self.messageError@,
            connection_status: self.connectionStatus,
            last_connection_time: self.lastConnectionTime@,
        }
    }
}

/// The service's answer to a connection report.
#[allow(non_snake_case)]
#[derive(Debug)]
pub struct ConectionStatusResponse {
    pub codigoRespuesta: Option<String>,
    pub mensajeRespuesta: Option<String>,
}

} // verus!
