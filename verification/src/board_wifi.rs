//! Bringing the board's wifi up.
use vstd::prelude::*;
use crate::bal::wifi::Error as WifiError;

verus! {

/// Why the wifi could not be brought up.
#[derive(Debug, PartialEq, Eq)]
pub enum Error {
    HwSetup,
    WifiScan,
    Ping(u32),
    Config,
    ConnectionStatus(String),
}

/// Brings the wifi up, given what scanning for access points gave: a
/// failed scan is reported as `WifiScan`; after a successful scan the
/// connection counts as made.
pub fn connect_wifi<AccessPoints>(scan_result: Result<AccessPoints, WifiError>) -> (r: Result<(), Error>)
    ensures
        scan_result is Ok ==> r is Ok,
        scan_result is Err ==> r == Err::<(), Error>(Error::WifiScan),
{
    match scan_result {
        Ok(_ap_infos) => Ok(()),
        Err(_) => Err(Error::WifiScan),
    }
}

} // verus!
