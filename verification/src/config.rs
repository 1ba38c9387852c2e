//! Shared configuration record: the listening port and the printer that
//! submissions fall back to when none is named in the request.

use vstd::prelude::*;

verus! {

/// The port the embedded print server listens on when nothing else is
/// configured.
pub const DEFAULT_PORT: u16 = 29100;

/// The single shared configuration record. It is mutated only through an
/// explicit configuration update; the print service reads it to resolve a
/// submission that names no printer.
pub struct AppConfig {
    pub port: u16,
    pub selected_printer: Option<String>,
}

impl Default for AppConfig {
    /// A fresh configuration listens on the default port and has no
    /// printer selected.
    fn default() -> (c: AppConfig)
        ensures
            c.port == DEFAULT_PORT,
            c.selected_printer is None,
    {
        AppConfig { port: DEFAULT_PORT, selected_printer: None }
    }
}

impl AppConfig {
    /// An exact copy of the record.
    pub fn duplicate(&self) -> (c: AppConfig)
        ensures
            c.port == self.port,
            c.selected_printer is None <==> self.selected_printer is None,
            c.selected_printer matches Some(p) ==> self.selected_printer matches Some(q) && p@ == q@,
    {
        let selected_printer = match &self.selected_printer {
            Some(p) => Some(p.clone()),
            None => None,
        };
        AppConfig { port: self.port, selected_printer }
    }
}

/// A configuration update restarts the server exactly when it moves the
/// listening port.
pub fn port_changed(current: &AppConfig, incoming: &AppConfig) -> (r: bool)
    ensures
        r == (current.port != incoming.port),
{
    current.port != incoming.port
}

} // verus!
