//! Build-time configuration of the monitor.

use vstd::prelude::*;

verus! {

/// Configuration shared by the acquisition tasks and the refresh coordinator.
#[derive(Clone, Copy, Debug, PartialEq, Eq, Structural)]
pub struct Parameters {
    pub screen_columns: u16,
    pub screen_rows: u16,
    pub screen_margin: u16,
    pub screen_controller_timeout_sec: u32,
    pub screen_display_min_refresh_sec: u32,
    pub screen_enable_shutdown_delay_sec: u32,
    pub bme680_first_data_delay_ms: u32,
}

impl Parameters {
    /// The configuration of a panel of the given size, with the stock timing.
    pub fn new(screen_columns: u16, screen_rows: u16) -> (p: Parameters)
        ensures
            p.screen_columns == screen_columns,
            p.screen_rows == screen_rows,
            p.screen_margin == 5,
            p.bme680_first_data_delay_ms == 100,
            p.screen_controller_timeout_sec == 20,
            p.screen_display_min_refresh_sec == 180,
            p.screen_enable_shutdown_delay_sec == 30,
    {
        Parameters {
            screen_columns,
            screen_rows,
            screen_margin: 5,
            bme680_first_data_delay_ms: 100,
            screen_controller_timeout_sec: 20,
            screen_display_min_refresh_sec: 180,
            screen_enable_shutdown_delay_sec: 30,
        }
    }
}

} // verus!
