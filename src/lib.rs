// A local process supervisor: the lifecycle state of each supervised process,
// its bounded log, the scan of the listening-socket table used to find a
// process by port, and the dashboard's key handling.

pub mod config;
pub mod dashboard;
pub mod keybinds;
pub mod log_buffer;
pub mod managed_process;
pub mod port_resolver;
pub mod text;
pub mod util;
