//! The client logger: the command line, the sensors it stores readings under,
//! and the requests it makes to the WICTK service.

pub mod cli;
pub mod sensor;
pub mod storage;
pub mod weather_client;
