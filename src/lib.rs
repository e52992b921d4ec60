pub mod packet;
pub mod ingest;
pub mod logger;
pub mod throttle;
pub mod state;
pub mod types;
pub mod logfile;
