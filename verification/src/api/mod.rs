//! The Manifest v2 API: invitations and routes, jobs, sessions, room control,
//! the agent host and the application contract.
pub mod agent_engine;
pub mod agent_host;
pub mod agent_types;
pub mod application_engine;
pub mod contract;
pub mod contract_engine;
pub mod contract_map;
pub mod destination;
pub mod failures;
pub mod invitations;
pub mod job;
pub mod nearby;
pub mod room_control;
pub mod session;
pub mod session_routes;
pub mod session_types;
pub mod transports;
pub mod types;
