//! Session registry and broadcast fanout for a real-time relay: one publisher
//! per session, many subscribers, and notifications pushed to every subscriber
//! without ever waiting on a slow one.

mod bridge;
mod message;
mod session;
mod server;
mod session_id;

pub use bridge::{
    driver_step, may_start, on_loop_end, reader_step, writer_step, Bridge, BridgeEvent, DriverInput,
    DriverStep, ReaderInput, StartError, Step, WriterInput,
};
pub use message::S2CMessage;
pub use server::{
    ClientState, HttpServeDirectory, Notice, PubClient, PubSessionSubscribeResult, RadarServer,
};
pub use session::{PubSession, SessionView};
pub use session_id::{is_alphanumeric, is_session_id, SESSION_ID_LEN};
