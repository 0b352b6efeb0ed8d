//! Client and server game logic: cursor and pause handling, keyboard motion
//! intents, the launch guard, the server heartbeat schedule, the fixed
//! simulation timing, connection settings and the certificate digest that
//! clients use to reach the server.
pub mod cursor;
pub mod input;
pub mod launch;
pub mod timing;
pub mod heartbeat;
pub mod digest;
pub mod net;
pub mod server;
