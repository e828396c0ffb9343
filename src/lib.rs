//! A Wake-on-LAN relay core: decoding hardware addresses from request
//! tokens, building magic packets, and deciding the outcome of each request.

pub mod codec;
pub mod packet;
pub mod pipeline;
pub mod cmdline;
