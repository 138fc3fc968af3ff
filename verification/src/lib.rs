pub mod device;
pub mod devicehandler;
pub mod djmd5x;
pub mod framing;
pub mod reader;
pub mod request;
pub mod response;
pub mod writer;
