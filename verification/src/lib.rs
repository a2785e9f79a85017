pub mod attachment;
pub mod codec;
pub mod handle;
pub mod inbound;
pub mod keymap;
pub mod link;
pub mod mesh;
pub mod model;
pub mod publish;
pub mod registry;
pub mod rpc_client;
pub mod status;
pub mod text;
