//! Canonical records for relaying CKB chain state to two destination-chain
//! contracts — an image-cell contract mirroring live cells and a light-client
//! contract mirroring headers — together with the builders that assemble the
//! records and the encoders that serialize each batch into contract call data.

pub mod abi;
pub mod address;
pub mod builder;
mod image_cell;
mod light_client;
mod metadata;

pub use image_cell::{
    CellBlockRollback, CellBlockUpdate, CellInfo, CellOutput, CellRollbackCall, CellUpdateCall,
    OutPoint, Script,
};
pub use light_client::{Header, HeaderRollbackCall, HeaderUpdateCall, SetStateCall};
pub use metadata::{
    CkbRelatedInfo, Metadata, MetadataVersion, NodePubKey, ProposeCount, ValidatorExtend,
};
