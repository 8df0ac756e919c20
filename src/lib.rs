pub mod adif;
pub mod band;
pub mod column;
pub mod context;
pub mod manager;
pub mod record;
pub mod text;
