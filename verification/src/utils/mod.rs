pub mod common;
pub mod json;
pub mod pools;
pub mod sqlx;
pub mod text;
pub mod tidb;
