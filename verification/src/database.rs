pub mod column;
pub mod keys;
pub mod table;
