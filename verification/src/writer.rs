pub mod column;
pub mod creater;
pub mod deleter;
pub mod foreign_getters;
pub mod get_all;
pub mod getters;
pub mod table;
pub mod updater;
