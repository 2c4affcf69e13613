pub mod claim;
pub mod harvest;
pub mod drain;
pub mod lock;
pub mod pay;
pub mod reclaim;
pub mod rekey;
pub mod customer_drain;
pub mod votes;
pub mod create_dao;
pub mod invest;
pub mod creation;
pub mod create_project;
pub mod percent_harvest;
pub mod project_invest;
