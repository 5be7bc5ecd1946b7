pub mod checks;
pub mod deposit;
pub mod initialize;
pub mod withdraw;
