pub mod admin;
pub mod alert;
pub mod amount;
pub mod anthropic;
pub mod clock;
pub mod ids;
pub mod json;
pub mod kiro;
pub mod order;
pub mod rows;
pub mod status;
pub mod table;
pub mod text;
