//! Client-side logic of a desktop companion for an Android phone server:
//! the JSON requests sent to the phone, the exchange protocol that carries
//! them, the records the phone answers with, the persisted settings, the
//! SQL statements that mirror the phone's data locally, and the display
//! rules of the lists.

pub mod json;
pub mod command;
pub mod exchange;
pub mod contact;
pub mod contact_add;
pub mod contact_delete;
pub mod phone;
pub mod phone_delete;
pub mod sms_input;
pub mod sms_input_delete;
pub mod ussd;
pub mod sms_output;
pub mod info;
pub mod config;
pub mod statements;
pub mod text;
pub mod display;
pub mod sms_scan;
pub mod fields;
pub mod monitor;
