//! Logic of the Ghaf control panel: service lists, update flow, locale data,
//! audio devices, bug reports and configuration, with their contracts.
pub mod about;
pub mod admin_service;
pub mod app_config;
pub mod audio;
pub mod bug_report;
pub mod commands;
pub mod data_provider;
pub mod display;
pub mod json;
pub mod locale_provider;
pub mod pages;
pub mod path;
pub mod service;
pub mod service_model;
pub mod settings_action;
pub mod status;
pub mod text;
pub mod update_flow;
pub mod update_page;
pub mod update_state;
pub mod wireguard_vms;
pub mod vm;
