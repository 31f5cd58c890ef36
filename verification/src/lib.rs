//! Gpui-free decision logic behind the Auracle IDE surfaces: honest labels,
//! tones, gates and reducers over plain engine facts, each stated as a contract
//! over mathematical models and proved.

pub mod strs;
pub mod account;
pub mod deploy_gate;
pub mod settings_nav;
pub mod runway;
pub mod pill;
pub mod schedules;
pub mod feeds;
pub mod validation;
pub mod brand;
pub mod data_sources;
pub mod strategies;
pub mod json;
pub mod actions;
pub mod cockpit_state;
pub mod connect_state;
pub mod status_view;
pub mod system_prompt;
pub mod ai_settings;
pub mod artifact;
pub mod spec_compiler;
pub mod session;
pub mod view_state;
pub mod live;
pub mod live_deploy;
pub mod studio_results;
pub mod chart_layout;
pub mod qc_import;
pub mod connections;
pub mod desk;
pub mod flow;
pub mod cockpit;
pub mod settings_panel;
pub mod connect;
pub mod status;
pub mod agent_commands;
pub mod panel_common;
pub mod backtest_results;
pub mod blotter;
pub mod onboarding;
pub mod model_setup;
pub mod connector_form;
