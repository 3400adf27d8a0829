//! Decisions behind fail-closed, gateway-routed networking for agent VMs.
pub mod text;
pub mod text_laws;
pub mod lines;
pub mod path_text;
pub mod shell;
pub mod tilde;
pub mod yaml;
pub mod yaml_laws;
pub mod ipv4;
pub mod config;
pub mod harden;
pub mod session;
pub mod remote_command;
pub mod private_egress;
pub mod harden_laws;
pub mod digest;
pub mod json;
pub mod command;
pub mod scripts;
pub mod failure;
pub mod url_check;
pub mod gateway_commands;
pub mod subscription;
pub mod release;
pub mod effects;
pub mod gateway_vm;
pub mod mihomo;
pub mod gateway;
pub mod gateway_laws;
pub mod deployment_laws;
pub mod install_laws;
pub mod instance_mode;
pub mod guest;
pub mod guest_laws;
pub mod size;
pub mod rows;
pub mod profiles;
pub mod profile_laws;
pub mod model;
pub mod model_laws;
pub mod rootfs;
pub mod signal;
pub mod host_laws;
