//! Dobby: Proxmox LXC deployment automation — the verified core.

pub mod auth;
pub mod commands;
pub mod bootstrap_token;
pub mod cli;
pub mod crypto;
pub mod elf_config;
pub mod hex;
pub mod keeper_config;
pub mod keeper_init;
pub mod keeper_service;
pub mod manifest;
pub mod net;
pub mod path;
pub mod state;
pub mod text;
pub mod tls;
pub mod x509;
