//! Decisions of the schematize updater: which version to install, how to read a
//! version from a manifest or from `--version`, how a pin is interpreted, where the
//! binaries go on each operating system, which commands are run to fetch, build and
//! probe, and which stale copies are purged.

pub mod texto;
pub mod plataforma;
pub mod versao;
pub mod comando;
pub mod purga;
pub mod instalacao;
pub mod cli;
pub mod estado;
