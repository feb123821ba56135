//! Shard handles: one region's connection settings and connection state.

use vstd::prelude::*;
use crate::area::Area;
use crate::config::ConnectionConfig;
use crate::error::ShardError;

verus! {

/// One region's shard: its identity, its connection settings, and whether
/// its connection has been opened. A handle starts disconnected and, once
/// connected, stays so.
#[derive(Debug)]
pub struct AreaDB {
    config: ConnectionConfig,
    area: Area,
    connected: bool,
}

impl AreaDB {
    /// The connection settings.
    pub closed spec fn config_spec(&self) -> ConnectionConfig {
        self.config
    }

    /// The region the shard serves.
    pub closed spec fn area_spec(&self) -> Area {
        self.area
    }

    /// Whether the connection is open.
    pub closed spec fn connected_spec(&self) -> bool {
        self.connected
    }

    /// A disconnected handle for `area`.
    pub fn new(config: ConnectionConfig, area: Area) -> (r: Self)
        ensures
            r.config_spec() == config,
            r.area_spec() == area,
            !r.connected_spec(),
    {
        AreaDB { config, area, connected: false }
    }

    /// Records the outcome of opening the shard's connection and provisioning
    /// its schema: `opened` tells whether both succeeded. A failed attempt
    /// leaves the handle as it was and reports `ShardUnavailable`.
    pub fn connect(&mut self, opened: bool) -> (r: Result<(), ShardError>)
        ensures
            final(self).config_spec() == old(self).config_spec(),
            final(self).area_spec() == old(self).area_spec(),
            opened ==> r is Ok && final(self).connected_spec(),
            !opened ==> r == Err::<(), ShardError>(ShardError::ShardUnavailable)
                && final(self).connected_spec() == old(self).connected_spec(),
    {
        if opened {
            self.connected = true;
            Ok(())
        } else {
            Err(ShardError::ShardUnavailable)
        }
    }

    /// Whether the connection is open.
    pub fn is_connected(&self) -> (r: bool)
        ensures
            r == self.connected_spec(),
    {
        self.connected
    }

    /// The connection settings.
    pub fn config(&self) -> (r: &ConnectionConfig)
        ensures
            *r == self.config_spec(),
    {
        &self.config
    }

    /// The region the shard serves.
    pub fn area(&self) -> (r: Area)
        ensures
            r == self.area_spec(),
    {
        self.area
    }

    /// The shard's database name.
    pub fn name(&self) -> (r: &String)
        ensures
            *r == self.config_spec().database,
    {
        &self.config.database
    }
}

} // verus!
